use liveness_vault::auth::VaultError;
use liveness_vault::contract::Contract;
use liveness_vault::identity::Identity;

fn ident(tag: u8) -> Identity {
    Identity::new(vec![tag, tag, tag])
}

const AGENT: u8 = 1;
const OWNER: u8 = 2;
const OTHER: u8 = 3;

fn contract_with_vault(warning_threshold: u64, emergency_threshold: u64) -> Contract {
    let mut c = Contract::new(ident(AGENT), warning_threshold, emergency_threshold);
    assert!(c.open_vault(ident(OWNER), 0));
    c
}

#[test]
fn scenario_warning_then_emergency() {
    let mut c = contract_with_vault(100, 50);

    let e = c.check_and_escalate(&ident(OWNER), 100).unwrap();
    assert!(e.warning_entered);
    assert!(!e.emergency_entered);
    let v = c.get_vault(&ident(OWNER)).unwrap();
    assert_eq!(v.warning_triggered_at, Some(100));
    assert!(!v.is_emergency);

    // 40 ms into a 50 ms emergency threshold: the warning stands, no
    // emergency yet.
    let e = c.check_and_escalate(&ident(OWNER), 140).unwrap();
    assert!(!e.warning_entered);
    assert!(!e.emergency_entered);
    assert!(!c.get_vault(&ident(OWNER)).unwrap().is_emergency);

    // Exactly at the boundary the emergency fires.
    let e = c.check_and_escalate(&ident(OWNER), 150).unwrap();
    assert!(!e.warning_entered);
    assert!(e.emergency_entered);
    let v = c.get_vault(&ident(OWNER)).unwrap();
    assert!(v.is_emergency);
    assert_eq!(v.warning_triggered_at, Some(100));
}

#[test]
fn scenario_agent_ping_cancels_warning() {
    let mut c = contract_with_vault(100, 50);

    let e = c.check_and_escalate(&ident(OWNER), 100).unwrap();
    assert!(e.warning_entered);

    assert_eq!(c.agent_ping(&ident(AGENT), &ident(OWNER), 110), Ok(()));
    let v = c.get_vault(&ident(OWNER)).unwrap();
    assert_eq!(v.last_alive, 110);
    assert_eq!(v.warning_triggered_at, None);
    assert!(!v.is_emergency);
    assert!(!v.is_yielding);
}

#[test]
fn scenario_unauthorized_agent_ping() {
    let mut c = contract_with_vault(100, 50);
    let before = c.get_vault(&ident(OWNER)).unwrap();

    assert_eq!(
        c.agent_ping(&ident(OTHER), &ident(OWNER), 10),
        Err(VaultError::Unauthorized)
    );
    // The owner is not the agent either.
    assert_eq!(
        c.agent_ping(&ident(OWNER), &ident(OWNER), 10),
        Err(VaultError::Unauthorized)
    );

    let after = c.get_vault(&ident(OWNER)).unwrap();
    assert!(before.same_as(&after));
}

#[test]
fn scenario_agent_ping_in_emergency() {
    let mut c = contract_with_vault(100, 50);
    c.check_and_escalate(&ident(OWNER), 100).unwrap();
    let e = c.check_and_escalate(&ident(OWNER), 150).unwrap();
    assert!(e.emergency_entered);
    let before = c.get_vault(&ident(OWNER)).unwrap();

    assert_eq!(
        c.agent_ping(&ident(AGENT), &ident(OWNER), 160),
        Err(VaultError::InvalidState)
    );

    let after = c.get_vault(&ident(OWNER)).unwrap();
    assert!(before.same_as(&after));
    assert_eq!(after.last_alive, 0);
}

#[test]
fn scenario_agent_ping_missing_vault() {
    let mut c = Contract::new(ident(AGENT), 100, 50);
    assert_eq!(
        c.agent_ping(&ident(AGENT), &ident(OWNER), 5),
        Err(VaultError::VaultNotFound)
    );
    // Existence is checked before authorization: a non-agent caller gets
    // the same answer on a missing vault.
    assert_eq!(
        c.agent_ping(&ident(OTHER), &ident(OWNER), 5),
        Err(VaultError::VaultNotFound)
    );
}

#[test]
fn owner_ping_roles() {
    let mut c = contract_with_vault(100, 50);

    assert_eq!(
        c.owner_ping(&ident(OTHER), &ident(OWNER), 7),
        Err(VaultError::Unauthorized)
    );
    // The agent has no owner-path rights.
    assert_eq!(
        c.owner_ping(&ident(AGENT), &ident(OWNER), 7),
        Err(VaultError::Unauthorized)
    );
    assert_eq!(c.owner_ping(&ident(OWNER), &ident(OWNER), 7), Ok(()));
    assert_eq!(c.get_vault(&ident(OWNER)).unwrap().last_alive, 7);

    assert_eq!(
        c.owner_ping(&ident(OTHER), &ident(OTHER), 7),
        Err(VaultError::VaultNotFound)
    );
}

#[test]
fn ping_resets_timer_without_prior_warning() {
    let mut c = contract_with_vault(100, 50);
    assert_eq!(c.get_vault(&ident(OWNER)).unwrap().warning_triggered_at, None);

    assert_eq!(c.agent_ping(&ident(AGENT), &ident(OWNER), 42), Ok(()));
    let v = c.get_vault(&ident(OWNER)).unwrap();
    assert_eq!(v.last_alive, 42);
    assert_eq!(v.warning_triggered_at, None);
}

#[test]
fn escalation_idempotent_at_same_time() {
    let mut c = contract_with_vault(100, 50);

    let first = c.check_and_escalate(&ident(OWNER), 100).unwrap();
    assert!(first.warning_entered);
    let once = c.get_vault(&ident(OWNER)).unwrap();

    let second = c.check_and_escalate(&ident(OWNER), 100).unwrap();
    assert!(!second.warning_entered);
    assert!(!second.emergency_entered);
    let twice = c.get_vault(&ident(OWNER)).unwrap();

    assert!(once.same_as(&twice));
}

#[test]
fn emergency_passes_through_warning_in_one_check() {
    // With a zero emergency threshold a single check enters the warning
    // and the emergency in the same pass: the warning timestamp is still
    // recorded on the way.
    let mut c = contract_with_vault(100, 0);
    let e = c.check_and_escalate(&ident(OWNER), 100).unwrap();
    assert!(e.warning_entered);
    assert!(e.emergency_entered);
    let v = c.get_vault(&ident(OWNER)).unwrap();
    assert_eq!(v.warning_triggered_at, Some(100));
    assert!(v.is_emergency);
}

#[test]
fn warning_boundary_is_inclusive() {
    let mut c = contract_with_vault(100, 50);

    let e = c.check_and_escalate(&ident(OWNER), 99).unwrap();
    assert!(!e.warning_entered);
    assert_eq!(c.get_vault(&ident(OWNER)).unwrap().warning_triggered_at, None);

    let e = c.check_and_escalate(&ident(OWNER), 100).unwrap();
    assert!(e.warning_entered);
    assert_eq!(
        c.get_vault(&ident(OWNER)).unwrap().warning_triggered_at,
        Some(100)
    );
}

#[test]
fn escalation_on_missing_vault() {
    let mut c = Contract::new(ident(AGENT), 100, 50);
    assert_eq!(
        c.check_and_escalate(&ident(OWNER), 100),
        Err(VaultError::VaultNotFound)
    );
}

#[test]
fn open_vault_is_once_per_owner() {
    let mut c = Contract::new(ident(AGENT), 100, 50);
    assert!(!c.has_open_vault(&ident(OWNER)));
    assert!(c.get_vault(&ident(OWNER)).is_none());

    assert!(c.open_vault(ident(OWNER), 3));
    assert!(c.has_open_vault(&ident(OWNER)));
    let v = c.get_vault(&ident(OWNER)).unwrap();
    assert_eq!(v.last_alive, 3);
    assert_eq!(v.warning_triggered_at, None);
    assert!(!v.is_emergency);
    assert!(!v.is_yielding);

    // A second open is refused and changes nothing.
    assert!(!c.open_vault(ident(OWNER), 9));
    assert_eq!(c.get_vault(&ident(OWNER)).unwrap().last_alive, 3);
}

#[test]
fn vaults_are_independent() {
    let mut c = Contract::new(ident(AGENT), 100, 50);
    assert!(c.open_vault(ident(OWNER), 0));
    assert!(c.open_vault(ident(OTHER), 0));

    c.check_and_escalate(&ident(OWNER), 100).unwrap();
    assert_eq!(c.agent_ping(&ident(AGENT), &ident(OTHER), 120), Ok(()));

    let warned = c.get_vault(&ident(OWNER)).unwrap();
    assert_eq!(warned.warning_triggered_at, Some(100));
    assert_eq!(warned.last_alive, 0);
    let pinged = c.get_vault(&ident(OTHER)).unwrap();
    assert_eq!(pinged.warning_triggered_at, None);
    assert_eq!(pinged.last_alive, 120);
}
