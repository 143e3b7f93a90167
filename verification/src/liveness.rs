//! The liveness state machine on a single vault record: the shared ping
//! reset routine, the time-driven escalation pass, and the laws that hold
//! of them.

use vstd::prelude::*;

use crate::auth::VaultError;
use crate::vault::{
    emergency_fires, escalate_applied, ping_applied, pingable, state_of, warning_fires,
    VaultRecord, VaultState, VaultView,
};

verus! {

/// What one escalation pass did, so the caller can emit the matching
/// events. Both flags can be set by a single pass when the emergency
/// threshold is already exceeded the moment the warning begins.
#[derive(Clone, Copy, Debug, PartialEq, Eq, Structural)]
pub struct Escalation {
    /// The pass entered the warning state.
    pub warning_entered: bool,
    /// The pass entered the emergency state.
    pub emergency_entered: bool,
}

/// The ping reset routine shared by the agent and owner paths. Rejected —
/// leaving the record untouched — exactly when the vault is in emergency
/// lockout or mid-yield; otherwise the liveness timer is set to `now` and
/// any in-progress warning is cancelled.
pub fn ping_record(v: &mut VaultRecord, now: u64) -> (r: Result<(), VaultError>)
    ensures
        r is Ok <==> pingable(old(v)@),
        r is Ok ==> final(v)@ == ping_applied(old(v)@, now),
        r is Err ==> final(v)@ == old(v)@ && r == Err::<(), VaultError>(VaultError::InvalidState),
{
    if v.is_emergency || v.is_yielding {
        return Err(VaultError::InvalidState);
    }
    v.last_alive = now;
    v.warning_triggered_at = None;
    Ok(())
}

/// One time-driven escalation pass over a single record, at time `now`.
/// The record becomes exactly `escalate_applied` of its old value, and the
/// returned flags say which states the pass entered.
pub fn escalate_record(
    v: &mut VaultRecord,
    warning_threshold: u64,
    emergency_threshold: u64,
    now: u64,
) -> (r: Escalation)
    ensures
        final(v)@ == escalate_applied(old(v)@, warning_threshold, emergency_threshold, now),
        r.warning_entered == warning_fires(old(v)@, warning_threshold, now),
        r.emergency_entered == emergency_fires(
            old(v)@,
            warning_threshold,
            emergency_threshold,
            now,
        ),
{
    if v.is_emergency || v.is_yielding {
        return Escalation { warning_entered: false, emergency_entered: false };
    }
    let mut warning_entered = false;
    let none_active = match v.warning_triggered_at {
        None => true,
        Some(_) => false,
    };
    if none_active && warning_threshold <= now && now - warning_threshold >= v.last_alive {
        v.warning_triggered_at = Some(now);
        warning_entered = true;
    }
    let mut emergency_entered = false;
    match v.warning_triggered_at {
        Some(w) => {
            if emergency_threshold <= now && now - emergency_threshold >= w {
                v.is_emergency = true;
                emergency_entered = true;
            }
        },
        None => {},
    }
    Escalation { warning_entered, emergency_entered }
}

/// Law: the escalation pass is idempotent — a second pass with the same
/// `now` leaves the record exactly where the first pass put it.
pub proof fn lemma_escalate_idempotent(
    v: VaultView,
    warning_threshold: u64,
    emergency_threshold: u64,
    now: u64,
)
    ensures
        escalate_applied(
            escalate_applied(v, warning_threshold, emergency_threshold, now),
            warning_threshold,
            emergency_threshold,
            now,
        ) == escalate_applied(v, warning_threshold, emergency_threshold, now),
{
}

/// Law: escalation order. A record that was not in emergency and is after
/// one pass carries a warning timestamp at least `emergency_threshold` old
/// — emergency is reached only through the warned state, never straight
/// from active: either a warning was already in force, or the same pass
/// first entered it.
pub proof fn lemma_emergency_only_after_warning(
    v: VaultView,
    warning_threshold: u64,
    emergency_threshold: u64,
    now: u64,
)
    ensures
        ({
            let r = escalate_applied(v, warning_threshold, emergency_threshold, now);
            &&& (!v.is_emergency && r.is_emergency) ==> (r.warning_triggered_at matches Some(w)
                && now >= w + emergency_threshold)
            &&& (!v.is_emergency && r.is_emergency) ==> (v.warning_triggered_at is Some
                || warning_fires(v, warning_threshold, now))
        }),
{
}

/// Law: a frozen record — emergency or yielding — is left untouched by the
/// escalation pass. (The ping routine's own contract states the same of
/// pings: they are rejected with `InvalidState` and change nothing.)
pub proof fn lemma_frozen_record_unchanged(
    v: VaultView,
    warning_threshold: u64,
    emergency_threshold: u64,
    now: u64,
)
    ensures
        !pingable(v) ==> escalate_applied(v, warning_threshold, emergency_threshold, now) == v,
{
}

/// Monotonic escalation: whenever a warning is recorded, it began no
/// earlier than the last confirmed liveness proof.
pub open spec fn warning_not_before_liveness(v: VaultView) -> bool {
    v.warning_triggered_at matches Some(w) ==> w >= v.last_alive
}

/// Law: monotonic escalation is established at creation and preserved by
/// every transition — a fresh record carries no warning, a ping clears the
/// warning as it resets the timer, and the escalation pass only starts a
/// warning at a time at least a whole threshold after the last liveness
/// proof.
pub proof fn lemma_monotonic_escalation_preserved(
    v: VaultView,
    owner: Seq<u8>,
    warning_threshold: u64,
    emergency_threshold: u64,
    now: u64,
)
    ensures
        warning_not_before_liveness(crate::vault::fresh_record(owner, now)),
        warning_not_before_liveness(ping_applied(v, now)),
        warning_not_before_liveness(v) ==> warning_not_before_liveness(
            escalate_applied(v, warning_threshold, emergency_threshold, now),
        ),
{
}

/// Law: a successful ping lands the record in the active state — liveness
/// freshly proved, no warning, no lockout flags — whatever warning was in
/// force before.
pub proof fn lemma_ping_reactivates(v: VaultView, now: u64)
    ensures
        pingable(v) ==> {
            let r = ping_applied(v, now);
            &&& r.last_alive == now
            &&& r.warning_triggered_at is None
            &&& state_of(r) == VaultState::Active
            &&& r.owner == v.owner
        },
{
}

} // verus!
