//! The vault contract: the record store together with the configured
//! agent identity and escalation thresholds, and the authorization-gated
//! entry points of the liveness state machine.

use vstd::prelude::*;

use crate::auth::{authorize, Role, VaultError};
use crate::identity::Identity;
use crate::liveness::{escalate_record, ping_record, Escalation};
use crate::store::{
    distinct_owners, has_vault, lemma_record_of_index, lemma_store_with_is_update, record_of,
    store_with,
};
use crate::vault::{
    emergency_fires, escalate_applied, fresh_record, ping_applied, pingable, warning_fires,
    VaultRecord, VaultView,
};

verus! {

/// The contract state: one record per open vault, the single pre-configured
/// agent identity, and the two escalation thresholds (durations, in the
/// same milliseconds unit as the timestamps).
pub struct Contract {
    agent: Identity,
    warning_threshold: u64,
    emergency_threshold: u64,
    vaults: Vec<VaultRecord>,
}

/// Ghost image of the contract state.
#[verifier::ext_equal]
pub ghost struct ContractView {
    pub agent: Seq<u8>,
    pub warning_threshold: u64,
    pub emergency_threshold: u64,
    pub vaults: Seq<VaultView>,
}

impl View for Contract {
    type V = ContractView;

    closed spec fn view(&self) -> ContractView {
        ContractView {
            agent: self.agent@,
            warning_threshold: self.warning_threshold,
            emergency_threshold: self.emergency_threshold,
            vaults: self.vaults@.map_values(|r: VaultRecord| r@),
        }
    }
}

impl ContractView {
    /// Well-formedness: exactly one record exists per owner identity.
    /// `new` establishes it and every operation preserves it.
    pub open spec fn wf(self) -> bool {
        distinct_owners(self.vaults)
    }
}

impl Contract {
    /// A contract with no open vaults, under the given agent identity and
    /// thresholds.
    pub fn new(agent: Identity, warning_threshold: u64, emergency_threshold: u64) -> (r: Contract)
        ensures
            r@.wf(),
            r@.agent == agent@,
            r@.warning_threshold == warning_threshold,
            r@.emergency_threshold == emergency_threshold,
            r@.vaults == Seq::<VaultView>::empty(),
    {
        let r = Contract { agent, warning_threshold, emergency_threshold, vaults: Vec::new() };
        proof {
            assert(r@.vaults =~= Seq::<VaultView>::empty());
        }
        r
    }

    /// The index of `owner`'s record, if the store holds one.
    fn find_vault(&self, owner: &Identity) -> (r: Option<usize>)
        ensures
            r matches Some(i) ==> i < self@.vaults.len() && self@.vaults[i as int].owner
                == owner@,
            r is None ==> !has_vault(self@.vaults, owner@),
    {
        let n = self.vaults.len();
        let mut i: usize = 0;
        while i < n
            invariant
                n == self.vaults@.len(),
                i <= n,
                forall|j: int| 0 <= j < i ==> self@.vaults[j].owner != owner@,
            decreases n - i,
        {
            if self.vaults[i].owner.same_as(owner) {
                return Some(i);
            }
            i += 1;
        }
        None
    }

    /// Whether `owner` has an open vault.
    pub fn has_open_vault(&self, owner: &Identity) -> (r: bool)
        ensures
            r == has_vault(self@.vaults, owner@),
    {
        match self.find_vault(owner) {
            Some(i) => {
                proof {
                    assert(has_vault(self@.vaults, owner@)) by {
                        assert(0 <= i < self@.vaults.len() && self@.vaults[i as int].owner
                            == owner@);
                    }
                }
                true
            },
            None => false,
        }
    }

    /// A copy of `owner`'s record, if the store holds one.
    pub fn get_vault(&self, owner: &Identity) -> (r: Option<VaultRecord>)
        requires
            self@.wf(),
        ensures
            r is Some <==> has_vault(self@.vaults, owner@),
            r matches Some(v) ==> v@ == record_of(self@.vaults, owner@),
    {
        match self.find_vault(owner) {
            Some(i) => {
                proof {
                    lemma_record_of_index(self@.vaults, owner@, i as int);
                }
                Some(self.vaults[i].duplicate())
            },
            None => None,
        }
    }

    /// Opens a vault for `owner` at time `now`: a fresh record, liveness
    /// just proved, no warning, no lockout flags. Returns `false` — and
    /// changes nothing — if `owner` already has an open vault. (Vault
    /// creation proper is a collaborator's flow; the core contributes the
    /// record's initial state and the one-record-per-owner rule.)
    pub fn open_vault(&mut self, owner: Identity, now: u64) -> (r: bool)
        requires
            old(self)@.wf(),
        ensures
            final(self)@.wf(),
            r == !has_vault(old(self)@.vaults, owner@),
            r ==> final(self)@.vaults == old(self)@.vaults.push(fresh_record(owner@, now)),
            r ==> has_vault(final(self)@.vaults, owner@) && record_of(final(self)@.vaults, owner@)
                == fresh_record(owner@, now),
            !r ==> final(self)@ == old(self)@,
            final(self)@.agent == old(self)@.agent,
            final(self)@.warning_threshold == old(self)@.warning_threshold,
            final(self)@.emergency_threshold == old(self)@.emergency_threshold,
    {
        let ghost pre = self@;
        match self.find_vault(&owner) {
            Some(i) => {
                proof {
                    lemma_record_of_index(self@.vaults, owner@, i as int);
                }
                false
            },
            None => {
                let record = VaultRecord {
                    owner,
                    last_alive: now,
                    warning_triggered_at: None,
                    is_emergency: false,
                    is_yielding: false,
                };
                let ghost rv = record@;
                self.vaults.push(record);
                proof {
                    assert(self@.vaults =~= pre.vaults.push(rv));
                    assert(rv =~= fresh_record(rv.owner, now));
                    assert forall|i: int, j: int|
                        0 <= i < j < self@.vaults.len() implies self@.vaults[i].owner
                        != self@.vaults[j].owner by {
                        if j < pre.vaults.len() {
                            assert(pre.vaults[i].owner != pre.vaults[j].owner);
                        } else {
                            assert(!has_vault(pre.vaults, rv.owner));
                        }
                    }
                    lemma_record_of_index(self@.vaults, rv.owner, pre.vaults.len() as int);
                }
                true
            },
        }
    }

    /// The shared ping path: look the vault up, check the caller against
    /// `role`, and reset the liveness timer. Order matters: existence is
    /// checked first, authorization second, the vault's state last, so an
    /// unauthorized caller never learns the vault's state from the error.
    fn ping_as(&mut self, caller: &Identity, role: Role, account_id: &Identity, now: u64) -> (r:
        Result<(), VaultError>)
        requires
            old(self)@.wf(),
        ensures
            final(self)@.wf(),
            r is Ok <==> (has_vault(old(self)@.vaults, account_id@) && role_matches(
                old(self)@,
                caller@,
                role,
                account_id@,
            ) && pingable(record_of(old(self)@.vaults, account_id@))),
            r == Err::<(), VaultError>(VaultError::VaultNotFound) <==> !has_vault(
                old(self)@.vaults,
                account_id@,
            ),
            r == Err::<(), VaultError>(VaultError::Unauthorized) <==> (has_vault(
                old(self)@.vaults,
                account_id@,
            ) && !role_matches(old(self)@, caller@, role, account_id@)),
            r == Err::<(), VaultError>(VaultError::InvalidState) <==> (has_vault(
                old(self)@.vaults,
                account_id@,
            ) && role_matches(old(self)@, caller@, role, account_id@) && !pingable(
                record_of(old(self)@.vaults, account_id@),
            )),
            r is Ok ==> final(self)@.vaults == store_with(
                old(self)@.vaults,
                account_id@,
                ping_applied(record_of(old(self)@.vaults, account_id@), now),
            ),
            r is Ok ==> has_vault(final(self)@.vaults, account_id@) && record_of(
                final(self)@.vaults,
                account_id@,
            ) == ping_applied(record_of(old(self)@.vaults, account_id@), now),
            r is Err ==> final(self)@ == old(self)@,
            final(self)@.agent == old(self)@.agent,
            final(self)@.warning_threshold == old(self)@.warning_threshold,
            final(self)@.emergency_threshold == old(self)@.emergency_threshold,
    {
        let ghost pre = self@;
        match self.find_vault(account_id) {
            None => Err(VaultError::VaultNotFound),
            Some(i) => {
                proof {
                    lemma_record_of_index(pre.vaults, account_id@, i as int);
                }
                match authorize(caller, role, &self.vaults[i].owner, &self.agent) {
                    Err(e) => Err(e),
                    Ok(()) => {
                        let rec = &mut self.vaults[i];
                        let res = ping_record(rec, now);
                        proof {
                            if res is Ok {
                                lemma_store_with_is_update(
                                    pre.vaults,
                                    account_id@,
                                    ping_applied(pre.vaults[i as int], now),
                                    i as int,
                                );
                                assert(self@.vaults =~= store_with(
                                    pre.vaults,
                                    account_id@,
                                    ping_applied(record_of(pre.vaults, account_id@), now),
                                ));
                            } else {
                                assert(self@.vaults =~= pre.vaults);
                                assert(self@ =~= pre);
                            }
                            assert forall|a: int, b: int|
                                0 <= a < b < self@.vaults.len() implies self@.vaults[a].owner
                                != self@.vaults[b].owner by {
                                assert(pre.vaults[a].owner != pre.vaults[b].owner);
                            }
                            if res is Ok {
                                lemma_record_of_index(self@.vaults, account_id@, i as int);
                            }
                        }
                        res
                    },
                }
            },
        }
    }

    /// Agent-path liveness reset: only the configured agent may call it,
    /// and only for an existing, non-frozen vault. On success the vault's
    /// liveness timer is set to `now` and any in-progress warning is
    /// cancelled; on any error nothing changes.
    pub fn agent_ping(&mut self, caller: &Identity, account_id: &Identity, now: u64) -> (r: Result<
        (),
        VaultError,
    >)
        requires
            old(self)@.wf(),
        ensures
            final(self)@.wf(),
            r is Ok <==> (has_vault(old(self)@.vaults, account_id@) && caller@ == old(self)@.agent
                && pingable(record_of(old(self)@.vaults, account_id@))),
            r == Err::<(), VaultError>(VaultError::VaultNotFound) <==> !has_vault(
                old(self)@.vaults,
                account_id@,
            ),
            r == Err::<(), VaultError>(VaultError::Unauthorized) <==> (has_vault(
                old(self)@.vaults,
                account_id@,
            ) && caller@ != old(self)@.agent),
            r == Err::<(), VaultError>(VaultError::InvalidState) <==> (has_vault(
                old(self)@.vaults,
                account_id@,
            ) && caller@ == old(self)@.agent && !pingable(
                record_of(old(self)@.vaults, account_id@),
            )),
            r is Ok ==> final(self)@.vaults == store_with(
                old(self)@.vaults,
                account_id@,
                ping_applied(record_of(old(self)@.vaults, account_id@), now),
            ),
            r is Ok ==> has_vault(final(self)@.vaults, account_id@) && record_of(
                final(self)@.vaults,
                account_id@,
            ) == ping_applied(record_of(old(self)@.vaults, account_id@), now),
            r is Err ==> final(self)@ == old(self)@,
            final(self)@.agent == old(self)@.agent,
            final(self)@.warning_threshold == old(self)@.warning_threshold,
            final(self)@.emergency_threshold == old(self)@.emergency_threshold,
    {
        self.ping_as(caller, Role::Agent, account_id, now)
    }

    /// Owner-path liveness reset: the symmetric self-service path. Same
    /// preconditions and effect as `agent_ping`, with the caller checked
    /// against the vault's owner instead of the agent.
    pub fn owner_ping(&mut self, caller: &Identity, account_id: &Identity, now: u64) -> (r: Result<
        (),
        VaultError,
    >)
        requires
            old(self)@.wf(),
        ensures
            final(self)@.wf(),
            r is Ok <==> (has_vault(old(self)@.vaults, account_id@) && caller@ == account_id@
                && pingable(record_of(old(self)@.vaults, account_id@))),
            r == Err::<(), VaultError>(VaultError::VaultNotFound) <==> !has_vault(
                old(self)@.vaults,
                account_id@,
            ),
            r == Err::<(), VaultError>(VaultError::Unauthorized) <==> (has_vault(
                old(self)@.vaults,
                account_id@,
            ) && caller@ != account_id@),
            r == Err::<(), VaultError>(VaultError::InvalidState) <==> (has_vault(
                old(self)@.vaults,
                account_id@,
            ) && caller@ == account_id@ && !pingable(
                record_of(old(self)@.vaults, account_id@),
            )),
            r is Ok ==> final(self)@.vaults == store_with(
                old(self)@.vaults,
                account_id@,
                ping_applied(record_of(old(self)@.vaults, account_id@), now),
            ),
            r is Ok ==> has_vault(final(self)@.vaults, account_id@) && record_of(
                final(self)@.vaults,
                account_id@,
            ) == ping_applied(record_of(old(self)@.vaults, account_id@), now),
            r is Err ==> final(self)@ == old(self)@,
            final(self)@.agent == old(self)@.agent,
            final(self)@.warning_threshold == old(self)@.warning_threshold,
            final(self)@.emergency_threshold == old(self)@.emergency_threshold,
    {
        self.ping_as(caller, Role::Owner, account_id, now)
    }

    /// Time-driven escalation, callable by anyone: runs one escalation
    /// pass at `now` over `owner`'s record. Fails only when the vault does
    /// not exist; a frozen vault is a successful no-op. The returned flags
    /// say which states the pass entered, so the surroundings can emit the
    /// matching events.
    pub fn check_and_escalate(&mut self, account_id: &Identity, now: u64) -> (r: Result<
        Escalation,
        VaultError,
    >)
        requires
            old(self)@.wf(),
        ensures
            final(self)@.wf(),
            r is Ok <==> has_vault(old(self)@.vaults, account_id@),
            r is Err ==> r == Err::<Escalation, VaultError>(VaultError::VaultNotFound)
                && final(self)@ == old(self)@,
            r matches Ok(e) ==> {
                let pre_record = record_of(old(self)@.vaults, account_id@);
                &&& final(self)@.vaults == store_with(
                    old(self)@.vaults,
                    account_id@,
                    escalate_applied(
                        pre_record,
                        old(self)@.warning_threshold,
                        old(self)@.emergency_threshold,
                        now,
                    ),
                )
                &&& e.warning_entered == warning_fires(
                    pre_record,
                    old(self)@.warning_threshold,
                    now,
                )
                &&& e.emergency_entered == emergency_fires(
                    pre_record,
                    old(self)@.warning_threshold,
                    old(self)@.emergency_threshold,
                    now,
                )
                &&& has_vault(final(self)@.vaults, account_id@)
                &&& record_of(final(self)@.vaults, account_id@) == escalate_applied(
                    pre_record,
                    old(self)@.warning_threshold,
                    old(self)@.emergency_threshold,
                    now,
                )
            },
            final(self)@.agent == old(self)@.agent,
            final(self)@.warning_threshold == old(self)@.warning_threshold,
            final(self)@.emergency_threshold == old(self)@.emergency_threshold,
    {
        let ghost pre = self@;
        match self.find_vault(account_id) {
            None => Err(VaultError::VaultNotFound),
            Some(i) => {
                proof {
                    lemma_record_of_index(pre.vaults, account_id@, i as int);
                }
                let warning_threshold = self.warning_threshold;
                let emergency_threshold = self.emergency_threshold;
                let rec = &mut self.vaults[i];
                let escalation = escalate_record(rec, warning_threshold, emergency_threshold, now);
                proof {
                    lemma_store_with_is_update(
                        pre.vaults,
                        account_id@,
                        escalate_applied(
                            pre.vaults[i as int],
                            pre.warning_threshold,
                            pre.emergency_threshold,
                            now,
                        ),
                        i as int,
                    );
                    assert(self@.vaults =~= store_with(
                        pre.vaults,
                        account_id@,
                        escalate_applied(
                            record_of(pre.vaults, account_id@),
                            pre.warning_threshold,
                            pre.emergency_threshold,
                            now,
                        ),
                    ));
                    assert forall|a: int, b: int|
                        0 <= a < b < self@.vaults.len() implies self@.vaults[a].owner
                        != self@.vaults[b].owner by {
                        assert(pre.vaults[a].owner != pre.vaults[b].owner);
                    }
                    lemma_record_of_index(self@.vaults, account_id@, i as int);
                }
                Ok(escalation)
            },
        }
    }
}

/// Law: `check_and_escalate` is idempotent on the whole store. Its
/// contract says a successful call turns the store `vs` into
/// `store_with(vs, owner, escalate_applied(record_of(vs, owner), ..))`;
/// applying that transformation twice with the same `now` yields the same
/// store as applying it once.
pub proof fn lemma_escalation_idempotent_on_store(c: ContractView, owner: Seq<u8>, now: u64)
    requires
        c.wf(),
        has_vault(c.vaults, owner),
    ensures
        ({
            let once = store_with(
                c.vaults,
                owner,
                escalate_applied(
                    record_of(c.vaults, owner),
                    c.warning_threshold,
                    c.emergency_threshold,
                    now,
                ),
            );
            let twice = store_with(
                once,
                owner,
                escalate_applied(
                    record_of(once, owner),
                    c.warning_threshold,
                    c.emergency_threshold,
                    now,
                ),
            );
            twice == once
        }),
{
    let i = choose|i: int| 0 <= i < c.vaults.len() && c.vaults[i].owner == owner;
    let e1 = escalate_applied(
        record_of(c.vaults, owner),
        c.warning_threshold,
        c.emergency_threshold,
        now,
    );
    let once = store_with(c.vaults, owner, e1);
    lemma_record_of_index(c.vaults, owner, i);
    lemma_store_with_is_update(c.vaults, owner, e1, i);
    assert(once =~= c.vaults.update(i, e1));
    assert forall|a: int, b: int|
        0 <= a < b < once.len() implies once[a].owner != once[b].owner by {
        assert(c.vaults[a].owner != c.vaults[b].owner);
    }
    lemma_record_of_index(once, owner, i);
    crate::liveness::lemma_escalate_idempotent(
        record_of(c.vaults, owner),
        c.warning_threshold,
        c.emergency_threshold,
        now,
    );
    assert(escalate_applied(record_of(once, owner), c.warning_threshold, c.emergency_threshold, now)
        == e1);
    lemma_store_with_is_update(once, owner, e1, i);
    assert(store_with(once, owner, e1) =~= once.update(i, e1));
    assert(once.update(i, e1) =~= once);
}

/// Whether `caller` holds `role` for the vault keyed by `account_id` under
/// contract state `c` — the agent identity for the agent path, the vault's
/// own key for the owner path.
pub open spec fn role_matches(c: ContractView, caller: Seq<u8>, role: Role, account_id: Seq<u8>) -> bool {
    match role {
        Role::Agent => caller == c.agent,
        Role::Owner => caller == account_id,
    }
}

} // verus!
