//! The per-owner vault record and the liveness transitions on it.

use vstd::prelude::*;

use crate::identity::Identity;

verus! {

/// The liveness record kept for one owner while their vault is open.
pub struct VaultRecord {
    /// The owner's identity, fixed at creation.
    pub owner: Identity,
    /// Timestamp (milliseconds) of the most recent confirmed liveness proof.
    pub last_alive: u64,
    /// When the warning escalation began; `None` while no warning is active.
    pub warning_triggered_at: Option<u64>,
    /// Emergency lockout: once true, liveness pings are rejected.
    pub is_emergency: bool,
    /// Assets committed to an external yield operation: pings are rejected.
    pub is_yielding: bool,
}

/// Ghost image of a record: the owner as its byte sequence, the rest as
/// plain values.
#[verifier::ext_equal]
pub ghost struct VaultView {
    pub owner: Seq<u8>,
    pub last_alive: u64,
    pub warning_triggered_at: Option<u64>,
    pub is_emergency: bool,
    pub is_yielding: bool,
}

impl View for VaultRecord {
    type V = VaultView;

    open spec fn view(&self) -> VaultView {
        VaultView {
            owner: self.owner@,
            last_alive: self.last_alive,
            warning_triggered_at: self.warning_triggered_at,
            is_emergency: self.is_emergency,
            is_yielding: self.is_yielding,
        }
    }
}

impl VaultRecord {
    /// A fresh copy of this record.
    pub fn duplicate(&self) -> (r: VaultRecord)
        ensures
            r@ == self@,
    {
        let r = VaultRecord {
            owner: self.owner.duplicate(),
            last_alive: self.last_alive,
            warning_triggered_at: self.warning_triggered_at,
            is_emergency: self.is_emergency,
            is_yielding: self.is_yielding,
        };
        proof {
            assert(r@ =~= self@);
        }
        r
    }

    /// Whether this record holds exactly the same data as `other`.
    pub fn same_as(&self, other: &VaultRecord) -> (r: bool)
        ensures
            r == (self@ == other@),
    {
        let warnings_equal = match (self.warning_triggered_at, other.warning_triggered_at) {
            (None, None) => true,
            (Some(a), Some(b)) => a == b,
            _ => false,
        };
        let r = self.owner.same_as(&other.owner) && self.last_alive == other.last_alive
            && warnings_equal && self.is_emergency == other.is_emergency && self.is_yielding
            == other.is_yielding;
        proof {
            if r {
                assert(self@ =~= other@);
            }
        }
        r
    }
}

/// The four liveness states, derived from the stored flags. When both
/// `is_emergency` and `is_yielding` are set, either suffices to block
/// pings; `Emergency` is reported.
pub ghost enum VaultState {
    Active,
    Warned,
    Emergency,
    Yielding,
}

/// The derived state of a record.
pub open spec fn state_of(v: VaultView) -> VaultState {
    if v.is_emergency {
        VaultState::Emergency
    } else if v.is_yielding {
        VaultState::Yielding
    } else if v.warning_triggered_at is Some {
        VaultState::Warned
    } else {
        VaultState::Active
    }
}

/// Whether a liveness ping is accepted in this state: the vault must be
/// neither in emergency lockout nor mid-yield.
pub open spec fn pingable(v: VaultView) -> bool {
    !v.is_emergency && !v.is_yielding
}

/// A record freshly created at `now`: liveness just proved, no warning,
/// no lockout flags.
pub open spec fn fresh_record(owner: Seq<u8>, now: u64) -> VaultView {
    VaultView {
        owner: owner,
        last_alive: now,
        warning_triggered_at: None,
        is_emergency: false,
        is_yielding: false,
    }
}

/// The record after a successful ping at `now`: the liveness timer is
/// reset and any in-progress warning is cancelled.
pub open spec fn ping_applied(v: VaultView, now: u64) -> VaultView {
    VaultView { last_alive: now, warning_triggered_at: None, ..v }
}

/// Whether a check at `now` starts the warning escalation: no warning is
/// active yet and at least `warning_threshold` has elapsed since the last
/// liveness proof (ties escalate: a check exactly at the boundary fires).
pub open spec fn warning_due(v: VaultView, warning_threshold: u64, now: u64) -> bool {
    v.warning_triggered_at is None && now >= v.last_alive + warning_threshold
}

/// The record after one `check_and_escalate` pass at `now`. A frozen
/// record (emergency or yielding) is untouched. Otherwise the warning is
/// started if it is due, and then — whether the warning is older or was
/// started by this very pass — the emergency flag is raised once at least
/// `emergency_threshold` has elapsed since the warning began.
pub open spec fn escalate_applied(
    v: VaultView,
    warning_threshold: u64,
    emergency_threshold: u64,
    now: u64,
) -> VaultView {
    if !pingable(v) {
        v
    } else {
        let warned = if warning_due(v, warning_threshold, now) {
            VaultView { warning_triggered_at: Some(now), ..v }
        } else {
            v
        };
        if warned.warning_triggered_at matches Some(w) && now >= w + emergency_threshold {
            VaultView { is_emergency: true, ..warned }
        } else {
            warned
        }
    }
}

/// Whether one `check_and_escalate` pass at `now` enters the warning state.
pub open spec fn warning_fires(v: VaultView, warning_threshold: u64, now: u64) -> bool {
    pingable(v) && warning_due(v, warning_threshold, now)
}

/// Whether one `check_and_escalate` pass at `now` enters the emergency
/// state: the vault is not frozen and the warning in force after the pass
/// (pre-existing or entered by the same pass) is at least
/// `emergency_threshold` old.
pub open spec fn emergency_fires(
    v: VaultView,
    warning_threshold: u64,
    emergency_threshold: u64,
    now: u64,
) -> bool {
    pingable(v) && {
        let warned = if warning_due(v, warning_threshold, now) {
            VaultView { warning_triggered_at: Some(now), ..v }
        } else {
            v
        };
        warned.warning_triggered_at matches Some(w) && now >= w + emergency_threshold
    }
}

} // verus!
