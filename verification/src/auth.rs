//! Caller classification: the stateless authorization guard and the
//! errors the vault operations report.

use vstd::prelude::*;

use crate::identity::Identity;

verus! {

/// The role an operation demands of its caller.
#[derive(Clone, Copy, Debug, PartialEq, Eq, Structural)]
pub enum Role {
    /// The single process-wide configured agent identity.
    Agent,
    /// The owner of the target vault.
    Owner,
}

/// Why a vault operation was rejected. Every rejection leaves the store
/// untouched.
#[derive(Clone, Copy, Debug, PartialEq, Eq, Structural)]
pub enum VaultError {
    /// The target owner has no open vault.
    VaultNotFound,
    /// The caller lacks the role the operation demands.
    Unauthorized,
    /// The vault is in emergency lockout or mid-yield, which blocks pings.
    InvalidState,
}

/// Whether `caller` holds `role` with respect to a vault owned by `owner`,
/// under the process-wide `agent` identity.
pub open spec fn role_allows(caller: Seq<u8>, role: Role, owner: Seq<u8>, agent: Seq<u8>) -> bool {
    match role {
        Role::Agent => caller == agent,
        Role::Owner => caller == owner,
    }
}

/// The authorization guard: a pure predicate over the caller, the demanded
/// role, the vault's owner and the configured agent. No state is touched.
pub fn authorize(caller: &Identity, role: Role, vault_owner: &Identity, agent: &Identity) -> (r:
    Result<(), VaultError>)
    ensures
        r is Ok <==> role_allows(caller@, role, vault_owner@, agent@),
        r is Err ==> r == Err::<(), VaultError>(VaultError::Unauthorized),
{
    let allowed = match role {
        Role::Agent => caller.same_as(agent),
        Role::Owner => caller.same_as(vault_owner),
    };
    if allowed {
        Ok(())
    } else {
        Err(VaultError::Unauthorized)
    }
}

} // verus!
