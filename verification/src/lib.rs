//! A dead-man's-switch custodial vault core.
//!
//! Each owner has a `VaultRecord` tracking when the owner last proved
//! liveness. If the owner stays silent past a warning threshold the vault
//! escalates to a warned state, and after a further emergency threshold to
//! an emergency lockout. A single pre-configured agent identity may reset
//! the liveness timer on an owner's behalf, and may do nothing else.

pub mod auth;
pub mod contract;
pub mod identity;
pub mod liveness;
pub mod store;
pub mod vault;
