//! Two-phase provisioning of compute instances on a remote orchestrator.
//!
//! The library holds the verified core of a provisioning canister: it builds
//! the creation request with its ownership settings, decides what follows
//! each remote reply, and renders the final outcome for the caller. The
//! remote calls themselves, being asynchronous I/O, are driven by an
//! unverified shell that feeds their replies back in as events.

pub mod error;
pub mod identity;
pub mod protocol;
