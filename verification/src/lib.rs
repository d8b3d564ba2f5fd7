//! A trustless two-party asset-swap custody protocol over an account-based
//! ledger, together with a delegation handoff that relocates an account's
//! ownership to an external authority and later takes it back with its
//! bytes restored bit for bit.
//!
//! Every handler is a total function from the supplied accounts to either
//! a full post-state or an error: a caller applies the returned accounts
//! on success and nothing on failure, which models an atomic invocation.
//! Each handler's contract equates its result with a specification-level
//! transition function, so what every instruction does — and exactly when
//! it is refused, and with which error — is stated and proved.

pub mod accounts;
pub mod custody;
pub mod derivation;
pub mod errors;
pub mod instruction;
pub mod laws;
pub mod state;
pub mod util;
