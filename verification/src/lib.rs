//! A named-group membership registry.
//!
//! A privileged administrator assigns or removes an account's membership
//! label (a group name) in a key-value store, subject to configured
//! name-length bounds. The host environment that authenticates callers,
//! resolves account references and persists storage is modelled as plain
//! configuration on the registry; the registry itself is a pure, verified
//! state machine.

pub mod laws;
pub mod model;
pub mod registry;
