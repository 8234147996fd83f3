//! Exclusive-access guards: a registry of exclusivity slots, one-shot guard
//! tokens that claim them, and wrappers whose payload is reachable only
//! through a view bound with such a token.
pub mod guard;
pub mod registry;
