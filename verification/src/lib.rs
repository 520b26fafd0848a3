//! A safe, structured driver for a host's pluggable authentication service.
//!
//! The library centres on the [`auth::Authenticator`] state machine, which
//! orders the service's primitive operations (authenticate, credential
//! management, session open/close, environment population) and rolls back on
//! partial failure, and on the [`conv::Conversation`] capability through which
//! the service asks the caller for credentials or displays messages.
//!
//! The host facilities themselves — the authentication service, the process
//! environment and the user database — are reached through the
//! [`service::Service`] trait.  Its contracts record every primitive
//! operation in a ghost log, so the ordering, short-circuit and teardown
//! guarantees of the state machine are proved rather than assumed.  The
//! [`script::ScriptedService`] implementation is a verified in-memory host
//! used by the test suite; a binding to the real service lives outside the
//! verified library.

pub mod auth;
pub mod codes;
pub mod conv;
pub mod script;
pub mod service;

pub use auth::Authenticator;
