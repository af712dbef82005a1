//! A connection-lifecycle adapter that teaches a generic connection pool how
//! to create, validate, and retire sessions with an LDAP directory server.
//!
//! The adapter itself holds only immutable configuration: an endpoint URL and
//! a set of protocol-level connection options. Opening a session and probing
//! it over the network are asynchronous and belong to the embedding program;
//! the decisions the adapter makes — which options a fresh manager carries,
//! how a probe's result code is judged, and whether a session's send channel
//! has closed — live here, each with a verified contract.

pub mod manager;
pub mod probe;
pub mod settings;

pub use manager::LdapConnectionManager;
pub use probe::{probe_verdict, ProbeError, PROBE_TIMEOUT_MS};
pub use settings::ConnectionSettings;
