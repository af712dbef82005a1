//! Protocol-level connection options, as plain values.
//!
//! These are the options the adapter forwards when a session is opened: an
//! optional transport connect timeout, whether to upgrade the connection with
//! the StartTLS extended operation, and whether to skip certificate
//! verification. The embedding program translates them into the protocol
//! client's own settings structure at connect time.

use vstd::prelude::*;

verus! {

/// Connection options for opening a session, with the same defaults as the
/// protocol client: no connect timeout, no StartTLS, certificates verified.
#[derive(Clone, Copy, Debug)]
pub struct ConnectionSettings {
    /// Transport connect timeout in milliseconds; `None` means no timeout.
    pub conn_timeout_ms: Option<u64>,
    /// Whether to upgrade the connection with the StartTLS extended operation.
    pub starttls: bool,
    /// Whether to skip TLS certificate verification.
    pub no_tls_verify: bool,
}

impl ConnectionSettings {
    /// The default options: no connect timeout, no StartTLS, certificates
    /// verified.
    pub fn new() -> (r: ConnectionSettings)
        ensures
            r == ConnectionSettings::default_spec(),
    {
        ConnectionSettings { conn_timeout_ms: None, starttls: false, no_tls_verify: false }
    }

    /// The options a fresh manager starts from.
    pub open spec fn default_spec() -> ConnectionSettings {
        ConnectionSettings { conn_timeout_ms: None, starttls: false, no_tls_verify: false }
    }

    /// Set the transport connect timeout, leaving the other options unchanged.
    pub fn set_conn_timeout_ms(self, ms: u64) -> (r: ConnectionSettings)
        ensures
            r == (ConnectionSettings { conn_timeout_ms: Some(ms), ..self }),
    {
        ConnectionSettings { conn_timeout_ms: Some(ms), ..self }
    }

    /// Choose whether to upgrade with StartTLS, leaving the other options
    /// unchanged.
    pub fn set_starttls(self, starttls: bool) -> (r: ConnectionSettings)
        ensures
            r == (ConnectionSettings { starttls, ..self }),
    {
        ConnectionSettings { starttls, ..self }
    }

    /// Choose whether to skip certificate verification, leaving the other
    /// options unchanged.
    pub fn set_no_tls_verify(self, no_tls_verify: bool) -> (r: ConnectionSettings)
        ensures
            r == (ConnectionSettings { no_tls_verify, ..self }),
    {
        ConnectionSettings { no_tls_verify, ..self }
    }
}

} // verus!
