//! The connection manager: the immutable configuration a pool engine holds,
//! and the synchronous structural check on a session.
//!
//! A manager is a value — an endpoint URL and connection options — cloned
//! freely across pool workers; nothing about it changes after construction.
//! Opening a session and probing it are asynchronous and run in the embedding
//! program, which reads the configuration through [`LdapConnectionManager::endpoint`]
//! and [`LdapConnectionManager::connection_settings`].

use vstd::prelude::*;

use crate::settings::ConnectionSettings;

verus! {

/// An opaque handle to one live session with the directory server, as the
/// protocol client hands it out.
#[verifier::external_type_specification]
#[verifier::external_body]
pub struct ExLdap(ldap3::Ldap);

/// Relies on `ldap3::Ldap::is_closed`: it only queries whether the session's
/// request channel to its drive task has been closed, and leaves the session
/// as it was.
#[verifier::external_body]
fn send_channel_closed(conn: &mut ldap3::Ldap) -> (r: bool)
    ensures
        *final(conn) == *old(conn),
{
    conn.is_closed()
}

/// Immutable-after-construction configuration for opening sessions with one
/// directory server: the endpoint URL and the connection options.
#[derive(Debug)]
pub struct LdapConnectionManager {
    url: String,
    settings: ConnectionSettings,
}

impl LdapConnectionManager {
    /// The endpoint URL this manager connects to.
    pub closed spec fn url_spec(self) -> Seq<char> {
        self.url@
    }

    /// The connection options this manager opens sessions with.
    pub closed spec fn settings_spec(self) -> ConnectionSettings {
        self.settings
    }

    /// Create a manager for the given endpoint URL, with the default
    /// connection options. The URL is stored as given; nothing is validated
    /// before a connection is attempted.
    pub fn new(ldap_url: String) -> (r: LdapConnectionManager)
        ensures
            r.url_spec() == ldap_url@,
            r.settings_spec() == ConnectionSettings::default_spec(),
    {
        LdapConnectionManager { url: ldap_url, settings: ConnectionSettings::new() }
    }

    /// Replace the connection options, keeping the endpoint. A pure builder:
    /// the old options are gone, and nothing else changes.
    pub fn with_connection_settings(self, settings: ConnectionSettings) -> (r: LdapConnectionManager)
        ensures
            r.url_spec() == self.url_spec(),
            r.settings_spec() == settings,
    {
        LdapConnectionManager { settings, ..self }
    }

    /// The endpoint URL, for the code that opens the transport.
    pub fn endpoint(&self) -> (r: &str)
        ensures
            r@ == self.url_spec(),
    {
        self.url.as_str()
    }

    /// The connection options, for the code that opens the transport.
    pub fn connection_settings(&self) -> (r: ConnectionSettings)
        ensures
            r == self.settings_spec(),
    {
        self.settings
    }

    /// Whether the session's send path to its drive task has closed — the
    /// cheap, synchronous check a pool uses to prune obviously dead sessions
    /// without a network round trip. The session itself is left untouched.
    ///
    /// This only sees local, structural breakage: a half-open connection
    /// whose peer is silently gone still reports `false` here, and only the
    /// probing round trip can uncover it. That blind spot is a deliberate
    /// cost/accuracy tradeoff, not something this check tries to repair.
    pub fn has_broken(&self, conn: &mut ldap3::Ldap) -> (r: bool)
        ensures
            *final(conn) == *old(conn),
    {
        send_channel_closed(conn)
    }
}

impl Clone for LdapConnectionManager {
    /// A clone carries exactly the same configuration: managers are shared
    /// across pool workers by cloning, never by shared mutable state.
    fn clone(&self) -> (r: LdapConnectionManager)
        ensures
            r.url_spec() == self.url_spec(),
            r.settings_spec() == self.settings_spec(),
    {
        LdapConnectionManager { url: self.url.clone(), settings: self.settings }
    }
}

} // verus!
