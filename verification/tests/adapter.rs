use bb8_ldap::{probe_verdict, ConnectionSettings, LdapConnectionManager, ProbeError, PROBE_TIMEOUT_MS};

#[test]
fn new_manager_keeps_endpoint() {
    let m = LdapConnectionManager::new(String::from("ldap://127.0.0.1:1389"));
    assert_eq!(m.endpoint(), "ldap://127.0.0.1:1389");
}

#[test]
fn new_manager_has_default_settings() {
    let m = LdapConnectionManager::new(String::from("ldap://localhost:389"));
    let s = m.connection_settings();
    assert_eq!(s.conn_timeout_ms, None);
    assert!(!s.starttls);
    assert!(!s.no_tls_verify);
}

#[test]
fn default_settings_match_fresh_settings() {
    let s = ConnectionSettings::new();
    assert_eq!(s.conn_timeout_ms, None);
    assert!(!s.starttls);
    assert!(!s.no_tls_verify);
}

#[test]
fn set_conn_timeout_keeps_other_options() {
    let s = ConnectionSettings::new().set_conn_timeout_ms(250);
    assert_eq!(s.conn_timeout_ms, Some(250));
    assert!(!s.starttls);
    assert!(!s.no_tls_verify);
}

#[test]
fn set_starttls_keeps_other_options() {
    let s = ConnectionSettings::new().set_conn_timeout_ms(30_000).set_starttls(true);
    assert_eq!(s.conn_timeout_ms, Some(30_000));
    assert!(s.starttls);
    assert!(!s.no_tls_verify);
}

#[test]
fn set_no_tls_verify_keeps_other_options() {
    let s = ConnectionSettings::new().set_no_tls_verify(true);
    assert_eq!(s.conn_timeout_ms, None);
    assert!(!s.starttls);
    assert!(s.no_tls_verify);
}

#[test]
fn with_connection_settings_replaces_options_and_keeps_endpoint() {
    let m = LdapConnectionManager::new(String::from("ldaps://directory.example.org"));
    let s = ConnectionSettings::new().set_starttls(true).set_conn_timeout_ms(1_500);
    let m = m.with_connection_settings(s);
    assert_eq!(m.endpoint(), "ldaps://directory.example.org");
    let got = m.connection_settings();
    assert_eq!(got.conn_timeout_ms, Some(1_500));
    assert!(got.starttls);
    assert!(!got.no_tls_verify);
}

#[test]
fn clone_carries_the_same_configuration() {
    let m = LdapConnectionManager::new(String::from("ldap://127.0.0.1:1389"))
        .with_connection_settings(ConnectionSettings::new().set_no_tls_verify(true));
    let c = m.clone();
    assert_eq!(c.endpoint(), m.endpoint());
    assert_eq!(c.connection_settings().conn_timeout_ms, m.connection_settings().conn_timeout_ms);
    assert_eq!(c.connection_settings().starttls, m.connection_settings().starttls);
    assert_eq!(c.connection_settings().no_tls_verify, m.connection_settings().no_tls_verify);
}

#[test]
fn probe_verdict_accepts_only_the_success_code() {
    assert_eq!(probe_verdict(0), Ok(()));
}

#[test]
fn probe_verdict_reports_the_failing_code() {
    assert_eq!(probe_verdict(1), Err(ProbeError { rc: 1 }));
    assert_eq!(probe_verdict(49), Err(ProbeError { rc: 49 }));
}

#[test]
fn probe_verdict_rejects_a_referral() {
    assert_eq!(probe_verdict(10), Err(ProbeError { rc: 10 }));
}

#[test]
fn probe_verdict_is_repeatable() {
    let first = probe_verdict(0);
    let second = probe_verdict(0);
    assert_eq!(first, second);
    let first = probe_verdict(32);
    let second = probe_verdict(32);
    assert_eq!(first, second);
}

#[test]
fn probe_timeout_is_one_second() {
    assert_eq!(PROBE_TIMEOUT_MS, 1_000);
}
