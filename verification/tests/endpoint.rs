//! Collector target resolution.

use riemann_cli::errors::{CliError, Field};
use riemann_cli::options::OptionTable;
use riemann_cli::server::RiemannServer;

#[test]
fn absent_options_leave_target_unset() {
    let s = RiemannServer::from_args(&OptionTable::empty()).unwrap();
    assert_eq!(s.host, None);
    assert_eq!(s.port, None);
}

#[test]
fn supplied_host_and_port_are_kept() {
    let mut t = OptionTable::empty();
    t.riemann_host = Some("riemann.example".to_string());
    t.riemann_port = Some("5555".to_string());
    let s = RiemannServer::from_args(&t).unwrap();
    assert_eq!(s.host, Some("riemann.example".to_string()));
    assert_eq!(s.port, Some(5555));
}

#[test]
fn non_numeric_port_fails_resolution() {
    let mut t = OptionTable::empty();
    t.riemann_port = Some("notanumber".to_string());
    let r = RiemannServer::from_args(&t);
    assert_eq!(r, Err(CliError::InvalidField(Field::RiemannPort)));
}

#[test]
fn non_positive_port_fails_resolution() {
    for bad in ["0", "-1"] {
        let mut t = OptionTable::empty();
        t.riemann_port = Some(bad.to_string());
        let r = RiemannServer::from_args(&t);
        assert_eq!(r, Err(CliError::InvalidField(Field::RiemannPort)));
    }
}

#[test]
fn effective_endpoint_falls_back_to_defaults() {
    let s = RiemannServer { host: None, port: None };
    assert_eq!(s.effective_host(), "localhost".to_string());
    assert_eq!(s.effective_port(), 5555);

    let s = RiemannServer { host: Some("riemann.example".to_string()), port: Some(1234) };
    assert_eq!(s.effective_host(), "riemann.example".to_string());
    assert_eq!(s.effective_port(), 1234);
}

#[test]
fn error_messages_are_nonempty() {
    assert!(!CliError::ParseError.message().is_empty());
    assert!(!CliError::ConflictingTypeHints.message().is_empty());
    assert!(!CliError::UnresolvedMetricType.message().is_empty());
    assert!(!CliError::InvalidField(Field::RiemannPort).message().is_empty());
    assert!(!CliError::ConnectionError.message().is_empty());
    assert!(!CliError::TransmitError.message().is_empty());
}
