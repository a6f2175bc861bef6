use quic_interop::scenario::{
    resolve, server_supported_version, CipherRestriction, ConfigError, ConnectionGrouping,
    LogLevel, ScenarioProfile, BASE_QUIC_VERSION, NEGOTIATION_FORCING_VERSION,
};

fn expect_ok(name: &str) -> ScenarioProfile {
    match resolve(name) {
        Ok(p) => p,
        Err(_) => panic!("scenario {} should resolve", name),
    }
}

#[test]
fn resolve_handshake_is_all_defaults() {
    let p = expect_ok("handshake");
    assert_eq!(p.connection_grouping, ConnectionGrouping::PerRequest);
    assert!(!p.first_request_separate);
    assert!(!p.use_zero_rtt);
    assert!(!p.require_retry);
    assert_eq!(p.restricted_versions, None);
    assert_eq!(p.cipher_restriction, CipherRestriction::DefaultSuites);
    assert_eq!(p.max_concurrent_streams, None);
    assert_eq!(p.log_level, LogLevel::Info);
}

#[test]
fn resolve_transfer_shares_one_connection() {
    let p = expect_ok("transfer");
    assert_eq!(p.connection_grouping, ConnectionGrouping::SingleShared);
    assert!(!p.first_request_separate);
}

#[test]
fn resolve_multihandshake_uses_one_connection_per_request() {
    let p = expect_ok("multihandshake");
    assert_eq!(p.connection_grouping, ConnectionGrouping::PerRequest);
}

#[test]
fn resolve_versionnegotiation_restricts_versions() {
    let p = expect_ok("versionnegotiation");
    assert_eq!(p.restricted_versions, Some(NEGOTIATION_FORCING_VERSION));
    assert_eq!(p.restricted_versions, Some(0xff00001d));
    assert_eq!(server_supported_version(&p), Some(BASE_QUIC_VERSION));
    assert_eq!(server_supported_version(&p), Some(0x00000001));
}

#[test]
fn resolve_chacha20_restricts_ciphers() {
    let p = expect_ok("chacha20");
    assert_eq!(p.cipher_restriction, CipherRestriction::SingleSuiteOnly);
}

#[test]
fn resolve_retry_requires_retry() {
    let p = expect_ok("retry");
    assert!(p.require_retry);
}

#[test]
fn resolve_resumption_separates_first_request() {
    let p = expect_ok("resumption");
    assert_eq!(p.connection_grouping, ConnectionGrouping::SingleShared);
    assert!(p.first_request_separate);
    assert!(!p.use_zero_rtt);
}

#[test]
fn resolve_zerortt_attempts_early_data() {
    let p = expect_ok("zerortt");
    assert_eq!(p.connection_grouping, ConnectionGrouping::SingleShared);
    assert!(p.first_request_separate);
    assert!(p.use_zero_rtt);
}

#[test]
fn resolve_transportparameter_caps_streams() {
    let p = expect_ok("transportparameter");
    assert_eq!(p.connection_grouping, ConnectionGrouping::SingleShared);
    assert_eq!(p.max_concurrent_streams, Some(10));
}

#[test]
fn resolve_goodput_silences_logging() {
    let p = expect_ok("goodput");
    assert_eq!(p.log_level, LogLevel::Off);
    assert_eq!(p.max_concurrent_streams, None);
}

#[test]
fn resolve_optimize_caps_streams_and_silences_logging() {
    let p = expect_ok("optimize");
    assert_eq!(p.log_level, LogLevel::Off);
    assert_eq!(p.max_concurrent_streams, Some(255));
}

#[test]
fn resolve_is_deterministic_across_calls() {
    let a = expect_ok("zerortt");
    let b = expect_ok("zerortt");
    assert_eq!(a, b);
}

#[test]
fn resolve_unknown_scenario_is_a_config_error() {
    assert_eq!(resolve("nonsense"), Err(ConfigError::UnknownScenario));
    assert_eq!(resolve(""), Err(ConfigError::UnknownScenario));
    assert_eq!(resolve("Transfer"), Err(ConfigError::UnknownScenario));
}

#[test]
fn server_supported_version_is_unrestricted_by_default() {
    let p = expect_ok("transfer");
    assert_eq!(server_supported_version(&p), None);
}
