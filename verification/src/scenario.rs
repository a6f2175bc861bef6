//! Scenario profiles: the canonical table mapping a scenario name to the
//! behavioral flags that govern one harness run.

use vstd::prelude::*;

verus! {

/// How requested resources are grouped onto transport connections.
#[derive(Clone, Copy, Debug, PartialEq, Eq)]
pub enum ConnectionGrouping {
    /// Every resource gets a connection of its own.
    PerRequest,
    /// All resources share one connection.
    SingleShared,
}

/// Which cipher suites the endpoint offers.
#[derive(Clone, Copy, Debug, PartialEq, Eq)]
pub enum CipherRestriction {
    /// The transport library's default suite set.
    DefaultSuites,
    /// Only the single ChaCha20-Poly1305 suite.
    SingleSuiteOnly,
}

/// Log verbosity of the run.
#[derive(Clone, Copy, Debug, PartialEq, Eq)]
pub enum LogLevel {
    Info,
    Off,
}

/// The behavioral flags of one named test scenario.  Resolved once at
/// startup and never mutated afterwards.
#[derive(Clone, Copy, Debug, PartialEq, Eq)]
pub struct ScenarioProfile {
    /// How resources are grouped onto connections.
    pub connection_grouping: ConnectionGrouping,
    /// Whether the first resource is carved out into a connection of its own
    /// that is fully drained before the remaining groups start.
    pub first_request_separate: bool,
    /// Whether the client attempts to send early data (0-RTT) instead of
    /// waiting for the full handshake.
    pub use_zero_rtt: bool,
    /// Whether the server forces a stateless retry challenge before
    /// accepting a connection.
    pub require_retry: bool,
    /// When set, the scenario forces version negotiation: the client dials
    /// with this version while the server restricts its supported versions
    /// to QUIC version 1 (see `server_supported_version`).
    pub restricted_versions: Option<u32>,
    /// Which cipher suites the endpoints offer.
    pub cipher_restriction: CipherRestriction,
    /// Upper bound on concurrently open bidirectional streams, handed to the
    /// transport as a hard cap; unbounded when absent.
    pub max_concurrent_streams: Option<u32>,
    /// Log verbosity of the run.
    pub log_level: LogLevel,
}

/// A configuration error is fatal before the run starts.
#[derive(Clone, Copy, Debug, PartialEq, Eq)]
pub enum ConfigError {
    /// The scenario name is not in the canonical table.
    UnknownScenario,
}

/// The version the server keeps supporting when a scenario restricts
/// versions: QUIC version 1.
pub const BASE_QUIC_VERSION: u32 = 0x00000001;

/// The reserved version a client dials with to force version negotiation.
pub const NEGOTIATION_FORCING_VERSION: u32 = 0xff00001d;

/// The profile every scenario starts from: one connection per request, full
/// handshake, no retry, no version or cipher restriction, unbounded streams,
/// informational logging.
pub open spec fn spec_default_profile() -> ScenarioProfile {
    ScenarioProfile {
        connection_grouping: ConnectionGrouping::PerRequest,
        first_request_separate: false,
        use_zero_rtt: false,
        require_retry: false,
        restricted_versions: None,
        cipher_restriction: CipherRestriction::DefaultSuites,
        max_concurrent_streams: None,
        log_level: LogLevel::Info,
    }
}

/// The canonical scenario table as a pure mapping from name to profile.
pub open spec fn spec_resolve(name: Seq<char>) -> Result<ScenarioProfile, ConfigError> {
    if name == "handshake"@ {
        Ok(spec_default_profile())
    } else if name == "transfer"@ {
        Ok(ScenarioProfile {
            connection_grouping: ConnectionGrouping::SingleShared,
            ..spec_default_profile()
        })
    } else if name == "multihandshake"@ {
        Ok(spec_default_profile())
    } else if name == "versionnegotiation"@ {
        Ok(ScenarioProfile {
            restricted_versions: Some(NEGOTIATION_FORCING_VERSION),
            ..spec_default_profile()
        })
    } else if name == "chacha20"@ {
        Ok(ScenarioProfile {
            cipher_restriction: CipherRestriction::SingleSuiteOnly,
            ..spec_default_profile()
        })
    } else if name == "retry"@ {
        Ok(ScenarioProfile { require_retry: true, ..spec_default_profile() })
    } else if name == "resumption"@ {
        Ok(ScenarioProfile {
            connection_grouping: ConnectionGrouping::SingleShared,
            first_request_separate: true,
            ..spec_default_profile()
        })
    } else if name == "zerortt"@ {
        Ok(ScenarioProfile {
            connection_grouping: ConnectionGrouping::SingleShared,
            first_request_separate: true,
            use_zero_rtt: true,
            ..spec_default_profile()
        })
    } else if name == "transportparameter"@ {
        Ok(ScenarioProfile {
            connection_grouping: ConnectionGrouping::SingleShared,
            max_concurrent_streams: Some(10),
            ..spec_default_profile()
        })
    } else if name == "goodput"@ {
        Ok(ScenarioProfile { log_level: LogLevel::Off, ..spec_default_profile() })
    } else if name == "optimize"@ {
        Ok(ScenarioProfile {
            max_concurrent_streams: Some(255),
            log_level: LogLevel::Off,
            ..spec_default_profile()
        })
    } else {
        Err(ConfigError::UnknownScenario)
    }
}

/// Whether a name stands in the canonical scenario table.
pub open spec fn is_known_scenario(name: Seq<char>) -> bool {
    spec_resolve(name) is Ok
}

/// Compares a name against one table entry.
fn name_is(name: &str, entry: &str) -> (r: bool)
    ensures
        r == (name@ == entry@),
{
    let a = name.to_owned();
    let b = entry.to_owned();
    a == b
}

/// Builds the profile every scenario starts from.
fn default_profile() -> (p: ScenarioProfile)
    ensures
        p == spec_default_profile(),
{
    ScenarioProfile {
        connection_grouping: ConnectionGrouping::PerRequest,
        first_request_separate: false,
        use_zero_rtt: false,
        require_retry: false,
        restricted_versions: None,
        cipher_restriction: CipherRestriction::DefaultSuites,
        max_concurrent_streams: None,
        log_level: LogLevel::Info,
    }
}

/// Resolves a scenario name against the canonical table.  The result is a
/// pure function of the name; an unknown name is a fatal configuration
/// error and never a partial profile.
pub fn resolve(name: &str) -> (r: Result<ScenarioProfile, ConfigError>)
    ensures
        r == spec_resolve(name@),
{
    if name_is(name, "handshake") {
        Ok(default_profile())
    } else if name_is(name, "transfer") {
        Ok(ScenarioProfile {
            connection_grouping: ConnectionGrouping::SingleShared,
            ..default_profile()
        })
    } else if name_is(name, "multihandshake") {
        Ok(default_profile())
    } else if name_is(name, "versionnegotiation") {
        Ok(ScenarioProfile {
            restricted_versions: Some(NEGOTIATION_FORCING_VERSION),
            ..default_profile()
        })
    } else if name_is(name, "chacha20") {
        Ok(ScenarioProfile {
            cipher_restriction: CipherRestriction::SingleSuiteOnly,
            ..default_profile()
        })
    } else if name_is(name, "retry") {
        Ok(ScenarioProfile { require_retry: true, ..default_profile() })
    } else if name_is(name, "resumption") {
        Ok(ScenarioProfile {
            connection_grouping: ConnectionGrouping::SingleShared,
            first_request_separate: true,
            ..default_profile()
        })
    } else if name_is(name, "zerortt") {
        Ok(ScenarioProfile {
            connection_grouping: ConnectionGrouping::SingleShared,
            first_request_separate: true,
            use_zero_rtt: true,
            ..default_profile()
        })
    } else if name_is(name, "transportparameter") {
        Ok(ScenarioProfile {
            connection_grouping: ConnectionGrouping::SingleShared,
            max_concurrent_streams: Some(10),
            ..default_profile()
        })
    } else if name_is(name, "goodput") {
        Ok(ScenarioProfile { log_level: LogLevel::Off, ..default_profile() })
    } else if name_is(name, "optimize") {
        Ok(ScenarioProfile {
            max_concurrent_streams: Some(255),
            log_level: LogLevel::Off,
            ..default_profile()
        })
    } else {
        Err(ConfigError::UnknownScenario)
    }
}

/// The version set the server offers under this profile: restricted
/// scenarios keep only QUIC version 1, all others leave the transport's
/// default set in place (`None`).
pub fn server_supported_version(profile: &ScenarioProfile) -> (v: Option<u32>)
    ensures
        v == (if profile.restricted_versions is Some {
            Some(BASE_QUIC_VERSION)
        } else {
            None::<u32>
        }),
{
    match profile.restricted_versions {
        Some(_) => Some(BASE_QUIC_VERSION),
        None => None,
    }
}

/// Law: resolution is deterministic.  Two calls on the same name yield the
/// same profile, because the result is a pure function of the name.
pub proof fn lemma_resolve_deterministic(a: Seq<char>, b: Seq<char>)
    requires
        a == b,
    ensures
        spec_resolve(a) == spec_resolve(b),
{
}

/// Law: resolution is total.  Every name in the canonical table yields a
/// profile, and every other name yields exactly `UnknownScenario`.
pub proof fn lemma_resolve_total(name: Seq<char>)
    ensures
        is_known_scenario(name) <==> spec_resolve(name) is Ok,
        !is_known_scenario(name) ==> spec_resolve(name) == Err::<
            ScenarioProfile,
            ConfigError,
        >(ConfigError::UnknownScenario),
{
}

} // verus!
