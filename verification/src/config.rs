//! The process configuration: four settings, each with a default, and the
//! verbosity of the log.

use vstd::prelude::*;

verus! {

/// The consumer group, where none is configured.
pub const DEFAULT_GROUP_ID: &'static str = "bzkf-kafkatopic-splitter";

/// The broker endpoints, where none are configured.
pub const DEFAULT_BOOTSTRAP_SERVERS: &'static str = "kafka:9094";

/// The source topic, where none is configured.
pub const DEFAULT_SOURCE_TOPIC: &'static str = "onkostar.MELDUNG_EXPORT";

/// The prefix of the destination topics, where none is configured.
pub const DEFAULT_TOPIC_PREFIX: &'static str = "onkostar.MELDUNG_EXPORT.";

/// The configured log level that asks for `Verbosity::Debug`.
pub const DEBUG_LEVEL: &'static str = "debug";

/// How much the process logs.
#[derive(Clone, Copy, Debug, PartialEq, Eq, Structural)]
pub enum Verbosity {
    /// Failures and the start of the process.
    Info,
    /// Also every routed record, rebalance and commit.
    Debug,
}

/// The settings of one process, fixed at its start.
#[derive(Clone, Debug, PartialEq, Eq)]
pub struct Config {
    /// The consumer group that the process joins.
    pub group_id: String,
    /// The broker endpoints that consumer and producer connect to.
    pub bootstrap_servers: String,
    /// The topic that records are consumed from.
    pub source_topic: String,
    /// What a destination topic's name starts with.
    pub topic_prefix: String,
    /// How much is logged.
    pub verbosity: Verbosity,
}

/// A setting's value: the configured one, or the default.
pub open spec fn spec_setting(configured: Option<String>, default: Seq<char>) -> Seq<char> {
    match configured {
        Some(value) => value@,
        None => default,
    }
}

/// The configured value of a setting, or its default.
pub fn setting(configured: Option<String>, default: &str) -> (r: String)
    ensures
        r@ == spec_setting(configured, default@),
{
    match configured {
        Some(value) => value,
        None => String::from_str(default),
    }
}

/// The verbosity that a configured level asks for: `Debug` for the level
/// `debug`, `Info` for any other and for none.
pub open spec fn spec_verbosity(level: Option<String>) -> Verbosity {
    match level {
        Some(name) => if name@ == DEBUG_LEVEL@ {
            Verbosity::Debug
        } else {
            Verbosity::Info
        },
        None => Verbosity::Info,
    }
}

/// The verbosity that a configured level asks for.
pub fn verbosity(level: Option<String>) -> (r: Verbosity)
    ensures
        r == spec_verbosity(level),
{
    match level {
        Some(name) => {
            if name == String::from_str(DEBUG_LEVEL) {
                Verbosity::Debug
            } else {
                Verbosity::Info
            }
        },
        None => Verbosity::Info,
    }
}

impl Config {
    /// Builds the configuration from what the environment holds: a setting
    /// that is not configured takes its default.
    pub fn resolve(
        group_id: Option<String>,
        bootstrap_servers: Option<String>,
        source_topic: Option<String>,
        topic_prefix: Option<String>,
        log_level: Option<String>,
    ) -> (r: Config)
        ensures
            r.group_id@ == spec_setting(group_id, DEFAULT_GROUP_ID@),
            r.bootstrap_servers@ == spec_setting(bootstrap_servers, DEFAULT_BOOTSTRAP_SERVERS@),
            r.source_topic@ == spec_setting(source_topic, DEFAULT_SOURCE_TOPIC@),
            r.topic_prefix@ == spec_setting(topic_prefix, DEFAULT_TOPIC_PREFIX@),
            r.verbosity == spec_verbosity(log_level),
    {
        Config {
            group_id: setting(group_id, DEFAULT_GROUP_ID),
            bootstrap_servers: setting(bootstrap_servers, DEFAULT_BOOTSTRAP_SERVERS),
            source_topic: setting(source_topic, DEFAULT_SOURCE_TOPIC),
            topic_prefix: setting(topic_prefix, DEFAULT_TOPIC_PREFIX),
            verbosity: verbosity(log_level),
        }
    }
}

} // verus!
