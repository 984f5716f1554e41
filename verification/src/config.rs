//! Configuration resolution: a three-tier fallback from an explicit
//! `--config` path, over a well-known default location, to a built-in
//! default that can never fail.

use vstd::prelude::*;
use vstd::string::StringExecFns;
use crate::args::ParsedArguments;

verus! {

/// Where a configuration came from: the guaranteed built-in fallback, or a
/// file that the process loaded successfully.
#[derive(Debug, Clone, PartialEq, Eq)]
pub enum ConfigSource {
    BuiltIn,
    File(String),
}

/// The resolved startup configuration, immutable once resolution is done and
/// handed to the server by value. Its concrete settings belong to the server
/// and its schema; this core owns only how the value is obtained, so the
/// value it carries is its provenance.
#[derive(Debug, Clone, PartialEq, Eq)]
pub struct Config {
    pub source: ConfigSource,
}

/// The guaranteed terminal fallback: a configuration whose construction can
/// never fail.
pub open spec fn builtin_config() -> Config {
    Config { source: ConfigSource::BuiltIn }
}

impl Config {
    /// Marks a configuration as loaded from the file at `path`. Reading and
    /// parsing that file is the process shell's task; this records the
    /// outcome's provenance.
    pub fn loaded_from(path: String) -> (c: Config)
        ensures
            c == (Config { source: ConfigSource::File(path) }),
    {
        Config { source: ConfigSource::File(path) }
    }
}

impl Default for Config {
    /// The built-in default configuration; infallible by design.
    fn default() -> (c: Config)
        ensures
            c == builtin_config(),
    {
        Config { source: ConfigSource::BuiltIn }
    }
}

/// Why an explicitly requested configuration failed to load. Fatal: the
/// operator asked for that file, so no fallback may paper over it.
#[derive(Debug, Clone, PartialEq, Eq)]
pub struct ConfigError {
    /// The path whose load was attempted.
    pub path: String,
    /// What went wrong, as the process shell reported it.
    pub detail: String,
}

/// The single human-readable line a failed load prints before the non-zero
/// exit.
pub open spec fn spec_config_error_message(path: Seq<char>, detail: Seq<char>) -> Seq<char> {
    "failed to load configuration from "@ + path + ": "@ + detail
}

impl ConfigError {
    pub fn new(path: String, detail: String) -> (e: ConfigError)
        ensures
            e == (ConfigError { path, detail }),
    {
        ConfigError { path, detail }
    }

    /// Renders the failure for the operator.
    pub fn message(&self) -> (r: String)
        ensures
            r@ == spec_config_error_message(self.path@, self.detail@),
    {
        let mut r = "failed to load configuration from ".to_owned();
        r.append(self.path.as_str());
        r.append(": ");
        r.append(self.detail.as_str());
        r
    }
}

/// The well-known location consulted when no explicit path is given.
pub open spec fn spec_default_config_path() -> Seq<char> {
    "/hab/svc/hab-builder-vault/config.toml"@
}

/// The path whose load the process should attempt for `parsed`: the explicit
/// `--config` value when one was given, the well-known default location
/// otherwise.
pub fn load_path(parsed: &ParsedArguments) -> (r: String)
    ensures
        parsed.config_path matches Some(p) ==> r@ == p@,
        parsed.config_path is None ==> r@ == spec_default_config_path(),
{
    match &parsed.config_path {
        Some(p) => p.clone(),
        None => "/hab/svc/hab-builder-vault/config.toml".to_owned(),
    }
}

/// The layered-fallback policy over the outcome of the one load attempt the
/// process made at `load_path`: an explicit path must succeed or fail loudly,
/// while an absent one falls back silently to the built-in default.
pub open spec fn spec_resolve(
    explicit: bool,
    attempt: Result<Config, ConfigError>,
) -> Result<Config, ConfigError> {
    match attempt {
        Ok(c) => Ok(c),
        Err(e) => if explicit {
            Err(e)
        } else {
            Ok(builtin_config())
        },
    }
}

/// Turns the load attempt's outcome into the configuration the process
/// starts with. `attempt` must be the outcome of loading the file at
/// `load_path(parsed)`: tier one (an explicit path) propagates its failure
/// untouched; tiers two and three fall back from a failed default-path load
/// to the built-in default, so an absent path can never end in an error.
pub fn resolve(parsed: &ParsedArguments, attempt: Result<Config, ConfigError>) -> (r: Result<
    Config,
    ConfigError,
>)
    ensures
        r == spec_resolve(parsed.config_path is Some, attempt),
        parsed.config_path is None ==> r is Ok,
        attempt is Ok ==> r == attempt,
{
    match attempt {
        Ok(c) => Ok(c),
        Err(e) => if parsed.config_path.is_some() {
            Err(e)
        } else {
            Ok(Config { source: ConfigSource::BuiltIn })
        },
    }
}

/// Tier-two and tier-three guarantee: without an explicit configuration path,
/// resolution can never fail — a failed default-path load falls back to the
/// built-in default, and a successful one is used as loaded.
pub proof fn lemma_absent_path_never_errors(attempt: Result<Config, ConfigError>)
    ensures
        spec_resolve(false, attempt) is Ok,
        attempt is Err ==> spec_resolve(false, attempt) == Ok::<Config, ConfigError>(
            builtin_config(),
        ),
        attempt matches Ok(c) ==> spec_resolve(false, attempt) == Ok::<Config, ConfigError>(c),
{
}

/// Tier-one guarantee: with an explicit configuration path, resolution
/// returns exactly the load attempt's outcome — a failure propagates and
/// never falls back, whatever a default-path load would have yielded.
pub proof fn lemma_explicit_path_propagates(attempt: Result<Config, ConfigError>)
    ensures
        spec_resolve(true, attempt) == attempt,
{
}

/// Resolution is a pure function of the parsed arguments and the load
/// attempt: two resolutions of the same inputs yield the same configuration.
pub proof fn lemma_resolve_idempotent(
    explicit: bool,
    attempt: Result<Config, ConfigError>,
    r1: Result<Config, ConfigError>,
    r2: Result<Config, ConfigError>,
)
    requires
        r1 == spec_resolve(explicit, attempt),
        r2 == spec_resolve(explicit, attempt),
    ensures
        r1 == r2,
{
}

} // verus!
