//! Logger configuration: the ingestion URL, the API key and the minimum
//! level, checked and normalised once at start-up.
use vstd::prelude::*;
use vstd::string::*;
use crate::level::{Level, get_log_level, spec_get_log_level};
use crate::text::{ends_with, spec_ends_with};

verus! {

/// Base URL used when none is configured.
pub const DEFAULT_URL: &'static str = "http://localhost:5341";

/// Path of the ingestion endpoint.
pub const INGEST_SUFFIX: &'static str = "/ingest/clef";

/// Why a logger could not be set up.
#[derive(Clone, Copy, Debug, PartialEq, Eq, Structural)]
pub enum ConfigError {
    EmptySource,
    MissingApiKey,
    AlreadyRegistered,
}

impl ConfigError {
    pub fn message(&self) -> (r: &'static str)
        ensures
            r@ == match self {
                ConfigError::EmptySource => "source name is empty"@,
                ConfigError::MissingApiKey => "API key not found"@,
                ConfigError::AlreadyRegistered => "a logger is already registered"@,
            },
    {
        match self {
            ConfigError::EmptySource => "source name is empty",
            ConfigError::MissingApiKey => "API key not found",
            ConfigError::AlreadyRegistered => "a logger is already registered",
        }
    }
}

/// A checked configuration.
pub struct Config {
    pub source: String,
    pub url: String,
    pub api_key: String,
    pub level: Level,
}

pub open spec fn opt_str_view(o: Option<&str>) -> Option<Seq<char>> {
    match o {
        Some(s) => Some(s@),
        None => None,
    }
}

/// The endpoint URL: the base (or the default one), with the ingestion path
/// appended unless it already ends with it.
pub open spec fn spec_endpoint(url: Option<Seq<char>>) -> Seq<char> {
    let base = match url {
        Some(u) => u,
        None => DEFAULT_URL@,
    };
    if spec_ends_with(base, INGEST_SUFFIX@) {
        base
    } else {
        base + INGEST_SUFFIX@
    }
}

pub fn endpoint(url: Option<&str>) -> (r: String)
    ensures
        r@ == spec_endpoint(opt_str_view(url)),
{
    let mut u = match url {
        Some(u) => String::from_str(u),
        None => String::from_str(DEFAULT_URL),
    };
    if !ends_with(u.as_str(), INGEST_SUFFIX) {
        u.append(INGEST_SUFFIX);
    }
    u
}

/// Checks and normalises the configuration: the source name must be
/// non-empty and the API key present; the level comes from the first of
/// the two level settings that is present.
pub fn init(
    source: &str,
    url: Option<&str>,
    api_key: Option<&str>,
    level_setting: Option<&str>,
    fallback_level_setting: Option<&str>,
) -> (r: Result<Config, ConfigError>)
    ensures
        source@.len() == 0 <==> r == Err::<Config, ConfigError>(ConfigError::EmptySource),
        (source@.len() > 0 && api_key is None) <==> r == Err::<Config, ConfigError>(ConfigError::MissingApiKey),
        r is Ok <==> (source@.len() > 0 && api_key is Some),
        r is Ok ==> {
            let c = r->Ok_0;
            &&& c.source@ == source@
            &&& c.url@ == spec_endpoint(opt_str_view(url))
            &&& c.api_key@ == api_key->Some_0@
            &&& c.level == spec_get_log_level(opt_str_view(level_setting), opt_str_view(fallback_level_setting))
        },
{
    if source.unicode_len() == 0 {
        return Err(ConfigError::EmptySource);
    }
    let key = match api_key {
        Some(k) => String::from_str(k),
        None => {
            return Err(ConfigError::MissingApiKey);
        },
    };
    let level = get_log_level(level_setting, fallback_level_setting);
    assert(level == spec_get_log_level(opt_str_view(level_setting), opt_str_view(fallback_level_setting)));
    Ok(Config { source: String::from_str(source), url: endpoint(url), api_key: key, level })
}

} // verus!
