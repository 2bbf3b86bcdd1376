//! The service's settings and how they are read from the environment.
//!
//! Reading the process environment and the `.env` file is left to the caller,
//! which hands over the outcome of loading `.env` and the variables that the
//! environment then holds.

use vstd::prelude::*;

use crate::text::{
    all_ascii, all_ascii_digits, ascii_lowercase, digits_value, trim_end, trim_start, parse_u32, parse_u64, str_eq, str_lowercase, to_lowercase,
    trim, trimmed, unsigned_numeral,
};

verus! {

/// The error that `dotenvy` reports for a `.env` file, carried through unopened.
#[verifier::external_type_specification]
#[verifier::external_body]
pub struct ExDotenvError(dotenvy::Error);

pub const RUST_LOG_VAR: &'static str = "RUST_LOG";

pub const SESSION_ID_VAR: &'static str = "TRADINGVIEW_SESSION_ID";

pub const SESSION_ID_SIGN_VAR: &'static str = "TRADINGVIEW_SESSION_ID_SIGN";

pub const HEADLESS_VAR: &'static str = "MCP_SCRAPER_HEADLESS";

pub const WINDOW_WIDTH_VAR: &'static str = "MCP_SCRAPER_WINDOW_WIDTH";

pub const WINDOW_HEIGHT_VAR: &'static str = "MCP_SCRAPER_WINDOW_HEIGHT";

pub const CHART_PAGE_ID_VAR: &'static str = "MCP_SCRAPER_CHART_PAGE_ID";

pub const USE_SAVE_SHORTCUT_VAR: &'static str = "MCP_SCRAPER_USE_SAVE_SHORTCUT";

pub const REQUEST_TIMEOUT_VAR: &'static str = "TRADESNAP_REQUEST_TIMEOUT_SECONDS";

/// Error type for configuration loading and validation.
#[derive(Debug)]
pub enum ConfigError {
    /// A required environment variable is not set.
    MissingVar(String),
    /// An environment variable does not hold a number of the expected type.
    ParseIntError { key: String, source: std::num::ParseIntError },
    /// The `.env` file could not be loaded.
    Dotenv(dotenvy::Error),
}

/// Configuration manager holding all environment variables.
#[derive(Debug, Clone)]
pub struct Config {
    pub rust_log: String,
    pub session_id: String,
    pub session_id_sign: String,
    pub headless: bool,
    pub window_width: u32,
    pub window_height: u32,
    pub chart_page_id: String,
    pub use_save_shortcut: bool,
    pub request_timeout_seconds: u64,
}

/// The mathematical content of a `Config`.
pub struct ConfigView {
    pub rust_log: Seq<char>,
    pub session_id: Seq<char>,
    pub session_id_sign: Seq<char>,
    pub headless: bool,
    pub window_width: u32,
    pub window_height: u32,
    pub chart_page_id: Seq<char>,
    pub use_save_shortcut: bool,
    pub request_timeout_seconds: u64,
}

impl View for Config {
    type V = ConfigView;

    open spec fn view(&self) -> ConfigView {
        ConfigView {
            rust_log: self.rust_log@,
            session_id: self.session_id@,
            session_id_sign: self.session_id_sign@,
            headless: self.headless,
            window_width: self.window_width,
            window_height: self.window_height,
            chart_page_id: self.chart_page_id@,
            use_save_shortcut: self.use_save_shortcut,
            request_timeout_seconds: self.request_timeout_seconds,
        }
    }
}

/// What loading the configuration from an environment comes to.
pub enum ConfigOutcome {
    Loaded(ConfigView),
    /// The named variable is required and not set.
    Missing(Seq<char>),
    /// The named variable does not hold a number of its type.
    Unparsable(Seq<char>),
}

/// The value of `key` in `env`: the first pair with that name.
pub open spec fn env_lookup(env: Seq<(String, String)>, key: Seq<char>) -> Option<Seq<char>>
    decreases env.len(),
{
    if env.len() == 0 {
        None
    } else if env[0].0@ == key {
        Some(env[0].1@)
    } else {
        env_lookup(env.drop_first(), key)
    }
}

/// The value of `key` in `env`, or `default` where it is not set.
pub open spec fn env_or(env: Seq<(String, String)>, key: Seq<char>, default: Seq<char>) -> Seq<
    char,
> {
    match env_lookup(env, key) {
        Some(v) => v,
        None => default,
    }
}

/// A switch is on when its value, trimmed and lowercased, is `true`.
pub open spec fn flag_value(raw: Seq<char>) -> bool {
    str_lowercase(trimmed(raw)) == "true"@
}

pub open spec fn u32_value(raw: Seq<char>) -> Option<u32> {
    match unsigned_numeral(raw) {
        Some(n) => if n <= u32::MAX {
            Some(n as u32)
        } else {
            None
        },
        None => None,
    }
}

pub open spec fn u64_value(raw: Seq<char>) -> Option<u64> {
    match unsigned_numeral(raw) {
        Some(n) => if n <= u64::MAX {
            Some(n as u64)
        } else {
            None
        },
        None => None,
    }
}

/// The configuration that the variables in `env` give, with the documented
/// defaults for the variables that are not set. The two session variables
/// are required; the numbers are checked in the order width, height, timeout.
pub open spec fn config_outcome(env: Seq<(String, String)>) -> ConfigOutcome {
    let width = u32_value(env_or(env, WINDOW_WIDTH_VAR@, "1920"@));
    let height = u32_value(env_or(env, WINDOW_HEIGHT_VAR@, "1080"@));
    let timeout = u64_value(env_or(env, REQUEST_TIMEOUT_VAR@, "20"@));
    if env_lookup(env, SESSION_ID_VAR@) is None {
        ConfigOutcome::Missing(SESSION_ID_VAR@)
    } else if env_lookup(env, SESSION_ID_SIGN_VAR@) is None {
        ConfigOutcome::Missing(SESSION_ID_SIGN_VAR@)
    } else if width is None {
        ConfigOutcome::Unparsable(WINDOW_WIDTH_VAR@)
    } else if height is None {
        ConfigOutcome::Unparsable(WINDOW_HEIGHT_VAR@)
    } else if timeout is None {
        ConfigOutcome::Unparsable(REQUEST_TIMEOUT_VAR@)
    } else {
        ConfigOutcome::Loaded(
            ConfigView {
                rust_log: env_or(env, RUST_LOG_VAR@, "info"@),
                session_id: env_lookup(env, SESSION_ID_VAR@)->0,
                session_id_sign: env_lookup(env, SESSION_ID_SIGN_VAR@)->0,
                headless: flag_value(env_or(env, HEADLESS_VAR@, "true"@)),
                window_width: width->0,
                window_height: height->0,
                chart_page_id: env_or(env, CHART_PAGE_ID_VAR@, ""@),
                use_save_shortcut: flag_value(env_or(env, USE_SAVE_SHORTCUT_VAR@, "true"@)),
                request_timeout_seconds: timeout->0,
            },
        )
    }
}

/// `r` is what `config_outcome` describes: the same configuration, or an
/// error that names the same variable.
pub open spec fn matches_outcome(r: Result<Config, ConfigError>, outcome: ConfigOutcome) -> bool {
    match (r, outcome) {
        (Ok(c), ConfigOutcome::Loaded(v)) => c@ == v,
        (Err(ConfigError::MissingVar(k)), ConfigOutcome::Missing(key)) => k@ == key,
        (Err(ConfigError::ParseIntError { key: k, .. }), ConfigOutcome::Unparsable(key)) => k@ == key,
        _ => false,
    }
}

/// With only the two session variables set, every other setting takes its
/// documented default: log filter `info`, headless, a 1920 by 1080 window, no
/// chart page, the save shortcut, and a 20-second request timeout.
pub proof fn lemma_defaults(env: Seq<(String, String)>)
    requires
        env_lookup(env, SESSION_ID_VAR@) is Some,
        env_lookup(env, SESSION_ID_SIGN_VAR@) is Some,
        env_lookup(env, RUST_LOG_VAR@) is None,
        env_lookup(env, HEADLESS_VAR@) is None,
        env_lookup(env, WINDOW_WIDTH_VAR@) is None,
        env_lookup(env, WINDOW_HEIGHT_VAR@) is None,
        env_lookup(env, CHART_PAGE_ID_VAR@) is None,
        env_lookup(env, USE_SAVE_SHORTCUT_VAR@) is None,
        env_lookup(env, REQUEST_TIMEOUT_VAR@) is None,
    ensures
        config_outcome(env) == ConfigOutcome::Loaded(
            ConfigView {
                rust_log: "info"@,
                session_id: env_lookup(env, SESSION_ID_VAR@)->0,
                session_id_sign: env_lookup(env, SESSION_ID_SIGN_VAR@)->0,
                headless: true,
                window_width: 1920,
                window_height: 1080,
                chart_page_id: ""@,
                use_save_shortcut: true,
                request_timeout_seconds: 20,
            },
        ),
{
    reveal_strlit("true");
    let tr = "true"@;
    assert(tr =~= seq!['t', 'r', 'u', 'e']);
    assert(trim_start(tr) == tr);
    assert(trim_end(tr) == tr);
    assert(all_ascii(tr));
    assert(ascii_lowercase(tr) =~= tr);
    assert(flag_value(tr));
    reveal_strlit("1920");
    reveal_strlit("1080");
    reveal_strlit("20");
    let w = "1920"@;
    let h = "1080"@;
    let t = "20"@;
    assert(all_ascii_digits(w));
    assert(all_ascii_digits(h));
    assert(all_ascii_digits(t));
    assert(w.drop_last().drop_last().drop_last() =~= seq!['1']);
    assert(w.drop_last().drop_last() =~= seq!['1', '9']);
    assert(w.drop_last() =~= seq!['1', '9', '2']);
    assert(digits_value(w) == 1920) by {
        reveal_with_fuel(digits_value, 5);
    }
    assert(h.drop_last().drop_last().drop_last() =~= seq!['1']);
    assert(h.drop_last().drop_last() =~= seq!['1', '0']);
    assert(h.drop_last() =~= seq!['1', '0', '8']);
    assert(digits_value(h) == 1080) by {
        reveal_with_fuel(digits_value, 5);
    }
    assert(t.drop_last() =~= seq!['2']);
    assert(digits_value(t) == 20) by {
        reveal_with_fuel(digits_value, 3);
    }
}

/// Each switch is read from its own variable and from nothing else: once the
/// configuration loads, the save shortcut is on exactly when
/// `MCP_SCRAPER_USE_SAVE_SHORTCUT` (default `true`), trimmed and lowercased,
/// reads `true`, whatever `MCP_SCRAPER_HEADLESS` holds, and the browser is
/// headless exactly when `MCP_SCRAPER_HEADLESS` (default `true`) reads `true`
/// in the same way, whatever the other switch holds. The value `false` turns
/// either switch off.
pub proof fn lemma_switches_read_own_variable(env: Seq<(String, String)>)
    ensures
        config_outcome(env) matches ConfigOutcome::Loaded(v) ==> v.use_save_shortcut == (
        str_lowercase(trimmed(env_or(env, "MCP_SCRAPER_USE_SAVE_SHORTCUT"@, "true"@)))
            == "true"@),
        config_outcome(env) matches ConfigOutcome::Loaded(v) ==> v.headless == (str_lowercase(
            trimmed(env_or(env, "MCP_SCRAPER_HEADLESS"@, "true"@)),
        ) == "true"@),
        config_outcome(env) matches ConfigOutcome::Loaded(v) ==> (env_lookup(
            env,
            "MCP_SCRAPER_USE_SAVE_SHORTCUT"@,
        ) == Some("false"@) ==> !v.use_save_shortcut),
        config_outcome(env) matches ConfigOutcome::Loaded(v) ==> (env_lookup(
            env,
            "MCP_SCRAPER_HEADLESS"@,
        ) == Some("false"@) ==> !v.headless),
{
    lemma_false_is_off();
}

/// The switch value `false` reads as off.
proof fn lemma_false_is_off()
    ensures
        !flag_value("false"@),
{
    reveal_strlit("false");
    reveal_strlit("true");
    let f = "false"@;
    assert(f =~= seq!['f', 'a', 'l', 's', 'e']);
    assert(trim_start(f) == f);
    assert(trim_end(f) == f);
    assert(all_ascii(f));
    assert(ascii_lowercase(f) =~= f);
    assert(f[0] != "true"@[0]);
}

/// The kinds of failure that loading a `.env` file reports.
#[derive(Debug, Clone, Copy, PartialEq, Eq)]
pub enum DotenvFailure {
    /// The file could not be read (among others: it does not exist).
    Io,
    /// A line of the file could not be parsed.
    LineParse,
    /// A variable that the file refers to could not be read.
    EnvVar,
    /// A kind that `dotenvy` may add later.
    Other,
}

/// The first pair of `env` named `key`.
fn lookup<'a>(env: &'a Vec<(String, String)>, key: &str) -> (r: Option<&'a String>)
    ensures
        opt_string_view(r) == env_lookup(env@, key@),
{
    let mut i: usize = 0;
    assert(env@.subrange(0, env@.len() as int) =~= env@);
    while i < env.len()
        invariant
            i <= env@.len(),
            env_lookup(env@, key@) == env_lookup(env@.subrange(i as int, env@.len() as int), key@),
        decreases env@.len() - i,
    {
        let ghost rest = env@.subrange(i as int, env@.len() as int);
        assert(rest.drop_first() =~= env@.subrange(i + 1, env@.len() as int));
        if str_eq(env[i].0.as_str(), key) {
            return Some(&env[i].1);
        }
        i += 1;
    }
    None
}

pub open spec fn opt_string_view(o: Option<&String>) -> Option<Seq<char>> {
    match o {
        Some(s) => Some(s@),
        None => None,
    }
}

/// The value of `key` in `env`, or `default`.
fn value_or<'a>(env: &'a Vec<(String, String)>, key: &str, default: &'a str) -> (r: &'a str)
    ensures
        r@ == env_or(env@, key@, default@),
{
    match lookup(env, key) {
        Some(v) => v.as_str(),
        None => default,
    }
}

fn owned(s: &str) -> (r: String)
    ensures
        r@ == s@,
{
    s.to_owned()
}

impl Config {
    /// Whether a switch value means "on": trimmed and lowercased, it reads `true`.
    pub fn parse_flag(raw: &str) -> (r: bool)
        ensures
            r == flag_value(raw@),
    {
        let lowered = to_lowercase(trim(raw));
        Self::is_true_word(lowered.as_str())
    }

    /// Whether an already trimmed and lowercased switch value is `true`.
    pub fn is_true_word(lowered: &str) -> (r: bool)
        ensures
            r == (lowered@ == "true"@),
    {
        str_eq(lowered, "true")
    }

    /// Builds the configuration from the variables that the environment holds
    /// (names and values; a variable that is not valid Unicode counts as not
    /// set). `RUST_LOG` defaults to `info`, the two switches to `true`, the
    /// window to 1920 by 1080, the chart page to none and the request timeout
    /// to 20 seconds; the two session variables are required.
    pub fn from_env(env: &Vec<(String, String)>) -> (r: Result<Config, ConfigError>)
        ensures
            matches_outcome(r, config_outcome(env@)),
            r matches Ok(c) ==> c.use_save_shortcut == (str_lowercase(
                trimmed(env_or(env@, "MCP_SCRAPER_USE_SAVE_SHORTCUT"@, "true"@)),
            ) == "true"@),
            r matches Ok(c) ==> c.headless == (str_lowercase(
                trimmed(env_or(env@, "MCP_SCRAPER_HEADLESS"@, "true"@)),
            ) == "true"@),
    {
        let rust_log = owned(value_or(env, RUST_LOG_VAR, "info"));
        let session_id = match lookup(env, SESSION_ID_VAR) {
            Some(v) => v.clone(),
            None => {
                return Err(ConfigError::MissingVar(owned(SESSION_ID_VAR)));
            },
        };
        let session_id_sign = match lookup(env, SESSION_ID_SIGN_VAR) {
            Some(v) => v.clone(),
            None => {
                return Err(ConfigError::MissingVar(owned(SESSION_ID_SIGN_VAR)));
            },
        };
        let headless = Self::parse_flag(value_or(env, HEADLESS_VAR, "true"));
        let window_width = match parse_u32(value_or(env, WINDOW_WIDTH_VAR, "1920")) {
            Ok(v) => v,
            Err(source) => {
                return Err(ConfigError::ParseIntError { key: owned(WINDOW_WIDTH_VAR), source });
            },
        };
        let window_height = match parse_u32(value_or(env, WINDOW_HEIGHT_VAR, "1080")) {
            Ok(v) => v,
            Err(source) => {
                return Err(ConfigError::ParseIntError { key: owned(WINDOW_HEIGHT_VAR), source });
            },
        };
        let chart_page_id = owned(value_or(env, CHART_PAGE_ID_VAR, ""));
        let use_save_shortcut = Self::parse_flag(value_or(env, USE_SAVE_SHORTCUT_VAR, "true"));
        let request_timeout_seconds = match parse_u64(value_or(env, REQUEST_TIMEOUT_VAR, "20")) {
            Ok(v) => v,
            Err(source) => {
                return Err(ConfigError::ParseIntError { key: owned(REQUEST_TIMEOUT_VAR), source });
            },
        };
        Ok(
            Config {
                rust_log,
                session_id,
                session_id_sign,
                headless,
                window_width,
                window_height,
                chart_page_id,
                use_save_shortcut,
                request_timeout_seconds,
            },
        )
    }

    /// Whether a failure to load the `.env` file stops the configuration from
    /// loading: every failure does, but for a file that cannot be read (the
    /// file is optional).
    pub fn dotenv_failure_is_fatal(kind: DotenvFailure) -> (r: bool)
        ensures
            r == !(kind is Io),
    {
        match kind {
            DotenvFailure::Io => false,
            _ => true,
        }
    }

    /// Loads the configuration from the outcome of loading the `.env` file
    /// (`None` where it loaded; else the kind of failure and the error) and
    /// the variables that the environment then holds. A `.env` failure other
    /// than an unreadable file (the file is optional) is returned as
    /// `ConfigError::Dotenv`; otherwise the result is that of `from_env`.
    pub fn from_sources(dotenv: Option<(DotenvFailure, dotenvy::Error)>, env: &Vec<(String, String)>) -> (r:
        Result<Config, ConfigError>)
        ensures
            dotenv matches Some((k, e)) ==> (!(k is Io) ==> r == Err::<Config, ConfigError>(
                ConfigError::Dotenv(e),
            )),
            !(dotenv matches Some((k, _)) && !(k is Io)) ==> matches_outcome(r, config_outcome(env@)),
    {
        if let Some((kind, e)) = dotenv {
            if Self::dotenv_failure_is_fatal(kind) {
                return Err(ConfigError::Dotenv(e));
            }
        }
        Self::from_env(env)
    }
}

} // verus!
