//! Run configuration: the closed set of browser kinds, parsing of the session
//! count and the timeout, and the immutable `RunConfig` every task shares.
//!
//! All configuration errors are raised here, before any session is opened.

use vstd::prelude::*;
use crate::text::{dec_value, eq_ascii_ci, parse_u64, str_eq_ignore_ascii_case, valid_u64_numeral};

verus! {

/// Per-session timeout, in seconds, used when the environment does not set
/// one.
pub const DEFAULT_TIMEOUT_SECS: u64 = 600;

/// The closed set of browsers a session may request; anything else is a
/// configuration error.
#[derive(Clone, Copy, Debug, PartialEq, Eq, Structural)]
pub enum BrowserKind {
    Firefox,
    Chrome,
    Safari,
}

impl BrowserKind {
    /// The browser name as the remote grid's capabilities expect it.
    pub fn name(&self) -> (r: &'static str)
        ensures
            self is Firefox ==> r@ == "firefox"@,
            self is Chrome ==> r@ == "chrome"@,
            self is Safari ==> r@ == "safari"@,
    {
        match self {
            BrowserKind::Firefox => "firefox",
            BrowserKind::Chrome => "chrome",
            BrowserKind::Safari => "safari",
        }
    }
}

/// A startup-time configuration fault; fatal before any task launches.
#[derive(Debug)]
pub enum ConfigError {
    UnknownBrowser { input: String },
    MalformedCount { input: String },
    MalformedTimeout { input: String },
}

impl ConfigError {
    /// A human-readable description of the fault.
    pub fn message(&self) -> (r: String)
        ensures
            self matches ConfigError::UnknownBrowser { input } ==> r@ == "unknown browser kind: "@
                + input@,
            self matches ConfigError::MalformedCount { input } ==> r@
                == "session count is not a non-negative integer: "@ + input@,
            self matches ConfigError::MalformedTimeout { input } ==> r@
                == "TIMEOUT is not a non-negative integer of seconds: "@ + input@,
    {
        match self {
            ConfigError::UnknownBrowser { input } => {
                let mut m = "unknown browser kind: ".to_owned();
                m.append(input.as_str());
                m
            },
            ConfigError::MalformedCount { input } => {
                let mut m = "session count is not a non-negative integer: ".to_owned();
                m.append(input.as_str());
                m
            },
            ConfigError::MalformedTimeout { input } => {
                let mut m = "TIMEOUT is not a non-negative integer of seconds: ".to_owned();
                m.append(input.as_str());
                m
            },
        }
    }
}

/// Whether `s` names a browser of the closed set, up to ASCII case.
pub open spec fn known_browser_text(s: Seq<char>) -> bool {
    eq_ascii_ci(s, "firefox"@) || eq_ascii_ci(s, "chrome"@) || eq_ascii_ci(s, "safari"@)
}

/// Resolve a browser name, ignoring ASCII case, into the closed enumeration.
/// Unknown names are rejected here, before any network call could be made.
pub fn parse_browser_kind(s: &str) -> (r: Result<BrowserKind, ConfigError>)
    ensures
        r is Ok <==> known_browser_text(s@),
        eq_ascii_ci(s@, "firefox"@) ==> (r matches Ok(k) && k is Firefox),
        !eq_ascii_ci(s@, "firefox"@) && eq_ascii_ci(s@, "chrome"@) ==> (r matches Ok(k)
            && k is Chrome),
        !eq_ascii_ci(s@, "firefox"@) && !eq_ascii_ci(s@, "chrome"@) && eq_ascii_ci(s@, "safari"@)
            ==> (r matches Ok(k) && k is Safari),
        r matches Err(e) ==> (e matches ConfigError::UnknownBrowser { input } && input@ == s@),
{
    if str_eq_ignore_ascii_case(s, "firefox") {
        Ok(BrowserKind::Firefox)
    } else if str_eq_ignore_ascii_case(s, "chrome") {
        Ok(BrowserKind::Chrome)
    } else if str_eq_ignore_ascii_case(s, "safari") {
        Ok(BrowserKind::Safari)
    } else {
        Err(ConfigError::UnknownBrowser { input: s.to_owned() })
    }
}

/// Parse the requested session count: any non-negative integer, zero
/// included.
pub fn parse_count(s: &str) -> (r: Result<u64, ConfigError>)
    ensures
        r is Ok <==> valid_u64_numeral(s@),
        r matches Ok(n) ==> n == dec_value(s@),
        r matches Err(e) ==> (e matches ConfigError::MalformedCount { input } && input@ == s@),
{
    match parse_u64(s) {
        Some(n) => Ok(n),
        None => Err(ConfigError::MalformedCount { input: s.to_owned() }),
    }
}

/// The timeout the run must use for the given environment text: the default
/// when unset, otherwise the parsed number of seconds.
pub open spec fn timeout_of_env(text: Option<Seq<char>>) -> nat {
    match text {
        None => DEFAULT_TIMEOUT_SECS as nat,
        Some(t) => dec_value(t),
    }
}

/// Resolve the per-session timeout from the `TIMEOUT` environment text.
/// An unset variable falls back to the default; malformed text is a fatal
/// configuration error, never a silent fallback.
pub fn parse_timeout_secs(text: Option<&str>) -> (r: Result<u64, ConfigError>)
    ensures
        r is Ok <==> (text matches Some(t) ==> valid_u64_numeral(t@)),
        r matches Ok(n) ==> n == timeout_of_env(match text {
            Some(t) => Some(t@),
            None => None,
        }),
        r matches Err(e) ==> (e matches ConfigError::MalformedTimeout { input }
            && text matches Some(t) && input@ == t@),
{
    match text {
        None => Ok(DEFAULT_TIMEOUT_SECS),
        Some(t) => match parse_u64(t) {
            Some(n) => Ok(n),
            None => Err(ConfigError::MalformedTimeout { input: t.to_owned() }),
        },
    }
}

/// The immutable run configuration: constructed once before any session
/// starts, read-only afterwards.
pub struct RunConfig {
    pub endpoint: String,
    pub session_count: u64,
    pub browser: BrowserKind,
    pub per_session_timeout_secs: u64,
}

/// Build the run configuration from the external inputs, validating the
/// count, then the browser kind, then the timeout. Every configuration
/// error is raised here, before any session could be opened.
pub fn build_config(
    endpoint: String,
    count_text: &str,
    browser_text: Option<&str>,
    timeout_text: Option<&str>,
) -> (r: Result<RunConfig, ConfigError>)
    ensures
        r is Ok <==> valid_u64_numeral(count_text@) && (browser_text matches Some(b)
            ==> known_browser_text(b@)) && (timeout_text matches Some(t) ==> valid_u64_numeral(
            t@,
        )),
        r matches Ok(c) ==> {
            &&& c.endpoint@ == endpoint@
            &&& c.session_count == dec_value(count_text@)
            &&& c.per_session_timeout_secs == timeout_of_env(
                match timeout_text {
                    Some(t) => Some(t@),
                    None => None,
                },
            )
            &&& (browser_text is None ==> c.browser is Firefox)
            &&& (browser_text matches Some(b) ==> {
                &&& (eq_ascii_ci(b@, "firefox"@) ==> c.browser is Firefox)
                &&& (!eq_ascii_ci(b@, "firefox"@) && eq_ascii_ci(b@, "chrome"@) ==> c.browser
                    is Chrome)
                &&& (!eq_ascii_ci(b@, "firefox"@) && !eq_ascii_ci(b@, "chrome"@) && eq_ascii_ci(
                    b@,
                    "safari"@,
                ) ==> c.browser is Safari)
            })
        },
        r matches Err(e) ==> (match e {
            ConfigError::MalformedCount { input } => !valid_u64_numeral(count_text@) && input@
                == count_text@,
            ConfigError::UnknownBrowser { input } => valid_u64_numeral(count_text@)
                && browser_text is Some && !known_browser_text(browser_text->0@) && input@
                == browser_text->0@,
            ConfigError::MalformedTimeout { input } => valid_u64_numeral(count_text@) && (
            browser_text matches Some(b) ==> known_browser_text(b@)) && timeout_text is Some
                && !valid_u64_numeral(timeout_text->0@) && input@ == timeout_text->0@,
        }),
{
    let session_count = match parse_count(count_text) {
        Ok(n) => n,
        Err(e) => {
            return Err(e);
        },
    };
    let browser = match browser_text {
        None => BrowserKind::Firefox,
        Some(b) => match parse_browser_kind(b) {
            Ok(k) => k,
            Err(e) => {
                return Err(e);
            },
        },
    };
    let per_session_timeout_secs = match parse_timeout_secs(timeout_text) {
        Ok(n) => n,
        Err(e) => {
            return Err(e);
        },
    };
    Ok(RunConfig { endpoint, session_count, browser, per_session_timeout_secs })
}

} // verus!
