//! Where the relay sends to: the endpoint address, put together from the host
//! and the token that the producing application's installation holds, or from
//! the operator's overrides.

use vstd::prelude::*;
use vstd::string::*;

verus! {

/// The file of the installation that names the host, relative to its directory.
pub const HOST_FILE: &'static str = "mods/streamer_wands/files/ws/host.lua";

/// The file of the installation that holds the token, relative to its directory.
pub const TOKEN_FILE: &'static str = "mods/streamer_wands/token.lua";

/// The file that the producing application writes, relative to its directory.
pub const WATCHED_FILE: &'static str = "streamer-wands.json";

/// The directory that receives the support files, relative to the installation.
pub const SUPPORT_DIR: &'static str = "mods/streamer_wands_linux";

/// The pattern whose first group is the host in the text of [`HOST_FILE`].
pub const HOST_PATTERN: &'static str = "HOST_URL = \"(.*?)\"";

/// The pattern whose first group is the token in the text of [`TOKEN_FILE`].
pub const TOKEN_PATTERN: &'static str = "return \"(.*?)\"";

/// Why no endpoint address could be put together.
#[derive(Clone, Copy, Debug, PartialEq, Eq, Structural)]
pub enum ConfigError {
    /// No override was given and the host file could not be read.
    HostUnreadable,
    /// The host file does not name a host.
    HostMalformed,
    /// No override was given and the token file could not be read.
    TokenUnreadable,
    /// The token file does not hold a token.
    TokenMalformed,
}

impl ConfigError {
    /// The line that tells the operator what went wrong.
    pub open spec fn text(self) -> Seq<char> {
        match self {
            ConfigError::HostUnreadable => "Failed to read streamer wands host, is the mod installed?"@,
            ConfigError::HostMalformed => "Malformed host.lua, either streamer wands is corrupted or new/outdated"@,
            ConfigError::TokenUnreadable => "Failed to read streamer wands token, is the mod installed?"@,
            ConfigError::TokenMalformed => "Malformed token.lua, either streamer wands is corrupted or new/outdated"@,
        }
    }

    /// The line that tells the operator what went wrong.
    pub fn message(&self) -> (m: &'static str)
        ensures
            m@ == self.text(),
    {
        match self {
            ConfigError::HostUnreadable => "Failed to read streamer wands host, is the mod installed?",
            ConfigError::HostMalformed => "Malformed host.lua, either streamer wands is corrupted or new/outdated",
            ConfigError::TokenUnreadable => "Failed to read streamer wands token, is the mod installed?",
            ConfigError::TokenMalformed => "Malformed token.lua, either streamer wands is corrupted or new/outdated",
        }
    }
}

/// What the first capture group of `pattern` holds in the leftmost match that
/// the `regex` engine finds in `text`; `None` where nothing matches, where the
/// group took no part in the match, or where `pattern` does not compile.
pub uninterp spec fn first_group(pattern: Seq<char>, text: Seq<char>) -> Option<Seq<char>>;

/// Runs `lazy_regex::Regex` (the `regex` crate's `Regex`, as `lazy_regex`
/// hands it on): `Regex::new(pattern)`, then `captures(text)`, then
/// `Captures::get(1)`. Nothing is claimed of the outcome but that it depends on
/// the two texts alone, which is what [`first_group`] names.
#[verifier::external_body]
fn capture_first_group(pattern: &str, text: &str) -> (found: Option<String>)
    ensures
        found.deep_view() == first_group(pattern@, text@),
{
    let re = lazy_regex::Regex::new(pattern).ok()?;
    let caps = re.captures(text)?;
    match caps.get(1) {
        Some(m) => Some(m.as_str().to_owned()),
        None => None,
    }
}

/// `host`, closed by a slash unless it ends in one already.
pub open spec fn with_trailing_slash(host: Seq<char>) -> Seq<char> {
    if host.len() > 0 && host.last() == '/' {
        host
    } else {
        host.push('/')
    }
}

/// The host that a search of the host file yields.
pub open spec fn host_of_capture(captured: Option<Seq<char>>) -> Result<Seq<char>, ConfigError> {
    match captured {
        Some(host) => Ok(with_trailing_slash(host)),
        None => Err(ConfigError::HostMalformed),
    }
}

/// The token that a search of the token file yields.
pub open spec fn token_of_capture(captured: Option<Seq<char>>) -> Result<Seq<char>, ConfigError> {
    match captured {
        Some(token) => Ok(token),
        None => Err(ConfigError::TokenMalformed),
    }
}

/// The host: the override as it stands, else what the host file names.
pub open spec fn host_of(host_override: Option<Seq<char>>, host_lua: Option<Seq<char>>) -> Result<
    Seq<char>,
    ConfigError,
> {
    match host_override {
        Some(host) => Ok(host),
        None => match host_lua {
            Some(text) => host_of_capture(first_group(HOST_PATTERN@, text)),
            None => Err(ConfigError::HostUnreadable),
        },
    }
}

/// The token: the override as it stands, else what the token file holds.
pub open spec fn token_of(
    token_override: Option<Seq<char>>,
    token_lua: Option<Seq<char>>,
) -> Result<Seq<char>, ConfigError> {
    match token_override {
        Some(token) => Ok(token),
        None => match token_lua {
            Some(text) => token_of_capture(first_group(TOKEN_PATTERN@, text)),
            None => Err(ConfigError::TokenUnreadable),
        },
    }
}

/// The address: host, then token. A failure on the host's side comes first.
pub open spec fn join(
    host: Result<Seq<char>, ConfigError>,
    token: Result<Seq<char>, ConfigError>,
) -> Result<Seq<char>, ConfigError> {
    match host {
        Err(e) => Err(e),
        Ok(h) => match token {
            Err(e) => Err(e),
            Ok(t) => Ok(h + t),
        },
    }
}

/// A text or an error, the text by its view.
pub open spec fn outcome(r: Result<String, ConfigError>) -> Result<Seq<char>, ConfigError> {
    match r {
        Ok(s) => Ok(s@),
        Err(e) => Err(e),
    }
}

/// Turns what a search of the host file found into the host.
pub fn host_from_capture(captured: Option<String>) -> (r: Result<String, ConfigError>)
    ensures
        outcome(r) == host_of_capture(captured.deep_view()),
{
    match captured {
        None => Err(ConfigError::HostMalformed),
        Some(host) => {
            let n = host.as_str().unicode_len();
            if n > 0 && host.as_str().get_char(n - 1) == '/' {
                Ok(host)
            } else {
                proof {
                    reveal_strlit("/");
                }
                let mut host = host;
                host.append("/");
                assert(host@ =~= with_trailing_slash(captured.deep_view()->0));
                Ok(host)
            }
        },
    }
}

/// Turns what a search of the token file found into the token.
pub fn token_from_capture(captured: Option<String>) -> (r: Result<String, ConfigError>)
    ensures
        outcome(r) == token_of_capture(captured.deep_view()),
{
    match captured {
        None => Err(ConfigError::TokenMalformed),
        Some(token) => Ok(token),
    }
}

/// The host to connect to. `host_lua` is the text of [`HOST_FILE`], `None`
/// where it could not be read; it is looked at only without an override.
pub fn resolve_host(host_override: Option<String>, host_lua: Option<String>) -> (r: Result<
    String,
    ConfigError,
>)
    ensures
        outcome(r) == host_of(host_override.deep_view(), host_lua.deep_view()),
{
    match host_override {
        Some(host) => Ok(host),
        None => match host_lua {
            None => Err(ConfigError::HostUnreadable),
            Some(text) => host_from_capture(capture_first_group(HOST_PATTERN, text.as_str())),
        },
    }
}

/// The token to present. `token_lua` is the text of [`TOKEN_FILE`], `None`
/// where it could not be read; it is looked at only without an override.
pub fn resolve_token(token_override: Option<String>, token_lua: Option<String>) -> (r: Result<
    String,
    ConfigError,
>)
    ensures
        outcome(r) == token_of(token_override.deep_view(), token_lua.deep_view()),
{
    match token_override {
        Some(token) => Ok(token),
        None => match token_lua {
            None => Err(ConfigError::TokenUnreadable),
            Some(text) => token_from_capture(capture_first_group(TOKEN_PATTERN, text.as_str())),
        },
    }
}

/// The endpoint address: the host followed by the token.
pub fn snoop_ws_url(
    host_override: Option<String>,
    token_override: Option<String>,
    host_lua: Option<String>,
    token_lua: Option<String>,
) -> (r: Result<String, ConfigError>)
    ensures
        outcome(r) == join(
            host_of(host_override.deep_view(), host_lua.deep_view()),
            token_of(token_override.deep_view(), token_lua.deep_view()),
        ),
{
    let host = match resolve_host(host_override, host_lua) {
        Ok(host) => host,
        Err(e) => {
            return Err(e);
        },
    };
    let token = match resolve_token(token_override, token_lua) {
        Ok(token) => token,
        Err(e) => {
            return Err(e);
        },
    };
    Ok(host.concat(token.as_str()))
}

} // verus!
