//! The settings of the proxy, as read from `REPLEX_*` variables, and the rule
//! by which a `*.replex.stream` host name carries the upstream host.
use vstd::prelude::*;
use vstd::utf8::{decode_utf8, valid_utf8};
use crate::text::{
    ascii_upper, before_first, has_infix, has_suffix, owned, prefix_before, to_ascii_uppercase,
    contains, ends_with, chars_of, from_chars,
};

verus! {

/// The settings of the proxy.
#[derive(Clone, Debug)]
pub struct Config {
    pub host: Option<String>,
    pub token: Option<String>,
    pub port: Option<u64>,
    pub interleave: bool,
    pub hub_restrictions: bool,
    pub exclude_watched: bool,
    pub cache_ttl: u64,
    pub cache_rows: bool,
    pub cache_rows_refresh: bool,
    pub hero_rows: Option<Vec<String>>,
    pub ssl_enable: bool,
    pub ssl_domain: Option<String>,
    pub newrelic_api_key: Option<String>,
    pub enable_console: bool,
    pub disable_continue_watching: bool,
    pub disable_user_state: bool,
    pub disable_leaf_count: bool,
    pub redirect_streams: bool,
    pub redirect_streams_host: Option<String>,
    pub disable_related: bool,
    pub disable_transcode: bool,
    pub force_maximum_quality: bool,
    pub auto_select_version: bool,
    pub video_transcode_fallback_for: Option<Vec<String>>,
    pub force_direct_play_for: Option<Vec<String>>,
    pub test_script: Option<String>,
    pub ntf_watchlist_force: bool,
    pub custom_sorting: Option<Vec<String>>,
    pub tmdb_api_key: Option<String>,
}

/// Default for settings that are off unless set.
pub fn default_as_false() -> (r: bool)
    ensures
        r == false,
{
    false
}

/// Default for settings that are on unless set.
pub fn default_as_true() -> (r: bool)
    ensures
        r == true,
{
    true
}

/// Default time to live of caches: thirty minutes, in seconds.
pub fn default_cache_ttl() -> (r: u64)
    ensures
        r == 1800,
{
    30 * 60
}

/// Always true.
pub fn deserialize_hosr() -> (r: bool)
    ensures
        r == true,
{
    true
}

/// The host as configured, with one trailing `/` removed.
pub open spec fn host_setting(s: Seq<char>) -> Seq<char> {
    if s.len() > 0 && s.last() == '/' {
        s.drop_last()
    } else {
        s
    }
}

/// Whether watched items are hidden: `REPLEX_INCLUDE_WATCHED`, when set,
/// decides (they are hidden exactly when it is false); otherwise the
/// `exclude_watched` setting does.
pub fn hide_watched(include_watched: Option<bool>, exclude_watched: bool) -> (r: bool)
    ensures
        r == match include_watched {
            Some(b) => !b,
            None => exclude_watched,
        },
{
    match include_watched {
        Some(b) => !b,
        None => exclude_watched,
    }
}

/// The endpoint streams are redirected to: `REPLEX_REDIRECT_STREAMS_URL`
/// when set, else `REPLEX_REDIRECT_STREAMS_HOST`.
pub fn streams_endpoint(url: Option<String>, host: Option<String>) -> (r: Option<String>)
    ensures
        r == match url {
            Some(u) => Some(u),
            None => host,
        },
{
    match url {
        Some(u) => Some(u),
        None => host,
    }
}

/// Reads the host setting: a trailing `/` is dropped.
pub fn deserialize_host(value: Option<String>) -> (r: Option<String>)
    ensures
        match value {
            Some(s) => r is Some && r->0@ == host_setting(s@),
            None => r is None,
        },
{
    match value {
        Some(s) => {
            let slash = ends_with(s.as_str(), "/");
            proof {
                reveal_strlit("/");
                if s@.len() > 0 {
                    assert(s@.subrange(s@.len() - 1, s@.len() as int)[0] == s@.last());
                    if s@.last() == '/' {
                        assert(s@.subrange(s@.len() - 1, s@.len() as int) =~= "/"@);
                    }
                }
            }
            if slash {
                let mut v = chars_of(s.as_str());
                v.pop();
                assert(v@ == s@.drop_last());
                Some(from_chars(&v))
            } else {
                Some(s)
            }
        },
        None => None,
    }
}

/// The decoding of a base32 text (RFC 4648 alphabet, with padding) by the
/// `data_encoding` crate; `None` where the text is no valid encoding.
pub uninterp spec fn base32_decoded(input: Seq<u8>) -> Option<Seq<u8>>;

/// `data_encoding::BASE32.decode`: decodes `input`. The result is named
/// `base32_decoded` and not stated further.
#[verifier::external_body]
fn base32_decode(input: &[u8]) -> (r: Option<Vec<u8>>)
    ensures
        match r {
            Some(v) => base32_decoded(input@) == Some(v@),
            None => base32_decoded(input@) is None,
        },
{
    data_encoding::BASE32.decode(input).ok()
}

/// `std::str::from_utf8`: the bytes are read as UTF-8 when they are valid
/// UTF-8 (the decoding is vstd's `decode_utf8`), and not otherwise.
#[verifier::external_body]
fn utf8_text(bytes: &[u8]) -> (r: Option<String>)
    ensures
        r is Some <==> valid_utf8(bytes@),
        r is Some ==> r->0@ == decode_utf8(bytes@),
{
    std::str::from_utf8(bytes).ok().map(|s| s.to_owned())
}

/// Why the upstream host could not be read from the request's host.
#[derive(Clone, Copy, Debug, PartialEq, Eq, Structural)]
pub enum HostError {
    /// The label before `.replex.stream` is no base32 text.
    NotBase32,
    /// The decoded label is no UTF-8 text.
    NotUtf8,
}

/// The label before `.replex.stream` in a host name, upper-cased, as bytes.
pub open spec fn encoded_host_label(host: Seq<char>) -> Seq<u8> {
    vstd::utf8::encode_utf8(ascii_upper(before_first(host, ".replex.stream"@)))
}

/// The upstream host that a `*.replex.stream` host name carries: the first
/// label is the base32 encoding of the upstream host.
pub open spec fn dynamic_host_spec(host: Seq<char>) -> Result<Option<Seq<char>>, HostError> {
    if !has_infix(host, "replex.stream"@) {
        Ok(None)
    } else {
        match base32_decoded(encoded_host_label(host)) {
            None => Err(HostError::NotBase32),
            Some(bytes) => if valid_utf8(bytes) {
                Ok(Some(decode_utf8(bytes)))
            } else {
                Err(HostError::NotUtf8)
            },
        }
    }
}

/// The upstream host that the `Host` header of a request names, when it is a
/// `*.replex.stream` name; `Ok(None)` for every other host.
pub fn dynamic_host(host: &str) -> (r: Result<Option<String>, HostError>)
    ensures
        match r {
            Ok(Some(s)) => dynamic_host_spec(host@) == Ok::<Option<Seq<char>>, HostError>(Some(s@)),
            Ok(None) => dynamic_host_spec(host@) == Ok::<Option<Seq<char>>, HostError>(None),
            Err(e) => dynamic_host_spec(host@) == Err::<Option<Seq<char>>, HostError>(e),
        },
{
    if !contains(host, "replex.stream") {
        return Ok(None);
    }
    let label = prefix_before(host, ".replex.stream");
    let upper = to_ascii_uppercase(label.as_str());
    let bytes = upper.as_str().as_bytes();
    match base32_decode(bytes) {
        None => Err(HostError::NotBase32),
        Some(decoded) => match utf8_text(decoded.as_slice()) {
            Some(s) => Ok(Some(s)),
            None => Err(HostError::NotUtf8),
        },
    }
}

/// Where the proxy listens: the configured port (443 by default) with a
/// certificate for the configured domain when SSL is on and a domain is
/// set; else the configured port, 80 by default, without one.
pub fn listen_plan(config: &Config) -> (r: (u64, Option<String>))
    ensures
        config.ssl_enable && config.ssl_domain is Some ==> r.0 == (match config.port {
            Some(p) => p,
            None => 443,
        }) && r.1 == config.ssl_domain,
        !(config.ssl_enable && config.ssl_domain is Some) ==> r.0 == (match config.port {
            Some(p) => p,
            None => 80,
        }) && r.1 is None,
{
    if config.ssl_enable && config.ssl_domain.is_some() {
        let port = match config.port {
            Some(p) => p,
            None => 443,
        };
        (port, config.ssl_domain.clone())
    } else {
        let port = match config.port {
            Some(p) => p,
            None => 80,
        };
        (port, None)
    }
}

/// What starting the proxy finds of its settings.
#[derive(Clone, Copy, Debug, PartialEq, Eq, Structural)]
pub enum Startup {
    /// No Plex host is set: the proxy does not start.
    MissingHost,
    /// No Plex token is set: hero art may not load.
    MissingToken,
    Ready,
}

/// The proxy needs a Plex host; without a token it starts with a warning.
pub fn startup_check(config: &Config) -> (r: Startup)
    ensures
        config.host is None ==> r == Startup::MissingHost,
        config.host is Some && config.token is None ==> r == Startup::MissingToken,
        config.host is Some && config.token is Some ==> r == Startup::Ready,
{
    if config.host.is_none() {
        Startup::MissingHost
    } else if config.token.is_none() {
        Startup::MissingToken
    } else {
        Startup::Ready
    }
}

} // verus!
