//! Validation of the client's target, done once before any task starts.

use vstd::prelude::*;
use crate::text::same_text;

verus! {

/// hyper's `Uri`, carried unopened from parsing to the client.
#[verifier::external_type_specification]
#[verifier::external_body]
pub struct ExUri(hyper::Uri);

/// Why a configuration was refused.
#[derive(Clone, Copy, Debug, PartialEq, Eq, Structural)]
pub enum ConfigError {
    /// The target is not a URI.
    InvalidUrl,
    /// The target's scheme is missing or is not `http`.
    NotHttp,
    /// The report interval is zero.
    ZeroInterval,
    /// The listen port is zero.
    ZeroPort,
}

/// Report interval of the client unless told otherwise: one second.
pub const DEFAULT_INTERVAL_MILLIS: u64 = 1000;

/// Whether hyper's parser accepts the text as a URI.
pub uninterp spec fn uri_parses(text: Seq<char>) -> bool;

/// The scheme of the URI that hyper parses from the text, if it has one.
pub uninterp spec fn uri_scheme_of(text: Seq<char>) -> Option<Seq<char>>;

/// Relies on hyper's `Uri` parser (its `FromStr`), which accepts or refuses
/// the text on the text alone, and on `Uri::scheme_str`, the scheme of the
/// parsed URI if it has one.
#[verifier::external_body]
fn parse_uri(text: &str) -> (r: Option<(hyper::Uri, Option<String>)>)
    ensures
        r is Some == uri_parses(text@),
        r matches Some((_, s)) ==> match s {
            Some(x) => uri_scheme_of(text@) == Some(x@),
            None => uri_scheme_of(text@) is None,
        },
{
    match text.parse::<hyper::Uri>() {
        Ok(uri) => {
            let scheme = uri.scheme_str().map(String::from);
            Some((uri, scheme))
        },
        Err(_) => None,
    }
}

/// Whether a target is accepted: hyper parses it, with the `http` scheme.
pub open spec fn is_http_target(url: Seq<char>) -> bool {
    uri_parses(url) && uri_scheme_of(url) == Some(seq!['h', 't', 't', 'p'])
}

/// Whether a scheme is the one the client speaks.
pub open spec fn is_http(scheme: Option<&str>) -> bool {
    scheme matches Some(s) && s@ == seq!['h', 't', 't', 'p']
}

/// Accepts exactly the `http` scheme.
pub fn check_scheme(scheme: Option<&str>) -> (r: Result<(), ConfigError>)
    ensures
        r == (if is_http(scheme) {
            Ok::<(), ConfigError>(())
        } else {
            Err(ConfigError::NotHttp)
        }),
{
    proof {
        reveal_strlit("http");
        assert("http"@ =~= seq!['h', 't', 't', 'p']);
    }
    match scheme {
        Some(s) => {
            if same_text(s, "http") {
                Ok(())
            } else {
                Err(ConfigError::NotHttp)
            }
        },
        None => Err(ConfigError::NotHttp),
    }
}

/// Parses the client's target: a URI with the `http` scheme.
pub fn parse_target(url: &str) -> (r: Result<hyper::Uri, ConfigError>)
    ensures
        (r matches Err(e) && e == ConfigError::InvalidUrl) <==> !uri_parses(url@),
        r matches Err(e) ==> e == ConfigError::InvalidUrl || e == ConfigError::NotHttp,
        r is Ok <==> is_http_target(url@),
{
    match parse_uri(url) {
        None => Err(ConfigError::InvalidUrl),
        Some((uri, scheme)) => {
            let s = match &scheme {
                Some(x) => Some(x.as_str()),
                None => None,
            };
            match check_scheme(s) {
                Ok(()) => Ok(uri),
                Err(e) => Err(e),
            }
        },
    }
}

/// What a measurement session needs: where to read from and how often to
/// report.
pub struct ClientConfig {
    pub target: hyper::Uri,
    pub interval_millis: u64,
}

impl ClientConfig {
    /// Validates the report interval, then the target.
    pub fn new(url: &str, interval_millis: u64) -> (r: Result<ClientConfig, ConfigError>)
        ensures
            (r matches Err(e) && e == ConfigError::ZeroInterval) <==> interval_millis == 0,
            interval_millis > 0 ==> ((r matches Err(e) && e == ConfigError::InvalidUrl)
                <==> !uri_parses(url@)),
            interval_millis > 0 ==> (r is Ok <==> is_http_target(url@)),
            r matches Err(e) ==> e != ConfigError::ZeroPort,
            r matches Ok(c) ==> c.interval_millis == interval_millis,
    {
        if interval_millis == 0 {
            return Err(ConfigError::ZeroInterval);
        }
        match parse_target(url) {
            Err(e) => Err(e),
            Ok(target) => Ok(ClientConfig { target, interval_millis }),
        }
    }
}

/// What the server needs: the port to listen on.
#[derive(Clone, Copy, Debug, PartialEq, Eq, Structural)]
pub struct ServerConfig {
    pub port: u16,
}

impl ServerConfig {
    /// Accepts any port but zero.
    pub fn new(port: u16) -> (r: Result<ServerConfig, ConfigError>)
        ensures
            r == (if port == 0 {
                Err(ConfigError::ZeroPort)
            } else {
                Ok(ServerConfig { port })
            }),
    {
        if port == 0 {
            Err(ConfigError::ZeroPort)
        } else {
            Ok(ServerConfig { port })
        }
    }
}

} // verus!
