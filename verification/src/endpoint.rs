use vstd::prelude::*;
use crate::error::ClientError;

verus! {

/// A resolved endpoint authority: scheme, host, and port, read once from
/// the configured URL and immutable afterwards.
pub struct Endpoint {
    pub scheme: Option<String>,
    pub host: String,
    pub port: Option<u16>,
}

/// The scheme token that explicitly selects transport security.
pub open spec fn secure_scheme() -> Seq<char> {
    "https"@
}

impl Endpoint {
    /// Transport security is enabled when the scheme is absent or equals
    /// the secure scheme token.
    pub open spec fn is_secure(self) -> bool {
        match self.scheme {
            None => true,
            Some(s) => s@ == secure_scheme(),
        }
    }

    /// Decides, before any connection attempt, whether the channel to this
    /// endpoint must use transport encryption bound to its host name.
    pub fn use_tls(&self) -> (r: bool)
        ensures
            r == self.is_secure(),
    {
        match &self.scheme {
            None => true,
            Some(s) => {
                let secure = String::from_str("https");
                *s == secure
            },
        }
    }
}

/// What `http::Uri` parsing yields for a string: `None` when the string is
/// not a valid URI, otherwise the scheme, host, and port read from the
/// parsed URI — a function of the string alone.
pub uninterp spec fn uri_parts_of(s: Seq<char>) -> Option<
    (Option<Seq<char>>, Option<Seq<char>>, Option<u16>),
>;

/// Relies on `http::Uri`'s `FromStr` impl together with its `scheme_str`,
/// `host`, and `port_u16` accessors: the parse outcome and the parts read
/// from it depend on the input string alone.
#[verifier::external_body]
fn parse_uri(s: &str) -> (r: Option<(Option<String>, Option<String>, Option<u16>)>)
    ensures
        r.deep_view() == uri_parts_of(s@),
{
    match s.parse::<http::Uri>() {
        Ok(u) => Some((
            u.scheme_str().map(|t| t.to_string()),
            u.host().map(|t| t.to_string()),
            u.port_u16(),
        )),
        Err(_) => None,
    }
}

/// Parses an endpoint URL into its authority. Returns `Err(ParseError)`
/// exactly when the string is not a valid URL or names no host.
pub fn parse_endpoint(url: &str) -> (r: Result<Endpoint, ClientError>)
    ensures
        match uri_parts_of(url@) {
            Some(parts) => match parts.1 {
                Some(h) => {
                    &&& r matches Ok(e)
                    &&& e.scheme.deep_view() == parts.0
                    &&& e.host@ == h
                    &&& e.port == parts.2
                },
                None => r == Err::<Endpoint, ClientError>(ClientError::ParseError),
            },
            None => r == Err::<Endpoint, ClientError>(ClientError::ParseError),
        },
{
    match parse_uri(url) {
        Some(parts) => {
            let (scheme, host_opt, port) = parts;
            match host_opt {
                Some(h) => Ok(Endpoint { scheme, host: h, port }),
                None => Err(ClientError::ParseError),
            }
        },
        None => Err(ClientError::ParseError),
    }
}

/// Interprets the transport's dial outcome: a failure becomes
/// `ConnectionError`, wrapping the underlying cause — fatal, never retried.
pub fn interpret_connect(dial: Result<(), String>) -> (r: Result<(), ClientError>)
    ensures
        dial is Ok ==> r is Ok,
        dial matches Err(cause) ==> r == Err::<(), ClientError>(
            ClientError::ConnectionError(cause),
        ),
{
    match dial {
        Ok(()) => Ok(()),
        Err(cause) => Err(ClientError::ConnectionError(cause)),
    }
}

/// The transport-security decision over the parsed endpoint: encryption is
/// requested when the URL carried no scheme or the secure scheme, and for
/// every other explicit scheme it is not.
pub proof fn lemma_tls_decision(e: Endpoint)
    ensures
        e.scheme is None ==> e.is_secure(),
        e.scheme matches Some(s) && s@ == secure_scheme() ==> e.is_secure(),
        e.scheme matches Some(s) && s@ != secure_scheme() ==> !e.is_secure(),
{
}

} // verus!
