use vstd::prelude::*;
use crate::endpoint::{parse_endpoint, uri_parts_of, Endpoint};
use crate::error::ClientError;

verus! {

/// The endpoint URL used when none is configured.
pub open spec fn default_endpoint_url() -> Seq<char> {
    "http://localhost:8000"@
}

/// The resolved client configuration: the credential attached to every
/// call, and the endpoint the channel dials.
pub struct Config {
    pub credential: String,
    pub endpoint: Endpoint,
}

/// The URL the resolver works on: the configured one, or the default.
pub open spec fn chosen_url(endpoint_url: Option<Seq<char>>) -> Seq<char> {
    match endpoint_url {
        Some(u) => u,
        None => default_endpoint_url(),
    }
}

/// Resolves the configuration: the credential is required and fails with
/// `ConfigError` when absent — before anything else is attempted; the
/// endpoint URL is optional, falls back to the default, and fails with
/// `ParseError` exactly when it is not a valid URL with a host.
pub fn resolve(credential: Option<String>, endpoint_url: Option<String>) -> (r: Result<
    Config,
    ClientError,
>)
    ensures
        credential is None ==> r == Err::<Config, ClientError>(ClientError::ConfigError),
        credential matches Some(c) ==> match uri_parts_of(chosen_url(endpoint_url.deep_view())) {
            Some(parts) => match parts.1 {
                Some(h) => {
                    &&& r matches Ok(cfg)
                    &&& cfg.credential@ == c@
                    &&& cfg.endpoint.scheme.deep_view() == parts.0
                    &&& cfg.endpoint.host@ == h
                    &&& cfg.endpoint.port == parts.2
                },
                None => r == Err::<Config, ClientError>(ClientError::ParseError),
            },
            None => r == Err::<Config, ClientError>(ClientError::ParseError),
        },
{
    match credential {
        None => Err(ClientError::ConfigError),
        Some(c) => {
            let url: String = match endpoint_url {
                Some(u) => u,
                None => String::from_str("http://localhost:8000"),
            };
            match parse_endpoint(url.as_str()) {
                Ok(e) => Ok(Config { credential: c, endpoint: e }),
                Err(err) => Err(err),
            }
        },
    }
}

} // verus!
