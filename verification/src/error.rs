use vstd::prelude::*;

verus! {

/// The client's failure taxonomy: each stage reports its own variant, and
/// every error ends the run — there is no local recovery or retry.
#[derive(Debug, PartialEq, Eq)]
pub enum ClientError {
    /// The required credential was not configured.
    ConfigError,
    /// The endpoint string is not a valid URL with a host.
    ParseError,
    /// The transport could not be dialed; carries the underlying cause.
    ConnectionError(String),
    /// The credential cannot be encoded as a metadata value.
    AuthEncodingError,
    /// The remote rejected the unary probe: status code and message.
    CallError(u32, String),
    /// The outbound queue or transport was torn down while sending.
    SendError(String),
    /// The inbound stream broke; carries the remote status.
    RecvError(String),
}

} // verus!
