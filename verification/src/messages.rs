use vstd::prelude::*;

verus! {

/// One request of the echo exchange; ownership moves into the outbound
/// queue when sent.
pub struct EchoRequest {
    pub message: String,
}

/// One response of the echo exchange; read-only once received.
pub struct EchoResponse {
    pub message: String,
}

} // verus!
