use vstd::prelude::*;
use crate::error::ClientError;
use crate::messages::{EchoRequest, EchoResponse};

verus! {

/// The fixed message of the unary liveness probe.
pub open spec fn probe_text() -> Seq<char> {
    "hello world"@
}

/// Builds the probe's single request.
pub fn probe_request() -> (r: EchoRequest)
    ensures
        r.message@ == probe_text(),
{
    EchoRequest { message: String::from_str("hello world") }
}

/// Interprets the transport's outcome for the unary probe: a reply passes
/// through unchanged; a remote rejection becomes `CallError`, propagating
/// the remote's status code and message. The probe is fatal — streaming is
/// only attempted after an `Ok`.
pub fn interpret_probe(reply: Result<EchoResponse, (u32, String)>) -> (r: Result<
    EchoResponse,
    ClientError,
>)
    ensures
        reply matches Ok(resp) ==> r matches Ok(out) && out.message@ == resp.message@,
        reply matches Err(status) ==> r == Err::<EchoResponse, ClientError>(
            ClientError::CallError(status.0, status.1),
        ),
{
    match reply {
        Ok(resp) => Ok(resp),
        Err(status) => {
            let (code, message) = status;
            Err(ClientError::CallError(code, message))
        },
    }
}

} // verus!
