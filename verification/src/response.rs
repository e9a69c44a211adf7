//! The HTTP response handed back to the caller, and the passthrough rule:
//! whatever status the remote API answered with — success or not — is
//! returned as a success of this library, never turned into an error.

use vstd::prelude::*;

use crate::client::NotifyError;

verus! {

/// An HTTP response as the caller reads it: status code, headers, body.
#[derive(Debug, Clone, PartialEq, Eq)]
pub struct HttpResponse {
    pub status: u16,
    pub headers: Vec<(String, String)>,
    pub body: Vec<u8>,
}

/// Decides what a finished HTTP exchange returns.
///
/// A received response — any status code, 4xx and 5xx included — passes
/// through unchanged as a success; only a failure of the transport itself
/// becomes an error, carrying its cause.
pub fn finish_send(outcome: Result<HttpResponse, String>) -> (r: Result<
    HttpResponse,
    NotifyError,
>)
    ensures
        outcome matches Ok(resp) ==> r == Ok::<HttpResponse, NotifyError>(resp),
        outcome matches Err(e) ==> r == Err::<HttpResponse, NotifyError>(
            NotifyError::TransportError(e),
        ),
{
    match outcome {
        Ok(resp) => Ok(resp),
        Err(e) => Err(NotifyError::TransportError(e)),
    }
}

} // verus!
