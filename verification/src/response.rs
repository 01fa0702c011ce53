use vstd::prelude::*;
use crate::error::{ClientError, ErrorKind};

verus! {

/// What a server answered.
#[derive(Clone, Debug, PartialEq, Eq)]
pub struct Response {
    /// The status code, whatever it is: a status outside 200..=299 is an answer too.
    pub status: u16,
    /// The reason phrase that goes with the status code.
    pub reason: String,
    pub headers: Vec<(String, String)>,
    pub body: String,
}

/// What a transport knows of an attempt that brought no answer.
#[derive(Clone, Copy, Debug, PartialEq, Eq, Structural)]
pub struct Fault {
    /// The request could not be built from its parts, and nothing was sent.
    pub unbuilt: bool,
    /// A timeout passed, while connecting or while waiting for the answer.
    pub timed_out: bool,
    /// No connection was made: name resolution, connect or TLS failed.
    pub unconnected: bool,
}

/// How the one attempt to send a request ended. `R` is what the transport hands
/// over when the server answered.
#[derive(Clone, Debug, PartialEq, Eq)]
pub enum Exchange<R> {
    /// The server answered.
    Answered(R),
    /// There is no answer.
    Failed(Fault),
}

/// The error that a fault is reported as. A request that could not be built is an
/// encoding error, whatever else is known. Of the others a timeout goes first, so a
/// connection that timed out is reported as a timeout; a fault that is none of
/// these is a failure of the protocol.
pub open spec fn error_of(fault: Fault) -> ClientError {
    if fault.unbuilt {
        ClientError::Encoding
    } else if fault.timed_out {
        ClientError::Timeout
    } else if fault.unconnected {
        ClientError::Connect
    } else {
        ClientError::Protocol
    }
}

/// The result of an operation whose one attempt ended in `exchange`.
pub open spec fn outcome_of<R>(exchange: Exchange<R>) -> Result<R, ClientError> {
    match exchange {
        Exchange::Answered(response) => Ok(response),
        Exchange::Failed(fault) => Err(error_of(fault)),
    }
}

/// An operation succeeds exactly where the server answered, and then with that
/// answer and no other. A fault after the request was built is a transport error,
/// and a request that could not be built is a configuration error.
pub proof fn law_failure_is_no_success<R>(exchange: Exchange<R>)
    ensures
        outcome_of(exchange) is Ok <==> exchange is Answered,
        exchange matches Exchange::Answered(response) ==> outcome_of(exchange) == Ok::<
            R,
            ClientError,
        >(response),
        exchange matches Exchange::Failed(fault) ==> outcome_of(exchange) is Err
            && outcome_of(exchange)->Err_0.kind_of() == (if fault.unbuilt {
            ErrorKind::Configuration
        } else {
            ErrorKind::Transport
        }),
{
}

/// The error to report for `fault`.
pub fn classify(fault: Fault) -> (error: ClientError)
    ensures
        error == error_of(fault),
{
    if fault.unbuilt {
        ClientError::Encoding
    } else if fault.timed_out {
        ClientError::Timeout
    } else if fault.unconnected {
        ClientError::Connect
    } else {
        ClientError::Protocol
    }
}

/// The result of an operation from how its one attempt ended. Nothing is tried
/// again.
pub fn conclude<R>(exchange: Exchange<R>) -> (result: Result<R, ClientError>)
    ensures
        result == outcome_of(exchange),
{
    match exchange {
        Exchange::Answered(response) => Ok(response),
        Exchange::Failed(fault) => Err(classify(fault)),
    }
}

} // verus!
