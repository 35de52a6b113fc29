//! Client-side core for submitting analytics events to a remote HTTP
//! endpoint: request building with timestamp validation, JSON
//! serialization, and classification of transport and HTTP outcomes
//! into a closed error taxonomy.
use vstd::prelude::*;

pub mod json;
pub mod send_event;

pub use send_event::SendEventRequest;
pub use send_event::SendEventRequestBuilder;

verus! {

/// Errors that sending an event can produce, one variant per failure
/// class: the request never went out, the server rejected it (4xx),
/// the server failed (5xx), or the outcome fits no class.
#[derive(Debug, Clone)]
pub enum ResonanceClientError {
    FailedToSendRequest(String),
    ClientSideError(u16, String),
    ServerSideError(u16, String),
    Unknown(String),
}

/// What one attempt to deliver an event came to, reduced to plain
/// values: either no response was obtained, or a response arrived with
/// a status code. `status_msg` describes the status line, `diag` the
/// fuller diagnostic; both are composed by the transport layer.
pub enum SendOutcome {
    NoResponse { diag: String },
    Response { status: u16, status_msg: String, diag: String },
}

/// Classifies the outcome of one send attempt into the error taxonomy,
/// in priority order: a transport failure is reported before any
/// status inspection; then 2xx is success, 4xx a client-side error,
/// 5xx a server-side error, and any other status unclassifiable.
pub fn interpret_send_outcome(outcome: SendOutcome) -> (r: Result<(), ResonanceClientError>)
    ensures
        match outcome {
            SendOutcome::NoResponse { diag } => r == Result::<(), ResonanceClientError>::Err(
                ResonanceClientError::FailedToSendRequest(diag),
            ),
            SendOutcome::Response { status, status_msg, diag } => {
                if 200 <= status < 300 {
                    r == Result::<(), ResonanceClientError>::Ok(())
                } else if 400 <= status < 500 {
                    r == Result::<(), ResonanceClientError>::Err(
                        ResonanceClientError::ClientSideError(status, status_msg),
                    )
                } else if 500 <= status < 600 {
                    r == Result::<(), ResonanceClientError>::Err(
                        ResonanceClientError::ServerSideError(status, status_msg),
                    )
                } else {
                    r == Result::<(), ResonanceClientError>::Err(
                        ResonanceClientError::Unknown(diag),
                    )
                }
            },
        },
{
    match outcome {
        SendOutcome::NoResponse { diag } => Err(ResonanceClientError::FailedToSendRequest(diag)),
        SendOutcome::Response { status, status_msg, diag } => {
            if 200 <= status && status < 300 {
                Ok(())
            } else if 400 <= status && status < 500 {
                Err(ResonanceClientError::ClientSideError(status, status_msg))
            } else if 500 <= status && status < 600 {
                Err(ResonanceClientError::ServerSideError(status, status_msg))
            } else {
                Err(ResonanceClientError::Unknown(diag))
            }
        },
    }
}

} // verus!
