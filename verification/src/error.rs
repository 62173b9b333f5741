//! What a request is refused with.
use vstd::prelude::*;
use vstd::string::*;

use crate::thread_id::ThreadId;

verus! {

/// Whose fault a refusal is, as far as its error code goes.
#[derive(Debug, Clone, Copy, PartialEq, Eq, Structural)]
pub enum ErrorKind {
    /// The request cannot be served as it was made.
    InvalidRequest,
    /// The request was in order and serving it failed.
    Internal,
    /// The code was chosen elsewhere and is handed on.
    Code(i64),
}

/// An error that was made elsewhere and is handed on as it is.
#[derive(Debug, PartialEq, Eq)]
pub struct ForeignError {
    pub code: i64,
    pub message: String,
    /// Further data, as JSON text.
    pub data: Option<String>,
}

/// Why a queue request was refused. `reason` is the text of the failure that
/// lies beneath.
#[derive(Debug, PartialEq, Eq)]
pub enum RequestError {
    /// The input of the turn was rejected before anything else was looked at.
    InputRejected { error: ForeignError },
    /// The text of the thread id does not parse.
    InvalidThreadId { reason: String },
    /// The thread is not written to disk, so it has no queue.
    EphemeralThread { thread_id: ThreadId },
    /// Looking for the thread on disk failed.
    LocateThread { thread_id: ThreadId, reason: String },
    /// There is no such thread.
    ThreadNotFound { thread_id: ThreadId },
    /// The parameters of the turn could not be turned into JSON.
    SerializeParams { reason: String },
    /// The turn could not be stored.
    AddTurn { reason: String },
    /// Stored parameters could not be read back.
    DecodeParams { reason: String },
    /// The queue could not be read.
    ReadQueue { reason: String },
    /// The turn could not be deleted.
    DeleteTurn { reason: String },
    /// The queue could not be put into the order that was asked for.
    ReorderTurns { reason: String },
}

impl RequestError {
    /// The kind that goes with each refusal.
    pub open spec fn spec_kind(&self) -> ErrorKind {
        match self {
            RequestError::InputRejected { error } => ErrorKind::Code(error.code),
            RequestError::InvalidThreadId { .. } => ErrorKind::InvalidRequest,
            RequestError::EphemeralThread { .. } => ErrorKind::InvalidRequest,
            RequestError::ThreadNotFound { .. } => ErrorKind::InvalidRequest,
            RequestError::ReorderTurns { .. } => ErrorKind::InvalidRequest,
            _ => ErrorKind::Internal,
        }
    }

    /// The message that goes with each refusal.
    pub open spec fn message_text(&self) -> Seq<char> {
        match self {
            RequestError::InputRejected { error } => error.message@,
            RequestError::InvalidThreadId { reason } => "invalid thread id: "@ + reason@,
            RequestError::EphemeralThread { thread_id } =>
                "ephemeral thread does not support persistent app-server state: "@ + thread_id@,
            RequestError::LocateThread { thread_id, reason } =>
                "failed to locate thread id "@ + thread_id@ + ": "@ + reason@,
            RequestError::ThreadNotFound { thread_id } => "thread not found: "@ + thread_id@,
            RequestError::SerializeParams { reason } =>
                "failed to serialize queued turn params: "@ + reason@,
            RequestError::AddTurn { reason } => "failed to add queued turn: "@ + reason@,
            RequestError::DecodeParams { reason } =>
                "failed to decode queued turn params: "@ + reason@,
            RequestError::ReadQueue { reason } => "failed to read thread queue: "@ + reason@,
            RequestError::DeleteTurn { reason } => "failed to delete queued turn: "@ + reason@,
            RequestError::ReorderTurns { reason } => reason@,
        }
    }

    /// The kind of the refusal.
    pub fn kind(&self) -> (kind: ErrorKind)
        ensures
            kind == self.spec_kind(),
    {
        match self {
            RequestError::InputRejected { error } => ErrorKind::Code(error.code),
            RequestError::InvalidThreadId { .. }
            | RequestError::EphemeralThread { .. }
            | RequestError::ThreadNotFound { .. }
            | RequestError::ReorderTurns { .. } => ErrorKind::InvalidRequest,
            _ => ErrorKind::Internal,
        }
    }

    /// The message that the client gets.
    pub fn message(&self) -> (message: String)
        ensures
            message@ == self.message_text(),
    {
        match self {
            RequestError::InputRejected { error } => error.message.clone(),
            RequestError::InvalidThreadId { reason } => labelled("invalid thread id: ", reason),
            RequestError::EphemeralThread { thread_id } => labelled(
                "ephemeral thread does not support persistent app-server state: ",
                &thread_id.text,
            ),
            RequestError::LocateThread { thread_id, reason } => {
                let place = labelled("failed to locate thread id ", &thread_id.text);
                place.concat(": ").concat(reason.as_str())
            },
            RequestError::ThreadNotFound { thread_id } => labelled(
                "thread not found: ",
                &thread_id.text,
            ),
            RequestError::SerializeParams { reason } => labelled(
                "failed to serialize queued turn params: ",
                reason,
            ),
            RequestError::AddTurn { reason } => labelled("failed to add queued turn: ", reason),
            RequestError::DecodeParams { reason } => labelled(
                "failed to decode queued turn params: ",
                reason,
            ),
            RequestError::ReadQueue { reason } => labelled("failed to read thread queue: ", reason),
            RequestError::DeleteTurn { reason } => labelled(
                "failed to delete queued turn: ",
                reason,
            ),
            RequestError::ReorderTurns { reason } => reason.clone(),
        }
    }
}

/// A label and the text that it announces.
fn labelled(label: &str, text: &String) -> (message: String)
    ensures
        message@ == label@ + text@,
{
    String::from_str(label).concat(text.as_str())
}

/// A refusal is put down to the request where the input was rejected with a code of
/// its own, the thread id does not parse, the thread has no queue, or the order
/// that was asked for is not taken; every other refusal is put down to the server.
pub proof fn law_whose_fault_a_refusal_is(error: RequestError)
    ensures
        match error {
            RequestError::InputRejected { error: rejected } => error.spec_kind()
                == ErrorKind::Code(rejected.code),
            RequestError::InvalidThreadId { .. }
            | RequestError::EphemeralThread { .. }
            | RequestError::ThreadNotFound { .. }
            | RequestError::ReorderTurns { .. } => error.spec_kind() == ErrorKind::InvalidRequest,
            RequestError::LocateThread { .. }
            | RequestError::SerializeParams { .. }
            | RequestError::AddTurn { .. }
            | RequestError::DecodeParams { .. }
            | RequestError::ReadQueue { .. }
            | RequestError::DeleteTurn { .. } => error.spec_kind() == ErrorKind::Internal,
        },
{
}

/// A client that is refused reads what was attempted, on which thread where the
/// thread is the trouble, and the reason that lies beneath, word for word. Input
/// that was rejected and an order that was not taken speak for themselves.
pub proof fn law_refusals_tell_what_went_wrong(
    thread_id: ThreadId,
    reason: String,
    rejected: ForeignError,
)
    ensures
        (RequestError::InputRejected { error: rejected }).message_text() == rejected.message@,
        (RequestError::InvalidThreadId { reason }).message_text() == "invalid thread id: "@ + reason@,
        (RequestError::EphemeralThread { thread_id }).message_text()
            == "ephemeral thread does not support persistent app-server state: "@
            + thread_id.text@,
        (RequestError::LocateThread { thread_id, reason }).message_text()
            == "failed to locate thread id "@ + thread_id.text@ + ": "@ + reason@,
        (RequestError::ThreadNotFound { thread_id }).message_text() == "thread not found: "@
            + thread_id.text@,
        (RequestError::SerializeParams { reason }).message_text()
            == "failed to serialize queued turn params: "@ + reason@,
        (RequestError::AddTurn { reason }).message_text() == "failed to add queued turn: "@ + reason@,
        (RequestError::DecodeParams { reason }).message_text()
            == "failed to decode queued turn params: "@ + reason@,
        (RequestError::ReadQueue { reason }).message_text() == "failed to read thread queue: "@
            + reason@,
        (RequestError::DeleteTurn { reason }).message_text() == "failed to delete queued turn: "@
            + reason@,
        (RequestError::ReorderTurns { reason }).message_text() == reason@,
{
}

} // verus!
