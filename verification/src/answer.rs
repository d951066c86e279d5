//! What comes back from a call to a service, and what it comes to.

use crate::error::{Operation, SyncError};
use crate::status::{in_success_range, is_success};
use vstd::prelude::*;

verus! {

/// What came back from a call whose answer holds a `T`.
#[derive(Debug, PartialEq, Eq)]
pub enum Answer<T> {
    /// The service answered with `status`.  `content` is what the answer
    /// held, where it could be read.  `body` is the text that came with a
    /// refusal, or says why the answer could not be read.
    Received { status: u16, content: Option<T>, body: String },
    /// The request did not go through.
    Failed { detail: String },
}

/// What `answer` comes to, for the call `operation` on `subject` about
/// `album`: the content of an answer in the success range that could be
/// read; else the failure that names the call, with the status and the text
/// of a refusal, or with what is known of an answer that is missing or
/// could not be read.
pub open spec fn accepted<T>(
    answer: Answer<T>,
    operation: Operation,
    album: Option<String>,
    subject: String,
) -> Result<T, SyncError> {
    match answer {
        Answer::Received { status, content, body } => {
            if !in_success_range(status) {
                Err(SyncError::RemoteStatus { operation, album, subject, status, body })
            } else {
                match content {
                    Some(value) => Ok(value),
                    None => Err(
                        SyncError::RemoteFailure { operation, album, subject, detail: body },
                    ),
                }
            }
        },
        Answer::Failed { detail } => Err(
            SyncError::RemoteFailure { operation, album, subject, detail },
        ),
    }
}

/// Decides what `answer` comes to, for the call `operation` on `subject`
/// about `album`.
pub fn accept<T>(
    answer: Answer<T>,
    operation: Operation,
    album: Option<String>,
    subject: String,
) -> (result: Result<T, SyncError>)
    ensures
        result == accepted(answer, operation, album, subject),
{
    match answer {
        Answer::Received { status, content, body } => {
            if !is_success(status) {
                Err(SyncError::RemoteStatus { operation, album, subject, status, body })
            } else {
                match content {
                    Some(value) => Ok(value),
                    None => Err(
                        SyncError::RemoteFailure { operation, album, subject, detail: body },
                    ),
                }
            }
        },
        Answer::Failed { detail } => Err(
            SyncError::RemoteFailure { operation, album, subject, detail },
        ),
    }
}

} // verus!
