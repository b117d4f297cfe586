//! The single failure kind that the bridge reports to its callers.
//!
//! Every failure carries a human-readable message that embeds the root
//! cause: either the extraction primitive failed, or the temporary file
//! for a buffer request could not be written.

use vstd::prelude::*;
use vstd::string::StringExecFns;

verus! {

/// A generic extraction failure with a message naming the root cause.
#[derive(Clone, Debug, PartialEq, Eq)]
pub struct ExtractError {
    pub message: String,
}

/// The message reported when the extraction primitive fails on `cause`.
pub open spec fn extract_failure_message(cause: Seq<char>) -> Seq<char> {
    "Failed to extract text: "@ + cause
}

/// The message reported when staging a buffer to a temporary file fails on `cause`.
pub open spec fn write_failure_message(cause: Seq<char>) -> Seq<char> {
    "Failed to write temp file: "@ + cause
}

/// Wraps the cause of a failed extraction call into the reported error.
pub fn extraction_failure(cause: &str) -> (r: ExtractError)
    ensures
        r.message@ == extract_failure_message(cause@),
{
    let mut message = String::from_str("Failed to extract text: ");
    message.append(cause);
    ExtractError { message }
}

/// Wraps the cause of a failed temporary-file write into the reported error.
pub fn write_failure(cause: &str) -> (r: ExtractError)
    ensures
        r.message@ == write_failure_message(cause@),
{
    let mut message = String::from_str("Failed to write temp file: ");
    message.append(cause);
    ExtractError { message }
}

} // verus!
