//! The result mapping for path-based extraction.
//!
//! The PDF parsing itself is owned by the external extraction primitive.
//! On malformed documents that primitive can panic rather than return,
//! so the call stands with the host, which contains any panic and hands
//! the outcome back as a plain value; the verified mapping here fixes
//! the reported result for every such outcome.

use vstd::prelude::*;
use crate::errors::{ExtractError, extraction_failure};
use crate::errors::extract_failure_message;

verus! {

/// What a text-extraction result looks like at the specification level:
/// the extracted text, or the message of the reported failure.
pub open spec fn text_result_view(r: Result<String, ExtractError>) -> Result<
    Seq<char>,
    Seq<char>,
> {
    match r {
        Ok(t) => Ok(t@),
        Err(e) => Err(e.message@),
    }
}

/// The raw outcome of the extraction primitive, at the specification level.
pub open spec fn raw_result_view(r: Result<String, String>) -> Result<Seq<char>, Seq<char>> {
    match r {
        Ok(t) => Ok(t@),
        Err(c) => Err(c@),
    }
}

/// How the synchronous path-based entry point maps a primitive outcome to
/// its caller-visible result: text passes through unchanged, a failure is
/// wrapped into the generic extraction error.
pub open spec fn sync_file_result(outcome: Result<Seq<char>, Seq<char>>) -> Result<
    Seq<char>,
    Seq<char>,
> {
    match outcome {
        Ok(t) => Ok(t),
        Err(c) => Err(extract_failure_message(c)),
    }
}

/// Turns a raw outcome of the extraction primitive into the result that
/// the synchronous entry point reports.
pub fn finish_extraction(outcome: Result<String, String>) -> (r: Result<String, ExtractError>)
    ensures
        text_result_view(r) == sync_file_result(raw_result_view(outcome)),
{
    match outcome {
        Ok(t) => Ok(t),
        Err(c) => Err(extraction_failure(c.as_str())),
    }
}

} // verus!
