//! Task values for running extraction off the caller's main thread.
//!
//! A task carries exactly what one extraction request needs. A host
//! runtime runs the extraction primitive for it on a worker, hands the
//! raw outcome to `finish` to fix the result, and hands that result's
//! text to `resolve` back on the original thread; the scheduling glue
//! and the primitive call itself stay outside the library.

use vstd::prelude::*;
use crate::errors::{ExtractError, extraction_failure};
use crate::errors::extract_failure_message;
use crate::extraction::{raw_result_view, text_result_view};

verus! {

/// How a path-based task maps a primitive outcome to the result it
/// delivers. This is the asynchronous counterpart of
/// `extraction::sync_file_result`.
pub open spec fn async_file_result(outcome: Result<Seq<char>, Seq<char>>) -> Result<
    Seq<char>,
    Seq<char>,
> {
    match outcome {
        Ok(t) => Ok(t),
        Err(c) => Err(extract_failure_message(c)),
    }
}

/// A pending path-based extraction request.
#[derive(Clone, Debug)]
pub struct ExtractTextTask {
    pub path: String,
}

impl ExtractTextTask {
    /// Wraps any failure in a raw primitive outcome into the generic
    /// extraction error; text passes through unchanged.
    pub fn finish(&self, outcome: Result<String, String>) -> (r: Result<String, ExtractError>)
        ensures
            text_result_view(r) == async_file_result(raw_result_view(outcome)),
    {
        match outcome {
            Ok(t) => Ok(t),
            Err(c) => Err(extraction_failure(c.as_str())),
        }
    }

    /// The caller-side step: the computed text is delivered unchanged.
    pub fn resolve(&self, output: String) -> (r: Result<String, ExtractError>)
        ensures
            r matches Ok(t) && t@ == output@,
    {
        Ok(output)
    }
}

/// Builds the task that extracts text from the PDF file at `path` on a
/// worker. Its eventual result agrees with the synchronous path-based
/// entry point.
pub fn extract_text_from_file_async(path: String) -> (t: ExtractTextTask)
    ensures
        t.path@ == path@,
{
    ExtractTextTask { path }
}

/// A pending buffer-based extraction request.
#[derive(Clone, Debug)]
pub struct ExtractTextFromBufferTask {
    pub buffer: Vec<u8>,
}

impl ExtractTextFromBufferTask {
    /// Starts this request's staging sequence under a fresh random
    /// token: the returned action asks the host to write exactly this
    /// task's bytes to the staged temporary file.
    pub fn begin(&self) -> (r: (crate::staging::StagingState, crate::staging::StagingAction))
        ensures
            exists|t: Seq<char>|
                #![trigger crate::staging::staged_name(t)]
                t.len() == 36 && r.0@ == (crate::staging::StagingStateView::Writing {
                    name: crate::staging::staged_name(t),
                }) && r.1@ == (crate::staging::StagingActionView::WriteTemp {
                    name: crate::staging::staged_name(t),
                    bytes: self.buffer@,
                }),
    {
        crate::staging::start_fresh_staging(self.buffer.clone())
    }

    /// The caller-side step: the computed text is delivered unchanged.
    pub fn resolve(&self, output: String) -> (r: Result<String, ExtractError>)
        ensures
            r matches Ok(t) && t@ == output@,
    {
        Ok(output)
    }
}

/// Builds the task that stages `buffer` to a temporary file on a worker
/// and extracts text from it. Its eventual result agrees with the
/// synchronous buffer-based entry point.
pub fn extract_text_from_buffer_async(buffer: Vec<u8>) -> (t: ExtractTextFromBufferTask)
    ensures
        t.buffer@ == buffer@,
{
    ExtractTextFromBufferTask { buffer }
}

} // verus!
