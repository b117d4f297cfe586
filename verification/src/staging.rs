//! Staging a byte buffer for the path-only extraction primitive.
//!
//! The primitive accepts only file paths, so a buffer request is adapted
//! in a single sequence: write the bytes to a uniquely named temporary
//! file, extract from that path, remove the file, report the result.
//! The sequence is a small state machine; the host performs the
//! filesystem operations and feeds each outcome back as an event.

use vstd::prelude::*;
use vstd::string::StringExecFns;
use crate::errors::{
    ExtractError,
    extract_failure_message,
    write_failure_message,
    extraction_failure,
    write_failure,
};
use crate::extraction::{raw_result_view, text_result_view};

verus! {

/// The temporary file name staged for a buffer request with this token.
pub open spec fn staged_name(token: Seq<char>) -> Seq<char> {
    "pdf_"@ + token + ".pdf"@
}

/// Builds the temporary file name for `token`.
pub fn staged_file_name(token: &str) -> (r: String)
    ensures
        r@ == staged_name(token@),
{
    let mut name = String::from_str("pdf_");
    name.append(token);
    name.append(".pdf");
    name
}

/// Characters that a staging token can hold: lowercase hex digits and
/// hyphens, so a staged file name never holds a path separator or dot
/// beyond its own extension.
pub open spec fn is_token_char(c: char) -> bool {
    c == '-' || ('0' <= c && c <= '9') || ('a' <= c && c <= 'f')
}

/// Relies on `uuid::Uuid::new_v4` and its display form: a fresh random
/// version-4 UUID rendered as 36 hyphenated lowercase hex characters.
/// The value is random, so nothing relates one call to another.
#[verifier::external_body]
pub(crate) fn fresh_token() -> (r: String)
    ensures
        r@.len() == 36,
        forall|i: int| 0 <= i < r@.len() ==> is_token_char(#[trigger] r@[i]),
{
    format!("{}", uuid::Uuid::new_v4())
}

/// A fresh temporary file name for one buffer request. The random token
/// keeps concurrent requests from colliding on the same file.
pub fn fresh_staged_name() -> (r: String)
    ensures
        exists|t: Seq<char>| t.len() == 36 && r@ == #[trigger] staged_name(t),
{
    let token = fresh_token();
    staged_file_name(token.as_str())
}

/// Distinct tokens stage distinct temporary file names, so concurrent
/// buffer requests with distinct tokens never touch each other's file.
pub proof fn lemma_staged_name_injective(t1: Seq<char>, t2: Seq<char>)
    requires
        t1 != t2,
    ensures
        staged_name(t1) != staged_name(t2),
{
    reveal_strlit("pdf_");
    reveal_strlit(".pdf");
    if staged_name(t1) == staged_name(t2) {
        assert(staged_name(t1).len() == 4 + t1.len() + 4);
        assert(staged_name(t2).len() == 4 + t2.len() + 4);
        assert(t1.len() == t2.len());
        assert forall|i: int| 0 <= i < t1.len() implies t1[i] == t2[i] by {
            assert(staged_name(t1)[4 + i] == t1[i]);
            assert(staged_name(t2)[4 + i] == t2[i]);
        }
        assert(t1 =~= t2);
        assert(false);
    }
}

/// How the buffer-based path maps a primitive outcome to the result it
/// reports: text passes through unchanged, a failure is wrapped into the
/// generic extraction error.
pub open spec fn buffer_extraction_result(outcome: Result<Seq<char>, Seq<char>>) -> Result<
    Seq<char>,
    Seq<char>,
> {
    match outcome {
        Ok(t) => Ok(t),
        Err(c) => Err(extract_failure_message(c)),
    }
}

/// The result of one full staging run, as a function of that run's own
/// write and extraction outcomes alone.
pub open spec fn staging_run_result(
    write: Result<(), Seq<char>>,
    extraction: Result<Seq<char>, Seq<char>>,
) -> Result<Seq<char>, Seq<char>> {
    match write {
        Ok(_) => buffer_extraction_result(extraction),
        Err(c) => Err(write_failure_message(c)),
    }
}

/// Where one buffer request stands in its staging sequence.
#[derive(Debug)]
pub enum StagingState {
    /// Waiting for the buffer to be written to the temporary file `name`.
    Writing { name: String },
    /// Waiting for the extraction primitive to run on `name`.
    Extracting { name: String },
    /// Waiting for `name` to be removed; `pending` is the result to report.
    Removing { name: String, pending: Result<String, ExtractError> },
    /// The request is finished and `result` is what it reports.
    Done { result: Result<String, ExtractError> },
}

/// A completed host operation, fed back into the staging sequence.
#[derive(Debug)]
#[allow(inconsistent_fields)]
pub enum StagingEvent {
    /// The buffer write finished; a failure carries the cause's text.
    WriteFinished { outcome: Result<(), String> },
    /// The extraction primitive finished; a failure carries its text.
    ExtractFinished { outcome: Result<String, String> },
    /// The temporary file removal was attempted. Removal is best-effort,
    /// so this event carries no outcome: a failed removal is swallowed.
    RemoveFinished,
}

/// What the staging sequence asks the host to do next.
#[derive(Debug)]
pub enum StagingAction {
    /// Write exactly `bytes` to the temporary file `name`.
    WriteTemp { name: String, bytes: Vec<u8> },
    /// Run the extraction primitive on the temporary file `name`.
    ExtractFrom { name: String },
    /// Remove the temporary file `name`.
    RemoveTemp { name: String },
    /// Deliver the result held by the finished state to the caller.
    Report,
}

/// Specification-level image of `StagingState`.
#[verifier::ext_equal]
pub enum StagingStateView {
    Writing { name: Seq<char> },
    Extracting { name: Seq<char> },
    Removing { name: Seq<char>, pending: Result<Seq<char>, Seq<char>> },
    Done { result: Result<Seq<char>, Seq<char>> },
}

/// Specification-level image of `StagingEvent`.
#[verifier::ext_equal]
#[allow(inconsistent_fields)]
pub enum StagingEventView {
    WriteFinished { outcome: Result<(), Seq<char>> },
    ExtractFinished { outcome: Result<Seq<char>, Seq<char>> },
    RemoveFinished,
}

/// Specification-level image of `StagingAction`.
#[verifier::ext_equal]
pub enum StagingActionView {
    WriteTemp { name: Seq<char>, bytes: Seq<u8> },
    ExtractFrom { name: Seq<char> },
    RemoveTemp { name: Seq<char> },
    Report,
}

impl View for StagingState {
    type V = StagingStateView;

    open spec fn view(&self) -> StagingStateView {
        match self {
            StagingState::Writing { name } => StagingStateView::Writing { name: name@ },
            StagingState::Extracting { name } => StagingStateView::Extracting { name: name@ },
            StagingState::Removing { name, pending } => StagingStateView::Removing {
                name: name@,
                pending: text_result_view(*pending),
            },
            StagingState::Done { result } => StagingStateView::Done {
                result: text_result_view(*result),
            },
        }
    }
}

/// Specification-level image of a write outcome.
pub open spec fn write_outcome_view(o: Result<(), String>) -> Result<(), Seq<char>> {
    match o {
        Ok(u) => Ok(u),
        Err(c) => Err(c@),
    }
}

impl View for StagingEvent {
    type V = StagingEventView;

    open spec fn view(&self) -> StagingEventView {
        match self {
            StagingEvent::WriteFinished { outcome } => StagingEventView::WriteFinished {
                outcome: write_outcome_view(*outcome),
            },
            StagingEvent::ExtractFinished { outcome } => StagingEventView::ExtractFinished {
                outcome: raw_result_view(*outcome),
            },
            StagingEvent::RemoveFinished => StagingEventView::RemoveFinished,
        }
    }
}

impl View for StagingAction {
    type V = StagingActionView;

    open spec fn view(&self) -> StagingActionView {
        match self {
            StagingAction::WriteTemp { name, bytes } => StagingActionView::WriteTemp {
                name: name@,
                bytes: bytes@,
            },
            StagingAction::ExtractFrom { name } => StagingActionView::ExtractFrom { name: name@ },
            StagingAction::RemoveTemp { name } => StagingActionView::RemoveTemp { name: name@ },
            StagingAction::Report => StagingActionView::Report,
        }
    }
}

/// Which event each state accepts: the staging sequence is a single
/// write - extract - remove chain, so exactly one event fits each
/// unfinished state.
pub open spec fn staging_accepts(s: StagingStateView, e: StagingEventView) -> bool {
    match (s, e) {
        (StagingStateView::Writing { .. }, StagingEventView::WriteFinished { .. }) => true,
        (StagingStateView::Extracting { .. }, StagingEventView::ExtractFinished { .. }) => true,
        (StagingStateView::Removing { .. }, StagingEventView::RemoveFinished) => true,
        _ => false,
    }
}

/// The staging transition relation: the next state and the next host
/// action, for each accepted state and event.
pub open spec fn staging_step_view(s: StagingStateView, e: StagingEventView) -> (
    StagingStateView,
    StagingActionView,
)
    recommends
        staging_accepts(s, e),
{
    match (s, e) {
        (
            StagingStateView::Writing { name },
            StagingEventView::WriteFinished { outcome },
        ) => match outcome {
            Ok(_) => (
                StagingStateView::Extracting { name },
                StagingActionView::ExtractFrom { name },
            ),
            Err(c) => (
                StagingStateView::Removing { name, pending: Err(write_failure_message(c)) },
                StagingActionView::RemoveTemp { name },
            ),
        },
        (
            StagingStateView::Extracting { name },
            StagingEventView::ExtractFinished { outcome },
        ) => (
            StagingStateView::Removing { name, pending: buffer_extraction_result(outcome) },
            StagingActionView::RemoveTemp { name },
        ),
        (StagingStateView::Removing { name: _, pending }, StagingEventView::RemoveFinished) => (
            StagingStateView::Done { result: pending },
            StagingActionView::Report,
        ),
        _ => (s, StagingActionView::Report),
    }
}

/// Starts the staging sequence for one buffer request: the returned
/// action asks the host to write exactly the request's bytes to the
/// temporary file named after `token`.
pub fn start_staging(token: &str, buffer: Vec<u8>) -> (r: (StagingState, StagingAction))
    ensures
        r.0@ == (StagingStateView::Writing { name: staged_name(token@) }),
        r.1@ == (StagingActionView::WriteTemp { name: staged_name(token@), bytes: buffer@ }),
{
    let name = staged_file_name(token);
    let action_name = name.clone();
    (
        StagingState::Writing { name },
        StagingAction::WriteTemp { name: action_name, bytes: buffer },
    )
}

/// Starts the staging sequence for one buffer request under a fresh
/// random token, so that concurrent requests never share a file name.
pub fn start_fresh_staging(buffer: Vec<u8>) -> (r: (StagingState, StagingAction))
    ensures
        exists|t: Seq<char>|
            #![trigger staged_name(t)]
            t.len() == 36 && r.0@ == (StagingStateView::Writing { name: staged_name(t) }) && r.1@
                == (StagingActionView::WriteTemp { name: staged_name(t), bytes: buffer@ }),
{
    let token = fresh_token();
    let ghost t = token@;
    let r = start_staging(token.as_str(), buffer);
    proof {
        assert(t.len() == 36 && r.0@ == (StagingStateView::Writing { name: staged_name(t) })
            && r.1@ == (StagingActionView::WriteTemp { name: staged_name(t), bytes: buffer@ }));
    }
    r
}

/// Advances the staging sequence by one completed host operation.
pub fn staging_step(state: StagingState, event: StagingEvent) -> (r: (StagingState, StagingAction))
    requires
        staging_accepts(state@, event@),
    ensures
        r.0@ == staging_step_view(state@, event@).0,
        r.1@ == staging_step_view(state@, event@).1,
{
    match (state, event) {
        (
            StagingState::Writing { name },
            StagingEvent::WriteFinished { outcome },
        ) => match outcome {
            Ok(_) => {
                let action_name = name.clone();
                (
                    StagingState::Extracting { name },
                    StagingAction::ExtractFrom { name: action_name },
                )
            },
            Err(c) => {
                let action_name = name.clone();
                (
                    StagingState::Removing { name, pending: Err(write_failure(c.as_str())) },
                    StagingAction::RemoveTemp { name: action_name },
                )
            },
        },
        (StagingState::Extracting { name }, StagingEvent::ExtractFinished { outcome }) => {
            let pending = match outcome {
                Ok(t) => Ok(t),
                Err(c) => Err(extraction_failure(c.as_str())),
            };
            let action_name = name.clone();
            (
                StagingState::Removing { name, pending },
                StagingAction::RemoveTemp { name: action_name },
            )
        },
        (StagingState::Removing { name: _, pending }, StagingEvent::RemoveFinished) => (
            StagingState::Done { result: pending },
            StagingAction::Report,
        ),
        _ => vstd::pervasive::unreached(),
    }
}

} // verus!
