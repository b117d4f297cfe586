//! Agreement and cleanup laws relating the entry points.

use vstd::prelude::*;
use crate::extraction::sync_file_result;
use crate::task::async_file_result;
use crate::staging::{
    StagingStateView,
    StagingEventView,
    StagingActionView,
    staging_accepts,
    staging_run_result,
    staging_step_view,
};

verus! {

/// For the same primitive outcome, the synchronous and the asynchronous
/// path-based entry points deliver identical results: running the same
/// extraction on a worker changes nothing about what is returned.
pub proof fn lemma_async_file_matches_sync(outcome: Result<Seq<char>, Seq<char>>)
    ensures
        async_file_result(outcome) == sync_file_result(outcome),
{
}

/// For the same primitive outcome, a buffer request that runs its whole
/// staging sequence reports exactly the result that the path-based entry
/// point reports: staging through a temporary file changes neither the
/// text nor the failure message.
pub proof fn lemma_buffer_result_matches_file(
    name: Seq<char>,
    outcome: Result<Seq<char>, Seq<char>>,
)
    ensures
        ({
            let (s1, _) = staging_step_view(
                StagingStateView::Writing { name },
                StagingEventView::WriteFinished { outcome: Ok(()) },
            );
            let (s2, _) = staging_step_view(s1, StagingEventView::ExtractFinished { outcome });
            let (s3, _) = staging_step_view(s2, StagingEventView::RemoveFinished);
            s3 == (StagingStateView::Done { result: sync_file_result(outcome) })
        }),
{
}

/// After the staging sequence touches its temporary file, removal of
/// that very file is requested before any result is reported: every
/// extraction outcome and every failed write is answered with a
/// removal request for the staged name, a result is reported only from
/// the removing state, and the removal step reports the pending result
/// unchanged. So after a finished buffer request no staged file
/// remains, up to the host's best-effort removal.
pub proof fn lemma_temp_file_removed(s: StagingStateView, e: StagingEventView)
    requires
        staging_accepts(s, e),
    ensures
        s matches StagingStateView::Extracting { name } ==> staging_step_view(s, e).1 == (
        StagingActionView::RemoveTemp { name }),
        s matches StagingStateView::Writing { name } ==> ((e matches
        StagingEventView::WriteFinished { outcome } && outcome is Err) ==> staging_step_view(
            s,
            e,
        ).1 == (StagingActionView::RemoveTemp { name })),
        staging_step_view(s, e).0 is Done ==> s is Removing,
        s matches StagingStateView::Removing { pending, .. } ==> (staging_step_view(
            s,
            e,
        ).0 matches StagingStateView::Done { result } ==> result == pending),
{
}

/// A staging run is isolated: from start to finish it asks the host to
/// touch only its own staged file, and the result it reports is a
/// function of its own write and extraction outcomes alone. Together
/// with `staging::lemma_staged_name_injective` this keeps concurrent
/// buffer requests with distinct tokens from interfering: they share no
/// file, and neither's outcome enters the other's result.
pub proof fn lemma_staging_run_isolated(
    name: Seq<char>,
    write: Result<(), Seq<char>>,
    extraction: Result<Seq<char>, Seq<char>>,
)
    ensures
        ({
            let (s1, a1) = staging_step_view(
                StagingStateView::Writing { name },
                StagingEventView::WriteFinished { outcome: write },
            );
            match write {
                Ok(_) => {
                    let (s2, a2) = staging_step_view(
                        s1,
                        StagingEventView::ExtractFinished { outcome: extraction },
                    );
                    let (s3, a3) = staging_step_view(s2, StagingEventView::RemoveFinished);
                    a1 == (StagingActionView::ExtractFrom { name }) && a2 == (
                    StagingActionView::RemoveTemp { name }) && a3 == StagingActionView::Report
                        && s3 == (StagingStateView::Done { result: staging_run_result(write, extraction) })
                },
                Err(_) => {
                    let (s2, a2) = staging_step_view(s1, StagingEventView::RemoveFinished);
                    a1 == (StagingActionView::RemoveTemp { name }) && a2
                        == StagingActionView::Report && s2 == (StagingStateView::Done {
                        result: staging_run_result(write, extraction),
                    })
                },
            }
        }),
{
}

} // verus!
