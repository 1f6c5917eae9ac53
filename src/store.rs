use vstd::prelude::*;
use crate::engine::DEFAULT_MAX_VISIT_LOG_NUM;

verus! {

/// Failures of the score store.
pub enum FrecencyError {
    /// The storage engine failed; the text describes the failing operation.
    SqliteError(String),
    /// The tables were queried before they were created.
    SchemaMissing,
    /// A visit log bound of zero was requested.
    InvalidMaxVisitNum,
}

/// The visit log bound a store is opened with: the default when none is
/// requested; a requested bound of zero is refused.
pub fn max_visit_log_num(requested: Option<usize>) -> (r: Result<usize, FrecencyError>)
    ensures
        requested is None ==> r == Ok::<usize, FrecencyError>(DEFAULT_MAX_VISIT_LOG_NUM),
        requested == Some(0usize) ==> r is Err && r->Err_0 is InvalidMaxVisitNum,
        forall|n: usize| requested == Some(n) && n > 0 ==> r == Ok::<usize, FrecencyError>(n),
{
    match requested {
        None => Ok(DEFAULT_MAX_VISIT_LOG_NUM),
        Some(n) => {
            if n == 0 {
                Err(FrecencyError::InvalidMaxVisitNum)
            } else {
                Ok(n)
            }
        },
    }
}

/// How one attempt to record a visit ended.
#[derive(PartialEq, Eq, Structural, Clone, Copy, Debug)]
pub enum VisitOutcome {
    Stored,
    SchemaMissing,
    Failed,
}

/// What the caller does after an attempt to record a visit.
#[derive(PartialEq, Eq, Structural, Clone, Copy, Debug)]
pub enum NextStep {
    /// The visit is stored.
    Finish,
    /// Create the tables, then record the same visit once more.
    CreateSchemaAndRetry,
    /// Report the failure.
    GiveUp,
}

/// The schema bootstrap protocol: a first attempt that finds the tables
/// missing is followed by creating them and exactly one retry; any other
/// failure, and any failure of the retry, is reported.
pub fn after_record_attempt(retried: bool, outcome: VisitOutcome) -> (r: NextStep)
    ensures
        outcome == VisitOutcome::Stored ==> r == NextStep::Finish,
        outcome == VisitOutcome::SchemaMissing && !retried ==> r == NextStep::CreateSchemaAndRetry,
        outcome == VisitOutcome::SchemaMissing && retried ==> r == NextStep::GiveUp,
        outcome == VisitOutcome::Failed ==> r == NextStep::GiveUp,
{
    match outcome {
        VisitOutcome::Stored => NextStep::Finish,
        VisitOutcome::SchemaMissing => {
            if retried {
                NextStep::GiveUp
            } else {
                NextStep::CreateSchemaAndRetry
            }
        },
        VisitOutcome::Failed => NextStep::GiveUp,
    }
}

} // verus!
