//! How a run and the cleanup that follows it become one result.
use vstd::prelude::*;

use crate::drive::PipelineExit;
use crate::error::{Failure, RunError};

verus! {

/// The result of a run: it is good only if the run ended well and the pipeline was
/// stopped, and it keeps every failure that happened.
pub open spec fn run_result(
    outcome: Result<PipelineExit, Failure>,
    cleanup: Result<(), Failure>,
) -> Result<PipelineExit, RunError> {
    match (outcome, cleanup) {
        (Ok(exit), Ok(())) => Ok(exit),
        (Err(failure), Ok(())) => Err(RunError::One(failure)),
        (Ok(_), Err(failure)) => Err(RunError::One(failure)),
        (Err(outcome), Err(cleanup)) => Err(RunError::Both { outcome, cleanup }),
    }
}

/// Joins how the run ended with how its cleanup went.
pub fn join(outcome: Result<PipelineExit, Failure>, cleanup: Result<(), Failure>) -> (r: Result<
    PipelineExit,
    RunError,
>)
    ensures
        r == run_result(outcome, cleanup),
{
    match (outcome, cleanup) {
        (Ok(exit), Ok(())) => Ok(exit),
        (Err(failure), Ok(())) => Err(RunError::One(failure)),
        (Ok(_), Err(failure)) => Err(RunError::One(failure)),
        (Err(outcome), Err(cleanup)) => Err(RunError::Both { outcome, cleanup }),
    }
}

}
