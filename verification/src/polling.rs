//! The indexing-wait policy. Tag and date attachment fail if issued before
//! the server has finished indexing the just-uploaded item, so the agent
//! polls the media resource by identifier until it answers 200, bounded by
//! an attempt count. Giving up is not fatal: the upload stands; only
//! tagging and dating are skipped.

use vstd::prelude::*;

verus! {

/// What one poll of the media resource reported: the status the GET was
/// answered with, or a transport failure before any status arrived.
pub enum PollOutcome {
    Status(u16),
    TransportError,
}

/// Why a single existence check failed outright.
#[derive(Debug, PartialEq, Eq)]
pub enum PollError {
    /// The GET was answered with a status that is neither 200 nor 404.
    UnexpectedStatus(u16),
}

/// The poller gave up: the item did not become queryable within the
/// allowed attempts.
#[derive(Debug, PartialEq, Eq)]
pub enum IndexWaitError {
    NotIndexed,
}

/// Classify the answer to one existence check: 200 means the item is
/// indexed, 404 means not yet, anything else is unexpected.
pub fn check_media_exists(status: u16) -> (r: Result<bool, PollError>)
    ensures
        status == 200 ==> r == Ok::<bool, PollError>(true),
        status == 404 ==> r == Ok::<bool, PollError>(false),
        status != 200 && status != 404 ==> r == Err::<bool, PollError>(
            PollError::UnexpectedStatus(status),
        ),
{
    if status == 200 {
        Ok(true)
    } else if status == 404 {
        Ok(false)
    } else {
        Err(PollError::UnexpectedStatus(status))
    }
}

/// Whether one poll outcome shows the item indexed: only an answered 200.
/// A 404, any other status, and a transport failure all mean "not yet".
pub open spec fn outcome_indexed(o: PollOutcome) -> bool {
    o == PollOutcome::Status(200u16)
}

/// What the poller should do after one attempt: stop because the item is
/// indexed, sleep and poll again, or give up.
pub enum PollStep {
    Done,
    RetryAfterDelay,
    GiveUp,
}

/// Decide after one poll, the `attempts_done`-th of at most
/// `max_attempts`: a 200 ends the wait; everything else is retried until
/// the attempts are exhausted.
pub fn poll_step(outcome: &PollOutcome, attempts_done: u32, max_attempts: u32) -> (r: PollStep)
    requires
        attempts_done < max_attempts,
    ensures
        outcome_indexed(*outcome) ==> r == PollStep::Done,
        !outcome_indexed(*outcome) ==> if attempts_done + 1 < max_attempts {
            r == PollStep::RetryAfterDelay
        } else {
            r == PollStep::GiveUp
        },
{
    let indexed = match outcome {
        PollOutcome::Status(s) => *s == 200,
        PollOutcome::TransportError => false,
    };
    if indexed {
        PollStep::Done
    } else if attempts_done + 1 < max_attempts {
        PollStep::RetryAfterDelay
    } else {
        PollStep::GiveUp
    }
}

/// Run the indexing wait over the recorded outcomes of successive polls:
/// `outcomes[k]` is what the k-th GET of the media resource reported. The
/// wait succeeds exactly when one of the first `max_attempts` polls
/// answered 200.
pub fn wait_for_media_indexing(outcomes: &Vec<PollOutcome>, max_attempts: u32) -> (r: Result<
    (),
    IndexWaitError,
>)
    requires
        outcomes@.len() >= max_attempts,
    ensures
        r is Ok <==> exists|k: int|
            0 <= k < max_attempts && outcome_indexed(outcomes@[k]),
        r is Err ==> r == Err::<(), IndexWaitError>(IndexWaitError::NotIndexed),
{
    let mut i: usize = 0;
    while i < max_attempts as usize
        invariant
            outcomes@.len() >= max_attempts,
            i <= max_attempts,
            forall|k: int| 0 <= k < i ==> !outcome_indexed(outcomes@[k]),
        decreases max_attempts - i,
    {
        match poll_step(&outcomes[i], i as u32, max_attempts) {
            PollStep::Done => {
                assert(outcome_indexed(outcomes@[i as int]));
                return Ok(());
            },
            _ => {},
        }
        i = i + 1;
    }
    Err(IndexWaitError::NotIndexed)
}

} // verus!
