//! The locked-file retry policy. File-create events fire before writers
//! finish flushing, so a read that fails because another process holds the
//! file is treated as transient and retried, up to a bounded number of
//! attempts; any other I/O failure ends the read at once.

use vstd::prelude::*;

verus! {

broadcast use vstd::std_specs::vec::vec_clone_deep_view_proof;

/// What one attempt to read the file reported: the bytes, a locked-file
/// condition (the OS says another process holds the file), or any other
/// I/O failure.
pub enum ReadAttempt {
    Data(Vec<u8>),
    Locked,
    Failed,
}

/// Why the read gave up: the file stayed locked through every allowed
/// attempt, or an unrelated I/O error ended it at once.
#[derive(Debug, PartialEq, Eq)]
pub enum ReadError {
    FileLocked,
    IoError,
}

/// What the retry policy yields on a sequence of attempt outcomes: the
/// first outcome that is not a lock decides, and `max_retries` consecutive
/// locks exhaust the attempts as a locked-file failure.
pub open spec fn read_retry_spec(attempts: Seq<ReadAttempt>, max_retries: int) -> Result<
    Seq<u8>,
    ReadError,
>
    recommends
        attempts.len() >= max_retries,
    decreases max_retries,
{
    if max_retries <= 0 {
        Err(ReadError::FileLocked)
    } else {
        match attempts[0] {
            ReadAttempt::Data(d) => Ok(d@),
            ReadAttempt::Failed => Err(ReadError::IoError),
            ReadAttempt::Locked => read_retry_spec(attempts.skip(1), max_retries - 1),
        }
    }
}

/// What the reader should do after one attempt: hand back a result, or
/// sleep for the configured delay and read again.
pub enum RetryStep {
    Done(Result<Vec<u8>, ReadError>),
    RetryAfterDelay,
}

/// Decide after one read attempt, the `attempts_done`-th of at most
/// `max_retries`: data or a non-lock failure ends the read at once; a lock
/// is retried until the attempts are exhausted.
pub fn retry_read_step(outcome: &ReadAttempt, attempts_done: u32, max_retries: u32) -> (r:
    RetryStep)
    requires
        attempts_done < max_retries,
    ensures
        (outcome matches ReadAttempt::Data(d) ==> (r matches RetryStep::Done(res) && res matches
            Ok(b) && b@ == d@)),
        (outcome matches ReadAttempt::Failed ==> r == RetryStep::Done(
            Err::<Vec<u8>, ReadError>(ReadError::IoError),
        )),
        (outcome matches ReadAttempt::Locked ==> if attempts_done + 1 < max_retries {
            r == RetryStep::RetryAfterDelay
        } else {
            r == RetryStep::Done(Err::<Vec<u8>, ReadError>(ReadError::FileLocked))
        }),
{
    match outcome {
        ReadAttempt::Data(d) => RetryStep::Done(Ok(d.clone())),
        ReadAttempt::Failed => RetryStep::Done(Err(ReadError::IoError)),
        ReadAttempt::Locked => {
            if attempts_done + 1 < max_retries {
                RetryStep::RetryAfterDelay
            } else {
                RetryStep::Done(Err(ReadError::FileLocked))
            }
        },
    }
}

/// Run the retry policy over the recorded outcomes of successive read
/// attempts: `attempts[k]` is what the k-th read reported. The first
/// outcome that yields data or a non-lock failure decides; after
/// `max_retries` locked attempts the read gives up as FileLocked.
pub fn retry_read_file(attempts: &Vec<ReadAttempt>, max_retries: u32) -> (r: Result<
    Vec<u8>,
    ReadError,
>)
    requires
        attempts@.len() >= max_retries,
    ensures
        (r matches Ok(d) && read_retry_spec(attempts@, max_retries as int) == Ok::<
            Seq<u8>,
            ReadError,
        >(d@)) || (r matches Err(e) && read_retry_spec(attempts@, max_retries as int) == Err::<
            Seq<u8>,
            ReadError,
        >(e)),
{
    let mut i: usize = 0;
    proof {
        assert(attempts@.skip(0) =~= attempts@);
    }
    while i < max_retries as usize
        invariant
            attempts@.len() >= max_retries,
            i <= max_retries,
            read_retry_spec(attempts@.skip(i as int), max_retries - i) == read_retry_spec(
                attempts@,
                max_retries as int,
            ),
        decreases max_retries - i,
    {
        proof {
            assert(attempts@.skip(i as int)[0] == attempts@[i as int]);
            assert(attempts@.skip(i as int).skip(1) =~= attempts@.skip(i as int + 1));
        }
        match retry_read_step(&attempts[i], i as u32, max_retries) {
            RetryStep::Done(res) => {
                proof {
                    let rest = attempts@.skip(i as int);
                    match rest[0] {
                        ReadAttempt::Data(d) => {
                            assert(read_retry_spec(rest, max_retries - i) == Ok::<
                                Seq<u8>,
                                ReadError,
                            >(d@));
                        },
                        ReadAttempt::Failed => {
                            assert(read_retry_spec(rest, max_retries - i) == Err::<
                                Seq<u8>,
                                ReadError,
                            >(ReadError::IoError));
                        },
                        ReadAttempt::Locked => {
                            assert(i + 1 == max_retries);
                            assert(read_retry_spec(rest.skip(1), 0) == Err::<Seq<u8>, ReadError>(
                                ReadError::FileLocked,
                            ));
                            assert(read_retry_spec(rest, 1) == Err::<Seq<u8>, ReadError>(
                                ReadError::FileLocked,
                            ));
                        },
                    }
                }
                return res;
            },
            RetryStep::RetryAfterDelay => {},
        }
        i = i + 1;
    }
    Err(ReadError::FileLocked)
}

} // verus!
