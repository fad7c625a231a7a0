use media_ingest::polling::{
    check_media_exists, poll_step, wait_for_media_indexing, IndexWaitError, PollError, PollOutcome,
    PollStep,
};
use media_ingest::reading::{retry_read_file, retry_read_step, ReadAttempt, ReadError, RetryStep};

#[test]
fn third_attempt_succeeds_after_two_locks() {
    let attempts = vec![
        ReadAttempt::Locked,
        ReadAttempt::Locked,
        ReadAttempt::Data(vec![1, 2, 3]),
    ];
    let r = retry_read_file(&attempts, 3);
    assert_eq!(r.ok(), Some(vec![1, 2, 3]));
}

#[test]
fn always_locked_exhausts_exactly_three_attempts() {
    let attempts = vec![ReadAttempt::Locked, ReadAttempt::Locked, ReadAttempt::Locked];
    let r = retry_read_file(&attempts, 3);
    assert!(matches!(r, Err(ReadError::FileLocked)));
    // the third locked attempt is the last one consulted
    assert!(matches!(
        retry_read_step(&ReadAttempt::Locked, 2, 3),
        RetryStep::Done(Err(ReadError::FileLocked))
    ));
    assert!(matches!(
        retry_read_step(&ReadAttempt::Locked, 1, 3),
        RetryStep::RetryAfterDelay
    ));
}

#[test]
fn other_io_error_fails_immediately() {
    let attempts = vec![ReadAttempt::Failed, ReadAttempt::Data(vec![9]), ReadAttempt::Locked];
    let r = retry_read_file(&attempts, 3);
    assert!(matches!(r, Err(ReadError::IoError)));
}

#[test]
fn first_attempt_can_succeed() {
    let attempts = vec![ReadAttempt::Data(vec![7]), ReadAttempt::Locked, ReadAttempt::Locked];
    let r = retry_read_file(&attempts, 3);
    assert_eq!(r.ok(), Some(vec![7]));
}

#[test]
fn exists_check_classifies_statuses() {
    assert_eq!(check_media_exists(200), Ok(true));
    assert_eq!(check_media_exists(404), Ok(false));
    assert_eq!(
        check_media_exists(500),
        Err(PollError::UnexpectedStatus(500))
    );
}

#[test]
fn wait_succeeds_once_a_poll_answers_200() {
    let outcomes = vec![
        PollOutcome::Status(404),
        PollOutcome::TransportError,
        PollOutcome::Status(200),
    ];
    assert!(wait_for_media_indexing(&outcomes, 3).is_ok());
}

#[test]
fn wait_gives_up_after_max_attempts() {
    let outcomes = vec![
        PollOutcome::Status(404),
        PollOutcome::Status(404),
        PollOutcome::Status(404),
        PollOutcome::Status(200),
    ];
    let r = wait_for_media_indexing(&outcomes, 3);
    assert!(matches!(r, Err(IndexWaitError::NotIndexed)));
}

#[test]
fn unexpected_statuses_and_transport_errors_are_retried() {
    assert!(matches!(
        poll_step(&PollOutcome::Status(503), 0, 3),
        PollStep::RetryAfterDelay
    ));
    assert!(matches!(
        poll_step(&PollOutcome::TransportError, 2, 3),
        PollStep::GiveUp
    ));
    assert!(matches!(
        poll_step(&PollOutcome::Status(200), 2, 3),
        PollStep::Done
    ));
}
