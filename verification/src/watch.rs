//! The watch lifecycle: an explicit two-state machine with idempotent
//! start and stop. At most one watch is ever active; starting while one
//! runs succeeds without subscribing again, and stopping while idle is a
//! safe no-op. The caller owns the actual subscription, the background
//! task and the cancellation channel; this machine decides every
//! transition.

use vstd::prelude::*;
use crate::settings::config_complete;

verus! {

/// Whether a watch is active.
#[derive(Clone, Copy, Debug, PartialEq, Eq, Structural)]
pub enum WatcherState {
    Idle,
    Running,
}

/// What `start_watching` asks its caller to perform.
#[derive(Debug, PartialEq, Eq)]
pub enum StartAction {
    /// A watch was already active: nothing to do, the call still succeeds.
    AlreadyRunning,
    /// Subscribe to create events under the folder, non-recursively, and
    /// run the event loop in a background task until stopped.
    Subscribe,
}

/// Why a watch could not start.
#[derive(Debug, PartialEq, Eq)]
pub enum WatchError {
    /// The folder or the server is not set.
    ConfigIncomplete,
}

/// The start transition: a running watch stays and nothing is subscribed;
/// an idle one demands a complete configuration and then subscribes.
pub open spec fn start_transition(
    st: WatcherState,
    folder: Seq<char>,
    server: Seq<char>,
) -> (WatcherState, Result<StartAction, WatchError>) {
    if st == WatcherState::Running {
        (WatcherState::Running, Ok(StartAction::AlreadyRunning))
    } else if !config_complete(folder, server) {
        (WatcherState::Idle, Err(WatchError::ConfigIncomplete))
    } else {
        (WatcherState::Running, Ok(StartAction::Subscribe))
    }
}

/// The stop transition: always idle afterwards; the returned flag says
/// whether a background task must be signalled and joined.
pub open spec fn stop_transition(st: WatcherState) -> (WatcherState, bool) {
    (WatcherState::Idle, st == WatcherState::Running)
}

/// Start watching: succeed at once if a watch is already active, reject an
/// incomplete configuration, and otherwise ask the caller to subscribe.
pub fn start_watching(st: &mut WatcherState, folder: &str, server: &str) -> (r: Result<
    StartAction,
    WatchError,
>)
    ensures
        (*final(st), r) == start_transition(*old(st), folder@, server@),
{
    match *st {
        WatcherState::Running => Ok(StartAction::AlreadyRunning),
        WatcherState::Idle => {
            if folder.is_empty() || server.is_empty() {
                Err(WatchError::ConfigIncomplete)
            } else {
                *st = WatcherState::Running;
                Ok(StartAction::Subscribe)
            }
        },
    }
}

/// Stop watching: always idle afterwards. The returned flag tells the
/// caller whether a background task exists to signal and join; stopping an
/// idle watch is a no-op.
pub fn stop_watching(st: &mut WatcherState) -> (stopped: bool)
    ensures
        (*final(st), stopped) == stop_transition(*old(st)),
{
    let was_running = match *st {
        WatcherState::Running => true,
        WatcherState::Idle => false,
    };
    *st = WatcherState::Idle;
    was_running
}

/// Law: activation is idempotent. Of two consecutive starts with a
/// complete configuration and no stop between them, exactly the first
/// subscribes; the second succeeds without subscribing, and the watch is
/// running after both.
pub proof fn lemma_start_twice_subscribes_once(folder: Seq<char>, server: Seq<char>)
    requires
        config_complete(folder, server),
    ensures
        ({
            let (s1, r1) = start_transition(WatcherState::Idle, folder, server);
            let (s2, r2) = start_transition(s1, folder, server);
            &&& r1 == Ok::<StartAction, WatchError>(StartAction::Subscribe)
            &&& r2 == Ok::<StartAction, WatchError>(StartAction::AlreadyRunning)
            &&& s2 == WatcherState::Running
        }),
{
}

/// Law: stopping an idle watch changes nothing and demands no join.
pub proof fn lemma_stop_idle_noop()
    ensures
        stop_transition(WatcherState::Idle) == (WatcherState::Idle, false),
{
}

} // verus!
