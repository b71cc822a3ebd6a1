use vstd::prelude::*;

use crate::error::{ErrorView, GameSenseError};

verus! {

/// Seconds between two heartbeats.
pub const HEARTBEAT_INTERVAL_SECS: u64 = 10;

/// Who holds the running heartbeat task, if any.
///
/// `H` is the handle by which the task is cancelled. Every operation that
/// takes a task out of the slot hands it back, so that the caller cancels
/// it: no task is ever dropped from here while still running.
pub struct HeartbeatControl<H> {
    task: Option<H>,
}

/// The slot after a task was started in it.
pub open spec fn after_start<H>(task: Option<H>, started: H) -> Option<H> {
    Some(started)
}

/// The slot after a stop: empty, whether a task ran or not.
pub open spec fn after_stop<H>(task: Option<H>) -> Option<H> {
    None
}

/// What a stop gives: the running task to cancel, or the failure that none ran.
pub open spec fn stop_result<H>(task: Option<H>) -> Result<H, ErrorView> {
    match task {
        Some(h) => Ok(h),
        None => Err(ErrorView::HeartbeatNotStarted),
    }
}

pub open spec fn stop_view<H>(r: Result<H, GameSenseError>) -> Result<H, ErrorView> {
    match r {
        Ok(h) => Ok(h),
        Err(e) => Err(e@),
    }
}

impl<H> HeartbeatControl<H> {
    /// The task that runs now, if any.
    pub closed spec fn current(&self) -> Option<H> {
        self.task
    }

    /// No heartbeat runs.
    pub fn new() -> (r: Self)
        ensures
            r.current() is None,
    {
        HeartbeatControl { task: None }
    }

    pub fn is_running(&self) -> (r: bool)
        ensures
            r == self.current() is Some,
    {
        self.task.is_some()
    }

    /// Records `task` as the running heartbeat. A task that ran before is
    /// handed back, to be cancelled by the caller.
    pub fn start(&mut self, task: H) -> (previous: Option<H>)
        ensures
            final(self).current() == after_start(old(self).current(), task),
            previous == old(self).current(),
    {
        let previous = self.task.take();
        self.task = Some(task);
        previous
    }

    /// Takes the running task out, to be cancelled by the caller; fails with
    /// `HeartbeatNotStarted` where none runs.
    pub fn stop(&mut self) -> (r: Result<H, GameSenseError>)
        ensures
            final(self).current() == after_stop(old(self).current()),
            stop_view(r) == stop_result(old(self).current()),
    {
        match self.task.take() {
            Some(h) => Ok(h),
            None => Err(GameSenseError::HeartbeatNotStarted),
        }
    }

    /// The stop that teardown makes: a missing task is no failure here.
    pub fn teardown(&mut self) -> (r: Option<H>)
        ensures
            final(self).current() is None,
            r == old(self).current(),
    {
        match self.stop() {
            Ok(h) => Some(h),
            Err(_) => None,
        }
    }
}

/// Stopping twice in a row: the second stop fails with `HeartbeatNotStarted`,
/// whatever the first found.
pub proof fn lemma_second_stop_fails<H>(task: Option<H>)
    ensures
        stop_result(after_stop(task)) == Err::<H, ErrorView>(ErrorView::HeartbeatNotStarted),
        after_stop(after_stop(task)) is None,
{
}

/// Starting then stopping at once succeeds, hands back the task just
/// started for cancelling, and leaves no task behind.
pub proof fn lemma_start_then_stop<H>(task: Option<H>, started: H)
    ensures
        stop_result(after_start(task, started)) == Ok::<H, ErrorView>(started),
        after_stop(after_start(task, started)) is None,
{
}

} // verus!
