use vstd::prelude::*;

use crate::lifecycle::{LifecycleError, Phase};

verus! {

/// How long the timer task lets frames accumulate between drains, in
/// seconds.
pub const REPORT_INTERVAL_SECS: u64 = 5;

/// The drained count that tells the timer task to exit instead of
/// reporting. `stop` stores it into the counter; no per-interval frame
/// count is expected to come near it.
pub const SHUTDOWN_SENTINEL: u64 = 1_000_000;

/// What the timer task does with one drained count: exit for good, or
/// report that many frames for the elapsed interval.
#[derive(Clone, Copy, Debug, PartialEq, Eq, Structural)]
pub enum TimerAction {
    Exit,
    Report(u64),
}

/// The decision the timer task takes on a drained count.
pub open spec fn spec_timer_action(count: u64) -> TimerAction {
    if count >= SHUTDOWN_SENTINEL {
        TimerAction::Exit
    } else {
        TimerAction::Report(count)
    }
}

/// How one frame moves the counter: up by one, wrapping only at the far
/// end of `u64` as the shared atomic does.
pub open spec fn spec_counter_step(count: u64) -> u64 {
    if count == u64::MAX {
        0
    } else {
        (count + 1) as u64
    }
}

/// The counter after `n` frames have passed since it last read zero.
pub open spec fn spec_counter_after(n: nat) -> u64
    decreases n,
{
    if n == 0 {
        0
    } else {
        spec_counter_step(spec_counter_after((n - 1) as nat))
    }
}

/// Counting is exact: after `n` frames with no intervening drain, the
/// counter reads `n`, for every `n` the counter can hold.
pub proof fn lemma_counter_counts(n: nat)
    requires
        n <= u64::MAX,
    ensures
        spec_counter_after(n) == n,
    decreases n,
{
    if n > 0 {
        lemma_counter_counts((n - 1) as nat);
    }
}

/// No legitimate interval is mistaken for shutdown: any count accumulated
/// from fewer frames than the sentinel is reported, and reported exactly.
pub proof fn lemma_honest_counts_are_reported(n: nat)
    requires
        n < SHUTDOWN_SENTINEL,
    ensures
        spec_timer_action(spec_counter_after(n)) == TimerAction::Report(n as u64),
{
    lemma_counter_counts(n);
}

/// Shutdown is always observed: the first drain after `stop` finds a count
/// at or above the sentinel and exits instead of reporting.
pub proof fn lemma_stop_signal_is_exit(count: u64)
    requires
        count >= SHUTDOWN_SENTINEL,
    ensures
        spec_timer_action(count) == TimerAction::Exit,
{
}

/// The decision the timer task takes each interval on the count it drained.
pub fn timer_action(count: u64) -> (a: TimerAction)
    ensures
        a == spec_timer_action(count),
{
    if count >= SHUTDOWN_SENTINEL {
        TimerAction::Exit
    } else {
        TimerAction::Report(count)
    }
}

/// The pass-through stage: every frame bumps a counter that a background
/// timer task drains once per interval to report frames per second. The
/// thread, the clock and the report formatting live with the caller; the
/// counter protocol — exact counting, drain-to-zero, and the sentinel that
/// ends the task — is all here.
pub struct FpsCounter {
    /// The name reports are keyed by.
    pub label: String,
    /// Where the stage stands in its start/stop cycle.
    pub phase: Phase,
    /// Frames seen since the last drain; the sentinel once stopped.
    pub counter: u64,
}

impl FpsCounter {
    /// A counter in its initial phase, keyed by `label`.
    pub fn new(label: String) -> (s: FpsCounter)
        ensures
            s.label@ == label@,
            s.phase == Phase::Unstarted,
            s.counter == 0,
    {
        FpsCounter { label, phase: Phase::Unstarted, counter: 0 }
    }

    /// Zeroes the counter and enters the running phase; the caller then
    /// spawns the timer task bound to this instance.
    pub fn start(&mut self) -> (r: Result<(), LifecycleError>)
        ensures
            final(self).label@ == old(self).label@,
            old(self).phase == Phase::Running ==> r == Err::<(), LifecycleError>(
                LifecycleError::AlreadyRunning,
            ) && *final(self) == *old(self),
            old(self).phase != Phase::Running ==> r == Ok::<(), LifecycleError>(()) && final(self).phase == Phase::Running && final(self).counter == 0,
    {
        if matches!(self.phase, Phase::Running) {
            return Err(LifecycleError::AlreadyRunning);
        }
        self.counter = 0;
        self.phase = Phase::Running;
        Ok(())
    }

    /// The hot path: one frame passed through, one step of the counter.
    /// The frame itself is neither read nor changed.
    pub fn process_frame(&mut self) -> (r: Result<(), LifecycleError>)
        ensures
            final(self).label@ == old(self).label@,
            final(self).phase == old(self).phase,
            old(self).phase != Phase::Running ==> r == Err::<(), LifecycleError>(
                LifecycleError::NotRunning,
            ) && *final(self) == *old(self),
            old(self).phase == Phase::Running ==> r == Ok::<(), LifecycleError>(()) && final(self).counter == spec_counter_step(old(self).counter),
    {
        if !matches!(self.phase, Phase::Running) {
            return Err(LifecycleError::NotRunning);
        }
        if self.counter == u64::MAX {
            self.counter = 0;
        } else {
            self.counter = self.counter + 1;
        }
        Ok(())
    }

    /// What the timer task does at the end of an interval: take the whole
    /// accumulated count out, leaving zero behind, exactly like the atomic
    /// swap it stands for.
    pub fn drain(&mut self) -> (count: u64)
        ensures
            final(self).label@ == old(self).label@,
            final(self).phase == old(self).phase,
            count == old(self).counter,
            final(self).counter == 0,
    {
        let count = self.counter;
        self.counter = 0;
        count
    }

    /// Signals the timer task to exit by storing the sentinel where the
    /// next drain will find it, and leaves the running phase; the caller
    /// then joins the task, which `lemma_stop_signal_is_exit` shows will
    /// have taken the exit. Stopping again, or before starting, changes
    /// nothing.
    pub fn stop(&mut self)
        ensures
            final(self).label@ == old(self).label@,
            old(self).phase == Phase::Running ==> final(self).phase == Phase::Stopped && final(self).counter == SHUTDOWN_SENTINEL,
            old(self).phase != Phase::Running ==> *final(self) == *old(self),
    {
        if matches!(self.phase, Phase::Running) {
            self.counter = SHUTDOWN_SENTINEL;
            self.phase = Phase::Stopped;
        }
    }
}

} // verus!
