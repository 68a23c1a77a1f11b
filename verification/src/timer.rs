//! A pausable clock: time that only accumulates while the timer runs.
//!
//! The timer never reads a clock itself. Every operation takes the current
//! clock reading, in whole milliseconds, from the caller. A reading from
//! before the current run began adds no time to the run.

use vstd::prelude::*;

verus! {

/// The state of a pausable timer.
///
/// While the timer runs, the time it shows is `accumulated` plus the time
/// since `resumed_at`. While it is paused, it shows `accumulated` alone.
#[derive(Clone, Copy, Debug)]
pub struct PausableTimer {
    /// Time collected in the runs that have ended, in milliseconds.
    pub accumulated: u64,
    /// Whether the timer is paused.
    pub paused: bool,
    /// The clock reading at which the current run began.
    pub resumed_at: u64,
}

impl PausableTimer {
    /// The length of the current run when the clock reads `now`: nothing
    /// while the timer is paused, and nothing at a reading from before the
    /// run began.
    pub open spec fn run_at(self, now: int) -> int {
        if self.paused || now < self.resumed_at {
            0
        } else {
            now - self.resumed_at
        }
    }

    /// The time the timer shows when the clock reads `now`.
    pub open spec fn elapsed_at(self, now: int) -> int {
        self.accumulated + self.run_at(now)
    }

    /// The timer can take the reading `now`: the time to show fits in a
    /// `u64`.
    pub open spec fn admits(self, now: u64) -> bool {
        self.elapsed_at(now as int) <= u64::MAX
    }

    /// The state after the pause switch is set to `paused` at reading `now`.
    ///
    /// Setting the switch to the value it already has changes nothing.
    /// Pausing folds the run that ends into `accumulated`; resuming starts a
    /// new run at `now`.
    pub open spec fn switched(self, paused: bool, now: u64) -> PausableTimer {
        if paused == self.paused {
            self
        } else if paused {
            PausableTimer {
                accumulated: self.elapsed_at(now as int) as u64,
                paused: true,
                resumed_at: self.resumed_at,
            }
        } else {
            PausableTimer { accumulated: self.accumulated, paused: false, resumed_at: now }
        }
    }

    /// The timer has kept to a clock that has not run backwards and reads
    /// `now`: it has seen no later reading, and has collected no more time
    /// than had passed when its last run began.
    pub open spec fn kept_to_clock(self, now: u64) -> bool {
        &&& self.resumed_at <= now
        &&& self.accumulated <= now
        &&& !self.paused ==> self.accumulated <= self.resumed_at
    }

    /// Whether the timer can take the reading `now`.
    pub fn can_take(&self, now: u64) -> (ok: bool)
        ensures
            ok == self.admits(now),
    {
        self.paused || now < self.resumed_at || now - self.resumed_at <= u64::MAX
            - self.accumulated
    }

    /// The time the timer shows at reading `now`.
    pub fn elapsed(&self, now: u64) -> (e: u64)
        requires
            self.admits(now),
        ensures
            e == self.elapsed_at(now as int),
    {
        if self.paused || now < self.resumed_at {
            self.accumulated
        } else {
            self.accumulated + (now - self.resumed_at)
        }
    }

    /// Sets the pause switch at reading `now`.
    pub fn set_paused(&mut self, paused: bool, now: u64)
        requires
            old(self).admits(now),
        ensures
            *final(self) == old(self).switched(paused, now),
            final(self).paused == paused,
            final(self).admits(now),
            final(self).elapsed_at(now as int) == old(self).elapsed_at(now as int),
    {
        if paused != self.paused {
            if paused {
                self.accumulated = self.elapsed(now);
                self.paused = true;
            } else {
                self.resumed_at = now;
                self.paused = false;
            }
        }
    }
}

/// A timer that starts running, showing zero, at reading `now`.
pub fn pausable_timer(now: u64) -> (timer: PausableTimer)
    ensures
        timer == (PausableTimer { accumulated: 0, paused: false, resumed_at: now }),
        timer.kept_to_clock(now),
        timer.elapsed_at(now as int) == 0,
{
    PausableTimer { accumulated: 0, paused: false, resumed_at: now }
}

/// A paused timer shows the same time at every clock reading.
pub proof fn law_paused_timer_is_frozen(timer: PausableTimer, earlier: u64, later: u64)
    requires
        timer.paused,
    ensures
        timer.elapsed_at(earlier as int) == timer.elapsed_at(later as int),
        timer.elapsed_at(later as int) == timer.accumulated,
{
}

/// A running timer never shows less time at a later clock reading, and
/// once its run has begun it shows exactly as much more as the clock has
/// moved.
pub proof fn law_running_timer_follows_clock(timer: PausableTimer, earlier: u64, later: u64)
    requires
        !timer.paused,
        earlier <= later,
    ensures
        timer.elapsed_at(earlier as int) <= timer.elapsed_at(later as int),
        timer.resumed_at <= earlier ==> timer.elapsed_at(later as int) - timer.elapsed_at(
            earlier as int,
        ) == later - earlier,
{
}

/// Setting the pause switch does not move the time the timer shows at that
/// reading: there is no jump at a pause and none at a resume.
pub proof fn law_switch_is_continuous(timer: PausableTimer, paused: bool, now: u64)
    requires
        timer.admits(now),
    ensures
        timer.switched(paused, now).elapsed_at(now as int) == timer.elapsed_at(now as int),
        timer.switched(paused, now).admits(now),
{
}

/// Time spent paused is not counted. A running timer that is paused at
/// `paused_at` and resumed at `resumed_at` shows, during the pause, what it
/// showed when it was paused, and after the pause that much plus the time
/// since it was resumed.
pub proof fn law_pause_is_not_counted(
    timer: PausableTimer,
    paused_at: u64,
    during: u64,
    resumed_at: u64,
    now: u64,
)
    requires
        !timer.paused,
        timer.admits(paused_at),
        paused_at <= during <= resumed_at <= now,
    ensures
        timer.switched(true, paused_at).elapsed_at(during as int) == timer.elapsed_at(
            paused_at as int,
        ),
        timer.switched(true, paused_at).switched(false, resumed_at).elapsed_at(now as int)
            == timer.elapsed_at(paused_at as int) + (now - resumed_at),
{
}

/// A clock that does not run backwards never asks too much of a timer. A
/// timer that has kept to its clock up to `seen` takes every reading, shows
/// at no reading from `seen` on more time than the clock reads, and after
/// its switch is set at such a reading it has kept to the clock up to that
/// reading.
pub proof fn law_monotonic_clock_is_admitted(
    timer: PausableTimer,
    seen: u64,
    paused: bool,
    any: u64,
    now: u64,
)
    requires
        timer.kept_to_clock(seen),
        seen <= now,
    ensures
        timer.admits(any),
        timer.elapsed_at(now as int) <= now,
        timer.kept_to_clock(now),
        timer.switched(paused, now).kept_to_clock(now),
{
}

} // verus!
