//! Events: points on the timeline that fire once and are then measured from.
//!
//! An `Event` records the clock reading at which it fired. Other state is
//! derived from it: how long ago it fired, whether work that hangs on it
//! should still run, and whether a listener has already been told.
//!
//! Clock readings are whole milliseconds, handed in by the caller.

use vstd::prelude::*;

verus! {

/// A trigger with a memory: unfired, or fired at a recorded clock reading.
#[derive(Clone, Copy, Debug)]
pub struct Event {
    /// The clock reading at which the event last fired, if it has fired.
    pub trigger_time: Option<u64>,
    /// Whether the event still waits for its trigger condition to hold for
    /// the first time. Only events made by `from_trigger` ever wait.
    pub awaiting: bool,
}

/// What a listener remembers between the times it looks at its event.
#[derive(Clone, Copy, Debug)]
pub struct Listener {
    /// The event's trigger time when the listener was set up.
    pub initial: Option<u64>,
    /// The trigger time that the listener reported last, if any.
    pub reported: Option<u64>,
    /// How many trigger times the listener has reported.
    pub count: usize,
}

impl Event {
    /// Whether the event has fired.
    pub open spec fn is_triggered(self) -> bool {
        self.trigger_time is Some
    }

    /// The time since the event fired, as seen at clock reading `now`:
    /// zero for an event that has not fired, and zero for a reading from
    /// before the event fired.
    pub open spec fn time_at(self, now: u64) -> u64 {
        match self.trigger_time {
            None => 0,
            Some(t) => if t <= now {
                (now - t) as u64
            } else {
                0
            },
        }
    }

    /// The event after it is fired at `now`, whatever it held before.
    pub open spec fn fired(self, now: u64) -> Event {
        Event { trigger_time: Some(now), awaiting: self.awaiting }
    }

    /// The event after it is fired at `now` unless it had fired already.
    pub open spec fn fired_once(self, now: u64) -> Event {
        if self.is_triggered() {
            self
        } else {
            self.fired(now)
        }
    }

    /// The event after its trigger condition is seen to be `trigger` at
    /// `now`. A waiting event fires the first time the condition holds and
    /// stops waiting; later changes of the condition do nothing.
    pub open spec fn observed(self, trigger: bool, now: u64) -> Event {
        if self.awaiting && trigger {
            Event { trigger_time: Some(now), awaiting: false }
        } else {
            self
        }
    }

    /// Whether any event of `before` has fired.
    pub open spec fn any_triggered(before: Seq<Event>) -> bool {
        exists|i: int| 0 <= i < before.len() && (#[trigger] before[i]).is_triggered()
    }

    /// What work that hangs on this event is handed at clock reading `now`.
    ///
    /// The work runs, and is given the time since the event fired, when the
    /// event has fired and no event of `before` has. Otherwise it does not
    /// run.
    pub open spec fn due(self, now: u64, before: Seq<Event>) -> Option<u64> {
        if self.is_triggered() && !Self::any_triggered(before) {
            Some(self.time_at(now))
        } else {
            None
        }
    }

    /// An event that has not fired and waits for nothing.
    pub fn new() -> (e: Event)
        ensures
            e == (Event { trigger_time: None, awaiting: false }),
            !e.is_triggered(),
            forall|now: u64| e.time_at(now) == 0,
    {
        Event { trigger_time: None, awaiting: false }
    }

    /// An event bound to a trigger condition, after the condition is looked
    /// at for the first time, at `now`: fired at `now` if the condition
    /// holds already, waiting for it otherwise.
    pub fn from_trigger(trigger: bool, now: u64) -> (e: Event)
        ensures
            e == (Event { trigger_time: None, awaiting: true }).observed(trigger, now),
            e.is_triggered() == trigger,
            e.awaiting == !trigger,
            trigger ==> e.trigger_time == Some(now),
    {
        let mut e = Event { trigger_time: None, awaiting: true };
        e.observe(trigger, now);
        e
    }

    /// Shows the event its trigger condition again, at `now`.
    /// Returns whether the event fired on this look.
    pub fn observe(&mut self, trigger: bool, now: u64) -> (fired: bool)
        ensures
            *final(self) == old(self).observed(trigger, now),
            fired == (old(self).awaiting && trigger),
    {
        if self.awaiting && trigger {
            self.trigger_time = Some(now);
            self.awaiting = false;
            true
        } else {
            false
        }
    }

    /// Whether the event has fired.
    pub fn triggered(&self) -> (t: bool)
        ensures
            t == self.is_triggered(),
    {
        self.trigger_time.is_some()
    }

    /// Whether the event has fired. The same reading as `triggered`, for
    /// callers that keep apart reads that subscribe and reads that peek.
    pub fn triggered_untracked(&self) -> (t: bool)
        ensures
            t == self.is_triggered(),
    {
        self.trigger_time.is_some()
    }

    /// The time since the event fired, at clock reading `now`.
    pub fn time(&self, now: u64) -> (elapsed: u64)
        ensures
            elapsed == self.time_at(now),
    {
        match self.trigger_time {
            None => 0,
            Some(t) => if t <= now {
                now - t
            } else {
                0
            },
        }
    }

    /// The time since the event fired, at clock reading `now`. The same
    /// reading as `time`, for callers that keep apart reads that subscribe
    /// and reads that peek.
    pub fn time_untracked(&self, now: u64) -> (elapsed: u64)
        ensures
            elapsed == self.time_at(now),
    {
        self.time(now)
    }

    /// Fires the event at `now`. An earlier trigger time is overwritten.
    pub fn trigger(&mut self, now: u64)
        ensures
            *final(self) == old(self).fired(now),
            final(self).is_triggered(),
            final(self).time_at(now) == 0,
    {
        self.trigger_time = Some(now);
    }

    /// Fires the event at `now` if it has not fired yet.
    pub fn trigger_once(&mut self, now: u64)
        ensures
            *final(self) == old(self).fired_once(now),
            final(self).is_triggered(),
            old(self).is_triggered() ==> *final(self) == *old(self),
    {
        if !self.triggered() {
            self.trigger(now);
        }
    }

    /// Decides, at clock reading `now`, whether work that hangs on this
    /// event runs, and with what argument. `before` holds the current state
    /// of the events that silence the work once one of them has fired.
    pub fn after(&self, now: u64, before: &Vec<Event>) -> (run: Option<u64>)
        ensures
            run == self.due(now, before@),
    {
        if !self.triggered() {
            return None;
        }
        let mut i: usize = 0;
        while i < before.len()
            invariant
                i <= before.len(),
                forall|j: int| 0 <= j < i ==> !(#[trigger] before@[j]).is_triggered(),
            decreases before.len() - i,
        {
            if before[i].triggered() {
                return None;
            }
            i = i + 1;
        }
        Some(self.time(now))
    }

    /// Sets up a listener on this event. The listener reports trigger times
    /// that differ from the one the event holds now.
    pub fn on(&self) -> (listener: Listener)
        ensures
            listener == (Listener {
                initial: self.trigger_time,
                reported: None,
                count: 0,
            }),
    {
        Listener { initial: self.trigger_time, reported: None, count: 0 }
    }
}

impl Listener {
    /// Whether the listener has something to report about `event`: a trigger
    /// time that is neither the one from setup nor the one reported last.
    pub open spec fn news(self, event: Event) -> bool {
        &&& event.trigger_time is Some
        &&& event.trigger_time != self.initial
        &&& event.trigger_time != self.reported
    }

    /// The listener after it has looked at `event`.
    pub open spec fn noticed(self, event: Event) -> Listener {
        if self.news(event) {
            Listener {
                initial: self.initial,
                reported: event.trigger_time,
                count: (self.count + 1) as usize,
            }
        } else {
            self
        }
    }

    /// What the listener hands its callback for `event`: the trigger time
    /// and the number of earlier reports, or nothing.
    pub open spec fn report(self, event: Event) -> Option<(u64, usize)> {
        if self.news(event) {
            Some((event.trigger_time->0, self.count))
        } else {
            None
        }
    }

    /// Looks at `event` and says whether the callback runs, and with what
    /// arguments. Each trigger time is reported once.
    pub fn notify(&mut self, event: &Event) -> (call: Option<(u64, usize)>)
        requires
            old(self).count < usize::MAX,
        ensures
            call == old(self).report(*event),
            *final(self) == old(self).noticed(*event),
            final(self).report(*event) is None,
    {
        match event.trigger_time {
            None => None,
            Some(t) => {
                let same_as_initial = match self.initial {
                    Some(t0) => t0 == t,
                    None => false,
                };
                let same_as_reported = match self.reported {
                    Some(t1) => t1 == t,
                    None => false,
                };
                if same_as_initial || same_as_reported {
                    None
                } else {
                    let n = self.count;
                    self.reported = Some(t);
                    self.count = n + 1;
                    Some((t, n))
                }
            },
        }
    }
}

/// One look of a stopwatch that starts when a condition first holds.
///
/// `latch` is shown the condition, as `Event::observe` does, and the time
/// since the latch fired is returned: zero for as long as the condition has
/// never held.
pub fn time_since(latch: &mut Event, trigger: bool, now: u64) -> (elapsed: u64)
    ensures
        *final(latch) == old(latch).observed(trigger, now),
        elapsed == final(latch).time_at(now),
{
    latch.observe(trigger, now);
    latch.time(now)
}

/// An event that has not fired shows no time, whatever the clock reads.
pub proof fn law_unfired_event_shows_zero(event: Event, now: u64)
    requires
        !event.is_triggered(),
    ensures
        event.time_at(now) == 0,
{
}

/// Once an event is fired at `at`, it has fired, and the time it shows
/// follows the clock: it never shrinks as the clock moves on, and from `at`
/// onward it is the distance from `at`.
pub proof fn law_fired_event_follows_clock(event: Event, at: u64, earlier: u64, later: u64)
    requires
        earlier <= later,
    ensures
        event.fired(at).is_triggered(),
        event.fired(at).time_at(earlier) <= event.fired(at).time_at(later),
        at <= later ==> event.fired(at).time_at(later) == later - at,
{
}

/// An event never un-fires: whatever is done to an event that has fired, it
/// has fired afterwards, and what does not fire it anew leaves its trigger
/// time alone.
pub proof fn law_event_never_unfires(event: Event, trigger: bool, now: u64)
    requires
        event.is_triggered(),
    ensures
        event.fired(now).is_triggered(),
        event.fired_once(now) == event,
        event.observed(trigger, now).is_triggered(),
        !(event.awaiting && trigger) ==> event.observed(trigger, now) == event,
{
}

/// Firing an event once, twice over, keeps the first trigger time: the
/// second call changes nothing, however much later it comes.
pub proof fn law_trigger_once_is_idempotent(event: Event, first: u64, second: u64)
    ensures
        event.fired_once(first).fired_once(second) == event.fired_once(first),
        !event.is_triggered() ==> event.fired_once(first).fired_once(second).trigger_time
            == Some(first),
{
}

/// Work that hangs on an event is silenced for good by any one of its
/// silencing events: once `before[k]` has fired, the work is not due at any
/// clock reading, whether or not the event itself has fired.
pub proof fn law_fired_silencer_suppresses(event: Event, before: Seq<Event>, k: int, now: u64)
    requires
        0 <= k < before.len(),
        before[k].is_triggered(),
    ensures
        event.due(now, before) is None,
{
}

/// Work that hangs on a fired event with no fired silencer is due at every
/// clock reading, with the time since the event fired.
pub proof fn law_unsilenced_work_is_due(event: Event, before: Seq<Event>, now: u64)
    requires
        event.is_triggered(),
        forall|i: int| 0 <= i < before.len() ==> !(#[trigger] before[i]).is_triggered(),
    ensures
        event.due(now, before) == Some(event.time_at(now)),
{
}

/// A waiting event fires at the first look at which its condition holds,
/// and no later look moves its trigger time.
pub proof fn law_watch_fires_once(event: Event, first: u64, again: bool, second: u64)
    requires
        event.awaiting,
    ensures
        event.observed(true, first).trigger_time == Some(first),
        event.observed(true, first).observed(again, second) == event.observed(true, first),
        event.observed(false, first) == event,
{
}

/// A listener hears an event that fires once exactly once. Set up before
/// the event fires, it reports the trigger time, with no earlier reports,
/// at its first look after the event fired, and nothing at any later look,
/// whatever further calls to fire the event once there were.
pub proof fn law_listener_hears_single_trigger_once(event: Event, first: u64, second: u64)
    requires
        !event.is_triggered(),
    ensures
        ({
            let listener = Listener { initial: event.trigger_time, reported: None, count: 0 };
            let fired = event.fired_once(first);
            &&& listener.report(event) is None
            &&& listener.report(fired) == Some((first, 0usize))
            &&& listener.noticed(fired).report(fired.fired_once(second)) is None
        }),
{
}

/// A listener reports each trigger time once: after it has looked at an
/// event, a second look at the same event reports nothing.
pub proof fn law_listener_reports_once(listener: Listener, event: Event)
    ensures
        listener.noticed(event).report(event) is None,
        listener.noticed(event).noticed(event) == listener.noticed(event),
{
}

} // verus!
