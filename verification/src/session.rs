//! The timer: when it started, when it is due, and what it shows.

use vstd::prelude::*;
use crate::clock::{format_hms, hms, pad2, wall_clock_after, wall_clock_now, ClockTime, Moment};

verus! {

/// The moment at which the task is due, with the time of day to show for it.
#[derive(Clone, Copy, Debug, PartialEq, Eq, Structural)]
pub struct Deadline {
    pub at: Moment,
    pub label: ClockTime,
}

/// A running timer. It counts up from `start`; with a deadline it also counts
/// down to it, and up again once it has passed.
#[derive(Clone, Copy, Debug, PartialEq, Eq, Structural)]
pub struct Session {
    pub start: Moment,
    pub deadline: Option<Deadline>,
}

/// Where the timer stands against its deadline, in whole seconds.
#[derive(Clone, Copy, Debug, PartialEq, Eq, Structural)]
pub enum Countdown {
    /// The deadline is this far ahead, or is now.
    Remaining(u64),
    /// The deadline passed this long ago.
    Overrun(u64),
}

/// What the timer shows of its deadline.
#[derive(Clone, Debug)]
pub struct DeadlineReadout {
    /// The deadline's time of day, as `HH:MM`.
    pub label: String,
    /// Whether the deadline has passed.
    pub overrun: bool,
    /// The time left, or the time since the deadline, as `HH:MM:SS`.
    pub time: String,
}

/// What the timer shows.
#[derive(Clone, Debug)]
pub struct Readout {
    /// The time since the start, as `HH:MM:SS`.
    pub elapsed: String,
    /// The deadline's part, where there is a deadline.
    pub deadline: Option<DeadlineReadout>,
}

/// The seconds that a countdown counts, whichever way it runs.
pub open spec fn countdown_secs(c: Countdown) -> nat {
    match c {
        Countdown::Remaining(secs) => secs as nat,
        Countdown::Overrun(secs) => secs as nat,
    }
}

impl Session {
    /// The deadline is not before the start, and its label is a time of day.
    pub open spec fn wf(self) -> bool {
        match self.deadline {
            Some(d) => d.at.nanos >= self.start.nanos && d.label.wf(),
            None => true,
        }
    }

    /// A timer without a deadline.
    pub fn stopwatch(start: Moment) -> (s: Session)
        ensures
            s == (Session { start, deadline: None }),
            s.wf(),
    {
        Session { start, deadline: None }
    }

    /// A timer due `minutes` minutes after `start`, shown as `label`.
    pub fn countdown(start: Moment, minutes: u64, label: ClockTime) -> (s: Session)
        ensures
            s == Self::spec_countdown(start, minutes, label),
            label.wf() ==> s.wf(),
    {
        Session { start, deadline: Some(Deadline { at: start.after_minutes(minutes), label }) }
    }

    /// The timer due `minutes` minutes after `start`.
    pub open spec fn spec_countdown(start: Moment, minutes: u64, label: ClockTime) -> Session {
        Session {
            start,
            deadline: Some(Deadline { at: start.spec_after_minutes(minutes), label }),
        }
    }

    /// The timer for a request of `end_minutes`, given the two readings of
    /// the wall clock: `ahead`, the time of day that many minutes from now,
    /// where the calendar reaches that far, and `now`.
    pub open spec fn spec_plan(
        start: Moment,
        end_minutes: Option<u64>,
        ahead: Option<ClockTime>,
        now: ClockTime,
    ) -> Session {
        match end_minutes {
            None => Session { start, deadline: None },
            Some(minutes) => match ahead {
                Some(label) => Self::spec_countdown(start, minutes, label),
                None => Self::spec_countdown(start, 0, now),
            },
        }
    }

    /// The timer for a request of `end_minutes`: none gives a stopwatch, a
    /// number a countdown of that many minutes. Where the calendar does not
    /// reach that far, the countdown has no length and is due at once.
    pub fn plan(
        start: Moment,
        end_minutes: Option<u64>,
        ahead: Option<ClockTime>,
        now: ClockTime,
    ) -> (s: Session)
        ensures
            s == Self::spec_plan(start, end_minutes, ahead, now),
            (ahead is Some ==> ahead->0.wf()) && now.wf() ==> s.wf(),
    {
        match end_minutes {
            None => Session::stopwatch(start),
            Some(minutes) => match ahead {
                Some(label) => Session::countdown(start, minutes, label),
                None => Session::countdown(start, 0, now),
            },
        }
    }

    /// Starts the timer at `start`, reading the wall clock for the deadline's
    /// label.
    pub fn begin(start: Moment, end_minutes: Option<u64>) -> (s: Session)
        ensures
            s.wf(),
            s.start == start,
            s.deadline is Some <==> end_minutes is Some,
            end_minutes is Some ==> s.deadline->0.at == start.spec_after_minutes(end_minutes->0)
                || s.deadline->0.at == start,
            end_minutes is Some && end_minutes->0 > i64::MAX ==> s.deadline->0.at == start,
            exists|ahead: Option<ClockTime>, now: ClockTime|
                s == #[trigger] Self::spec_plan(start, end_minutes, ahead, now),
    {
        match end_minutes {
            None => {
                let now = ClockTime { hour: 0, minute: 0 };
                let s = Session::plan(start, None, None, now);
                assert(s == Self::spec_plan(start, end_minutes, None, now));
                s
            },
            Some(minutes) => {
                let ahead = wall_clock_after(minutes);
                let now = wall_clock_now();
                let s = Session::plan(start, end_minutes, ahead, now);
                assert(s == Self::spec_plan(start, end_minutes, ahead, now));
                s
            },
        }
    }

    /// The whole seconds from the start to `now`.
    pub open spec fn spec_elapsed(self, now: Moment) -> nat {
        now.spec_secs_since(self.start)
    }

    /// The whole seconds from the start to `now`; zero before the start.
    pub fn elapsed_secs(&self, now: Moment) -> (secs: u64)
        ensures
            secs == self.spec_elapsed(now),
    {
        now.secs_since(self.start)
    }

    /// Where the timer stands against its deadline at `now`: the time left up
    /// to and at the deadline, the time over after it.
    pub open spec fn spec_countdown_at(self, now: Moment) -> Option<Countdown> {
        match self.deadline {
            None => None,
            Some(d) => if now.nanos <= d.at.nanos {
                Some(Countdown::Remaining(d.at.spec_secs_since(now) as u64))
            } else {
                Some(Countdown::Overrun(now.spec_secs_since(d.at) as u64))
            },
        }
    }

    /// Where the timer stands against its deadline at `now`.
    pub fn countdown_at(&self, now: Moment) -> (c: Option<Countdown>)
        ensures
            c == self.spec_countdown_at(now),
    {
        match self.deadline {
            None => None,
            Some(d) => if now.nanos <= d.at.nanos {
                Some(Countdown::Remaining(d.at.secs_since(now)))
            } else {
                Some(Countdown::Overrun(now.secs_since(d.at)))
            },
        }
    }

    /// `r` is what the timer shows at `now`: the time since the start; and
    /// for a deadline its time of day, whether it has passed, and the time
    /// left or the time over.
    pub open spec fn shows(self, now: Moment, r: Readout) -> bool {
        &&& r.elapsed@ == hms(self.spec_elapsed(now))
        &&& r.deadline is Some <==> self.deadline is Some
        &&& self.deadline is Some ==> {
            let d = self.deadline->0;
            let shown = r.deadline->0;
            let c = self.spec_countdown_at(now)->0;
            &&& shown.label@ == pad2(d.label.hour as nat) + seq![':'] + pad2(
                d.label.minute as nat,
            )
            &&& shown.overrun == (now.nanos > d.at.nanos)
            &&& shown.time@ == hms(countdown_secs(c))
        }
    }

    /// What the timer shows at `now`.
    pub fn readout(&self, now: Moment) -> (r: Readout)
        ensures
            self.shows(now, r),
    {
        let elapsed = format_hms(self.elapsed_secs(now));
        let deadline = match self.deadline {
            None => None,
            Some(d) => {
                let label = d.label.label();
                match self.countdown_at(now) {
                    Some(Countdown::Overrun(secs)) => Some(
                        DeadlineReadout { label, overrun: true, time: format_hms(secs) },
                    ),
                    Some(Countdown::Remaining(secs)) => Some(
                        DeadlineReadout { label, overrun: false, time: format_hms(secs) },
                    ),
                    None => None,
                }
            },
        };
        Readout { elapsed, deadline }
    }
}

/// Up to the deadline the timer shows the time left, after it the time over;
/// at the deadline itself nothing is left. The seconds shown and the whole
/// seconds between `now` and the deadline are the same number.
pub proof fn countdown_switches_at_deadline(s: Session, now: Moment)
    requires
        s.deadline is Some,
    ensures
        now.nanos <= s.deadline->0.at.nanos <==> s.spec_countdown_at(now)->0 is Remaining,
        now.nanos > s.deadline->0.at.nanos <==> s.spec_countdown_at(now)->0 is Overrun,
        now == s.deadline->0.at ==> s.spec_countdown_at(now) == Some(Countdown::Remaining(0)),
{
}

} // verus!
