//! What a robot is doing, and for how much longer.
//!
//! All times in this crate are whole microseconds held in an `i64`.

use vstd::prelude::*;

verus! {

/// Where a cycle's game piece is placed.
#[derive(Copy, Clone, Debug, PartialEq, Eq)]
pub enum NoteScoringType {
    Amp,
    Speaker,
}

/// The three things a robot can be busy with.
#[derive(Copy, Clone, Debug, PartialEq, Eq)]
pub enum Action {
    Driving,
    NoteScoring(NoteScoringType),
    Climbing,
}

/// The time an action still needs.
///
/// `Forever` is the timer of a finished climb: it never runs out, so the
/// action it belongs to is never replaced.
#[derive(Copy, Clone, Debug, PartialEq, Eq)]
pub enum TimeLeft {
    Finite(i64),
    Forever,
}

impl TimeLeft {
    /// The timer has run past zero: the action is complete.
    pub open spec fn overdue(self) -> bool {
        self matches TimeLeft::Finite(left) && left < 0
    }

    /// How far past zero the timer has run; zero for a timer that has not run out.
    pub open spec fn lag(self) -> int {
        match self {
            TimeLeft::Finite(left) => if left < 0 { -left } else { 0 },
            TimeLeft::Forever => 0,
        }
    }

    /// A finite timer lies between `low` and `high`; `Forever` lies within any bounds.
    pub open spec fn within(self, low: int, high: int) -> bool {
        self matches TimeLeft::Finite(left) ==> low <= left <= high
    }

    /// The timer after `span` has passed.
    pub open spec fn spec_elapse(self, span: i64) -> TimeLeft {
        match self {
            TimeLeft::Finite(left) => TimeLeft::Finite((left - span) as i64),
            TimeLeft::Forever => TimeLeft::Forever,
        }
    }

    /// The timer with `span` more to go.
    pub open spec fn spec_extend(self, span: i64) -> TimeLeft {
        match self {
            TimeLeft::Finite(left) => TimeLeft::Finite((left + span) as i64),
            TimeLeft::Forever => TimeLeft::Forever,
        }
    }

    /// Whether the timer has run past zero.
    pub fn is_overdue(&self) -> (r: bool)
        ensures
            r == self.overdue(),
    {
        match self {
            TimeLeft::Finite(left) => *left < 0,
            TimeLeft::Forever => false,
        }
    }

    /// Takes `span` off a finite timer; `Forever` stays.
    pub fn elapse(self, span: i64) -> (r: TimeLeft)
        requires
            self matches TimeLeft::Finite(left) ==> i64::MIN <= left - span <= i64::MAX,
        ensures
            r == self.spec_elapse(span),
            r matches TimeLeft::Finite(left) ==> self matches TimeLeft::Finite(before) && left
                == before - span,
            r is Forever <==> self is Forever,
    {
        match self {
            TimeLeft::Finite(left) => TimeLeft::Finite(left - span),
            TimeLeft::Forever => TimeLeft::Forever,
        }
    }

    /// Puts `span` on a finite timer; `Forever` stays.
    pub fn extend(self, span: i64) -> (r: TimeLeft)
        requires
            self matches TimeLeft::Finite(left) ==> i64::MIN <= left + span <= i64::MAX,
        ensures
            r == self.spec_extend(span),
            r matches TimeLeft::Finite(left) ==> self matches TimeLeft::Finite(before) && left
                == before + span,
            r is Forever <==> self is Forever,
    {
        match self {
            TimeLeft::Finite(left) => TimeLeft::Finite(left + span),
            TimeLeft::Forever => TimeLeft::Forever,
        }
    }
}

/// An action together with the time it still needs.
#[derive(Copy, Clone, Debug, PartialEq, Eq)]
pub struct TimedAction {
    pub time_left: TimeLeft,
    pub action: Action,
}

impl TimedAction {
    /// Pairs an action with the time it needs.
    pub fn new(action: Action, time_left: TimeLeft) -> (r: TimedAction)
        ensures
            r.action == action,
            r.time_left == time_left,
    {
        TimedAction { time_left, action }
    }
}

} // verus!
