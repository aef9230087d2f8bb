//! A tick-by-tick simulation of one alliance of three robots playing a timed match.
//!
//! Every time in this crate is a whole number of microseconds; every noise
//! factor and every probability is a whole number of millionths.

use vstd::prelude::*;
use rand::rngs::StdRng;
use crate::actions::Action;
use crate::field::{AllianceActions, Field, AUTO_TIME};
use crate::trajectory::{is_match, run_grows, time_of_tick, MatchState};
use crate::robot::{Draws, Robot, MAX_LAG};

pub mod actions;
pub mod field;
pub mod random;
pub mod robot;
pub mod trajectory;
pub mod trials;

verus! {

/// The length of one tick.
pub const STEP: i64 = 10_000;

/// The length of a match.
pub const MATCH_TIME: i64 = 150_000_000;

/// The number of ticks of a match.
pub const TICKS: u32 = 15_001;

/// The scale of noise factors and probabilities: this many millionths make one.
pub const MILLION: i64 = 1_000_000;

/// The three robots that play a match together, each in its own slot.
#[derive(Debug, PartialEq, Eq)]
pub struct Alliance {
    pub a: Robot,
    pub b: Robot,
    pub c: Robot,
}

impl Clone for Alliance {
    /// A copy that is equal to the alliance in every robot.
    fn clone(&self) -> (r: Alliance)
        ensures
            r == *self,
    {
        Alliance { a: self.a.clone(), b: self.b.clone(), c: self.c.clone() }
    }
}

/// What one tick takes from the random source: the draws of each robot.
pub struct TickDraws {
    pub a: Draws,
    pub b: Draws,
    pub c: Draws,
}

impl Alliance {
    /// All three robots are well formed.
    pub open spec fn wf(&self) -> bool {
        &&& self.a.wf()
        &&& self.b.wf()
        &&& self.c.wf()
    }

    /// No timer of the three has run further past zero than `lag`.
    pub open spec fn lag_within(&self, lag: int) -> bool {
        &&& self.a.lag() <= lag
        &&& self.b.lag() <= lag
        &&& self.c.lag() <= lag
    }

    /// All three robots are climbing.
    pub open spec fn all_climbing(&self) -> bool {
        &&& self.a.current_action.action is Climbing
        &&& self.b.current_action.action is Climbing
        &&& self.c.current_action.action is Climbing
    }

    /// All three robots place in the speaker only.
    pub open spec fn speaker_only(&self) -> bool {
        &&& self.a.config.speaker_only()
        &&& self.b.config.speaker_only()
        &&& self.c.config.speaker_only()
    }

    /// All success rates of all three robots are zero.
    pub open spec fn never_succeeds(&self) -> bool {
        &&& self.a.config.never_succeeds()
        &&& self.b.config.never_succeeds()
        &&& self.c.config.never_succeeds()
    }

    /// Every speaker shot of every robot succeeds.
    pub open spec fn always_scores(&self) -> bool {
        &&& self.a.config.always_scores()
        &&& self.b.config.always_scores()
        &&& self.c.config.always_scores()
    }

    /// No robot is in the middle of placing a note in the amp.
    pub open spec fn none_placing_amp(&self) -> bool {
        &&& !self.a.placing_amp()
        &&& !self.b.placing_amp()
        &&& !self.c.placing_amp()
    }

    /// The number of robots that finish a placement in the tick against `field`.
    pub open spec fn placements_finishing(&self, field: Field) -> int {
        (if self.a.finishes_placement(field) { 1int } else { 0 })
            + (if self.b.finishes_placement(field) { 1int } else { 0 })
            + (if self.c.finishes_placement(field) { 1int } else { 0 })
    }

    /// What `a` sees its teammates doing in a tick: the actions of `b` and
    /// `c` as they stand before any of the three has moved.
    pub open spec fn teammates_of_a(&self) -> (Action, Action) {
        (self.b.current_action.action, self.c.current_action.action)
    }

    /// What `b` sees: the actions of `a` and `c`.
    pub open spec fn teammates_of_b(&self) -> (Action, Action) {
        (self.a.current_action.action, self.c.current_action.action)
    }

    /// What `c` sees: the actions of `a` and `b`.
    pub open spec fn teammates_of_c(&self) -> (Action, Action) {
        (self.a.current_action.action, self.b.current_action.action)
    }

    /// The draws are ones the random source can give the three robots in this tick.
    pub open spec fn tick_admits(&self, field: Field, draws: TickDraws) -> bool {
        &&& self.a.tick_admits(field, self.teammates_of_a(), draws.a)
        &&& self.b.tick_admits(field, self.teammates_of_b(), draws.b)
        &&& self.c.tick_admits(field, self.teammates_of_c(), draws.c)
    }

    /// The alliance after the tick at time `t`, and the reports of that
    /// tick, for given draws: each robot ticks on its own against the same
    /// field and the same picture of its teammates.
    pub open spec fn spec_tick(&self, t: i64, field: Field, draws: TickDraws) -> (
        Alliance,
        AllianceActions,
    ) {
        let a = self.a.spec_tick(field, self.teammates_of_a(), draws.a);
        let b = self.b.spec_tick(field, self.teammates_of_b(), draws.b);
        let c = self.c.spec_tick(field, self.teammates_of_c(), draws.c);
        (Alliance { a: a.0, b: b.0, c: c.0 }, AllianceActions { t, a: a.1, b: b.1, c: c.1 })
    }

    /// Ticks the three robots in the order of their slots and collects their
    /// reports. Each robot sees its teammates as they were when the tick began.
    pub fn tick(&mut self, t: i64, field: &Field, rng: &mut StdRng) -> (actions: AllianceActions)
        requires
            old(self).wf(),
            old(self).lag_within(MAX_LAG - STEP),
        ensures
            exists|draws: TickDraws|
                old(self).tick_admits(*field, draws) && (*final(self), actions)
                    == #[trigger] old(self).spec_tick(t, *field, draws),
            final(self).wf(),
            forall|lag: int| old(self).lag_within(lag) ==> final(self).lag_within(lag + STEP),
            actions.t == t,
    {
        let ghost before = *self;
        let a_action = self.a.current_action.action;
        let b_action = self.b.current_action.action;
        let c_action = self.c.current_action.action;
        let a_message = self.a.tick(rng, field, (b_action, c_action));
        let b_message = self.b.tick(rng, field, (a_action, c_action));
        let c_message = self.c.tick(rng, field, (a_action, b_action));
        proof {
            let a = choose|draws: Draws|
                before.a.tick_admits(*field, before.teammates_of_a(), draws) && (self.a, a_message)
                    == #[trigger] before.a.spec_tick(*field, before.teammates_of_a(), draws);
            let b = choose|draws: Draws|
                before.b.tick_admits(*field, before.teammates_of_b(), draws) && (self.b, b_message)
                    == #[trigger] before.b.spec_tick(*field, before.teammates_of_b(), draws);
            let c = choose|draws: Draws|
                before.c.tick_admits(*field, before.teammates_of_c(), draws) && (self.c, c_message)
                    == #[trigger] before.c.spec_tick(*field, before.teammates_of_c(), draws);
            let draws = TickDraws { a, b, c };
            assert(before.tick_admits(*field, draws));
            assert((
                *self,
                AllianceActions { t, a: a_message, b: b_message, c: c_message },
            ) == before.spec_tick(t, *field, draws));
        }
        AllianceActions::new(t, a_message, b_message, c_message)
    }
}

/// Plays one match: `TICKS` ticks, at times zero, `STEP`, twice `STEP` and so
/// on up to `MATCH_TIME`. In each tick the alliance ticks against the field
/// as it stands, and the field then takes the reports of the tick.
pub fn run_match(alliance: Alliance, rng: StdRng) -> (field: Field)
    requires
        alliance.wf(),
        alliance.lag_within(MAX_LAG - TICKS * STEP),
    ensures
        exists|draws: Seq<TickDraws>| #[trigger] is_match(alliance, draws, field),
        field.t == MATCH_TIME,
        field.started_teleop,
        field.counters_within(0, 3 * TICKS),
        field.spec_game_pieces_played() <= 3 * TICKS,
        field.window_wf(),
        field.score_fits(),
{
    let mut robots = alliance;
    let mut rng = rng;
    let mut field = Field::default();
    let ghost start = MatchState::start(alliance);
    let ghost mut draws: Seq<TickDraws> = Seq::empty();
    let mut k: u32 = 0;
    while k < TICKS
        invariant
            k <= TICKS,
            draws.len() == k,
            start.admits(draws, k as nat),
            start.after(draws, k as nat) == (MatchState { alliance: robots, field }),
            robots.wf(),
            robots.lag_within(MAX_LAG - (TICKS - k) * STEP),
            field.counters_within(0, 3 * k),
            field.spec_game_pieces_played() <= 3 * k,
            field.window_wf(),
            k == 0 ==> !field.started_teleop,
            k > 0 ==> field.t == time_of_tick(k - 1) && field.started_teleop == (field.t
                >= AUTO_TIME),
        decreases TICKS - k,
    {
        let t: i64 = (k as i64) * STEP;
        let ghost before = MatchState { alliance: robots, field };
        let actions = robots.tick(t, &field, &mut rng);
        let ghost drawn = choose|drawn: TickDraws|
            before.alliance.tick_admits(field, drawn) && (robots, actions)
                == #[trigger] before.alliance.spec_tick(t, field, drawn);
        proof {
            run_grows(start, draws, k as nat, drawn);
            draws = draws.push(drawn);
        }
        field = field.apply(actions);
        assert(before.step(k as int, drawn) == (MatchState { alliance: robots, field })) by {
            reveal(MatchState::step);
        }
        k = k + 1;
    }
    proof {
        assert(is_match(alliance, draws, field));
    }
    field
}

} // verus!
