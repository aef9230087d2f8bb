//! A match as a sequence of states: the alliance and the field before the
//! first tick and after each tick, as a function of what the random source
//! gave in each tick.

use vstd::prelude::*;
use crate::field::{slot_by_kind, slot_only_adds, tick_only_adds, Field, ScoreSummarization};
use crate::robot::{tick_at_full_rates, tick_at_zero_rates, tick_keeps_climbing};
use crate::{Alliance, TickDraws, MATCH_TIME, STEP, TICKS};

verus! {

/// The alliance and the field between two ticks.
pub struct MatchState {
    pub alliance: Alliance,
    pub field: Field,
}

/// The time of tick number `k`, counting from zero.
pub open spec fn time_of_tick(k: int) -> i64 {
    (k * STEP) as i64
}

impl MatchState {
    /// The state before the first tick of a match that `alliance` plays.
    pub open spec fn start(alliance: Alliance) -> MatchState {
        MatchState { alliance, field: Field::spec_default() }
    }

    /// The state after tick number `k`: the alliance ticks against the field
    /// as it stands, then the field takes the reports of the tick.
    #[verifier::opaque]
    pub open spec fn step(self, k: int, draws: TickDraws) -> MatchState {
        let (alliance, actions) = self.alliance.spec_tick(time_of_tick(k), self.field, draws);
        MatchState { alliance, field: self.field.spec_apply(actions) }
    }

    /// The state after the first `n` ticks, where tick number `k` draws `draws[k]`.
    pub open spec fn after(self, draws: Seq<TickDraws>, n: nat) -> MatchState
        decreases n,
    {
        if n == 0 {
            self
        } else {
            self.after(draws, (n - 1) as nat).step(n - 1, draws[n - 1])
        }
    }

    /// The draws of tick number `k` are ones the random source can give in
    /// the state that the ticks before it lead to.
    pub open spec fn admits_at(self, draws: Seq<TickDraws>, k: nat) -> bool {
        self.after(draws, k).alliance.tick_admits(self.after(draws, k).field, draws[k as int])
    }

    /// The draws of each of the first `n` ticks are ones the random source can give.
    pub open spec fn admits(self, draws: Seq<TickDraws>, n: nat) -> bool {
        forall|k: nat| k < n ==> #[trigger] self.admits_at(draws, k)
    }
}

/// `field` is the field at the end of a match that `alliance` plays: the
/// field after `TICKS` ticks from the start, for some draws that the
/// random source can give.
pub open spec fn is_match(alliance: Alliance, draws: Seq<TickDraws>, field: Field) -> bool {
    &&& draws.len() == TICKS
    &&& MatchState::start(alliance).admits(draws, TICKS as nat)
    &&& field == MatchState::start(alliance).after(draws, TICKS as nat).field
}

/// A match is a function of its start and its draws, tick by tick: two runs
/// from the same state whose draws agree in the first `n` ticks are in the
/// same state after each of those ticks.
pub proof fn same_draws_same_states(
    start: MatchState,
    draws: Seq<TickDraws>,
    other: Seq<TickDraws>,
    n: nat,
)
    requires
        n <= draws.len(),
        n <= other.len(),
        forall|k: int| 0 <= k < n ==> draws[k] == other[k],
    ensures
        forall|k: nat| k <= n ==> #[trigger] start.after(draws, k) == start.after(other, k),
        start.admits(draws, n) == start.admits(other, n),
    decreases n,
{
    if n > 0 {
        same_draws_same_states(start, draws, other, (n - 1) as nat);
        assert(start.after(draws, (n - 1) as nat) == start.after(other, (n - 1) as nat));
        assert(draws[n - 1] == other[n - 1]);
        assert(start.after(draws, n) == start.after(other, n));
    }
    if start.admits(draws, n) {
        assert forall|k: nat| k < n implies #[trigger] start.admits_at(other, k) by {
            assert(start.admits_at(draws, k));
            assert(start.after(draws, k) == start.after(other, k));
        }
    }
    if start.admits(other, n) {
        assert forall|k: nat| k < n implies #[trigger] start.admits_at(draws, k) by {
            assert(start.admits_at(other, k));
            assert(start.after(draws, k) == start.after(other, k));
        }
    }
}

/// Two matches of the same alliance that draw the same values end in the
/// same field, and so with the same score.
pub proof fn same_draws_same_match(
    alliance: Alliance,
    draws: Seq<TickDraws>,
    other: Seq<TickDraws>,
    field: Field,
    other_field: Field,
)
    requires
        is_match(alliance, draws, field),
        is_match(alliance, other, other_field),
        forall|k: int| 0 <= k < TICKS ==> draws[k] == other[k],
    ensures
        field == other_field,
        field.spec_get_score() == other_field.spec_get_score(),
{
    same_draws_same_states(MatchState::start(alliance), draws, other, TICKS as nat);
}

/// A run grows by one tick: draws that the state after `k` ticks admits
/// extend the first `k` draws to the first `k + 1`, and lead one step on.
pub proof fn run_grows(start: MatchState, draws: Seq<TickDraws>, k: nat, drawn: TickDraws)
    requires
        draws.len() == k,
        start.admits(draws, k),
        start.after(draws, k).alliance.tick_admits(start.after(draws, k).field, drawn),
    ensures
        start.admits(draws.push(drawn), k + 1),
        start.after(draws.push(drawn), k + 1) == start.after(draws, k).step(k as int, drawn),
{
    let longer = draws.push(drawn);
    same_draws_same_states(start, draws, longer, k);
    assert(start.after(longer, k) == start.after(draws, k));
    assert(start.admits_at(longer, k));
    assert forall|j: nat| j < k + 1 implies #[trigger] start.admits_at(longer, j) by {
        if j < k {
            assert(start.admits_at(draws, j));
            assert(start.after(draws, j) == start.after(longer, j));
        }
    }
}

/// The number of ticks of a match: one at time zero and one for every
/// whole step up to and including `MATCH_TIME`.
pub proof fn ticks_cover_the_match()
    ensures
        TICKS == MATCH_TIME / STEP + 1,
        time_of_tick(TICKS - 1) == MATCH_TIME,
        forall|k: int| 0 <= k < TICKS ==> 0 <= #[trigger] time_of_tick(k) <= MATCH_TIME,
        time_of_tick(TICKS as int) > MATCH_TIME,
{
}

/// What one tick does to a match, whatever is drawn: the field shows the
/// time of the tick; no configuration changes; each robot climbs afterwards
/// exactly if it climbed before or had to start; and, where the counters have
/// room for three more, none goes down and none goes up by more than three.
pub proof fn step_facts(state: MatchState, k: int, draws: TickDraws)
    ensures
        state.step(k, draws).field.t == time_of_tick(k),
        state.step(k, draws).alliance.a.config == state.alliance.a.config,
        state.step(k, draws).alliance.b.config == state.alliance.b.config,
        state.step(k, draws).alliance.c.config == state.alliance.c.config,
        state.step(k, draws).alliance.a.current_action.action is Climbing <==> (
        state.alliance.a.current_action.action is Climbing || state.alliance.a.must_climb(
            state.field,
        )),
        state.step(k, draws).alliance.b.current_action.action is Climbing <==> (
        state.alliance.b.current_action.action is Climbing || state.alliance.b.must_climb(
            state.field,
        )),
        state.step(k, draws).alliance.c.current_action.action is Climbing <==> (
        state.alliance.c.current_action.action is Climbing || state.alliance.c.must_climb(
            state.field,
        )),
        state.field.can_count(3) ==> state.step(k, draws).field.no_counter_below(state.field)
            && state.step(k, draws).field.no_counter_above(state.field, 3),
        state.field.can_count(3) && state.step(k, draws).field.amplified_speaker
            > state.field.amplified_speaker ==> state.step(
            k,
            draws,
        ).field.time_left_for_amplified is Some,
{
    reveal(MatchState::step);
    let alliance = state.alliance;
    tick_keeps_climbing(alliance.a, state.field, alliance.teammates_of_a(), draws.a);
    tick_keeps_climbing(alliance.b, state.field, alliance.teammates_of_b(), draws.b);
    tick_keeps_climbing(alliance.c, state.field, alliance.teammates_of_c(), draws.c);
    let actions = alliance.spec_tick(time_of_tick(k), state.field, draws).1;
    if state.field.can_count(3) {
        tick_only_adds(state.field, actions);
    }
}

/// Across every tick of every run, no counter of the field ever goes down,
/// and over `j - i` ticks none goes up by more than three times that many.
pub proof fn counters_never_decrease(start: MatchState, draws: Seq<TickDraws>, i: nat, j: nat)
    requires
        i <= j,
        start.field.can_count(3 * (j as int)),
    ensures
        start.after(draws, j).field.no_counter_below(start.after(draws, i).field),
        start.after(draws, j).field.no_counter_above(start.after(draws, i).field, 3 * (j - i)),
        start.after(draws, j).field.no_counter_above(start.field, 3 * (j as int)),
    decreases j,
{
    if j > 0 {
        let earlier = (j - 1) as nat;
        if i < j {
            counters_never_decrease(start, draws, i, earlier);
        }
        counters_never_decrease(start, draws, 0, earlier);
        step_facts(start.after(draws, earlier), earlier as int, draws[earlier as int]);
    }
}

/// The count of amplified notes goes up only in a tick that ends with the
/// speaker amplified.
pub proof fn amplified_notes_need_amplification(start: MatchState, draws: Seq<TickDraws>, n: nat)
    requires
        start.field.can_count(3 * (n as int + 1)),
        start.after(draws, n + 1).field.amplified_speaker > start.after(
            draws,
            n,
        ).field.amplified_speaker,
    ensures
        start.after(draws, n + 1).field.time_left_for_amplified is Some,
{
    counters_never_decrease(start, draws, 0, n);
    step_facts(start.after(draws, n), n as int, draws[n as int]);
}

/// No robot's configuration changes during a run, and from the first tick
/// on the field shows the time of the last tick.
pub proof fn run_keeps_configs(start: MatchState, draws: Seq<TickDraws>, n: nat)
    ensures
        start.after(draws, n).alliance.a.config == start.alliance.a.config,
        start.after(draws, n).alliance.b.config == start.alliance.b.config,
        start.after(draws, n).alliance.c.config == start.alliance.c.config,
        n > 0 ==> start.after(draws, n).field.t == time_of_tick(n - 1),
    decreases n,
{
    if n > 0 {
        let earlier = (n - 1) as nat;
        run_keeps_configs(start, draws, earlier);
        step_facts(start.after(draws, earlier), earlier as int, draws[earlier as int]);
    }
}

/// A robot that climbs keeps climbing: whoever climbs after `i` ticks climbs
/// after every later tick too.
pub proof fn climb_is_never_left(start: MatchState, draws: Seq<TickDraws>, i: nat, j: nat)
    requires
        i <= j,
    ensures
        start.after(draws, i).alliance.a.current_action.action is Climbing ==> start.after(
            draws,
            j,
        ).alliance.a.current_action.action is Climbing,
        start.after(draws, i).alliance.b.current_action.action is Climbing ==> start.after(
            draws,
            j,
        ).alliance.b.current_action.action is Climbing,
        start.after(draws, i).alliance.c.current_action.action is Climbing ==> start.after(
            draws,
            j,
        ).alliance.c.current_action.action is Climbing,
    decreases j,
{
    if i < j {
        let earlier = (j - 1) as nat;
        climb_is_never_left(start, draws, i, earlier);
        step_facts(start.after(draws, earlier), earlier as int, draws[earlier as int]);
    }
}

/// Every robot starts its climb before the match is over: whatever is
/// drawn, all three climb once the tick before the last is done, that is
/// from a time one step short of `MATCH_TIME` on, and keep climbing.
pub proof fn all_climb_before_the_end(start: MatchState, draws: Seq<TickDraws>, n: nat)
    requires
        start.alliance.wf(),
        n >= TICKS - 1,
    ensures
        start.after(draws, n).alliance.all_climbing(),
        time_of_tick(TICKS - 2) + STEP == MATCH_TIME,
{
    let last = (TICKS - 2) as nat;
    let state = start.after(draws, last);
    run_keeps_configs(start, draws, last);
    step_facts(state, last as int, draws[last as int]);
    assert(start.after(draws, (TICKS - 1) as nat) == state.step(last as int, draws[last as int]));
    climb_is_never_left(start, draws, (TICKS - 1) as nat, n);
}

/// One tick of an alliance whose success rates are all zero: the field
/// counts no speaker note, no climb and no trap in it. Where the robots place
/// in the speaker only and none is in the middle of an amp placement, it
/// counts no amp note either, and none is in such a placement afterwards.
pub proof fn step_at_zero_rates(state: MatchState, k: int, draws: TickDraws)
    requires
        state.alliance.never_succeeds(),
        state.alliance.tick_admits(state.field, draws),
    ensures
        state.step(k, draws).field.same_speaker_notes(state.field),
        state.step(k, draws).field.same_stage(state.field),
        state.alliance.speaker_only() && state.alliance.none_placing_amp() ==> state.step(
            k,
            draws,
        ).field.same_notes(state.field) && state.step(k, draws).alliance.none_placing_amp(),
{
    reveal(MatchState::step);
    let alliance = state.alliance;
    let field = state.field;
    tick_at_zero_rates(alliance.a, field, alliance.teammates_of_a(), draws.a);
    tick_at_zero_rates(alliance.b, field, alliance.teammates_of_b(), draws.b);
    tick_at_zero_rates(alliance.c, field, alliance.teammates_of_c(), draws.c);
    let actions = alliance.spec_tick(time_of_tick(k), field, draws).1;
    let aged = field.spec_age(actions.t);
    let one = aged.spec_apply_slot(actions.a);
    let two = one.spec_apply_slot(actions.b);
    slot_by_kind(aged, actions.a);
    slot_by_kind(one, actions.b);
    slot_by_kind(two, actions.c);
}

/// With all success rates at zero nothing is ever won: over any number of
/// ticks the field counts no speaker note, no climb and no trap. Where the
/// robots place in the speaker only and none starts in the middle of an amp
/// placement, no counter moves at all.
pub proof fn zero_rates_score_nothing(start: MatchState, draws: Seq<TickDraws>, n: nat)
    requires
        start.alliance.never_succeeds(),
        start.admits(draws, n),
    ensures
        start.after(draws, n).field.same_speaker_notes(start.field),
        start.after(draws, n).field.same_stage(start.field),
        start.alliance.speaker_only() && start.alliance.none_placing_amp() ==> start.after(
            draws,
            n,
        ).field.same_notes(start.field) && start.after(draws, n).alliance.none_placing_amp(),
    decreases n,
{
    if n > 0 {
        let earlier = (n - 1) as nat;
        assert(start.admits(draws, earlier)) by {
            assert forall|k: nat| k < earlier implies #[trigger] start.admits_at(draws, k) by {
                assert(k < n);
            }
        }
        zero_rates_score_nothing(start, draws, earlier);
        run_keeps_configs(start, draws, earlier);
        assert(start.admits_at(draws, earlier));
        step_at_zero_rates(start.after(draws, earlier), earlier as int, draws[earlier as int]);
    }
}

/// A match of robots that place in the speaker only and whose success rates
/// are all zero ends with every counter at zero and with a score of zero in
/// each of its three parts.
pub proof fn match_at_zero_rates(alliance: Alliance, draws: Seq<TickDraws>, field: Field)
    requires
        is_match(alliance, draws, field),
        alliance.never_succeeds(),
        alliance.speaker_only(),
        alliance.none_placing_amp(),
    ensures
        field.counters_within(0, 0),
        field.spec_get_score() == (ScoreSummarization {
            game_piece_points: 0,
            game_pieces_played: 0,
            stage_points: 0,
        }),
{
    zero_rates_score_nothing(MatchState::start(alliance), draws, TICKS as nat);
}

/// The number of placements that the robots finish in the first `n` ticks
/// of a run: for each tick, the robots that finish one in it.
pub open spec fn placements_finished(start: MatchState, draws: Seq<TickDraws>, n: nat) -> int
    decreases n,
{
    if n == 0 {
        0
    } else {
        let before = start.after(draws, (n - 1) as nat);
        placements_finished(start, draws, (n - 1) as nat) + before.alliance.placements_finishing(
            before.field,
        )
    }
}

/// One tick of robots that place in the speaker only, each with a success
/// rate of one, none in the middle of an amp placement, against an idle
/// amplifier: the field counts one more plain or autonomous speaker note for
/// each robot that finishes a placement, and no other note; the amplifier
/// stays idle and no robot starts an amp placement.
pub proof fn step_at_full_rates(state: MatchState, k: int, draws: TickDraws)
    requires
        state.alliance.always_scores(),
        state.alliance.speaker_only(),
        state.alliance.none_placing_amp(),
        state.field.amplifier_idle(),
        state.field.can_count(3),
        state.alliance.tick_admits(state.field, draws),
    ensures
        state.step(k, draws).field.amplifier_idle(),
        state.step(k, draws).field.amp == state.field.amp,
        state.step(k, draws).field.auto_amp == state.field.auto_amp,
        state.step(k, draws).field.amplified_speaker == state.field.amplified_speaker,
        state.step(k, draws).field.auto_speaker + state.step(k, draws).field.speaker
            == state.field.auto_speaker + state.field.speaker
            + state.alliance.placements_finishing(state.field),
        state.step(k, draws).alliance.none_placing_amp(),
{
    reveal(MatchState::step);
    let alliance = state.alliance;
    let field = state.field;
    tick_at_full_rates(alliance.a, field, alliance.teammates_of_a(), draws.a);
    tick_at_full_rates(alliance.b, field, alliance.teammates_of_b(), draws.b);
    tick_at_full_rates(alliance.c, field, alliance.teammates_of_c(), draws.c);
    let actions = alliance.spec_tick(time_of_tick(k), field, draws).1;
    let aged = field.spec_age(actions.t);
    let one = aged.spec_apply_slot(actions.a);
    let two = one.spec_apply_slot(actions.b);
    slot_only_adds(aged, actions.a);
    slot_only_adds(one, actions.b);
    slot_by_kind(aged, actions.a);
    slot_by_kind(one, actions.b);
    slot_by_kind(two, actions.c);
}

/// With a success rate of one every finished placement is a scored note:
/// over any number of ticks, robots that place in the speaker only count as
/// many plain and autonomous speaker notes as they finish placements. They
/// count no amp note and no amplified note, and the amplifier stays idle.
pub proof fn full_rates_score_every_placement(start: MatchState, draws: Seq<TickDraws>, n: nat)
    requires
        start.alliance.always_scores(),
        start.alliance.speaker_only(),
        start.alliance.none_placing_amp(),
        start.field.amplifier_idle(),
        start.field.can_count(3 * (n as int)),
        start.admits(draws, n),
    ensures
        start.after(draws, n).field.amplifier_idle(),
        start.after(draws, n).field.amp == start.field.amp,
        start.after(draws, n).field.auto_amp == start.field.auto_amp,
        start.after(draws, n).field.amplified_speaker == start.field.amplified_speaker,
        start.after(draws, n).field.auto_speaker + start.after(draws, n).field.speaker
            == start.field.auto_speaker + start.field.speaker + placements_finished(
            start,
            draws,
            n,
        ),
        start.after(draws, n).alliance.none_placing_amp(),
    decreases n,
{
    if n > 0 {
        let earlier = (n - 1) as nat;
        assert(start.admits(draws, earlier)) by {
            assert forall|k: nat| k < earlier implies #[trigger] start.admits_at(draws, k) by {
                assert(k < n);
            }
        }
        full_rates_score_every_placement(start, draws, earlier);
        run_keeps_configs(start, draws, earlier);
        counters_never_decrease(start, draws, 0, earlier);
        assert(start.admits_at(draws, earlier));
        step_at_full_rates(start.after(draws, earlier), earlier as int, draws[earlier as int]);
    }
}

/// A match of robots that place in the speaker only, each with a success
/// rate of one, counts exactly as many speaker notes as placements were
/// finished in it, none of them amplified, and no amp note.
pub proof fn match_at_full_rates(alliance: Alliance, draws: Seq<TickDraws>, field: Field)
    requires
        is_match(alliance, draws, field),
        alliance.always_scores(),
        alliance.speaker_only(),
        alliance.none_placing_amp(),
    ensures
        field.amp == 0,
        field.auto_amp == 0,
        field.amplified_speaker == 0,
        field.auto_speaker + field.speaker == placements_finished(
            MatchState::start(alliance),
            draws,
            TICKS as nat,
        ),
{
    full_rates_score_every_placement(MatchState::start(alliance), draws, TICKS as nat);
}

} // verus!
