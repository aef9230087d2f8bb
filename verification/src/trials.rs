//! Independent trials: one seeded match each, and their totals.

use vstd::prelude::*;
use crate::field::ScoreSummarization;
use crate::random::seeded;
use crate::robot::{Robot, RobotConfig};
use crate::trajectory::{is_match, MatchState};
use crate::{run_match, Alliance, TickDraws, TICKS};

verus! {

/// `score` is the score of a match played by an alliance that the three
/// configurations can give: `alliance` is that alliance and `draws` are the
/// draws of the match.
pub open spec fn is_trial(
    a: RobotConfig,
    b: RobotConfig,
    c: RobotConfig,
    alliance: Alliance,
    draws: Seq<TickDraws>,
    score: ScoreSummarization,
) -> bool {
    let field = MatchState::start(alliance).after(draws, TICKS as nat).field;
    &&& alliance.a.made_from(a)
    &&& alliance.b.made_from(b)
    &&& alliance.c.made_from(c)
    &&& is_match(alliance, draws, field)
    &&& field.score_fits()
    &&& score == field.spec_get_score()
}

/// One trial: a random source seeded with `seed` gives the three robots
/// their times, in the order of their slots, and then plays their match.
pub fn run_trial(seed: u64, a: RobotConfig, b: RobotConfig, c: RobotConfig) -> (score:
    ScoreSummarization)
    requires
        a.wf(),
        b.wf(),
        c.wf(),
    ensures
        exists|alliance: Alliance, draws: Seq<TickDraws>| #[trigger]
            is_trial(a, b, c, alliance, draws, score),
        0 <= score.game_pieces_played <= 3 * TICKS,
        0 <= score.stage_points,
        score.game_pieces_played <= score.game_piece_points - score.stage_points <= 5
            * score.game_pieces_played,
{
    let mut rng = seeded(seed);
    let robot_a = Robot::new(a, &mut rng);
    let robot_b = Robot::new(b, &mut rng);
    let robot_c = Robot::new(c, &mut rng);
    let alliance = Alliance { a: robot_a, b: robot_b, c: robot_c };
    let ghost played = alliance;
    let final_field = run_match(alliance, rng);
    let score = final_field.get_score();
    proof {
        let draws = choose|draws: Seq<TickDraws>| #[trigger] is_match(played, draws, final_field);
        assert(is_trial(a, b, c, played, draws, score));
    }
    score
}

/// The sums of the three results over a number of scores.
#[derive(Copy, Clone, Debug, PartialEq, Eq)]
pub struct ScoreTotals {
    pub game_piece_points: i128,
    pub game_pieces_played: i128,
    pub stage_points: i128,
}

/// The sum of the game piece points of the scores.
pub open spec fn sum_of_points(scores: Seq<ScoreSummarization>) -> int
    decreases scores.len(),
{
    if scores.len() == 0 {
        0
    } else {
        sum_of_points(scores.drop_last()) + scores.last().game_piece_points
    }
}

/// The sum of the game pieces played of the scores.
pub open spec fn sum_of_pieces(scores: Seq<ScoreSummarization>) -> int
    decreases scores.len(),
{
    if scores.len() == 0 {
        0
    } else {
        sum_of_pieces(scores.drop_last()) + scores.last().game_pieces_played
    }
}

/// The sum of the stage points of the scores.
pub open spec fn sum_of_stage_points(scores: Seq<ScoreSummarization>) -> int
    decreases scores.len(),
{
    if scores.len() == 0 {
        0
    } else {
        sum_of_stage_points(scores.drop_last()) + scores.last().stage_points
    }
}

proof fn sums_are_bounded(scores: Seq<ScoreSummarization>)
    ensures
        scores.len() * i32::MIN <= sum_of_points(scores) <= scores.len() * i32::MAX,
        scores.len() * i32::MIN <= sum_of_pieces(scores) <= scores.len() * i32::MAX,
        scores.len() * i32::MIN <= sum_of_stage_points(scores) <= scores.len() * i32::MAX,
    decreases scores.len(),
{
    if scores.len() > 0 {
        sums_are_bounded(scores.drop_last());
    }
}

/// Adds up the three results over all the scores. Each mean is its total
/// divided by the number of scores.
pub fn total_scores(scores: &Vec<ScoreSummarization>) -> (totals: ScoreTotals)
    ensures
        totals.game_piece_points == sum_of_points(scores@),
        totals.game_pieces_played == sum_of_pieces(scores@),
        totals.stage_points == sum_of_stage_points(scores@),
{
    let mut totals = ScoreTotals { game_piece_points: 0, game_pieces_played: 0, stage_points: 0 };
    let mut i: usize = 0;
    while i < scores.len()
        invariant
            i <= scores.len(),
            totals.game_piece_points == sum_of_points(scores@.take(i as int)),
            totals.game_pieces_played == sum_of_pieces(scores@.take(i as int)),
            totals.stage_points == sum_of_stage_points(scores@.take(i as int)),
        decreases scores.len() - i,
    {
        proof {
            sums_are_bounded(scores@.take(i as int));
            assert(scores@.take(i + 1).drop_last() == scores@.take(i as int));
        }
        let score = scores[i];
        totals.game_piece_points = totals.game_piece_points + (score.game_piece_points as i128);
        totals.game_pieces_played = totals.game_pieces_played + (score.game_pieces_played as i128);
        totals.stage_points = totals.stage_points + (score.stage_points as i128);
        i = i + 1;
    }
    proof {
        assert(scores@.take(scores.len() as int) == scores@);
    }
    totals
}

} // verus!
