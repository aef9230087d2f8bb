//! One robot: a timer, the action it times, and what the robot does when the
//! timer runs out.

use vstd::prelude::*;
use rand::rngs::StdRng;
use crate::actions::{Action, NoteScoringType, TimeLeft, TimedAction};
use crate::field::{
    is_climb_end, is_failed_note, is_note, scores_nothing, EndgameState, Field, MessageToField, RobotMessage,
};
use crate::random::uniform_below;
use crate::{MATCH_TIME, MILLION, STEP};

pub mod robot_config;

pub use robot_config::{PlacingConfig, RobotConfig, MAX_DURATION, MAX_NOISE_FACTOR, MAX_SAMPLE};

verus! {

/// A robot starts its climb once the time left in the match, less this
/// margin of two ticks, no longer exceeds its climbing time.
pub const CLIMB_MARGIN: i64 = 20_000;

/// The furthest a robot's timer may have run past zero.
pub const MAX_LAG: i64 = 1_000_000_000_000_000;

/// How a robot picks where its next note goes.
#[derive(Copy, Clone, Debug, PartialEq, Eq)]
pub enum ScoringStrategy {
    Amp,
    Speaker,
    SpeakerAndAmp,
}

/// What one decision of a robot takes from the random source.
///
/// `success` settles a speaker shot or a climb, `bonus` settles the trap
/// after a climb that succeeded, and `duration` is the sampled time of the
/// action that starts.
pub struct Draws {
    pub success: i64,
    pub bonus: i64,
    pub duration: i64,
}

/// The width of the noise on a nominal `time`: the noise is drawn from zero
/// up to, and not including, this many microseconds.
pub open spec fn noise_span(time: i64, noise_factor: i64) -> int {
    (time * noise_factor) / (MILLION as int)
}

/// `sample` is `time` with noise added: never below `time`, and less than
/// `noise_span` above it; exactly `time` where the span is empty.
pub open spec fn is_sample(time: i64, noise_factor: i64, sample: i64) -> bool {
    let span = noise_span(time, noise_factor);
    &&& time <= sample
    &&& if span > 0 {
        sample - time < span
    } else {
        sample == time
    }
}

/// `roll` is a draw against a probability: an attempt with success rate `p`
/// succeeds exactly if `roll < p`.
pub open spec fn is_roll(roll: i64) -> bool {
    0 <= roll < MILLION
}

/// One if the action is placing a note in the amp, zero otherwise.
pub open spec fn spec_amount_of_amps(action: Action) -> int {
    match action {
        Action::NoteScoring(NoteScoringType::Amp) => 1,
        _ => 0,
    }
}

/// How much an action adds to the count of robots placing in the amp.
pub fn amount_of_amps_for_action(action: &Action) -> (r: u32)
    ensures
        r == spec_amount_of_amps(*action),
{
    match action {
        Action::NoteScoring(NoteScoringType::Amp) => 1,
        _ => 0,
    }
}

/// A sample within the limits of a configuration is itself within limits.
pub proof fn sample_is_bounded(time: i64, noise_factor: i64, sample: i64)
    requires
        0 <= time <= MAX_DURATION,
        0 <= noise_factor <= MAX_NOISE_FACTOR,
        is_sample(time, noise_factor, sample),
    ensures
        0 <= noise_span(time, noise_factor) <= MAX_SAMPLE - MAX_DURATION,
        time <= sample <= MAX_SAMPLE,
{
    product_is_bounded(time as int, noise_factor as int);
}

proof fn product_is_bounded(time: int, noise_factor: int)
    requires
        0 <= time <= MAX_DURATION,
        0 <= noise_factor <= MAX_NOISE_FACTOR,
    ensures
        0 <= time * noise_factor <= 1_000_000_000_000_000_000,
{
    assert(0 <= time * noise_factor <= 10_000_000_000 * 100_000_000) by (nonlinear_arith)
        requires
            0 <= time <= 10_000_000_000,
            0 <= noise_factor <= 100_000_000,
    ;
}

/// Draws a sample of a nominal time. Where the noise span is empty nothing
/// is drawn and the sample is the nominal time.
fn gen_time_with_noise(time_addition: i64, noise_factor: i64, rng: &mut StdRng) -> (r: i64)
    requires
        0 <= time_addition <= MAX_DURATION,
        0 <= noise_factor <= MAX_NOISE_FACTOR,
    ensures
        is_sample(time_addition, noise_factor, r),
        time_addition <= r <= MAX_SAMPLE,
{
    let max_noise: i64 = noise_limit(time_addition, noise_factor);
    if max_noise > 0 {
        let noise: i64 = uniform_below(rng, max_noise);
        with_noise(time_addition, noise)
    } else {
        time_addition
    }
}

/// The width of the noise on a nominal time: the product of the time and
/// the noise factor, in whole microseconds, rounded down. The noise is drawn
/// from zero up to, and not including, this width.
pub fn noise_limit(time: i64, noise_factor: i64) -> (r: i64)
    requires
        0 <= time <= MAX_DURATION,
        0 <= noise_factor <= MAX_NOISE_FACTOR,
    ensures
        r == noise_span(time, noise_factor),
        0 <= r <= MAX_SAMPLE - MAX_DURATION,
{
    proof {
        product_is_bounded(time as int, noise_factor as int);
    }
    time * noise_factor / MILLION
}

/// The sample that a drawn noise gives: the nominal time with the noise
/// added. For a noise below the width of the noise it is a sample of the time.
pub fn with_noise(time: i64, noise: i64) -> (r: i64)
    requires
        i64::MIN <= time + noise <= i64::MAX,
    ensures
        r == time + noise,
        forall|noise_factor: i64|
            0 <= noise < #[trigger] noise_span(time, noise_factor) ==> is_sample(
                time,
                noise_factor,
                r,
            ),
{
    time + noise
}

/// A robot of the alliance.
#[derive(Debug, PartialEq, Eq)]
pub struct Robot {
    pub config: RobotConfig,
    pub current_action: TimedAction,
}

impl Clone for Robot {
    /// A copy that is equal to the robot in every field.
    fn clone(&self) -> (r: Robot)
        ensures
            r == *self,
    {
        Robot { config: self.config.clone(), current_action: self.current_action }
    }
}

impl Robot {
    /// The configuration is that of a robot, and the timer is neither further
    /// past zero than `MAX_LAG` nor longer than the longest sample.
    pub open spec fn wf(&self) -> bool {
        &&& self.config.resolved()
        &&& self.current_action.time_left.within(-MAX_LAG, MAX_SAMPLE as int)
    }

    /// How far past zero the timer has run.
    pub open spec fn lag(&self) -> int {
        self.current_action.time_left.lag()
    }

    /// Where the next note goes. The two fixed strategies always give their
    /// own target. The mixed strategy gives the amp while the notes in the
    /// amplifier and the teammates placing in the amp are fewer than two
    /// together, and the speaker otherwise.
    pub open spec fn spec_next_scoring_type(
        &self,
        field: Field,
        teammates: (Action, Action),
    ) -> NoteScoringType {
        match self.config.spec_placing_config(field.t).scoring_strategy {
            ScoringStrategy::Amp => NoteScoringType::Amp,
            ScoringStrategy::Speaker => NoteScoringType::Speaker,
            ScoringStrategy::SpeakerAndAmp => if field.current_amplify.level()
                + spec_amount_of_amps(teammates.0) + spec_amount_of_amps(teammates.1) < 2 {
                NoteScoringType::Amp
            } else {
                NoteScoringType::Speaker
            },
        }
    }

    /// The nominal time of placing a note at `target` at the field's time.
    pub open spec fn spec_score_time(&self, field: Field, target: NoteScoringType) -> i64 {
        match target {
            NoteScoringType::Amp => self.config.spec_placing_config(field.t).amp_score_time,
            NoteScoringType::Speaker => self.config.spec_placing_config(
                field.t,
            ).speaker_score_time,
        }
    }

    /// Driving is over: the robot starts placing at `target`, which takes
    /// `duration` on top of what the timer shows, and reports nothing.
    pub open spec fn spec_after_driving(&self, target: NoteScoringType, duration: i64) -> (
        TimedAction,
        Option<MessageToField>,
    ) {
        (
            TimedAction {
                time_left: self.current_action.time_left.spec_extend(duration),
                action: Action::NoteScoring(target),
            },
            None,
        )
    }

    /// Placing is over: an amp note is always scored; a speaker note is
    /// scored if `roll` is below the success rate in force and failed
    /// otherwise. Either way the robot drives off for `duration` on top of
    /// what the timer shows.
    pub open spec fn spec_after_scoring(
        &self,
        scoring_type: NoteScoringType,
        field: Field,
        roll: i64,
        duration: i64,
    ) -> (TimedAction, Option<MessageToField>) {
        let message = match scoring_type {
            NoteScoringType::Amp => MessageToField::NoteScored(scoring_type),
            NoteScoringType::Speaker => if roll < self.config.spec_placing_config(
                field.t,
            ).scoring_success_percent {
                MessageToField::NoteScored(scoring_type)
            } else {
                MessageToField::NoteFailed(scoring_type)
            },
        };
        (
            TimedAction {
                time_left: self.current_action.time_left.spec_extend(duration),
                action: Action::Driving,
            },
            Some(message),
        )
    }

    /// How a climb ends: it fails unless `climb_roll` is below the climb's
    /// success rate; a climb that succeeded ends in the trap if `trap_roll`
    /// is below the trap's success rate.
    pub open spec fn spec_endgame(&self, climb_roll: i64, trap_roll: i64) -> EndgameState {
        if climb_roll < self.config.climb_success_percent {
            if trap_roll < self.config.trap_success_percent {
                EndgameState::Trapped
            } else {
                EndgameState::FailedTrapping
            }
        } else {
            EndgameState::FailedClimbing
        }
    }

    /// The climb is over: the robot reports how it ended and keeps its
    /// action, with a timer that never runs out.
    pub open spec fn spec_after_climbing(&self, climb_roll: i64, trap_roll: i64) -> (
        TimedAction,
        Option<MessageToField>,
    ) {
        (
            TimedAction { time_left: TimeLeft::Forever, action: self.current_action.action },
            Some(MessageToField::FinishedClimbing(self.spec_endgame(climb_roll, trap_roll))),
        )
    }

    /// What follows the action whose timer ran out, for given draws.
    pub open spec fn spec_next_action(
        &self,
        field: Field,
        teammates: (Action, Action),
        draws: Draws,
    ) -> (TimedAction, Option<MessageToField>) {
        match self.current_action.action {
            Action::Driving => self.spec_after_driving(
                self.spec_next_scoring_type(field, teammates),
                draws.duration,
            ),
            Action::NoteScoring(scoring_type) => self.spec_after_scoring(
                scoring_type,
                field,
                draws.success,
                draws.duration,
            ),
            Action::Climbing => self.spec_after_climbing(draws.success, draws.bonus),
        }
    }

    /// The draws are ones the random source can give for this decision: both
    /// rolls are rolls, and the duration is a sample of the nominal time of
    /// the action that starts.
    pub open spec fn admits(&self, field: Field, teammates: (Action, Action), draws: Draws) -> bool {
        &&& is_roll(draws.success)
        &&& is_roll(draws.bonus)
        &&& match self.current_action.action {
            Action::Driving => is_sample(
                self.spec_score_time(field, self.spec_next_scoring_type(field, teammates)),
                self.config.spec_placing_config(field.t).place_time_noise_factor,
                draws.duration,
            ),
            Action::NoteScoring(_) => is_sample(
                self.config.spec_placing_config(field.t).drive_time,
                self.config.spec_placing_config(field.t).drive_time_noise_factor,
                draws.duration,
            ),
            Action::Climbing => true,
        }
    }

    /// Picks the target of the next note from the strategy in force, the
    /// amplifier and what the two teammates are doing.
    pub fn get_next_scoring_type(&self, field: &Field, teammates: (Action, Action)) -> (r:
        NoteScoringType)
        ensures
            r == self.spec_next_scoring_type(*field, teammates),
            self.config.spec_placing_config(field.t).scoring_strategy is SpeakerAndAmp
                && field.current_amplify.level() + spec_amount_of_amps(teammates.0)
                + spec_amount_of_amps(teammates.1) >= 2 ==> r is Speaker,
    {
        match self.config.placing_config(field.t).scoring_strategy {
            ScoringStrategy::Amp => NoteScoringType::Amp,
            ScoringStrategy::Speaker => NoteScoringType::Speaker,
            ScoringStrategy::SpeakerAndAmp => {
                let amount_of_robots_playing_amp: u32 = amount_of_amps_for_action(&teammates.0)
                    + amount_of_amps_for_action(&teammates.1);
                let current_amount_for_amplify: u32 = field.current_amplify.as_int();
                if current_amount_for_amplify + amount_of_robots_playing_amp < 2 {
                    NoteScoringType::Amp
                } else {
                    NoteScoringType::Speaker
                }
            },
        }
    }

    /// The step after driving, for a target that is chosen and a duration
    /// that is drawn.
    pub fn after_driving(&self, target: NoteScoringType, duration: i64) -> (r: (
        TimedAction,
        Option<MessageToField>,
    ))
        requires
            self.current_action.time_left.within(i64::MIN - duration, i64::MAX - duration),
        ensures
            r == self.spec_after_driving(target, duration),
    {
        let next_action = TimedAction {
            time_left: self.current_action.time_left.extend(duration),
            action: Action::NoteScoring(target),
        };
        (next_action, None)
    }

    /// The step after placing, for a roll and a duration that are drawn.
    pub fn after_scoring(
        &self,
        scoring_type: NoteScoringType,
        field: &Field,
        roll: i64,
        duration: i64,
    ) -> (r: (TimedAction, Option<MessageToField>))
        requires
            self.current_action.time_left.within(i64::MIN - duration, i64::MAX - duration),
        ensures
            r == self.spec_after_scoring(scoring_type, *field, roll, duration),
    {
        let message_to_field = match scoring_type {
            NoteScoringType::Amp => MessageToField::NoteScored(scoring_type),
            NoteScoringType::Speaker => {
                if roll < self.config.placing_config(field.t).scoring_success_percent {
                    MessageToField::NoteScored(scoring_type)
                } else {
                    MessageToField::NoteFailed(scoring_type)
                }
            },
        };
        let next_action = TimedAction {
            time_left: self.current_action.time_left.extend(duration),
            action: Action::Driving,
        };
        (next_action, Some(message_to_field))
    }

    /// The step after the climb, for two rolls that are drawn.
    pub fn after_climbing(&self, climb_roll: i64, trap_roll: i64) -> (r: (
        TimedAction,
        Option<MessageToField>,
    ))
        ensures
            r == self.spec_after_climbing(climb_roll, trap_roll),
    {
        let outcome = if climb_roll < self.config.climb_success_percent {
            if trap_roll < self.config.trap_success_percent {
                EndgameState::Trapped
            } else {
                EndgameState::FailedTrapping
            }
        } else {
            EndgameState::FailedClimbing
        };
        let next_action = TimedAction {
            time_left: TimeLeft::Forever,
            action: self.current_action.action,
        };
        (next_action, Some(MessageToField::FinishedClimbing(outcome)))
    }

    /// The robot that a configuration gives once its two samples are drawn:
    /// it drives, for `drive_time`, and will climb for `climbing_time`.
    pub open spec fn spec_with_times(config: RobotConfig, climbing_time: i64, drive_time: i64) -> Robot {
        Robot {
            config: RobotConfig { climbing_time, ..config },
            current_action: TimedAction {
                time_left: TimeLeft::Finite(drive_time),
                action: Action::Driving,
            },
        }
    }

    /// The robot is one that `config` can give: its two times are samples of
    /// the nominal climbing time and of the nominal driving time of the
    /// autonomous period.
    pub open spec fn made_from(&self, config: RobotConfig) -> bool {
        exists|climbing_time: i64, drive_time: i64|
            is_sample(config.climbing_time, config.climbing_time_noise_factor, climbing_time)
                && is_sample(
                config.auto_config.drive_time,
                config.auto_config.drive_time_noise_factor,
                drive_time,
            ) && *self == #[trigger] Robot::spec_with_times(config, climbing_time, drive_time)
    }

    /// The new robot for a climbing time and a first driving time that are drawn.
    pub fn with_times(config: RobotConfig, climbing_time: i64, drive_time: i64) -> (r: Robot)
        ensures
            r == Robot::spec_with_times(config, climbing_time, drive_time),
    {
        let mut config = config;
        config.climbing_time = climbing_time;
        let initial_action = TimedAction::new(Action::Driving, TimeLeft::Finite(drive_time));
        Robot { config, current_action: initial_action }
    }

    /// Makes a robot: draws its climbing time, then the time of its first
    /// drive, each as a sample of the nominal time.
    pub fn new(config: RobotConfig, rng: &mut StdRng) -> (r: Robot)
        requires
            config.wf(),
        ensures
            r.made_from(config),
            r.wf(),
            r.lag() == 0,
            r.current_action.action is Driving,
    {
        let climbing_time = gen_time_with_noise(
            config.climbing_time,
            config.climbing_time_noise_factor,
            rng,
        );
        let drive_time = gen_time_with_noise(
            config.placing_config(0).drive_time,
            config.placing_config(0).drive_time_noise_factor,
            rng,
        );
        Robot::with_times(config, climbing_time, drive_time)
    }

    /// Tags a report with this robot's name.
    fn build_robot_message(&self, message: MessageToField) -> (r: RobotMessage)
        ensures
            r.robot_name == self.config.name,
            r.field_action_message == message,
    {
        RobotMessage::new(self.config.name.clone(), message)
    }

    /// Ends a drive: picks the target and draws how long placing there takes.
    pub fn on_driving_finished(
        &self,
        field: &Field,
        teammates: (Action, Action),
        rng: &mut StdRng,
    ) -> (r: (TimedAction, Option<MessageToField>))
        requires
            self.wf(),
        ensures
            exists|duration: i64|
                is_sample(
                    self.spec_score_time(*field, self.spec_next_scoring_type(*field, teammates)),
                    self.config.spec_placing_config(field.t).place_time_noise_factor,
                    duration,
                ) && r == #[trigger] self.spec_after_driving(
                    self.spec_next_scoring_type(*field, teammates),
                    duration,
                ),
    {
        let next_scoring_type = self.get_next_scoring_type(field, teammates);
        let time_addition = match next_scoring_type {
            NoteScoringType::Amp => self.config.placing_config(field.t).amp_score_time,
            NoteScoringType::Speaker => self.config.placing_config(field.t).speaker_score_time,
        };
        let duration = gen_time_with_noise(
            time_addition,
            self.config.placing_config(field.t).place_time_noise_factor,
            rng,
        );
        self.after_driving(next_scoring_type, duration)
    }

    /// Ends a placement: draws whether a speaker note is scored, then how long
    /// the next drive takes.
    pub fn on_scoring_finished(
        &self,
        scoring_type: NoteScoringType,
        field: &Field,
        _teammates: (Action, Action),
        rng: &mut StdRng,
    ) -> (r: (TimedAction, Option<MessageToField>))
        requires
            self.wf(),
        ensures
            exists|roll: i64, duration: i64|
                is_roll(roll) && is_sample(
                    self.config.spec_placing_config(field.t).drive_time,
                    self.config.spec_placing_config(field.t).drive_time_noise_factor,
                    duration,
                ) && r == #[trigger] self.spec_after_scoring(scoring_type, *field, roll, duration),
    {
        let roll: i64 = match scoring_type {
            NoteScoringType::Amp => 0,
            NoteScoringType::Speaker => uniform_below(rng, MILLION),
        };
        let duration = gen_time_with_noise(
            self.config.placing_config(field.t).drive_time,
            self.config.placing_config(field.t).drive_time_noise_factor,
            rng,
        );
        self.after_scoring(scoring_type, field, roll, duration)
    }

    /// Ends the climb: draws whether it succeeded and, if so, whether the trap did.
    pub fn on_climbing_finished(
        &self,
        _field: &Field,
        _teammates: (Action, Action),
        rng: &mut StdRng,
    ) -> (r: (TimedAction, Option<MessageToField>))
        ensures
            exists|climb_roll: i64, trap_roll: i64|
                is_roll(climb_roll) && is_roll(trap_roll) && r == #[trigger] self.spec_after_climbing(
                    climb_roll,
                    trap_roll,
                ),
    {
        let climb_roll: i64 = uniform_below(rng, MILLION);
        let trap_roll: i64 = if climb_roll < self.config.climb_success_percent {
            uniform_below(rng, MILLION)
        } else {
            0
        };
        self.after_climbing(climb_roll, trap_roll)
    }

    /// Replaces the action whose timer ran out by what follows it.
    pub fn next_action(&self, field: &Field, teammates: (Action, Action), rng: &mut StdRng) -> (r: (
        TimedAction,
        Option<MessageToField>,
    ))
        requires
            self.wf(),
        ensures
            exists|draws: Draws|
                self.admits(*field, teammates, draws) && r == #[trigger] self.spec_next_action(
                    *field,
                    teammates,
                    draws,
                ),
    {
        match self.current_action.action {
            Action::Driving => {
                let r = self.on_driving_finished(field, teammates, rng);
                proof {
                    let target = self.spec_next_scoring_type(*field, teammates);
                    let duration = choose|duration: i64|
                        is_sample(
                            self.spec_score_time(*field, target),
                            self.config.spec_placing_config(field.t).place_time_noise_factor,
                            duration,
                        ) && r == #[trigger] self.spec_after_driving(target, duration);
                    let draws = Draws { success: 0, bonus: 0, duration };
                    assert(self.admits(*field, teammates, draws));
                    assert(r == self.spec_next_action(*field, teammates, draws));
                }
                r
            },
            Action::NoteScoring(scoring_type) => {
                let r = self.on_scoring_finished(scoring_type, field, teammates, rng);
                proof {
                    let (roll, duration) = choose|roll: i64, duration: i64|
                        is_roll(roll) && is_sample(
                            self.config.spec_placing_config(field.t).drive_time,
                            self.config.spec_placing_config(field.t).drive_time_noise_factor,
                            duration,
                        ) && r == #[trigger] self.spec_after_scoring(
                            scoring_type,
                            *field,
                            roll,
                            duration,
                        );
                    let draws = Draws { success: roll, bonus: 0, duration };
                    assert(self.admits(*field, teammates, draws));
                    assert(r == self.spec_next_action(*field, teammates, draws));
                }
                r
            },
            Action::Climbing => {
                let r = self.on_climbing_finished(field, teammates, rng);
                proof {
                    let (climb_roll, trap_roll) = choose|climb_roll: i64, trap_roll: i64|
                        is_roll(climb_roll) && is_roll(trap_roll) && r
                            == #[trigger] self.spec_after_climbing(climb_roll, trap_roll);
                    let draws = Draws { success: climb_roll, bonus: trap_roll, duration: 0 };
                    assert(self.admits(*field, teammates, draws));
                    assert(r == self.spec_next_action(*field, teammates, draws));
                }
                r
            },
        }
    }

    /// The match is close enough to its end that a robot which is not yet
    /// climbing must start now.
    pub open spec fn must_climb(&self, field: Field) -> bool {
        MATCH_TIME - field.t - CLIMB_MARGIN <= self.config.climbing_time
    }

    /// The robot after the first two steps of a tick, and what it reports so
    /// far: the timer loses one step; then a robot that is not climbing and
    /// must climb drops what it does, starts the climb with its full climbing
    /// time and reports that.
    pub open spec fn spec_primed(&self, field: Field) -> (Robot, Option<MessageToField>) {
        if !(self.current_action.action is Climbing) && self.must_climb(field) {
            (
                Robot {
                    config: self.config,
                    current_action: TimedAction {
                        time_left: TimeLeft::Finite(self.config.climbing_time),
                        action: Action::Climbing,
                    },
                },
                Some(MessageToField::ActionStarted(Action::Climbing)),
            )
        } else {
            (
                Robot {
                    config: self.config,
                    current_action: TimedAction {
                        time_left: self.current_action.time_left.spec_elapse(STEP),
                        action: self.current_action.action,
                    },
                },
                None,
            )
        }
    }

    /// The timer runs out in this tick, so that the robot decides what to do next.
    pub open spec fn decides(&self, field: Field) -> bool {
        self.spec_primed(field).0.current_action.time_left.overdue()
    }

    /// The draws are ones the random source can give in this tick; nothing
    /// is asked of them in a tick in which the robot decides nothing.
    pub open spec fn tick_admits(
        &self,
        field: Field,
        teammates: (Action, Action),
        draws: Draws,
    ) -> bool {
        self.decides(field) ==> self.spec_primed(field).0.admits(field, teammates, draws)
    }

    /// The robot after one tick, and its report, for given draws: after the
    /// first two steps, a robot whose timer has run out takes its next
    /// action, and what that reports replaces what was reported so far.
    pub open spec fn spec_tick(&self, field: Field, teammates: (Action, Action), draws: Draws) -> (
        Robot,
        Option<RobotMessage>,
    ) {
        let (primed, started) = self.spec_primed(field);
        let (action, message) = if primed.current_action.time_left.overdue() {
            primed.spec_next_action(field, teammates, draws)
        } else {
            (primed.current_action, started)
        };
        (
            Robot { config: self.config, current_action: action },
            match message {
                Some(message) => Some(
                    RobotMessage { robot_name: self.config.name, field_action_message: message },
                ),
                None => None,
            },
        )
    }

    /// Moves the robot one tick on and returns what it reports, if anything.
    /// `teammates` are the actions of the two other robots as the tick begins.
    pub fn tick(&mut self, rng: &mut StdRng, field: &Field, teammates: (Action, Action)) -> (message:
        Option<RobotMessage>)
        requires
            old(self).wf(),
            old(self).lag() + STEP <= MAX_LAG,
        ensures
            exists|draws: Draws|
                old(self).tick_admits(*field, teammates, draws) && (*final(self), message)
                    == #[trigger] old(self).spec_tick(*field, teammates, draws),
            final(self).wf(),
            final(self).lag() <= old(self).lag() + STEP,
            final(self).config == old(self).config,
            old(self).current_action.action is Climbing || old(self).must_climb(*field)
                <==> final(self).current_action.action is Climbing,
    {
        let ghost before = *self;
        self.current_action.time_left = self.current_action.time_left.elapse(STEP);
        let mut message_to_field: Option<MessageToField> = None;

        let climbing = match self.current_action.action {
            Action::Climbing => true,
            _ => false,
        };
        if !climbing && MATCH_TIME - CLIMB_MARGIN - self.config.climbing_time <= field.t {
            self.current_action = TimedAction::new(
                Action::Climbing,
                TimeLeft::Finite(self.config.climbing_time),
            );
            message_to_field = Some(MessageToField::ActionStarted(Action::Climbing));
        }
        assert((*self, message_to_field) == before.spec_primed(*field));

        if self.current_action.time_left.is_overdue() {
            let (action, message) = self.next_action(field, teammates, rng);
            proof {
                let draws = choose|draws: Draws|
                    self.admits(*field, teammates, draws) && (action, message)
                        == #[trigger] self.spec_next_action(*field, teammates, draws);
                decision_is_bounded(*self, *field, teammates, draws);
                assert(before.tick_admits(*field, teammates, draws));
                assert((
                    Robot { config: self.config, current_action: action },
                    match message {
                        Some(m) => Some(
                            RobotMessage { robot_name: self.config.name, field_action_message: m },
                        ),
                        None => None,
                    },
                ) == before.spec_tick(*field, teammates, draws));
            }
            self.current_action = action;
            message_to_field = message;
        } else {
            proof {
                let draws = Draws { success: 0, bonus: 0, duration: 0 };
                assert(before.tick_admits(*field, teammates, draws));
                assert((
                    *self,
                    match message_to_field {
                        Some(m) => Some(
                            RobotMessage { robot_name: self.config.name, field_action_message: m },
                        ),
                        None => None,
                    },
                ) == before.spec_tick(*field, teammates, draws));
            }
        }
        match message_to_field {
            Some(message) => Some(self.build_robot_message(message)),
            None => None,
        }
    }
}

/// The action that a well-formed robot takes once its timer has run out
/// keeps the kind of a climb, and its timer is not further past zero than
/// the old one and no longer than the longest sample.
pub proof fn decision_is_bounded(
    robot: Robot,
    field: Field,
    teammates: (Action, Action),
    draws: Draws,
)
    requires
        robot.wf(),
        robot.current_action.time_left.overdue(),
        robot.admits(field, teammates, draws),
    ensures
        robot.spec_next_action(field, teammates, draws).0.time_left.within(
            -robot.lag(),
            MAX_SAMPLE as int,
        ),
        robot.spec_next_action(field, teammates, draws).0.action is Climbing
            <==> robot.current_action.action is Climbing,
{
    let phase = robot.config.spec_placing_config(field.t);
    match robot.current_action.action {
        Action::Driving => {
            let target = robot.spec_next_scoring_type(field, teammates);
            sample_is_bounded(
                robot.spec_score_time(field, target),
                phase.place_time_noise_factor,
                draws.duration,
            );
        },
        Action::NoteScoring(_) => {
            sample_is_bounded(phase.drive_time, phase.drive_time_noise_factor, draws.duration);
        },
        Action::Climbing => {},
    }
}

/// A tick never changes a robot's configuration, and a robot is climbing
/// after a tick exactly if it was climbing before or had to start: a climb,
/// once begun, is never left.
pub proof fn tick_keeps_climbing(
    robot: Robot,
    field: Field,
    teammates: (Action, Action),
    draws: Draws,
)
    ensures
        robot.spec_tick(field, teammates, draws).0.config == robot.config,
        robot.spec_tick(field, teammates, draws).0.current_action.action is Climbing <==> (
        robot.current_action.action is Climbing || robot.must_climb(field)),
{
}

/// A robot with the mixed strategy never starts placing in the amp while the
/// notes in the amplifier and the teammates placing in the amp are two or
/// more together.
pub proof fn mixed_strategy_caps_the_amp(
    robot: Robot,
    field: Field,
    teammates: (Action, Action),
    draws: Draws,
)
    requires
        robot.config.spec_placing_config(field.t).scoring_strategy is SpeakerAndAmp,
        field.current_amplify.level() + spec_amount_of_amps(teammates.0) + spec_amount_of_amps(
            teammates.1,
        ) >= 2,
        robot.current_action.action is Driving,
    ensures
        robot.spec_next_scoring_type(field, teammates) is Speaker,
        robot.spec_next_action(field, teammates, draws).0.action == Action::NoteScoring(
            NoteScoringType::Speaker,
        ),
        spec_amount_of_amps(robot.spec_tick(field, teammates, draws).0.current_action.action) == 0,
{
}

impl Robot {
    /// The robot is in the middle of placing a note in the amp.
    pub open spec fn placing_amp(&self) -> bool {
        self.current_action.action == Action::NoteScoring(NoteScoringType::Amp)
    }

    /// The robot finishes a placement in this tick: it is placing a note,
    /// the deadline does not force its climb, and its timer runs out.
    pub open spec fn finishes_placement(&self, field: Field) -> bool {
        &&& self.current_action.action is NoteScoring
        &&& !self.must_climb(field)
        &&& self.current_action.time_left.spec_elapse(STEP).overdue()
    }
}

/// A tick of a robot whose success rates are all zero: whatever it reports
/// scores nothing, except that a robot in the middle of an amp placement
/// may score that amp note. A speaker placement that finishes is reported as
/// failed. And a robot that places in the speaker only never starts an amp
/// placement.
pub proof fn tick_at_zero_rates(
    robot: Robot,
    field: Field,
    teammates: (Action, Action),
    draws: Draws,
)
    requires
        robot.config.never_succeeds(),
        robot.tick_admits(field, teammates, draws),
    ensures
        scores_nothing(robot.spec_tick(field, teammates, draws).1) || (robot.placing_amp()
            && is_note(robot.spec_tick(field, teammates, draws).1, NoteScoringType::Amp)),
        robot.current_action.action == Action::NoteScoring(NoteScoringType::Speaker)
            && robot.finishes_placement(field) ==> is_failed_note(
            robot.spec_tick(field, teammates, draws).1,
            NoteScoringType::Speaker,
        ),
        robot.config.speaker_only() && !robot.placing_amp() ==> !robot.spec_tick(
            field,
            teammates,
            draws,
        ).0.placing_amp(),
{
}

/// A tick of a robot that places in the speaker only, with a success rate
/// of one, and that is not in the middle of an amp placement: it reports a
/// scored speaker note exactly if it finishes a placement in this tick. It
/// never reports a failed note or an amp note, whatever else it reports
/// counts no note, and it starts no amp placement.
pub proof fn tick_at_full_rates(
    robot: Robot,
    field: Field,
    teammates: (Action, Action),
    draws: Draws,
)
    requires
        robot.config.always_scores(),
        robot.config.speaker_only(),
        !robot.placing_amp(),
        robot.tick_admits(field, teammates, draws),
    ensures
        is_note(robot.spec_tick(field, teammates, draws).1, NoteScoringType::Speaker)
            <==> robot.finishes_placement(field),
        !is_note(robot.spec_tick(field, teammates, draws).1, NoteScoringType::Amp),
        !is_failed_note(robot.spec_tick(field, teammates, draws).1, NoteScoringType::Speaker),
        !is_failed_note(robot.spec_tick(field, teammates, draws).1, NoteScoringType::Amp),
        !robot.finishes_placement(field) ==> scores_nothing(
            robot.spec_tick(field, teammates, draws).1,
        ) || is_climb_end(robot.spec_tick(field, teammates, draws).1),
        !robot.spec_tick(field, teammates, draws).0.placing_amp(),
{
}

} // verus!
