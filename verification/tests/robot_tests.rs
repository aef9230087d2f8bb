use cycle_simulation::actions::{Action, NoteScoringType, TimeLeft, TimedAction};
use cycle_simulation::field::{AmplifyState, EndgameState, Field, MessageToField, AUTO_TIME};
use cycle_simulation::robot::{
    amount_of_amps_for_action, noise_limit, with_noise, PlacingConfig, Robot, RobotConfig,
    ScoringStrategy, CLIMB_MARGIN, MAX_DURATION, MAX_NOISE_FACTOR, MAX_SAMPLE,
};
use cycle_simulation::{MATCH_TIME, MILLION, STEP};
use rand::rngs::StdRng;
use rand::SeedableRng;

const SECOND: i64 = 1_000_000;

fn phase(strategy: ScoringStrategy, success: i64, noise: i64) -> PlacingConfig {
    PlacingConfig {
        scoring_strategy: strategy,
        drive_time: 2 * SECOND,
        drive_time_noise_factor: noise,
        speaker_score_time: SECOND,
        amp_score_time: 3 * SECOND,
        place_time_noise_factor: noise,
        scoring_success_percent: success,
    }
}

fn config(strategy: ScoringStrategy, success: i64, noise: i64) -> RobotConfig {
    RobotConfig {
        name: String::from("tester"),
        teleop_config: phase(strategy, success, noise),
        auto_config: phase(strategy, success, noise),
        climbing_time: 5 * SECOND,
        climbing_time_noise_factor: noise,
        climb_success_percent: success,
        trap_success_percent: success,
    }
}

fn idle() -> (Action, Action) {
    (Action::Driving, Action::Driving)
}

#[test]
fn time_left_runs_down_and_out() {
    let t = TimeLeft::Finite(15_000);
    assert!(!t.is_overdue());
    let t = t.elapse(STEP);
    assert_eq!(t, TimeLeft::Finite(5_000));
    let t = t.elapse(STEP);
    assert_eq!(t, TimeLeft::Finite(-5_000));
    assert!(t.is_overdue());
    assert_eq!(t.extend(SECOND), TimeLeft::Finite(995_000));
    assert!(!TimeLeft::Finite(0).is_overdue());
}

#[test]
fn forever_never_runs_out() {
    let t = TimeLeft::Forever;
    assert_eq!(t.elapse(STEP), TimeLeft::Forever);
    assert_eq!(t.extend(STEP), TimeLeft::Forever);
    assert!(!t.is_overdue());
}

#[test]
fn timed_action_new_keeps_both_parts() {
    let a = TimedAction::new(Action::NoteScoring(NoteScoringType::Amp), TimeLeft::Finite(7));
    assert_eq!(a.action, Action::NoteScoring(NoteScoringType::Amp));
    assert_eq!(a.time_left, TimeLeft::Finite(7));
}

#[test]
fn placing_config_switches_after_the_boundary() {
    let mut c = config(ScoringStrategy::Amp, MILLION, 0);
    c.auto_config.drive_time = 11;
    c.teleop_config.drive_time = 22;
    assert_eq!(c.placing_config(0).drive_time, 11);
    assert_eq!(c.placing_config(AUTO_TIME).drive_time, 11);
    assert_eq!(c.placing_config(AUTO_TIME + 1).drive_time, 22);
    assert_eq!(c.placing_config(MATCH_TIME).drive_time, 22);
}

#[test]
fn amps_are_counted_per_action() {
    assert_eq!(amount_of_amps_for_action(&Action::NoteScoring(NoteScoringType::Amp)), 1);
    assert_eq!(amount_of_amps_for_action(&Action::NoteScoring(NoteScoringType::Speaker)), 0);
    assert_eq!(amount_of_amps_for_action(&Action::Driving), 0);
    assert_eq!(amount_of_amps_for_action(&Action::Climbing), 0);
}

#[test]
fn with_times_sets_climb_and_first_drive() {
    let robot = Robot::with_times(config(ScoringStrategy::Amp, MILLION, 0), 7 * SECOND, 25_000);
    assert_eq!(robot.config.climbing_time, 7 * SECOND);
    assert_eq!(robot.config.name, "tester");
    assert_eq!(robot.config.teleop_config, phase(ScoringStrategy::Amp, MILLION, 0));
    assert_eq!(robot.current_action.action, Action::Driving);
    assert_eq!(robot.current_action.time_left, TimeLeft::Finite(25_000));
}

#[test]
fn new_without_noise_takes_nominal_times() {
    let mut rng = StdRng::seed_from_u64(3);
    let robot = Robot::new(config(ScoringStrategy::Amp, MILLION, 0), &mut rng);
    assert_eq!(robot.config.climbing_time, 5 * SECOND);
    assert_eq!(robot.current_action.time_left, TimeLeft::Finite(2 * SECOND));
    assert_eq!(robot.current_action.action, Action::Driving);
}

#[test]
fn new_samples_stay_within_their_noise() {
    let noise = 300_000;
    let mut below_top = false;
    let mut above_base = false;
    for seed in 0..200u64 {
        let mut rng = StdRng::seed_from_u64(seed);
        let robot = Robot::new(config(ScoringStrategy::Amp, MILLION, noise), &mut rng);
        let climb = robot.config.climbing_time;
        assert!(climb >= 5 * SECOND);
        assert!(climb < 5 * SECOND + 1_500_000);
        match robot.current_action.time_left {
            TimeLeft::Finite(drive) => {
                assert!(drive >= 2 * SECOND);
                assert!(drive < 2 * SECOND + 600_000);
                if drive > 2 * SECOND {
                    above_base = true;
                }
                if drive < 2 * SECOND + 599_999 {
                    below_top = true;
                }
            }
            TimeLeft::Forever => panic!("a new robot has a finite timer"),
        }
    }
    assert!(above_base);
    assert!(below_top);
}

#[test]
fn fixed_strategies_ignore_the_field() {
    let mut field = Field::default();
    field.current_amplify = AmplifyState::Two;
    let amp = Robot::with_times(config(ScoringStrategy::Amp, MILLION, 0), SECOND, SECOND);
    let speaker = Robot::with_times(config(ScoringStrategy::Speaker, MILLION, 0), SECOND, SECOND);
    let busy = (
        Action::NoteScoring(NoteScoringType::Amp),
        Action::NoteScoring(NoteScoringType::Amp),
    );
    assert_eq!(amp.get_next_scoring_type(&field, busy), NoteScoringType::Amp);
    assert_eq!(speaker.get_next_scoring_type(&Field::default(), idle()), NoteScoringType::Speaker);
}

#[test]
fn mixed_strategy_caps_amp_at_two() {
    let robot = Robot::with_times(config(ScoringStrategy::SpeakerAndAmp, MILLION, 0), SECOND, SECOND);
    let amp = Action::NoteScoring(NoteScoringType::Amp);
    let speaker = Action::NoteScoring(NoteScoringType::Speaker);
    let levels = [AmplifyState::Off, AmplifyState::One, AmplifyState::Two];
    let mates = [Action::Driving, amp, speaker, Action::Climbing];
    for level in levels {
        for first in mates {
            for second in mates {
                let mut field = Field::default();
                field.current_amplify = level;
                let n = amount_of_amps_for_action(&first) + amount_of_amps_for_action(&second);
                let expected = if level.as_int() + n < 2 {
                    NoteScoringType::Amp
                } else {
                    NoteScoringType::Speaker
                };
                assert_eq!(robot.get_next_scoring_type(&field, (first, second)), expected);
            }
        }
    }
    let mut field = Field::default();
    assert_eq!(robot.get_next_scoring_type(&field, idle()), NoteScoringType::Amp);
    assert_eq!(robot.get_next_scoring_type(&field, (amp, Action::Driving)), NoteScoringType::Amp);
    assert_eq!(robot.get_next_scoring_type(&field, (amp, amp)), NoteScoringType::Speaker);
    field.current_amplify = AmplifyState::One;
    assert_eq!(robot.get_next_scoring_type(&field, (Action::Driving, amp)), NoteScoringType::Speaker);
    field.current_amplify = AmplifyState::Two;
    assert_eq!(robot.get_next_scoring_type(&field, idle()), NoteScoringType::Speaker);
}

#[test]
fn after_driving_starts_placing_and_reports_nothing() {
    let mut robot = Robot::with_times(config(ScoringStrategy::Amp, MILLION, 0), SECOND, SECOND);
    robot.current_action.time_left = TimeLeft::Finite(-4_000);
    let (next, message) = robot.after_driving(NoteScoringType::Speaker, 1_200_000);
    assert_eq!(next.action, Action::NoteScoring(NoteScoringType::Speaker));
    assert_eq!(next.time_left, TimeLeft::Finite(1_196_000));
    assert_eq!(message, None);
}

#[test]
fn after_scoring_amp_always_scores() {
    let mut robot = Robot::with_times(config(ScoringStrategy::Amp, 0, 0), SECOND, SECOND);
    robot.current_action = TimedAction::new(
        Action::NoteScoring(NoteScoringType::Amp),
        TimeLeft::Finite(-10_000),
    );
    let (next, message) =
        robot.after_scoring(NoteScoringType::Amp, &Field::default(), MILLION - 1, 2 * SECOND);
    assert_eq!(message, Some(MessageToField::NoteScored(NoteScoringType::Amp)));
    assert_eq!(next.action, Action::Driving);
    assert_eq!(next.time_left, TimeLeft::Finite(1_990_000));
}

#[test]
fn after_scoring_speaker_depends_on_the_roll() {
    let robot = Robot::with_times(config(ScoringStrategy::Speaker, 400_000, 0), SECOND, 0);
    let field = Field::default();
    let scored = Some(MessageToField::NoteScored(NoteScoringType::Speaker));
    let failed = Some(MessageToField::NoteFailed(NoteScoringType::Speaker));
    assert_eq!(robot.after_scoring(NoteScoringType::Speaker, &field, 0, 5).1, scored);
    assert_eq!(robot.after_scoring(NoteScoringType::Speaker, &field, 399_999, 5).1, scored);
    assert_eq!(robot.after_scoring(NoteScoringType::Speaker, &field, 400_000, 5).1, failed);
    assert_eq!(robot.after_scoring(NoteScoringType::Speaker, &field, 999_999, 5).1, failed);
    assert_eq!(
        robot.after_scoring(NoteScoringType::Speaker, &field, 999_999, 5).0,
        TimedAction::new(Action::Driving, TimeLeft::Finite(5))
    );
}

#[test]
fn after_scoring_uses_the_phase_of_the_field() {
    let mut c = config(ScoringStrategy::Speaker, 0, 0);
    c.teleop_config.scoring_success_percent = MILLION;
    let robot = Robot::with_times(c, SECOND, 0);
    let mut field = Field::default();
    field.t = AUTO_TIME;
    assert_eq!(
        robot.after_scoring(NoteScoringType::Speaker, &field, 0, 0).1,
        Some(MessageToField::NoteFailed(NoteScoringType::Speaker))
    );
    field.t = AUTO_TIME + STEP;
    assert_eq!(
        robot.after_scoring(NoteScoringType::Speaker, &field, 999_999, 0).1,
        Some(MessageToField::NoteScored(NoteScoringType::Speaker))
    );
}

#[test]
fn after_climbing_has_three_outcomes() {
    let mut c = config(ScoringStrategy::Amp, MILLION, 0);
    c.climb_success_percent = 700_000;
    c.trap_success_percent = 200_000;
    let mut robot = Robot::with_times(c, SECOND, 0);
    robot.current_action = TimedAction::new(Action::Climbing, TimeLeft::Finite(-1));
    let outcome = |climb, trap| robot.after_climbing(climb, trap).1;
    assert_eq!(
        outcome(699_999, 199_999),
        Some(MessageToField::FinishedClimbing(EndgameState::Trapped))
    );
    assert_eq!(
        outcome(699_999, 200_000),
        Some(MessageToField::FinishedClimbing(EndgameState::FailedTrapping))
    );
    assert_eq!(
        outcome(700_000, 0),
        Some(MessageToField::FinishedClimbing(EndgameState::FailedClimbing))
    );
    let next = robot.after_climbing(0, 0).0;
    assert_eq!(next.action, Action::Climbing);
    assert_eq!(next.time_left, TimeLeft::Forever);
}

#[test]
fn tick_only_counts_down_while_time_is_left() {
    let mut rng = StdRng::seed_from_u64(1);
    let mut robot = Robot::with_times(config(ScoringStrategy::Amp, MILLION, 0), SECOND, 25_000);
    let field = Field::default();
    assert_eq!(robot.tick(&mut rng, &field, idle()), None);
    assert_eq!(robot.current_action.time_left, TimeLeft::Finite(15_000));
    assert_eq!(robot.tick(&mut rng, &field, idle()), None);
    assert_eq!(robot.current_action.time_left, TimeLeft::Finite(5_000));
    assert_eq!(robot.current_action.action, Action::Driving);
}

#[test]
fn tick_moves_on_when_time_runs_out() {
    let mut rng = StdRng::seed_from_u64(1);
    let mut robot = Robot::with_times(config(ScoringStrategy::Amp, MILLION, 0), SECOND, 5_000);
    let field = Field::default();
    assert_eq!(robot.tick(&mut rng, &field, idle()), None);
    assert_eq!(robot.current_action.action, Action::NoteScoring(NoteScoringType::Amp));
    assert_eq!(robot.current_action.time_left, TimeLeft::Finite(3 * SECOND - 5_000));
    let mut last = None;
    for _ in 0..300 {
        last = robot.tick(&mut rng, &field, idle());
    }
    let report = last.expect("the amp note is placed in this tick");
    assert_eq!(report.robot_name, "tester");
    assert_eq!(report.field_action_message, MessageToField::NoteScored(NoteScoringType::Amp));
    assert_eq!(robot.current_action.action, Action::Driving);
    assert_eq!(robot.current_action.time_left, TimeLeft::Finite(2 * SECOND - 5_000));
}

#[test]
fn tick_with_zero_success_reports_failure() {
    let mut rng = StdRng::seed_from_u64(9);
    let mut robot = Robot::with_times(config(ScoringStrategy::Speaker, 0, 0), SECOND, 0);
    robot.current_action =
        TimedAction::new(Action::NoteScoring(NoteScoringType::Speaker), TimeLeft::Finite(0));
    let report = robot.tick(&mut rng, &Field::default(), idle()).expect("a report");
    assert_eq!(report.field_action_message, MessageToField::NoteFailed(NoteScoringType::Speaker));
    assert_eq!(robot.current_action.action, Action::Driving);
}

#[test]
fn tick_with_full_success_reports_score() {
    for seed in 0..50u64 {
        let mut rng = StdRng::seed_from_u64(seed);
        let mut robot = Robot::with_times(config(ScoringStrategy::Speaker, MILLION, 0), SECOND, 0);
        robot.current_action =
            TimedAction::new(Action::NoteScoring(NoteScoringType::Speaker), TimeLeft::Finite(0));
        let report = robot.tick(&mut rng, &Field::default(), idle()).expect("a report");
        assert_eq!(
            report.field_action_message,
            MessageToField::NoteScored(NoteScoringType::Speaker)
        );
    }
}

#[test]
fn deadline_forces_the_climb() {
    let mut rng = StdRng::seed_from_u64(1);
    let climb = 5 * SECOND;
    let mut robot = Robot::with_times(config(ScoringStrategy::Amp, MILLION, 0), climb, 60 * SECOND);
    let mut field = Field::default();
    field.t = MATCH_TIME - CLIMB_MARGIN - climb - 1;
    assert_eq!(robot.tick(&mut rng, &field, idle()), None);
    assert_eq!(robot.current_action.action, Action::Driving);
    field.t = MATCH_TIME - CLIMB_MARGIN - climb;
    let report = robot.tick(&mut rng, &field, idle()).expect("the climb starts");
    assert_eq!(report.field_action_message, MessageToField::ActionStarted(Action::Climbing));
    assert_eq!(robot.current_action.action, Action::Climbing);
    assert_eq!(robot.current_action.time_left, TimeLeft::Finite(climb));
    assert_eq!(robot.tick(&mut rng, &field, idle()), None);
    assert_eq!(robot.current_action.time_left, TimeLeft::Finite(climb - STEP));
}

#[test]
fn deadline_beats_a_finished_action() {
    let mut rng = StdRng::seed_from_u64(1);
    let mut robot = Robot::with_times(config(ScoringStrategy::Amp, MILLION, 0), SECOND, 0);
    robot.current_action =
        TimedAction::new(Action::NoteScoring(NoteScoringType::Amp), TimeLeft::Finite(0));
    let mut field = Field::default();
    field.t = MATCH_TIME - STEP;
    let report = robot.tick(&mut rng, &field, idle()).expect("the climb starts");
    assert_eq!(report.field_action_message, MessageToField::ActionStarted(Action::Climbing));
    assert_eq!(robot.current_action.time_left, TimeLeft::Finite(SECOND));
}

#[test]
fn finished_climb_is_final() {
    let mut rng = StdRng::seed_from_u64(4);
    let mut robot = Robot::with_times(config(ScoringStrategy::Amp, MILLION, 0), 0, 0);
    let mut field = Field::default();
    field.t = MATCH_TIME;
    let started = robot.tick(&mut rng, &field, idle()).expect("the climb starts");
    assert_eq!(started.field_action_message, MessageToField::ActionStarted(Action::Climbing));
    assert_eq!(robot.current_action.time_left, TimeLeft::Finite(0));
    let ended = robot.tick(&mut rng, &field, idle()).expect("the climb ends");
    assert_eq!(ended.field_action_message, MessageToField::FinishedClimbing(EndgameState::Trapped));
    assert_eq!(robot.current_action.action, Action::Climbing);
    assert_eq!(robot.current_action.time_left, TimeLeft::Forever);
    for _ in 0..100 {
        assert_eq!(robot.tick(&mut rng, &field, idle()), None);
        assert_eq!(robot.current_action.action, Action::Climbing);
        assert_eq!(robot.current_action.time_left, TimeLeft::Forever);
    }
}

#[test]
fn on_driving_finished_samples_the_placing_time() {
    let noise = 500_000;
    for seed in 0..100u64 {
        let mut rng = StdRng::seed_from_u64(seed);
        let mut robot = Robot::with_times(config(ScoringStrategy::Speaker, MILLION, noise), SECOND, 0);
        robot.current_action.time_left = TimeLeft::Finite(-2_000);
        let (next, message) = robot.on_driving_finished(&Field::default(), idle(), &mut rng);
        assert_eq!(message, None);
        assert_eq!(next.action, Action::NoteScoring(NoteScoringType::Speaker));
        match next.time_left {
            TimeLeft::Finite(left) => {
                assert!(left >= SECOND - 2_000);
                assert!(left < SECOND + 500_000 - 2_000);
            }
            TimeLeft::Forever => panic!("placing takes a finite time"),
        }
    }
}

#[test]
fn on_scoring_finished_samples_the_drive_time() {
    let noise = 250_000;
    for seed in 0..100u64 {
        let mut rng = StdRng::seed_from_u64(seed);
        let mut robot = Robot::with_times(config(ScoringStrategy::Amp, MILLION, noise), SECOND, 0);
        robot.current_action =
            TimedAction::new(Action::NoteScoring(NoteScoringType::Amp), TimeLeft::Finite(-1));
        let (next, message) =
            robot.on_scoring_finished(NoteScoringType::Amp, &Field::default(), idle(), &mut rng);
        assert_eq!(message, Some(MessageToField::NoteScored(NoteScoringType::Amp)));
        assert_eq!(next.action, Action::Driving);
        match next.time_left {
            TimeLeft::Finite(left) => {
                assert!(left >= 2 * SECOND - 1);
                assert!(left < 2 * SECOND + 500_000 - 1);
            }
            TimeLeft::Forever => panic!("driving takes a finite time"),
        }
    }
}

#[test]
fn on_climbing_finished_follows_the_rates() {
    let mut rng = StdRng::seed_from_u64(11);
    let mut never = config(ScoringStrategy::Amp, 0, 0);
    never.climb_success_percent = 0;
    let robot = Robot::with_times(never, 0, 0);
    let (next, message) = robot.on_climbing_finished(&Field::default(), idle(), &mut rng);
    assert_eq!(message, Some(MessageToField::FinishedClimbing(EndgameState::FailedClimbing)));
    assert_eq!(next.time_left, TimeLeft::Forever);

    let mut climbs_only = config(ScoringStrategy::Amp, MILLION, 0);
    climbs_only.trap_success_percent = 0;
    let robot = Robot::with_times(climbs_only, 0, 0);
    let (_, message) = robot.on_climbing_finished(&Field::default(), idle(), &mut rng);
    assert_eq!(message, Some(MessageToField::FinishedClimbing(EndgameState::FailedTrapping)));

    let robot = Robot::with_times(config(ScoringStrategy::Amp, MILLION, 0), 0, 0);
    let (_, message) = robot.on_climbing_finished(&Field::default(), idle(), &mut rng);
    assert_eq!(message, Some(MessageToField::FinishedClimbing(EndgameState::Trapped)));
}

#[test]
fn next_action_follows_the_current_action() {
    let mut rng = StdRng::seed_from_u64(2);
    let mut robot = Robot::with_times(config(ScoringStrategy::Amp, MILLION, 0), SECOND, 0);
    let field = Field::default();
    robot.current_action = TimedAction::new(Action::Driving, TimeLeft::Finite(-7));
    let (next, message) = robot.next_action(&field, idle(), &mut rng);
    assert_eq!(next, TimedAction::new(Action::NoteScoring(NoteScoringType::Amp), TimeLeft::Finite(3 * SECOND - 7)));
    assert_eq!(message, None);
    robot.current_action = next;
    let (next, message) = robot.next_action(&field, idle(), &mut rng);
    assert_eq!(next, TimedAction::new(Action::Driving, TimeLeft::Finite(5 * SECOND - 7)));
    assert_eq!(message, Some(MessageToField::NoteScored(NoteScoringType::Amp)));
    robot.current_action = TimedAction::new(Action::Climbing, TimeLeft::Finite(-7));
    let (next, message) = robot.next_action(&field, idle(), &mut rng);
    assert_eq!(next, TimedAction::new(Action::Climbing, TimeLeft::Forever));
    assert_eq!(message, Some(MessageToField::FinishedClimbing(EndgameState::Trapped)));
}

#[test]
fn noise_limit_is_the_scaled_product_rounded_down() {
    assert_eq!(noise_limit(2 * SECOND, 300_000), 600_000);
    assert_eq!(noise_limit(5 * SECOND, 1_000_000), 5 * SECOND);
    assert_eq!(noise_limit(5 * SECOND, 0), 0);
    assert_eq!(noise_limit(0, 300_000), 0);
    assert_eq!(noise_limit(3, 333_333), 0);
    assert_eq!(noise_limit(3, 333_334), 1);
    assert_eq!(noise_limit(7, 2_500_000), 17);
    assert_eq!(noise_limit(MAX_DURATION, MAX_NOISE_FACTOR), MAX_SAMPLE - MAX_DURATION);
}

#[test]
fn with_noise_adds_the_noise_to_the_time() {
    assert_eq!(with_noise(2 * SECOND, 0), 2 * SECOND);
    assert_eq!(with_noise(2 * SECOND, 5), 2_000_005);
    assert_eq!(with_noise(0, 599_999), 599_999);
    assert_eq!(with_noise(MAX_DURATION, MAX_SAMPLE - MAX_DURATION - 1), MAX_SAMPLE - 1);
}
