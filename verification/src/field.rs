//! The field: the scoreboard that consumes what the robots report each tick.

use vstd::prelude::*;
use crate::actions::{Action, NoteScoringType};
use crate::STEP;

verus! {

/// The end of the autonomous period: the boundary between the two phases.
pub const AUTO_TIME: i64 = 15_000_000;

/// How long the speaker stays amplified once amplification starts.
pub const AMPLIFICATION_TIME: i64 = 10_000_000;

/// The three numbers a match is judged by.
///
/// `game_piece_points` is the total of the match: the points for the notes
/// placed and the stage points together. `game_pieces_played` is the number
/// of notes placed, and `stage_points` the points for climbs and traps alone.
#[derive(Copy, Clone, Debug, PartialEq, Eq)]
pub struct ScoreSummarization {
    pub game_piece_points: i32,
    pub game_pieces_played: i32,
    pub stage_points: i32,
}

/// How a climb ended.
#[derive(Copy, Clone, Debug, PartialEq, Eq)]
pub enum EndgameState {
    FailedClimbing,
    FailedTrapping,
    Trapped,
}

/// What a robot reports to the field.
#[derive(Copy, Clone, Debug, PartialEq, Eq)]
pub enum MessageToField {
    NoteScored(NoteScoringType),
    NoteFailed(NoteScoringType),
    ActionStarted(Action),
    FinishedClimbing(EndgameState),
}

/// A report together with the name of the robot that made it.
#[derive(Clone, Debug, PartialEq, Eq)]
pub struct RobotMessage {
    pub robot_name: String,
    pub field_action_message: MessageToField,
}

impl RobotMessage {
    /// Tags a report with the name of the robot that makes it.
    pub fn new(name: String, field_action_message: MessageToField) -> (r: RobotMessage)
        ensures
            r.robot_name == name,
            r.field_action_message == field_action_message,
    {
        RobotMessage { robot_name: name, field_action_message }
    }
}

/// The reports of one tick, one slot per robot, and the time of the tick.
#[derive(Clone, Debug, PartialEq, Eq)]
pub struct AllianceActions {
    pub t: i64,
    pub a: Option<RobotMessage>,
    pub b: Option<RobotMessage>,
    pub c: Option<RobotMessage>,
}

impl AllianceActions {
    /// Collects the reports of the tick at time `t`, one slot per robot.
    pub fn new(
        t: i64,
        a: Option<RobotMessage>,
        b: Option<RobotMessage>,
        c: Option<RobotMessage>,
    ) -> (r: AllianceActions)
        ensures
            r.t == t,
            r.a == a,
            r.b == b,
            r.c == c,
    {
        AllianceActions { t, a, b, c }
    }
}

/// How close the alliance is to amplifying the speaker.
#[derive(Copy, Clone, Debug, PartialEq, Eq)]
pub enum AmplifyState {
    Off,
    One,
    Two,
}

impl Default for AmplifyState {
    /// The empty amplifier.
    fn default() -> (r: AmplifyState)
        ensures
            r == AmplifyState::Off,
    {
        AmplifyState::Off
    }
}

impl AmplifyState {
    /// One step closer to amplification, staying at `Two` once there.
    pub open spec fn spec_next(self) -> AmplifyState {
        match self {
            AmplifyState::Off => AmplifyState::One,
            AmplifyState::One => AmplifyState::Two,
            AmplifyState::Two => AmplifyState::Two,
        }
    }

    /// The number of notes in the amplifier: 0, 1 or 2.
    pub open spec fn level(self) -> int {
        match self {
            AmplifyState::Off => 0,
            AmplifyState::One => 1,
            AmplifyState::Two => 2,
        }
    }

    /// The state one amp note later.
    pub fn next(&self) -> (r: AmplifyState)
        ensures
            r == self.spec_next(),
            r.level() == if self.level() < 2 { self.level() + 1 } else { 2 },
    {
        match self {
            AmplifyState::Off => AmplifyState::One,
            AmplifyState::One => AmplifyState::Two,
            AmplifyState::Two => AmplifyState::Two,
        }
    }

    /// The number of notes in the amplifier.
    pub fn as_int(&self) -> (r: u32)
        ensures
            r == self.level(),
    {
        match self {
            AmplifyState::Off => 0,
            AmplifyState::One => 1,
            AmplifyState::Two => 2,
        }
    }
}

/// The scoreboard of one match.
///
/// `t` is the time of the last tick applied. `time_left_for_amplified` is
/// `Some` exactly while the speaker is amplified. `started_teleop` is set by
/// the first tick at `AUTO_TIME` or later; it is there for observers and
/// plays no part in scoring: a note at exactly `AUTO_TIME` still counts for
/// the autonomous period.
#[derive(Copy, Clone, Debug, PartialEq, Eq)]
pub struct Field {
    pub t: i64,
    pub started_teleop: bool,
    pub speaker: i32,
    pub climbs: i32,
    pub amplified_speaker: i32,
    pub auto_speaker: i32,
    pub auto_amp: i32,
    pub amp: i32,
    pub time_left_for_amplified: Option<i64>,
    pub current_amplify: AmplifyState,
    pub traps: i32,
}

impl Default for Field {
    /// The field before the first tick.
    fn default() -> (r: Field)
        ensures
            r == Field::spec_default(),
    {
        Field {
            t: 0,
            started_teleop: false,
            speaker: 0,
            climbs: 0,
            amplified_speaker: 0,
            auto_speaker: 0,
            auto_amp: 0,
            amp: 0,
            time_left_for_amplified: None,
            current_amplify: AmplifyState::Off,
            traps: 0,
        }
    }
}

impl Field {
    /// The field before the first tick: time zero, nothing scored, amplifier empty.
    pub open spec fn spec_default() -> Field {
        Field {
            t: 0,
            started_teleop: false,
            speaker: 0,
            climbs: 0,
            amplified_speaker: 0,
            auto_speaker: 0,
            auto_amp: 0,
            amp: 0,
            time_left_for_amplified: None,
            current_amplify: AmplifyState::Off,
            traps: 0,
        }
    }

    /// Every counter can still grow by `n` without leaving `i32`.
    pub open spec fn can_count(&self, n: int) -> bool {
        &&& self.speaker + n <= i32::MAX
        &&& self.climbs + n <= i32::MAX
        &&& self.amplified_speaker + n <= i32::MAX
        &&& self.auto_speaker + n <= i32::MAX
        &&& self.auto_amp + n <= i32::MAX
        &&& self.amp + n <= i32::MAX
        &&& self.traps + n <= i32::MAX
    }

    /// Every counter lies between `low` and `high`.
    pub open spec fn counters_within(&self, low: int, high: int) -> bool {
        &&& low <= self.speaker <= high
        &&& low <= self.climbs <= high
        &&& low <= self.amplified_speaker <= high
        &&& low <= self.auto_speaker <= high
        &&& low <= self.auto_amp <= high
        &&& low <= self.amp <= high
        &&& low <= self.traps <= high
    }

    /// No counter of `self` is below the same counter of `earlier`.
    pub open spec fn no_counter_below(&self, earlier: Field) -> bool {
        &&& self.speaker >= earlier.speaker
        &&& self.climbs >= earlier.climbs
        &&& self.amplified_speaker >= earlier.amplified_speaker
        &&& self.auto_speaker >= earlier.auto_speaker
        &&& self.auto_amp >= earlier.auto_amp
        &&& self.amp >= earlier.amp
        &&& self.traps >= earlier.traps
    }

    /// No counter of `self` is more than `n` above the same counter of `earlier`.
    pub open spec fn no_counter_above(&self, earlier: Field, n: int) -> bool {
        &&& self.speaker <= earlier.speaker + n
        &&& self.climbs <= earlier.climbs + n
        &&& self.amplified_speaker <= earlier.amplified_speaker + n
        &&& self.auto_speaker <= earlier.auto_speaker + n
        &&& self.auto_amp <= earlier.auto_amp + n
        &&& self.amp <= earlier.amp + n
        &&& self.traps <= earlier.traps + n
    }

    /// The amplification timer is either absent or positive and at most the full window.
    pub open spec fn window_wf(&self) -> bool {
        self.time_left_for_amplified matches Some(left) ==> 0 < left <= AMPLIFICATION_TIME
    }

    /// Points for placed notes: 1 per amp note, 2 per amp note of the autonomous
    /// period, 2 per speaker note, 5 per speaker note that was amplified or of
    /// the autonomous period.
    pub open spec fn spec_note_points(&self) -> int {
        self.amp + 2 * self.auto_amp + 2 * self.speaker + 5 * self.auto_speaker + 5
            * self.amplified_speaker
    }

    /// The total of the match: the points for placed notes and the points
    /// earned on the stage.
    pub open spec fn spec_total_points(&self) -> int {
        self.spec_note_points() + self.spec_stage_points()
    }

    /// The number of notes placed.
    pub open spec fn spec_game_pieces_played(&self) -> int {
        self.amp + self.auto_amp + self.amplified_speaker + self.speaker + self.auto_speaker
    }

    /// Points earned on the stage: 3 per climb, 5 per trap.
    pub open spec fn spec_stage_points(&self) -> int {
        3 * self.climbs + 5 * self.traps
    }

    /// The three results fit in `i32`.
    pub open spec fn score_fits(&self) -> bool {
        &&& i32::MIN <= self.spec_total_points() <= i32::MAX
        &&& i32::MIN <= self.spec_game_pieces_played() <= i32::MAX
        &&& i32::MIN <= self.spec_stage_points() <= i32::MAX
    }

    /// The field is in the autonomous period: its time is `AUTO_TIME` or
    /// earlier. This is the phase by which notes are counted, and the same
    /// boundary at which a robot changes its configuration.
    pub open spec fn in_auto(&self) -> bool {
        self.t <= AUTO_TIME
    }

    /// The field after one report.
    ///
    /// An amp note counts for the phase the field is in and, while the speaker
    /// is not amplified, moves the amplifier one step on. A speaker note first
    /// starts amplification if the amplifier is full, the speaker is not yet
    /// amplified and the autonomous period is over; it then counts as a note
    /// of the autonomous period, as an amplified note, or as a plain one. A
    /// climb counts unless it failed, and a trap counts as a climb too. Every
    /// other report leaves the field as it is.
    pub open spec fn spec_apply_action(self, message: MessageToField) -> Field {
        match message {
            MessageToField::NoteScored(NoteScoringType::Amp) => {
                let counted = if self.in_auto() {
                    Field { auto_amp: (self.auto_amp + 1) as i32, ..self }
                } else {
                    Field { amp: (self.amp + 1) as i32, ..self }
                };
                if self.time_left_for_amplified is None {
                    Field { current_amplify: self.current_amplify.spec_next(), ..counted }
                } else {
                    counted
                }
            },
            MessageToField::NoteScored(NoteScoringType::Speaker) => {
                let started = if self.starts_amplification() {
                    Field { time_left_for_amplified: Some(AMPLIFICATION_TIME), ..self }
                } else {
                    self
                };
                if self.in_auto() {
                    Field { auto_speaker: (self.auto_speaker + 1) as i32, ..started }
                } else if started.time_left_for_amplified is Some {
                    Field { amplified_speaker: (self.amplified_speaker + 1) as i32, ..started }
                } else {
                    Field { speaker: (self.speaker + 1) as i32, ..started }
                }
            },
            MessageToField::FinishedClimbing(EndgameState::FailedTrapping) => Field {
                climbs: (self.climbs + 1) as i32,
                ..self
            },
            MessageToField::FinishedClimbing(EndgameState::Trapped) => Field {
                climbs: (self.climbs + 1) as i32,
                traps: (self.traps + 1) as i32,
                ..self
            },
            _ => self,
        }
    }

    /// A speaker note scored now starts amplification: the amplifier is full,
    /// the speaker is not amplified, and the autonomous period is over.
    pub open spec fn starts_amplification(&self) -> bool {
        &&& self.current_amplify is Two
        &&& self.time_left_for_amplified is None
        &&& self.t > AUTO_TIME
    }

    /// Takes in one report. The name of the robot plays no part.
    pub fn apply_action(&mut self, message: RobotMessage)
        requires
            old(self).can_count(1),
        ensures
            *final(self) == old(self).spec_apply_action(message.field_action_message),
            final(self).t == old(self).t,
            final(self).started_teleop == old(self).started_teleop,
            final(self).no_counter_below(*old(self)),
            final(self).no_counter_above(*old(self), 1),
            final(self).spec_game_pieces_played() <= old(self).spec_game_pieces_played() + 1,
            final(self).amplified_speaker > old(self).amplified_speaker
                ==> final(self).time_left_for_amplified is Some,
            old(self).time_left_for_amplified matches Some(left)
                ==> final(self).time_left_for_amplified == Some(left)
                && final(self).current_amplify == old(self).current_amplify,
            old(self).window_wf() ==> final(self).window_wf(),
    {
        match message.field_action_message {
            MessageToField::NoteScored(NoteScoringType::Amp) => {
                if self.t <= AUTO_TIME {
                    self.auto_amp = self.auto_amp + 1;
                } else {
                    self.amp = self.amp + 1;
                }
                if self.time_left_for_amplified.is_none() {
                    self.current_amplify = self.current_amplify.next();
                }
            },
            MessageToField::NoteScored(NoteScoringType::Speaker) => {
                match self.current_amplify {
                    AmplifyState::Two => {
                        if self.time_left_for_amplified.is_none() && self.t > AUTO_TIME {
                            self.time_left_for_amplified = Some(AMPLIFICATION_TIME);
                        }
                    },
                    _ => {},
                }
                if self.t <= AUTO_TIME {
                    self.auto_speaker = self.auto_speaker + 1;
                } else if self.time_left_for_amplified.is_some() {
                    self.amplified_speaker = self.amplified_speaker + 1;
                } else {
                    self.speaker = self.speaker + 1;
                }
            },
            MessageToField::ActionStarted(_) => {},
            MessageToField::NoteFailed(_) => {},
            MessageToField::FinishedClimbing(EndgameState::FailedTrapping) => {
                self.climbs = self.climbs + 1;
            },
            MessageToField::FinishedClimbing(EndgameState::FailedClimbing) => {},
            MessageToField::FinishedClimbing(EndgameState::Trapped) => {
                self.traps = self.traps + 1;
                self.climbs = self.climbs + 1;
            },
        }
    }

    /// The field moved on to the tick at time `t`, before any report of that
    /// tick: an amplification that is running loses one step and, once nothing
    /// is left of it, ends and empties the amplifier; from `AUTO_TIME` on the
    /// field has started teleop.
    pub open spec fn spec_age(self, t: i64) -> Field {
        let ends = self.time_left_for_amplified matches Some(left) && left - STEP <= 0;
        Field {
            t,
            started_teleop: self.started_teleop || t >= AUTO_TIME,
            time_left_for_amplified: match self.time_left_for_amplified {
                Some(left) => if left - STEP <= 0 { None } else { Some((left - STEP) as i64) },
                None => None,
            },
            current_amplify: if ends { AmplifyState::Off } else { self.current_amplify },
            ..self
        }
    }

    /// The field after the report in one slot, if there is one.
    pub open spec fn spec_apply_slot(self, slot: Option<RobotMessage>) -> Field {
        match slot {
            Some(message) => self.spec_apply_action(message.field_action_message),
            None => self,
        }
    }

    /// The field after one tick's reports: aged to the tick's time, then the
    /// three slots in their fixed order.
    pub open spec fn spec_apply(self, actions: AllianceActions) -> Field {
        self.spec_age(actions.t).spec_apply_slot(actions.a).spec_apply_slot(
            actions.b,
        ).spec_apply_slot(actions.c)
    }

    /// The running amplification loses one step without leaving `i64`.
    pub open spec fn can_age(&self) -> bool {
        self.time_left_for_amplified matches Some(left) ==> left - STEP >= i64::MIN
    }

    fn age(&mut self, t: i64)
        requires
            old(self).can_age(),
        ensures
            *final(self) == old(self).spec_age(t),
    {
        self.t = t;
        match self.time_left_for_amplified {
            Some(left) => {
                let left: i64 = left - STEP;
                if left <= 0 {
                    self.time_left_for_amplified = None;
                    self.current_amplify = AmplifyState::Off;
                } else {
                    self.time_left_for_amplified = Some(left);
                }
            },
            None => {},
        }
        if !self.started_teleop && self.t >= AUTO_TIME {
            self.started_teleop = true;
        }
    }

    fn apply_slot(&mut self, slot: Option<RobotMessage>)
        requires
            old(self).can_count(1),
        ensures
            *final(self) == old(self).spec_apply_slot(slot),
            final(self).no_counter_below(*old(self)),
            final(self).no_counter_above(*old(self), 1),
            final(self).spec_game_pieces_played() <= old(self).spec_game_pieces_played() + 1,
            old(self).window_wf() ==> final(self).window_wf(),
    {
        match slot {
            Some(message) => self.apply_action(message),
            None => {},
        }
    }

    /// Takes in one tick: moves on to its time, then takes in its reports slot by slot.
    pub fn apply(self, actions: AllianceActions) -> (r: Field)
        requires
            self.can_count(3),
            self.can_age(),
        ensures
            r == self.spec_apply(actions),
            r.t == actions.t,
            r.started_teleop == (self.started_teleop || actions.t >= AUTO_TIME),
            r.no_counter_below(self),
            r.no_counter_above(self, 3),
            r.spec_game_pieces_played() <= self.spec_game_pieces_played() + 3,
            self.window_wf() ==> r.window_wf(),
    {
        let mut field = self;
        let AllianceActions { t, a, b, c } = actions;
        field.age(t);
        field.apply_slot(a);
        field.apply_slot(b);
        field.apply_slot(c);
        field
    }

    /// The score of the field: the total points, the notes placed, and the
    /// part of the total that was earned on the stage.
    pub open spec fn spec_get_score(&self) -> ScoreSummarization {
        ScoreSummarization {
            game_piece_points: self.spec_total_points() as i32,
            game_pieces_played: self.spec_game_pieces_played() as i32,
            stage_points: self.spec_stage_points() as i32,
        }
    }

    /// Sums the counters up to the score. The first result is the total of
    /// the match, stage points included; the third is the stage points alone.
    pub fn get_score(&self) -> (r: ScoreSummarization)
        requires
            self.score_fits(),
        ensures
            r == self.spec_get_score(),
            r.game_piece_points == self.spec_total_points(),
            r.game_pieces_played == self.spec_game_pieces_played(),
            r.stage_points == self.spec_stage_points(),
    {
        let amp: i64 = self.amp as i64;
        let auto_amp: i64 = self.auto_amp as i64;
        let speaker: i64 = self.speaker as i64;
        let auto_speaker: i64 = self.auto_speaker as i64;
        let amplified_speaker: i64 = self.amplified_speaker as i64;
        let climbs: i64 = self.climbs as i64;
        let traps: i64 = self.traps as i64;

        let speaker_score: i64 = speaker * 2 + auto_speaker * 5 + amplified_speaker * 5;
        let amp_score: i64 = amp + auto_amp * 2;
        let game_pieces_played: i64 = amp + auto_amp + amplified_speaker + speaker
            + auto_speaker;
        let stage_points: i64 = climbs * 3 + traps * 5;
        let game_piece_points: i64 = amp_score + speaker_score + stage_points;
        ScoreSummarization {
            game_piece_points: game_piece_points as i32,
            game_pieces_played: game_pieces_played as i32,
            stage_points: stage_points as i32,
        }
    }
}

impl Field {
    /// The field after a run of ticks, oldest first.
    pub open spec fn after_ticks(self, batches: Seq<AllianceActions>) -> Field
        decreases batches.len(),
    {
        if batches.len() == 0 {
            self
        } else {
            self.after_ticks(batches.drop_last()).spec_apply(batches.last())
        }
    }
}

/// One report never lowers a counter and raises none by more than one; and
/// the count of amplified notes rises only if the speaker is amplified once
/// the report is in.
pub proof fn report_only_adds(field: Field, message: MessageToField)
    requires
        field.can_count(1),
    ensures
        field.spec_apply_action(message).no_counter_below(field),
        field.spec_apply_action(message).no_counter_above(field, 1),
        field.spec_apply_action(message).amplified_speaker > field.amplified_speaker
            ==> field.spec_apply_action(message).time_left_for_amplified is Some,
{
}

/// One tick never lowers a counter and raises none by more than three; and
/// the count of amplified notes rises only in a tick that ends with the
/// speaker amplified.
pub proof fn tick_only_adds(field: Field, actions: AllianceActions)
    requires
        field.can_count(3),
    ensures
        field.spec_apply(actions).no_counter_below(field),
        field.spec_apply(actions).no_counter_above(field, 3),
        field.spec_apply(actions).amplified_speaker > field.amplified_speaker
            ==> field.spec_apply(actions).time_left_for_amplified is Some,
{
    let aged = field.spec_age(actions.t);
    let one = aged.spec_apply_slot(actions.a);
    let two = one.spec_apply_slot(actions.b);
    slot_only_adds(aged, actions.a);
    slot_only_adds(one, actions.b);
    slot_only_adds(two, actions.c);
}

/// One slot never lowers a counter and raises none by more than one.
pub proof fn slot_only_adds(field: Field, slot: Option<RobotMessage>)
    requires
        field.can_count(1),
    ensures
        field.spec_apply_slot(slot).no_counter_below(field),
        field.spec_apply_slot(slot).no_counter_above(field, 1),
        field.spec_apply_slot(slot).amplified_speaker > field.amplified_speaker
            ==> field.spec_apply_slot(slot).time_left_for_amplified is Some,
{
}

/// While an amplification has time left, each tick takes exactly one step
/// from it and leaves the amplifier as it was, whatever is reported.
pub proof fn amplification_runs_down(field: Field, batches: Seq<AllianceActions>)
    requires
        field.time_left_for_amplified matches Some(left) && batches.len() * STEP < left,
    ensures
        field.after_ticks(batches).time_left_for_amplified == Some(
            (field.time_left_for_amplified->0 - batches.len() * STEP) as i64,
        ),
        field.after_ticks(batches).current_amplify == field.current_amplify,
    decreases batches.len(),
{
    if batches.len() > 0 {
        let earlier = batches.drop_last();
        amplification_runs_down(field, earlier);
        let before = field.after_ticks(earlier);
        let last = batches.last();
        let aged = before.spec_age(last.t);
        let one = aged.spec_apply_slot(last.a);
        let two = one.spec_apply_slot(last.b);
        slot_keeps_window(aged, last.a);
        slot_keeps_window(one, last.b);
        slot_keeps_window(two, last.c);
    }
}

proof fn slot_keeps_window(field: Field, slot: Option<RobotMessage>)
    requires
        field.time_left_for_amplified is Some,
    ensures
        field.spec_apply_slot(slot).time_left_for_amplified == field.time_left_for_amplified,
        field.spec_apply_slot(slot).current_amplify == field.current_amplify,
{
}

/// An amplification ends at the first tick that leaves nothing of it: right
/// after that tick's aging the speaker is no longer amplified and the
/// amplifier is empty. For an amplification that has just started this is the
/// tick `AMPLIFICATION_TIME / STEP` ticks later. The reports of that same
/// tick are taken in after the aging, so two amp notes and a speaker note in
/// it can start the next amplification at once.
pub proof fn amplification_ends_on_time(field: Field, batches: Seq<AllianceActions>, t: i64)
    requires
        field.time_left_for_amplified matches Some(left) && batches.len() * STEP < left <= (
        batches.len() + 1) * STEP,
    ensures
        field.after_ticks(batches).spec_age(t).time_left_for_amplified is None,
        field.after_ticks(batches).spec_age(t).current_amplify is Off,
        field.time_left_for_amplified == Some(AMPLIFICATION_TIME) ==> batches.len() + 1
            == AMPLIFICATION_TIME / STEP,
{
    amplification_runs_down(field, batches);
}

/// The slot holds a note that was scored at `target`.
pub open spec fn is_note(slot: Option<RobotMessage>, target: NoteScoringType) -> bool {
    slot matches Some(message) && message.field_action_message == MessageToField::NoteScored(
        target,
    )
}

/// The slot holds a note that failed at `target`.
pub open spec fn is_failed_note(slot: Option<RobotMessage>, target: NoteScoringType) -> bool {
    slot matches Some(message) && message.field_action_message == MessageToField::NoteFailed(
        target,
    )
}

/// The slot changes no counter: it is empty, or it holds a note that
/// failed, an action that started, or a climb that failed.
pub open spec fn scores_nothing(slot: Option<RobotMessage>) -> bool {
    match slot {
        None => true,
        Some(message) => match message.field_action_message {
            MessageToField::NoteFailed(_) => true,
            MessageToField::ActionStarted(_) => true,
            MessageToField::FinishedClimbing(EndgameState::FailedClimbing) => true,
            _ => false,
        },
    }
}

/// The slot holds the end of a climb.
pub open spec fn is_climb_end(slot: Option<RobotMessage>) -> bool {
    slot matches Some(message) && message.field_action_message is FinishedClimbing
}

impl Field {
    /// The field counts the same notes as `other`, target by target and
    /// phase by phase.
    pub open spec fn same_notes(&self, other: Field) -> bool {
        &&& self.amp == other.amp
        &&& self.auto_amp == other.auto_amp
        &&& self.same_speaker_notes(other)
    }

    /// The field counts the same speaker notes as `other`.
    pub open spec fn same_speaker_notes(&self, other: Field) -> bool {
        &&& self.speaker == other.speaker
        &&& self.auto_speaker == other.auto_speaker
        &&& self.amplified_speaker == other.amplified_speaker
    }

    /// The field counts the same climbs and traps as `other`.
    pub open spec fn same_stage(&self, other: Field) -> bool {
        &&& self.climbs == other.climbs
        &&& self.traps == other.traps
    }

    /// The amplifier is empty and the speaker is not amplified.
    pub open spec fn amplifier_idle(&self) -> bool {
        &&& self.current_amplify is Off
        &&& self.time_left_for_amplified is None
    }
}

/// What each kind of slot does to the counters: a slot that scores nothing
/// leaves the field as it is; an amp note leaves the speaker notes and the
/// stage alone; and, while the amplifier is idle, a speaker note adds one
/// plain or autonomous speaker note and leaves the rest, and the end of a
/// climb leaves all notes and the amplifier alone.
pub proof fn slot_by_kind(field: Field, slot: Option<RobotMessage>)
    ensures
        scores_nothing(slot) ==> field.spec_apply_slot(slot) == field,
        is_note(slot, NoteScoringType::Amp) ==> field.spec_apply_slot(slot).same_speaker_notes(
            field,
        ) && field.spec_apply_slot(slot).same_stage(field) && field.spec_apply_slot(
            slot,
        ).time_left_for_amplified == field.time_left_for_amplified,
        is_climb_end(slot) ==> field.spec_apply_slot(slot).same_notes(field)
            && field.spec_apply_slot(slot).current_amplify == field.current_amplify
            && field.spec_apply_slot(slot).time_left_for_amplified
            == field.time_left_for_amplified,
        is_note(slot, NoteScoringType::Speaker) && field.amplifier_idle() && field.can_count(1)
            ==> field.spec_apply_slot(slot).amplifier_idle() && field.spec_apply_slot(
            slot,
        ).same_stage(field) && field.spec_apply_slot(slot).amp == field.amp
            && field.spec_apply_slot(slot).auto_amp == field.auto_amp && field.spec_apply_slot(
            slot,
        ).amplified_speaker == field.amplified_speaker && field.spec_apply_slot(
            slot,
        ).auto_speaker + field.spec_apply_slot(slot).speaker == field.auto_speaker
            + field.speaker + 1,
{
}

} // verus!
