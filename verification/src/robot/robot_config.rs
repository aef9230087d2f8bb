//! What a robot is configured with: how long its actions take, how much those
//! times vary, and how often its attempts succeed.

use vstd::prelude::*;
use crate::field::AUTO_TIME;
use crate::MILLION;
use super::ScoringStrategy;

verus! {

/// The longest nominal duration a configuration may give an action.
pub const MAX_DURATION: i64 = 10_000_000_000;

/// The largest noise factor a configuration may give, in millionths.
pub const MAX_NOISE_FACTOR: i64 = 100_000_000;

/// The longest a sampled duration can be: `MAX_DURATION` with all the noise
/// that `MAX_NOISE_FACTOR` allows.
pub const MAX_SAMPLE: i64 = 1_010_000_000_000;

/// How a robot plays notes during one phase of the match.
///
/// Times are nominal durations in microseconds; noise factors and the
/// success rate are in millionths.
#[derive(Copy, Clone, Debug, PartialEq, Eq)]
pub struct PlacingConfig {
    pub scoring_strategy: ScoringStrategy,
    pub drive_time: i64,
    pub drive_time_noise_factor: i64,
    pub speaker_score_time: i64,
    pub amp_score_time: i64,
    pub place_time_noise_factor: i64,
    pub scoring_success_percent: i64,
}

impl PlacingConfig {
    /// No time and no noise factor is negative or above its limit, and the
    /// success rate is a probability.
    pub open spec fn wf(&self) -> bool {
        &&& 0 <= self.drive_time <= MAX_DURATION
        &&& 0 <= self.speaker_score_time <= MAX_DURATION
        &&& 0 <= self.amp_score_time <= MAX_DURATION
        &&& 0 <= self.drive_time_noise_factor <= MAX_NOISE_FACTOR
        &&& 0 <= self.place_time_noise_factor <= MAX_NOISE_FACTOR
        &&& 0 <= self.scoring_success_percent <= MILLION
    }
}

/// The configuration of one robot: a name, one `PlacingConfig` for each
/// phase, and how it climbs.
#[derive(Debug, PartialEq, Eq)]
pub struct RobotConfig {
    pub name: String,
    pub teleop_config: PlacingConfig,
    pub auto_config: PlacingConfig,
    pub climbing_time: i64,
    pub climbing_time_noise_factor: i64,
    pub climb_success_percent: i64,
    pub trap_success_percent: i64,
}

impl Clone for RobotConfig {
    /// A copy that is equal to the configuration in every field.
    fn clone(&self) -> (r: RobotConfig)
        ensures
            r == *self,
    {
        RobotConfig {
            name: self.name.clone(),
            teleop_config: self.teleop_config,
            auto_config: self.auto_config,
            climbing_time: self.climbing_time,
            climbing_time_noise_factor: self.climbing_time_noise_factor,
            climb_success_percent: self.climb_success_percent,
            trap_success_percent: self.trap_success_percent,
        }
    }
}

impl RobotConfig {
    /// Both phases are well formed and the two success rates of the climb
    /// are probabilities.
    pub open spec fn phases_wf(&self) -> bool {
        &&& self.teleop_config.wf()
        &&& self.auto_config.wf()
        &&& 0 <= self.climb_success_percent <= MILLION
        &&& 0 <= self.trap_success_percent <= MILLION
    }

    /// A configuration as it is handed to a new robot: the climbing time is
    /// still the nominal one.
    pub open spec fn wf(&self) -> bool {
        &&& self.phases_wf()
        &&& 0 <= self.climbing_time <= MAX_DURATION
        &&& 0 <= self.climbing_time_noise_factor <= MAX_NOISE_FACTOR
    }

    /// A configuration as a robot holds it: the climbing time is the one
    /// sampled when the robot was made.
    pub open spec fn resolved(&self) -> bool {
        &&& self.phases_wf()
        &&& 0 <= self.climbing_time <= MAX_SAMPLE
    }

    /// The robot places in the speaker only, in both phases.
    pub open spec fn speaker_only(&self) -> bool {
        &&& self.auto_config.scoring_strategy is Speaker
        &&& self.teleop_config.scoring_strategy is Speaker
    }

    /// No speaker shot, no climb and no trap of the robot can succeed: all
    /// its success rates are zero.
    pub open spec fn never_succeeds(&self) -> bool {
        &&& self.auto_config.scoring_success_percent == 0
        &&& self.teleop_config.scoring_success_percent == 0
        &&& self.climb_success_percent == 0
        &&& self.trap_success_percent == 0
    }

    /// Every speaker shot of the robot succeeds: its success rate is one in
    /// both phases.
    pub open spec fn always_scores(&self) -> bool {
        &&& self.auto_config.scoring_success_percent == MILLION
        &&& self.teleop_config.scoring_success_percent == MILLION
    }

    /// The configuration in force at time `t`: the autonomous one up to and
    /// including `AUTO_TIME`, the teleop one after it.
    pub open spec fn spec_placing_config(&self, t: i64) -> PlacingConfig {
        if t <= AUTO_TIME {
            self.auto_config
        } else {
            self.teleop_config
        }
    }

    /// The configuration in force at time `t`.
    pub fn placing_config(&self, t: i64) -> (r: &PlacingConfig)
        ensures
            *r == self.spec_placing_config(t),
    {
        if t <= AUTO_TIME {
            &self.auto_config
        } else {
            &self.teleop_config
        }
    }
}

} // verus!
