//! The difficulty curve: how the score reshapes the obstacles still to come.
//!
//! Rings move closer together and grow narrower as the score rises, while the
//! band in which a ring's centre may fall grows wider. Each parameter stops at
//! a floor or a cap, so that no score makes a ring impassable or the band
//! inverted.

use vstd::prelude::*;
use vstd::math::{max, min};
use crate::score::Score;

verus! {

/// Horizontal spacing between rings at score zero.
pub const DEFAULT_MIN_X_BETWEEN: i64 = 650;

/// Horizontal spacing below which the curve never goes.
pub const MIN_X_BETWEEN_FLOOR: i64 = 500;

/// Half-height of a ring at score zero.
pub const DEFAULT_Y_MID_OFFSET: i64 = 125;

/// Half-height below which the curve never goes.
pub const Y_MID_OFFSET_FLOOR: i64 = 100;

/// Lowest ring centre at score zero.
pub const DEFAULT_Y_MID_LOW: i64 = -100;

/// Highest ring centre at score zero.
pub const DEFAULT_Y_MID_HIGH: i64 = 100;

/// Farthest from the centre line that the band of ring centres ever reaches,
/// upwards and downwards.
pub const Y_MID_RANGE_CAP: i64 = 200;

/// The closed band `[low, high]` of heights at which a ring's centre may be
/// placed.
#[derive(Clone, Copy, Debug, PartialEq, Eq, Structural)]
pub struct MidRange {
    pub low: i64,
    pub high: i64,
}

/// The parameters that shape the next obstacle.
#[derive(Clone, Copy, Debug, PartialEq, Eq, Structural)]
pub struct ObstacleConfig {
    /// Least horizontal distance from the newest obstacle to the next one.
    pub min_x_between: i64,
    /// Band from which the next ring's centre is drawn.
    pub y_mid_range: MidRange,
    /// Half-height of the next ring.
    pub y_mid_offset: i64,
}

/// Spacing between rings at `score`: one unit less per point, down to the floor.
pub open spec fn curve_min_x_between(score: nat) -> int {
    max(MIN_X_BETWEEN_FLOOR as int, DEFAULT_MIN_X_BETWEEN - score)
}

/// Half-height of a ring at `score`: one unit less per point, down to the floor.
pub open spec fn curve_y_mid_offset(score: nat) -> int {
    max(Y_MID_OFFSET_FLOOR as int, DEFAULT_Y_MID_OFFSET - score)
}

/// Lower end of the band of ring centres at `score`: one unit lower per point,
/// down to the cap.
pub open spec fn curve_y_mid_low(score: nat) -> int {
    max(-Y_MID_RANGE_CAP, DEFAULT_Y_MID_LOW - score)
}

/// Upper end of the band of ring centres at `score`: one unit higher per
/// point, up to the cap.
pub open spec fn curve_y_mid_high(score: nat) -> int {
    min(Y_MID_RANGE_CAP as int, DEFAULT_Y_MID_HIGH + score)
}

/// The parameters that the curve assigns to `score`.
pub open spec fn difficulty_curve(score: nat) -> ObstacleConfig {
    ObstacleConfig {
        min_x_between: curve_min_x_between(score) as i64,
        y_mid_range: MidRange {
            low: curve_y_mid_low(score) as i64,
            high: curve_y_mid_high(score) as i64,
        },
        y_mid_offset: curve_y_mid_offset(score) as i64,
    }
}

/// What [`score_increases_difficulty`] leaves in place of `config`: the
/// curve's value once the score has changed, `config` itself otherwise.
pub open spec fn difficulty_after(config: ObstacleConfig, score: nat, score_changed: bool)
    -> ObstacleConfig {
    if score_changed {
        difficulty_curve(score)
    } else {
        config
    }
}

impl ObstacleConfig {
    /// Every parameter lies between its floor and its default, or between its
    /// default and its cap: rings can be passed, and the band of ring centres
    /// is not inverted.
    pub open spec fn wf(self) -> bool {
        &&& MIN_X_BETWEEN_FLOOR <= self.min_x_between <= DEFAULT_MIN_X_BETWEEN
        &&& Y_MID_OFFSET_FLOOR <= self.y_mid_offset <= DEFAULT_Y_MID_OFFSET
        &&& -Y_MID_RANGE_CAP <= self.y_mid_range.low <= DEFAULT_Y_MID_LOW
        &&& DEFAULT_Y_MID_HIGH <= self.y_mid_range.high <= Y_MID_RANGE_CAP
    }

    /// The parameters for a given score.
    pub fn for_score(score: u32) -> (config: Self)
        ensures
            config == difficulty_curve(score as nat),
            config.wf(),
    {
        let points: i64 = score as i64;
        let spacing: i64 = DEFAULT_MIN_X_BETWEEN - points;
        let offset: i64 = DEFAULT_Y_MID_OFFSET - points;
        let low: i64 = DEFAULT_Y_MID_LOW - points;
        let high: i64 = DEFAULT_Y_MID_HIGH + points;
        ObstacleConfig {
            min_x_between: if spacing < MIN_X_BETWEEN_FLOOR {
                MIN_X_BETWEEN_FLOOR
            } else {
                spacing
            },
            y_mid_range: MidRange {
                low: if low < -Y_MID_RANGE_CAP { -Y_MID_RANGE_CAP } else { low },
                high: if high > Y_MID_RANGE_CAP { Y_MID_RANGE_CAP } else { high },
            },
            y_mid_offset: if offset < Y_MID_OFFSET_FLOOR { Y_MID_OFFSET_FLOOR } else { offset },
        }
    }
}

impl Default for ObstacleConfig {
    /// The parameters with which every session starts.
    fn default() -> (config: Self)
        ensures
            config == difficulty_curve(0),
            config.min_x_between == DEFAULT_MIN_X_BETWEEN,
            config.y_mid_range.low == DEFAULT_Y_MID_LOW,
            config.y_mid_range.high == DEFAULT_Y_MID_HIGH,
            config.y_mid_offset == DEFAULT_Y_MID_OFFSET,
    {
        ObstacleConfig {
            min_x_between: DEFAULT_MIN_X_BETWEEN,
            y_mid_range: MidRange { low: DEFAULT_Y_MID_LOW, high: DEFAULT_Y_MID_HIGH },
            y_mid_offset: DEFAULT_Y_MID_OFFSET,
        }
    }
}

/// Brings the parameters up to date with the score. They are recomputed only
/// when the score has changed since they were last computed; otherwise they
/// are left as they are.
pub fn score_increases_difficulty(config: &mut ObstacleConfig, score: &Score, score_changed: bool)
    ensures
        *final(config) == difficulty_after(*old(config), score.0 as nat, score_changed),
{
    if !score_changed {
        return;
    }
    *config = ObstacleConfig::for_score(score.0);
}

/// The curve keeps every parameter within its floor and cap, whatever the
/// score: spacing and ring height stay positive, and the band of ring centres
/// keeps its lower end below its upper end.
pub proof fn law_curve_respects_floors_and_caps(score: nat)
    ensures
        difficulty_curve(score).wf(),
        MIN_X_BETWEEN_FLOOR <= curve_min_x_between(score) <= DEFAULT_MIN_X_BETWEEN,
        Y_MID_OFFSET_FLOOR <= curve_y_mid_offset(score) <= DEFAULT_Y_MID_OFFSET,
        -Y_MID_RANGE_CAP <= curve_y_mid_low(score) <= DEFAULT_Y_MID_LOW,
        DEFAULT_Y_MID_HIGH <= curve_y_mid_high(score) <= Y_MID_RANGE_CAP,
        curve_y_mid_low(score) < curve_y_mid_high(score),
        difficulty_curve(score).min_x_between == curve_min_x_between(score),
        difficulty_curve(score).y_mid_offset == curve_y_mid_offset(score),
        difficulty_curve(score).y_mid_range.low == curve_y_mid_low(score),
        difficulty_curve(score).y_mid_range.high == curve_y_mid_high(score),
{
}

/// Once the score has passed the point where every parameter has reached its
/// floor or cap, the curve is flat.
pub proof fn law_curve_flat_beyond_floors(score: nat)
    requires
        score >= DEFAULT_MIN_X_BETWEEN - MIN_X_BETWEEN_FLOOR,
    ensures
        difficulty_curve(score) == difficulty_curve(
            (DEFAULT_MIN_X_BETWEEN - MIN_X_BETWEEN_FLOOR) as nat,
        ),
{
}

/// Bringing the parameters up to date twice with the same score is the same
/// as doing it once, and doing it on parameters that are already the curve's
/// changes nothing.
pub proof fn law_difficulty_update_idempotent(
    config: ObstacleConfig,
    score: nat,
    score_changed: bool,
)
    ensures
        difficulty_after(difficulty_after(config, score, score_changed), score, score_changed)
            == difficulty_after(config, score, score_changed),
        difficulty_after(difficulty_curve(score), score, score_changed) == difficulty_curve(score),
{
}

/// A higher score never makes the game easier: rings are no farther apart and
/// no taller, and the band of ring centres is no narrower.
pub proof fn law_curve_monotone(lower: nat, higher: nat)
    requires
        lower <= higher,
    ensures
        curve_min_x_between(higher) <= curve_min_x_between(lower),
        curve_y_mid_offset(higher) <= curve_y_mid_offset(lower),
        curve_y_mid_low(higher) <= curve_y_mid_low(lower),
        curve_y_mid_high(lower) <= curve_y_mid_high(higher),
{
}

} // verus!
