use bird_game::difficulty::{
    score_increases_difficulty, MidRange, ObstacleConfig, DEFAULT_MIN_X_BETWEEN,
    DEFAULT_Y_MID_HIGH, DEFAULT_Y_MID_LOW, DEFAULT_Y_MID_OFFSET, MIN_X_BETWEEN_FLOOR,
    Y_MID_OFFSET_FLOOR, Y_MID_RANGE_CAP,
};
use bird_game::score::Score;

fn config(min_x_between: i64, low: i64, high: i64, y_mid_offset: i64) -> ObstacleConfig {
    ObstacleConfig { min_x_between, y_mid_range: MidRange { low, high }, y_mid_offset }
}

#[test]
fn default_config_has_documented_values() {
    let c = ObstacleConfig::default();
    assert_eq!(c, config(650, -100, 100, 125));
    assert_eq!(DEFAULT_MIN_X_BETWEEN, 650);
    assert_eq!(DEFAULT_Y_MID_LOW, -100);
    assert_eq!(DEFAULT_Y_MID_HIGH, 100);
    assert_eq!(DEFAULT_Y_MID_OFFSET, 125);
    assert_eq!(MIN_X_BETWEEN_FLOOR, 500);
    assert_eq!(Y_MID_OFFSET_FLOOR, 100);
    assert_eq!(Y_MID_RANGE_CAP, 200);
}

#[test]
fn default_score_is_zero() {
    assert_eq!(Score::default(), Score(0));
}

#[test]
fn curve_at_zero_is_default() {
    assert_eq!(ObstacleConfig::for_score(0), ObstacleConfig::default());
}

#[test]
fn curve_moves_one_unit_per_point() {
    assert_eq!(ObstacleConfig::for_score(1), config(649, -101, 101, 124));
    assert_eq!(ObstacleConfig::for_score(10), config(640, -110, 110, 115));
    assert_eq!(ObstacleConfig::for_score(24), config(626, -124, 124, 101));
}

#[test]
fn ring_height_stops_at_its_floor() {
    assert_eq!(ObstacleConfig::for_score(25), config(625, -125, 125, 100));
    assert_eq!(ObstacleConfig::for_score(26), config(624, -126, 126, 100));
}

#[test]
fn band_stops_at_its_cap() {
    assert_eq!(ObstacleConfig::for_score(99), config(551, -199, 199, 100));
    assert_eq!(ObstacleConfig::for_score(100), config(550, -200, 200, 100));
    assert_eq!(ObstacleConfig::for_score(101), config(549, -200, 200, 100));
}

#[test]
fn spacing_stops_at_its_floor() {
    assert_eq!(ObstacleConfig::for_score(149), config(501, -200, 200, 100));
    assert_eq!(ObstacleConfig::for_score(150), config(500, -200, 200, 100));
    assert_eq!(ObstacleConfig::for_score(151), config(500, -200, 200, 100));
}

#[test]
fn score_jump_to_300_clamps_to_floors() {
    let mut c = ObstacleConfig::default();
    score_increases_difficulty(&mut c, &Score(300), true);
    assert_eq!(c.min_x_between, 500);
    assert_eq!(c.y_mid_offset, 100);
    assert_eq!(c.y_mid_range, MidRange { low: -200, high: 200 });
}

#[test]
fn very_large_scores_stay_within_floors_and_caps() {
    let flat = config(500, -200, 200, 100);
    assert_eq!(ObstacleConfig::for_score(1_000_000), flat);
    assert_eq!(ObstacleConfig::for_score(i32::MAX as u32), flat);
    assert_eq!(ObstacleConfig::for_score(u32::MAX), flat);
}

#[test]
fn curve_is_deterministic() {
    for score in [0u32, 1, 24, 25, 99, 100, 149, 150, 300, u32::MAX] {
        assert_eq!(ObstacleConfig::for_score(score), ObstacleConfig::for_score(score));
    }
}

#[test]
fn curve_respects_bounds_for_many_scores() {
    for score in (0u32..400).chain([10_000, u32::MAX - 1, u32::MAX]) {
        let c = ObstacleConfig::for_score(score);
        assert!(500 <= c.min_x_between && c.min_x_between <= 650);
        assert!(100 <= c.y_mid_offset && c.y_mid_offset <= 125);
        assert!(-200 <= c.y_mid_range.low && c.y_mid_range.low <= -100);
        assert!(100 <= c.y_mid_range.high && c.y_mid_range.high <= 200);
        assert!(c.y_mid_range.low < c.y_mid_range.high);
    }
}

#[test]
fn difficulty_is_left_alone_when_score_has_not_changed() {
    let mut c = ObstacleConfig::for_score(7);
    score_increases_difficulty(&mut c, &Score(90), false);
    assert_eq!(c, ObstacleConfig::for_score(7));
}

#[test]
fn difficulty_update_is_idempotent() {
    let mut once = ObstacleConfig::default();
    score_increases_difficulty(&mut once, &Score(42), true);
    let mut twice = once;
    score_increases_difficulty(&mut twice, &Score(42), true);
    assert_eq!(once, twice);
    assert_eq!(once, config(608, -142, 142, 100));
}

#[test]
fn difficulty_update_does_not_depend_on_what_was_there() {
    let mut from_default = ObstacleConfig::default();
    let mut from_hard = ObstacleConfig::for_score(1000);
    score_increases_difficulty(&mut from_default, &Score(5), true);
    score_increases_difficulty(&mut from_hard, &Score(5), true);
    assert_eq!(from_default, from_hard);
    assert_eq!(from_default, config(645, -105, 105, 120));
}
