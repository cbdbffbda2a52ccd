//! Obstacles: where the next one is placed, and when one is reclaimed.
//!
//! An obstacle is a ring that the flyer has to pass through: a solid wall at
//! its top, one at its bottom, and a scoring sensor from one to the other.
//! The spawner places rings ahead of the flyer, just beyond the right screen
//! edge, and never closer to the newest ring than the current spacing allows.
//! Rings that have fallen behind the left screen edge are reclaimed.

use vstd::prelude::*;
use crate::difficulty::{
    MidRange, ObstacleConfig, DEFAULT_Y_MID_OFFSET, Y_MID_OFFSET_FLOOR, Y_MID_RANGE_CAP,
};
use crate::filtering::{
    lemma_filter_excluded, lemma_filter_keeps_order, lemma_filter_partition, lemma_filter_twice,
};
use crate::random::random_sample;
use crate::screen::HALF_SCREEN_WIDTH;

verus! {

/// How far beyond the right screen edge a new obstacle is placed.
pub const SPAWN_LOOKAHEAD: i64 = 50;

/// How far beyond the left screen edge an obstacle must be to be reclaimed.
pub const DESPAWN_MARGIN: i64 = 50;

/// Width of an obstacle as it is drawn.
pub const OBSTACLE_WIDTH: i64 = 82;

/// A wall's half-width is the obstacle's width divided by this.
pub const WALL_WIDTH_DIVISOR: i64 = 5;

/// Half-height of each of the two walls.
pub const WALL_HALF_HEIGHT: i64 = 15;

/// Half-width of the scoring sensor.
pub const SENSOR_HALF_WIDTH: i64 = 10;

/// The number of values that a sample can take: samples are read as the
/// fraction `sample / SAMPLE_SPAN` of the unit interval.
pub const SAMPLE_SPAN: u64 = 0x1_0000_0000;

/// A ring in the flyer's path.
#[derive(Clone, Copy, Debug, PartialEq, Eq, Structural)]
pub struct Obstacle {
    /// Horizontal position, fixed when the obstacle is placed. No two
    /// obstacles of a session share it.
    pub spawn_x: i64,
    /// Height of the ring's centre.
    pub y_mid: i64,
    /// Half-height of the ring, as the difficulty curve gave it when the
    /// obstacle was placed.
    pub y_mid_offset: i64,
}

/// One of the three boxes that an obstacle is made of, placed relative to the
/// ring's centre.
#[derive(Clone, Copy, Debug, PartialEq, Eq, Structural)]
pub struct ObstaclePart {
    /// Height of the box's centre above the ring's centre.
    pub offset_y: i64,
    /// Half of the box's height.
    pub half_height: i64,
    /// Whether the box only reports overlaps (the sensor) or is solid (a wall).
    pub sensor: bool,
}

impl Obstacle {
    /// The ring is one that the difficulty curve can produce: its half-height
    /// lies between the floor and the default, its centre within the cap.
    pub open spec fn wf(self) -> bool {
        &&& Y_MID_OFFSET_FLOOR <= self.y_mid_offset <= DEFAULT_Y_MID_OFFSET
        &&& -Y_MID_RANGE_CAP <= self.y_mid <= Y_MID_RANGE_CAP
    }

    /// Whether the obstacle is well formed.
    pub fn is_wf(&self) -> (ok: bool)
        ensures
            ok == self.wf(),
    {
        Y_MID_OFFSET_FLOOR <= self.y_mid_offset && self.y_mid_offset <= DEFAULT_Y_MID_OFFSET
            && -Y_MID_RANGE_CAP <= self.y_mid && self.y_mid <= Y_MID_RANGE_CAP
    }

    /// The solid wall that closes the ring from above: its upper edge is the
    /// ring's upper end.
    pub fn upper_wall(&self) -> (part: ObstaclePart)
        requires
            self.wf(),
        ensures
            part.offset_y == self.y_mid_offset - WALL_HALF_HEIGHT,
            part.half_height == WALL_HALF_HEIGHT,
            !part.sensor,
    {
        ObstaclePart {
            offset_y: self.y_mid_offset - WALL_HALF_HEIGHT,
            half_height: WALL_HALF_HEIGHT,
            sensor: false,
        }
    }

    /// The solid wall that closes the ring from below: its lower edge is the
    /// ring's lower end.
    pub fn lower_wall(&self) -> (part: ObstaclePart)
        requires
            self.wf(),
        ensures
            part.offset_y == WALL_HALF_HEIGHT - self.y_mid_offset,
            part.half_height == WALL_HALF_HEIGHT,
            !part.sensor,
    {
        ObstaclePart {
            offset_y: WALL_HALF_HEIGHT - self.y_mid_offset,
            half_height: WALL_HALF_HEIGHT,
            sensor: false,
        }
    }

    /// The scoring sensor: it is centred on the ring and spans its whole
    /// height.
    pub fn sensor(&self) -> (part: ObstaclePart)
        ensures
            part.offset_y == 0,
            part.half_height == self.y_mid_offset,
            part.sensor,
    {
        ObstaclePart { offset_y: 0, half_height: self.y_mid_offset, sensor: true }
    }

    /// Height of the ring as it is drawn: twice its half-height.
    pub fn sprite_height(&self) -> (height: i64)
        requires
            self.wf(),
        ensures
            height == 2 * self.y_mid_offset,
    {
        2 * self.y_mid_offset
    }
}

/// Where an obstacle is placed when the flyer is at `bird_x`: beyond the right
/// screen edge by the lookahead margin.
pub open spec fn spawn_position(bird_x: int) -> int {
    bird_x + HALF_SCREEN_WIDTH + SPAWN_LOOKAHEAD
}

/// The line behind the flyer at `bird_x` beyond which obstacles are
/// reclaimed: the left screen edge, less the margin.
pub open spec fn despawn_line(bird_x: int) -> int {
    bird_x - HALF_SCREEN_WIDTH - DESPAWN_MARGIN
}

/// `x` is the greatest horizontal position among `obstacles`.
pub open spec fn is_max_obstacle_x(obstacles: Seq<Obstacle>, x: int) -> bool {
    &&& exists|i: int| 0 <= i < obstacles.len() && #[trigger] obstacles[i].spawn_x == x
    &&& forall|i: int| 0 <= i < obstacles.len() ==> #[trigger] obstacles[i].spawn_x <= x
}

/// There is room for a new obstacle: placed for a flyer at `bird_x`, it would
/// lie at least `min_x_between` beyond every obstacle there is. With no
/// obstacle there is always room.
pub open spec fn room_for_obstacle(obstacles: Seq<Obstacle>, bird_x: int, min_x_between: int)
    -> bool {
    forall|i: int|
        0 <= i < obstacles.len() ==> spawn_position(bird_x) - #[trigger] obstacles[i].spawn_x
            >= min_x_between
}

/// The number of heights in a band, both ends counted.
pub open spec fn band_size(range: MidRange) -> int {
    range.high - range.low + 1
}

/// The height that a sample picks out of a band: the sample, read as a
/// fraction of the unit interval, scaled to the number of heights in the band
/// and rounded down. The least sample picks the band's lower end, the
/// greatest its upper end.
pub open spec fn ring_center(range: MidRange, sample: u32) -> int {
    range.low + (sample * band_size(range)) / (SAMPLE_SPAN as int)
}

/// The obstacle that is placed for a flyer at `bird_x` under `config` when
/// `sample` is drawn.
pub open spec fn new_obstacle(bird_x: int, config: ObstacleConfig, sample: u32) -> Obstacle {
    Obstacle {
        spawn_x: spawn_position(bird_x) as i64,
        y_mid: ring_center(config.y_mid_range, sample) as i64,
        y_mid_offset: config.y_mid_offset,
    }
}

/// What the spawner decides: the obstacle to place, if there is room for one.
pub open spec fn spawn_outcome(
    obstacles: Seq<Obstacle>,
    bird_x: int,
    config: ObstacleConfig,
    sample: u32,
) -> Option<Obstacle> {
    if room_for_obstacle(obstacles, bird_x, config.min_x_between as int) {
        Some(new_obstacle(bird_x, config, sample))
    } else {
        None
    }
}

/// The obstacles after the spawner has run: the new one, if any, comes last.
pub open spec fn obstacles_after_spawn(
    obstacles: Seq<Obstacle>,
    bird_x: int,
    config: ObstacleConfig,
    sample: u32,
) -> Seq<Obstacle> {
    match spawn_outcome(obstacles, bird_x, config, sample) {
        Some(obstacle) => obstacles.push(obstacle),
        None => obstacles,
    }
}

/// The obstacles that stay when the flyer is at `bird_x`: those on or ahead of
/// the despawn line, in their order.
pub open spec fn obstacles_kept(obstacles: Seq<Obstacle>, bird_x: int) -> Seq<Obstacle> {
    obstacles.filter(|o: Obstacle| o.spawn_x >= despawn_line(bird_x))
}

/// The obstacles that are reclaimed when the flyer is at `bird_x`: those
/// behind the despawn line, in their order.
pub open spec fn obstacles_reclaimed(obstacles: Seq<Obstacle>, bird_x: int) -> Seq<Obstacle> {
    obstacles.filter(|o: Obstacle| o.spawn_x < despawn_line(bird_x))
}

/// Every obstacle lies at least `gap` beyond each one before it.
pub open spec fn spaced(obstacles: Seq<Obstacle>, gap: int) -> bool {
    forall|i: int, j: int|
        0 <= i < j < obstacles.len() ==> (#[trigger] obstacles[j]).spawn_x
            - (#[trigger] obstacles[i]).spawn_x >= gap
}

/// Every obstacle is well formed.
pub open spec fn all_wf(obstacles: Seq<Obstacle>) -> bool {
    forall|i: int| 0 <= i < obstacles.len() ==> (#[trigger] obstacles[i]).wf()
}

/// The greatest horizontal position among the obstacles, if there is any
/// obstacle.
pub fn max_obstacle_x(obstacles: &Vec<Obstacle>) -> (max_x: Option<i64>)
    ensures
        match max_x {
            Some(x) => is_max_obstacle_x(obstacles@, x as int),
            None => obstacles@.len() == 0,
        },
{
    if obstacles.len() == 0 {
        return None;
    }
    let mut best: i64 = obstacles[0].spawn_x;
    let mut i: usize = 1;
    while i < obstacles.len()
        invariant
            1 <= i <= obstacles.len(),
            exists|k: int| 0 <= k < i && #[trigger] obstacles@[k].spawn_x == best,
            forall|k: int| 0 <= k < i ==> #[trigger] obstacles@[k].spawn_x <= best,
        decreases obstacles.len() - i,
    {
        if obstacles[i].spawn_x > best {
            best = obstacles[i].spawn_x;
        }
        i = i + 1;
    }
    Some(best)
}

/// Whether the spawner places an obstacle now.
pub fn should_spawn(obstacles: &Vec<Obstacle>, bird_x: i32, config: &ObstacleConfig) -> (room: bool)
    requires
        config.wf(),
    ensures
        room == room_for_obstacle(obstacles@, bird_x as int, config.min_x_between as int),
{
    let spawn_at: i64 = bird_x as i64 + HALF_SCREEN_WIDTH + SPAWN_LOOKAHEAD;
    match max_obstacle_x(obstacles) {
        None => true,
        Some(max_x) => spawn_at - config.min_x_between >= max_x,
    }
}

/// The height of a ring's centre for a given sample: within the band, and the
/// same for the same sample.
pub fn pick_ring_center(range: &MidRange, sample: u32) -> (y_mid: i64)
    requires
        -Y_MID_RANGE_CAP <= range.low <= range.high <= Y_MID_RANGE_CAP,
    ensures
        y_mid == ring_center(*range, sample),
        range.low <= y_mid <= range.high,
{
    let heights: u64 = (range.high - range.low + 1) as u64;
    assert(sample as u64 * heights <= 0xffff_ffff * 401) by (nonlinear_arith)
        requires
            0 < heights <= 401,
            0 <= sample <= 0xffff_ffff,
    ;
    let scaled: u64 = sample as u64 * heights;
    proof {
        lemma_scaled_sample_in_band(sample, heights as int);
    }
    range.low + (scaled / SAMPLE_SPAN) as i64
}

/// A sample scaled to a number of heights and rounded down is one of the
/// heights, counted from zero.
proof fn lemma_scaled_sample_in_band(sample: u32, heights: int)
    requires
        0 < heights,
    ensures
        0 <= (sample * heights) / (SAMPLE_SPAN as int) < heights,
{
    assert(0 <= (sample * heights) / 0x1_0000_0000 < heights) by (nonlinear_arith)
        requires
            0 <= sample < 0x1_0000_0000,
            0 < heights,
    ;
}

/// Places an obstacle for a flyer at `bird_x`, with its ring where `sample`
/// puts it. The caller has found that there is room.
fn push_obstacle(
    obstacles: &mut Vec<Obstacle>,
    bird_x: i32,
    config: &ObstacleConfig,
    sample: u32,
) -> (obstacle: Obstacle)
    requires
        config.wf(),
    ensures
        obstacle == new_obstacle(bird_x as int, *config, sample),
        obstacle.wf(),
        config.y_mid_range.low <= obstacle.y_mid <= config.y_mid_range.high,
        final(obstacles)@ == old(obstacles)@.push(obstacle),
{
    let obstacle = Obstacle {
        spawn_x: bird_x as i64 + HALF_SCREEN_WIDTH + SPAWN_LOOKAHEAD,
        y_mid: pick_ring_center(&config.y_mid_range, sample),
        y_mid_offset: config.y_mid_offset,
    };
    obstacles.push(obstacle);
    obstacle
}

/// The spawner, for a given sample: places one obstacle at the spawn position
/// if that leaves the current spacing to every obstacle there is, and does
/// nothing otherwise. The new obstacle takes its ring height from the current
/// parameters and its ring centre from the sample.
pub fn place_obstacle(
    obstacles: &mut Vec<Obstacle>,
    bird_x: i32,
    config: &ObstacleConfig,
    sample: u32,
) -> (spawned: Option<Obstacle>)
    requires
        config.wf(),
    ensures
        spawned == spawn_outcome(old(obstacles)@, bird_x as int, *config, sample),
        final(obstacles)@ == obstacles_after_spawn(old(obstacles)@, bird_x as int, *config, sample),
        spawned matches Some(obstacle) ==> {
            &&& obstacle.wf()
            &&& forall|i: int|
                0 <= i < old(obstacles)@.len() ==> obstacle.spawn_x
                    - #[trigger] old(obstacles)@[i].spawn_x >= config.min_x_between
        },
{
    if should_spawn(obstacles, bird_x, config) {
        Some(push_obstacle(obstacles, bird_x, config, sample))
    } else {
        None
    }
}

/// The spawner: decides as [`place_obstacle`] does, and draws the sample for
/// the ring's centre itself when it places an obstacle.
///
/// Whether an obstacle is placed, where it stands and how tall its ring is do
/// not depend on the draw; the ring's centre lies in the current band
/// whatever is drawn.
pub fn spawn_obstacles(
    obstacles: &mut Vec<Obstacle>,
    bird_x: i32,
    config: &ObstacleConfig,
) -> (spawned: Option<Obstacle>)
    requires
        config.wf(),
    ensures
        exists|sample: u32|
            {
                &&& spawned == #[trigger] spawn_outcome(
                    old(obstacles)@,
                    bird_x as int,
                    *config,
                    sample,
                )
                &&& final(obstacles)@ == obstacles_after_spawn(
                    old(obstacles)@,
                    bird_x as int,
                    *config,
                    sample,
                )
            },
        spawned.is_some() == room_for_obstacle(
            old(obstacles)@,
            bird_x as int,
            config.min_x_between as int,
        ),
        spawned matches Some(obstacle) ==> {
            &&& obstacle.wf()
            &&& obstacle.spawn_x == spawn_position(bird_x as int)
            &&& obstacle.y_mid_offset == config.y_mid_offset
            &&& config.y_mid_range.low <= obstacle.y_mid <= config.y_mid_range.high
            &&& final(obstacles)@ == old(obstacles)@.push(obstacle)
            &&& forall|i: int|
                0 <= i < old(obstacles)@.len() ==> obstacle.spawn_x
                    - #[trigger] old(obstacles)@[i].spawn_x >= config.min_x_between
        },
        spawned.is_none() ==> final(obstacles)@ == old(obstacles)@,
{
    if should_spawn(obstacles, bird_x, config) {
        let sample: u32 = random_sample();
        let obstacle = push_obstacle(obstacles, bird_x, config, sample);
        assert(Some(obstacle) == spawn_outcome(old(obstacles)@, bird_x as int, *config, sample));
        Some(obstacle)
    } else {
        assert(spawn_outcome(old(obstacles)@, bird_x as int, *config, 0u32).is_none());
        None
    }
}

/// Reclaims the obstacles that lie behind the despawn line of a flyer at
/// `bird_x`, and hands them back in their order. The others stay, in their
/// order.
pub fn despawn_offscreen_obstacles(obstacles: &mut Vec<Obstacle>, bird_x: i32) -> (reclaimed:
    Vec<Obstacle>)
    ensures
        final(obstacles)@ == obstacles_kept(old(obstacles)@, bird_x as int),
        reclaimed@ == obstacles_reclaimed(old(obstacles)@, bird_x as int),
{
    let despawn_from: i64 = bird_x as i64 - HALF_SCREEN_WIDTH - DESPAWN_MARGIN;
    let ghost keep = |o: Obstacle| o.spawn_x >= despawn_line(bird_x as int);
    let ghost drop = |o: Obstacle| o.spawn_x < despawn_line(bird_x as int);
    let mut kept: Vec<Obstacle> = Vec::new();
    let mut reclaimed: Vec<Obstacle> = Vec::new();
    let mut i: usize = 0;
    proof {
        assert(obstacles@.take(0) =~= Seq::<Obstacle>::empty());
        reveal(Seq::filter);
    }
    while i < obstacles.len()
        invariant
            0 <= i <= obstacles.len(),
            despawn_from == despawn_line(bird_x as int),
            obstacles@ == old(obstacles)@,
            keep == (|o: Obstacle| o.spawn_x >= despawn_line(bird_x as int)),
            drop == (|o: Obstacle| o.spawn_x < despawn_line(bird_x as int)),
            kept@ == obstacles@.take(i as int).filter(keep),
            reclaimed@ == obstacles@.take(i as int).filter(drop),
        decreases obstacles.len() - i,
    {
        let obstacle = obstacles[i];
        proof {
            let seen = obstacles@.take(i as int);
            assert(obstacles@.take(i as int + 1) =~= seen.push(obstacle));
            seen.lemma_filter_push(obstacle, keep);
            seen.lemma_filter_push(obstacle, drop);
        }
        if obstacle.spawn_x >= despawn_from {
            kept.push(obstacle);
        } else {
            reclaimed.push(obstacle);
        }
        i = i + 1;
    }
    proof {
        assert(obstacles@.take(i as int) =~= obstacles@);
    }
    *obstacles = kept;
    reclaimed
}

/// A new obstacle is well formed, whatever sample places its ring: the ring's
/// centre lies in the band it was drawn from.
pub proof fn law_new_obstacle_is_well_formed(bird_x: int, config: ObstacleConfig, sample: u32)
    requires
        config.wf(),
    ensures
        new_obstacle(bird_x, config, sample).wf(),
        config.y_mid_range.low <= ring_center(config.y_mid_range, sample)
            <= config.y_mid_range.high,
{
    lemma_scaled_sample_in_band(sample, band_size(config.y_mid_range));
}

/// No height of a band is left out: each one, from the lower end to the upper
/// end, is the centre that some sample picks.
pub proof fn law_every_height_can_be_drawn(range: MidRange, y_mid: int) -> (sample: u32)
    requires
        -Y_MID_RANGE_CAP <= range.low <= y_mid <= range.high <= Y_MID_RANGE_CAP,
    ensures
        ring_center(range, sample) == y_mid,
{
    let heights = band_size(range);
    let steps = y_mid - range.low;
    let span = SAMPLE_SPAN as int;
    let least = (steps * span + heights - 1) / heights;
    assert(0 <= least < span && steps * span <= least * heights < (steps + 1) * span)
        by (nonlinear_arith)
        requires
            0 <= steps < heights <= 401,
            span == 0x1_0000_0000,
            least == (steps * span + heights - 1) / heights,
    ;
    assert((least * heights) / span == steps) by (nonlinear_arith)
        requires
            steps * span <= least * heights < (steps + 1) * span,
            span > 0,
    ;
    least as u32
}

/// The spawner keeps obstacles apart. A new obstacle lies at least the current
/// spacing beyond every obstacle that was there, so where every obstacle lies
/// at least the current spacing beyond each one before it, that is still so
/// after the spawner has run. At most one obstacle is added, and it comes
/// last.
pub proof fn law_spawn_keeps_spacing(
    obstacles: Seq<Obstacle>,
    bird_x: int,
    config: ObstacleConfig,
    sample: u32,
)
    requires
        config.wf(),
        i32::MIN <= bird_x <= i32::MAX,
        spaced(obstacles, config.min_x_between as int),
    ensures
        spaced(
            obstacles_after_spawn(obstacles, bird_x, config, sample),
            config.min_x_between as int,
        ),
        obstacles_after_spawn(obstacles, bird_x, config, sample).len() <= obstacles.len() + 1,
        spawn_outcome(obstacles, bird_x, config, sample) matches Some(obstacle) ==> forall|i: int|
            0 <= i < obstacles.len() ==> obstacle.spawn_x - #[trigger] obstacles[i].spawn_x
                >= config.min_x_between,
{
}

/// No two obstacles that are a positive distance apart share a position: the
/// position of an obstacle names it among the obstacles of its session.
pub proof fn law_positions_name_obstacles(obstacles: Seq<Obstacle>, gap: int)
    requires
        spaced(obstacles, gap),
        gap > 0,
    ensures
        forall|i: int, j: int|
            0 <= i < obstacles.len() && 0 <= j < obstacles.len() && i != j ==> (
            #[trigger] obstacles[i]).spawn_x != (#[trigger] obstacles[j]).spawn_x,
{
    assert forall|i: int, j: int|
        0 <= i < obstacles.len() && 0 <= j < obstacles.len() && i != j implies (
    #[trigger] obstacles[i]).spawn_x != (#[trigger] obstacles[j]).spawn_x by {
        if i < j {
            assert(obstacles[j].spawn_x - obstacles[i].spawn_x >= gap);
        } else {
            assert(obstacles[i].spawn_x - obstacles[j].spawn_x >= gap);
        }
    }
}

/// Obstacles that are a given distance apart are any smaller distance apart.
pub proof fn law_spacing_weakens(obstacles: Seq<Obstacle>, gap: int, smaller: int)
    requires
        spaced(obstacles, gap),
        smaller <= gap,
    ensures
        spaced(obstacles, smaller),
{
}

/// Within a tick it does not matter whether the spawner or reclamation runs
/// first. A new obstacle lies ahead of the flyer and is never reclaimed in
/// the tick that places it, and the obstacles that are reclaimed lie too far
/// behind to stand in the way of a new one.
pub proof fn law_spawn_and_reclamation_commute(
    obstacles: Seq<Obstacle>,
    bird_x: int,
    config: ObstacleConfig,
    sample: u32,
)
    requires
        config.wf(),
        i32::MIN <= bird_x <= i32::MAX,
    ensures
        obstacles_kept(obstacles_after_spawn(obstacles, bird_x, config, sample), bird_x)
            == obstacles_after_spawn(obstacles_kept(obstacles, bird_x), bird_x, config, sample),
        obstacles_reclaimed(obstacles_after_spawn(obstacles, bird_x, config, sample), bird_x)
            == obstacles_reclaimed(obstacles, bird_x),
        spawn_outcome(obstacles_kept(obstacles, bird_x), bird_x, config, sample) == spawn_outcome(
            obstacles,
            bird_x,
            config,
            sample,
        ),
{
    let keep = |o: Obstacle| o.spawn_x >= despawn_line(bird_x);
    let drop = |o: Obstacle| o.spawn_x < despawn_line(bird_x);
    let kept = obstacles_kept(obstacles, bird_x);
    let gap = config.min_x_between as int;
    if room_for_obstacle(obstacles, bird_x, gap) {
        assert forall|i: int| 0 <= i < kept.len() implies spawn_position(bird_x) - (
        #[trigger] kept[i]).spawn_x >= gap by {
            assert(obstacles.filter(keep).contains(kept[i]));
            obstacles.lemma_filter_contains_rev(keep, kept[i]);
            let k = choose|k: int| 0 <= k < obstacles.len() && obstacles[k] == kept[i];
            assert(spawn_position(bird_x) - obstacles[k].spawn_x >= gap);
        }
    }
    if room_for_obstacle(kept, bird_x, gap) {
        assert forall|i: int| 0 <= i < obstacles.len() implies spawn_position(bird_x) - (
        #[trigger] obstacles[i]).spawn_x >= gap by {
            if keep(obstacles[i]) {
                obstacles.lemma_filter_contains(keep, i);
                let k = choose|k: int| 0 <= k < kept.len() && kept[k] == obstacles[i];
                assert(spawn_position(bird_x) - kept[k].spawn_x >= gap);
            }
        }
    }
    let obstacle = new_obstacle(bird_x, config, sample);
    obstacles.lemma_filter_push(obstacle, keep);
    obstacles.lemma_filter_push(obstacle, drop);
}

/// Reclamation keeps obstacles apart: the obstacles that stay are as far from
/// one another as they were.
pub proof fn law_reclamation_keeps_spacing(obstacles: Seq<Obstacle>, bird_x: int, gap: int)
    requires
        spaced(obstacles, gap),
    ensures
        spaced(obstacles_kept(obstacles, bird_x), gap),
{
    let keep = |o: Obstacle| o.spawn_x >= despawn_line(bird_x);
    let origin = lemma_filter_keeps_order(obstacles, keep);
    let kept = obstacles_kept(obstacles, bird_x);
    assert forall|i: int, j: int| 0 <= i < j < kept.len() implies (#[trigger] kept[j]).spawn_x - (
    #[trigger] kept[i]).spawn_x >= gap by {
        assert(obstacles[origin[i]] == kept[i]);
        assert(obstacles[origin[j]] == kept[j]);
    }
}

/// Reclamation loses nothing and invents nothing: every obstacle either stays
/// or is handed back, the ones that stay lie on or ahead of the despawn line,
/// and the ones handed back lie behind it.
pub proof fn law_reclamation_partitions(obstacles: Seq<Obstacle>, bird_x: int)
    ensures
        obstacles_kept(obstacles, bird_x).len() + obstacles_reclaimed(obstacles, bird_x).len()
            == obstacles.len(),
        forall|i: int|
            0 <= i < obstacles_kept(obstacles, bird_x).len() ==> (#[trigger] obstacles_kept(
                obstacles,
                bird_x,
            )[i]).spawn_x >= despawn_line(bird_x),
        forall|i: int|
            0 <= i < obstacles_reclaimed(obstacles, bird_x).len() ==> (
            #[trigger] obstacles_reclaimed(obstacles, bird_x)[i]).spawn_x < despawn_line(bird_x),
        forall|i: int|
            0 <= i < obstacles.len() && obstacles[i].spawn_x >= despawn_line(bird_x)
                ==> obstacles_kept(obstacles, bird_x).contains(#[trigger] obstacles[i]),
        forall|i: int|
            0 <= i < obstacles.len() && obstacles[i].spawn_x < despawn_line(bird_x)
                ==> obstacles_reclaimed(obstacles, bird_x).contains(#[trigger] obstacles[i]),
{
    let keep = |o: Obstacle| o.spawn_x >= despawn_line(bird_x);
    let drop = |o: Obstacle| o.spawn_x < despawn_line(bird_x);
    lemma_filter_partition(obstacles, keep, drop);
    broadcast use {Seq::lemma_filter_pred, Seq::lemma_filter_contains};
}

/// Reclamation is idempotent: run a second time with the flyer where it was,
/// it keeps every obstacle that the first run kept and reclaims none.
pub proof fn law_reclamation_idempotent(obstacles: Seq<Obstacle>, bird_x: int)
    ensures
        obstacles_kept(obstacles_kept(obstacles, bird_x), bird_x) == obstacles_kept(
            obstacles,
            bird_x,
        ),
        obstacles_reclaimed(obstacles_kept(obstacles, bird_x), bird_x) == Seq::<Obstacle>::empty(),
{
    let keep = |o: Obstacle| o.spawn_x >= despawn_line(bird_x);
    let drop = |o: Obstacle| o.spawn_x < despawn_line(bird_x);
    lemma_filter_twice(obstacles, keep);
    lemma_filter_excluded(obstacles, keep, drop);
}

} // verus!
