//! The world of a session: what lives while a game is being played, and the
//! step that one tick makes it take.
//!
//! The step is a function of the world, of what the solver observed, and of
//! one sample that places the ring of a new obstacle. It hands back the
//! actions that the caller has to carry out on the bodies that the solver
//! owns.

use vstd::prelude::*;
use crate::background::{
    law_tiling_keeps_tiles_apart, tile_outcome, tiles_after, tiles_apart, tiles_reclaimed,
    tiles_wf, tiling_background, BackgroundTile,
};
use crate::bird::{fresh_bird, setup_bird, Bird};
use crate::camera::{bounds_follow_bird, setup_bounds, Bounds};
use crate::collision::{
    bird_after_contacts, count_sensor_begins, hard_contact, has_hard_contact,
    interpret_contacts, sensor_begins, ContactEvent,
};
use crate::difficulty::{
    difficulty_after, difficulty_curve, law_curve_monotone, law_curve_respects_floors_and_caps,
    score_increases_difficulty, ObstacleConfig,
};
use crate::obstacles::{
    all_wf, despawn_line, despawn_offscreen_obstacles, law_reclamation_keeps_spacing,
    law_spacing_weakens, law_spawn_and_reclamation_commute, law_spawn_keeps_spacing,
    law_new_obstacle_is_well_formed, obstacles_after_spawn, obstacles_kept, obstacles_reclaimed,
    place_obstacle, spaced, spawn_obstacles, spawn_outcome, Obstacle,
};
use crate::score::Score;
use crate::screen::HALF_SCREEN_WIDTH;
use crate::state::GameState;

verus! {

/// What the solver observed in its last step.
#[derive(Debug)]
pub struct Observation {
    /// Horizontal position of the flyer.
    pub bird_x: i32,
    /// Vertical position of the flyer.
    pub bird_y: i32,
    /// The contacts of the step. They are read once and then discarded.
    pub events: Vec<ContactEvent>,
}

/// An [`Observation`] as the contracts read it.
pub struct ObservationView {
    pub bird_x: i32,
    pub bird_y: i32,
    pub events: Seq<ContactEvent>,
}

impl View for Observation {
    type V = ObservationView;

    open spec fn view(&self) -> ObservationView {
        ObservationView { bird_x: self.bird_x, bird_y: self.bird_y, events: self.events@ }
    }
}

/// What the caller has to do after a tick, in this order.
#[derive(Debug)]
pub struct TickActions {
    /// The flyer was struck: it takes no further part in collisions.
    pub strip_collisions: bool,
    /// The obstacle to create, if one was placed.
    pub spawned_obstacle: Option<Obstacle>,
    /// The obstacles to destroy, each with all its parts.
    pub reclaimed_obstacles: Vec<Obstacle>,
    /// The background tile to create, if one was laid.
    pub spawned_tile: Option<BackgroundTile>,
    /// The background tiles to destroy.
    pub reclaimed_tiles: Vec<BackgroundTile>,
    /// The state that the session has entered in this tick, if it has changed.
    /// On [`GameState::Ended`] everything that belongs to the session is
    /// destroyed; on [`GameState::Running`] the flyer and the bounds are created
    /// anew.
    pub entered: Option<GameState>,
}

/// [`TickActions`] as the contracts read them.
pub struct TickActionsView {
    pub strip_collisions: bool,
    pub spawned_obstacle: Option<Obstacle>,
    pub reclaimed_obstacles: Seq<Obstacle>,
    pub spawned_tile: Option<BackgroundTile>,
    pub reclaimed_tiles: Seq<BackgroundTile>,
    pub entered: Option<GameState>,
}

impl View for TickActions {
    type V = TickActionsView;

    open spec fn view(&self) -> TickActionsView {
        TickActionsView {
            strip_collisions: self.strip_collisions,
            spawned_obstacle: self.spawned_obstacle,
            reclaimed_obstacles: self.reclaimed_obstacles@,
            spawned_tile: self.spawned_tile,
            reclaimed_tiles: self.reclaimed_tiles@,
            entered: self.entered,
        }
    }
}

/// The actions of a tick in which nothing happens but, perhaps, a change of
/// state.
pub open spec fn only_transition(entered: Option<GameState>) -> TickActionsView {
    TickActionsView {
        strip_collisions: false,
        spawned_obstacle: None,
        reclaimed_obstacles: Seq::empty(),
        spawned_tile: None,
        reclaimed_tiles: Seq::empty(),
        entered,
    }
}

/// The actions of a tick in which nothing happens.
pub open spec fn no_actions() -> TickActionsView {
    only_transition(None)
}

impl TickActions {
    /// The actions of a tick in which nothing happens but, perhaps, a change
    /// of state.
    pub(crate) fn only(entered: Option<GameState>) -> (actions: TickActions)
        ensures
            actions@ == only_transition(entered),
    {
        TickActions {
            strip_collisions: false,
            spawned_obstacle: None,
            reclaimed_obstacles: Vec::new(),
            spawned_tile: None,
            reclaimed_tiles: Vec::new(),
            entered,
        }
    }
}

/// What lives while a session is running: the flyer, the score and the
/// difficulty that follows from it, the obstacles and background tiles in the
/// order in which they were created, and the bounds of the play field.
pub struct World {
    bird: Bird,
    score: Score,
    obstacle_config: ObstacleConfig,
    obstacles: Vec<Obstacle>,
    backgrounds: Vec<BackgroundTile>,
    bounds: Bounds,
}

/// A [`World`] as the contracts read it.
pub struct WorldView {
    pub bird: Bird,
    pub score: Score,
    pub obstacle_config: ObstacleConfig,
    pub obstacles: Seq<Obstacle>,
    pub backgrounds: Seq<BackgroundTile>,
    pub bounds: Bounds,
}

impl WorldView {
    /// The invariant of a session: the difficulty is the curve's value at the
    /// score, every obstacle is well formed and lies at least the current
    /// spacing beyond each one before it, and the background tiles are well
    /// formed and do not overlap.
    pub open spec fn wf(self) -> bool {
        &&& self.obstacle_config == difficulty_curve(self.score.0 as nat)
        &&& all_wf(self.obstacles)
        &&& spaced(self.obstacles, self.obstacle_config.min_x_between as int)
        &&& tiles_wf(self.backgrounds)
        &&& tiles_apart(self.backgrounds)
    }
}

/// The world with which every session begins: the flyer alive at the origin,
/// no points, the default difficulty, no obstacle and no background tile.
pub open spec fn fresh_world() -> WorldView {
    WorldView {
        bird: fresh_bird(),
        score: Score(0),
        obstacle_config: difficulty_curve(0),
        obstacles: Seq::empty(),
        backgrounds: Seq::empty(),
        bounds: Bounds { x: 0 },
    }
}

/// The score can take the points of these events without leaving `u32`.
pub open spec fn score_fits(world: WorldView, events: Seq<ContactEvent>) -> bool {
    world.score.0 + count_sensor_begins(events) <= u32::MAX
}

/// The difficulty in force during a tick: the curve is read again if the
/// events of the tick have changed the score.
pub open spec fn step_config(world: WorldView, events: Seq<ContactEvent>) -> ObstacleConfig {
    difficulty_after(
        world.obstacle_config,
        world.score.0 as nat + count_sensor_begins(events),
        count_sensor_begins(events) > 0,
    )
}

/// The obstacles of a tick once the spawner has run and before reclamation.
pub open spec fn step_spawned(world: WorldView, obs: ObservationView, sample: u32) -> Seq<
    Obstacle,
> {
    obstacles_after_spawn(
        world.obstacles,
        obs.bird_x as int,
        step_config(world, obs.events),
        sample,
    )
}

/// One tick of a running session. The flyer is moved to where the solver saw
/// it, and the contacts are read: crossings score, a hard contact kills. The
/// difficulty follows the score. Then the world is regenerated around the
/// flyer: the spawner runs, obstacles behind the flyer are reclaimed, the
/// background is tiled around the camera, which is where the flyer is, and
/// the bounds follow the flyer.
pub open spec fn world_step(world: WorldView, obs: ObservationView, sample: u32) -> WorldView {
    WorldView {
        bird: bird_after_contacts(
            Bird { alive: world.bird.alive, x: obs.bird_x, y: obs.bird_y },
            obs.events,
        ),
        score: Score((world.score.0 + count_sensor_begins(obs.events)) as u32),
        obstacle_config: step_config(world, obs.events),
        obstacles: obstacles_kept(step_spawned(world, obs, sample), obs.bird_x as int),
        backgrounds: tiles_after(world.backgrounds, obs.bird_x as int),
        bounds: Bounds { x: (obs.bird_x - HALF_SCREEN_WIDTH) as i64 },
    }
}

/// The actions that one tick of a running session asks for, but for the
/// change of state, which the state machine decides.
pub open spec fn world_actions(world: WorldView, obs: ObservationView, sample: u32)
    -> TickActionsView {
    TickActionsView {
        strip_collisions: has_hard_contact(obs.events),
        spawned_obstacle: spawn_outcome(
            world.obstacles,
            obs.bird_x as int,
            step_config(world, obs.events),
            sample,
        ),
        reclaimed_obstacles: obstacles_reclaimed(world.obstacles, obs.bird_x as int),
        spawned_tile: tile_outcome(world.backgrounds, obs.bird_x as int),
        reclaimed_tiles: tiles_reclaimed(world.backgrounds, obs.bird_x as int),
        entered: None,
    }
}

/// A tick keeps the invariant of the session.
pub proof fn law_world_step_keeps_invariant(world: WorldView, obs: ObservationView, sample: u32)
    requires
        world.wf(),
        score_fits(world, obs.events),
    ensures
        world_step(world, obs, sample).wf(),
{
    let after = world_step(world, obs, sample);
    let config = step_config(world, obs.events);
    law_curve_respects_floors_and_caps(after.score.0 as nat);
    law_curve_respects_floors_and_caps(world.score.0 as nat);
    let spawned = step_spawned(world, obs, sample);
    law_curve_monotone(world.score.0 as nat, after.score.0 as nat);
    law_spacing_weakens(
        world.obstacles,
        world.obstacle_config.min_x_between as int,
        config.min_x_between as int,
    );
    law_spawn_keeps_spacing(world.obstacles, obs.bird_x as int, config, sample);
    law_reclamation_keeps_spacing(spawned, obs.bird_x as int, config.min_x_between as int);
    law_tiling_keeps_tiles_apart(world.backgrounds, obs.bird_x as int);
    assert(all_wf(spawned)) by {
        assert forall|i: int| 0 <= i < spawned.len() implies (#[trigger] spawned[i]).wf() by {
            if i < world.obstacles.len() {
                assert(spawned[i] == world.obstacles[i]);
            } else {
                law_new_obstacle_is_well_formed(obs.bird_x as int, config, sample);
            }
        }
    }
    assert(all_wf(after.obstacles)) by {
        let keep = |o: Obstacle| o.spawn_x >= despawn_line(obs.bird_x as int);
        assert forall|i: int| 0 <= i < after.obstacles.len() implies (
        #[trigger] after.obstacles[i]).wf() by {
            assert(spawned.filter(keep).contains(after.obstacles[i]));
            spawned.lemma_filter_contains_rev(keep, after.obstacles[i]);
        }
    }
}

impl View for World {
    type V = WorldView;

    closed spec fn view(&self) -> WorldView {
        WorldView {
            bird: self.bird,
            score: self.score,
            obstacle_config: self.obstacle_config,
            obstacles: self.obstacles@,
            backgrounds: self.backgrounds@,
            bounds: self.bounds,
        }
    }
}

impl World {
    #[verifier::type_invariant]
    spec fn inv(&self) -> bool {
        self@.wf()
    }

    /// The world at the start of a session.
    pub fn new() -> (world: World)
        ensures
            world@ == fresh_world(),
            world@.wf(),
    {
        World {
            bird: setup_bird(),
            score: Score::default(),
            obstacle_config: ObstacleConfig::default(),
            obstacles: Vec::new(),
            backgrounds: Vec::new(),
            bounds: setup_bounds(),
        }
    }

    /// The flyer.
    pub fn bird(&self) -> (bird: &Bird)
        ensures
            *bird == self@.bird,
    {
        &self.bird
    }

    /// The score.
    pub fn score(&self) -> (score: &Score)
        ensures
            *score == self@.score,
    {
        &self.score
    }

    /// The difficulty in force: always the curve's value at the score.
    pub fn obstacle_config(&self) -> (config: &ObstacleConfig)
        ensures
            *config == self@.obstacle_config,
            *config == difficulty_curve(self@.score.0 as nat),
            config.wf(),
    {
        proof {
            use_type_invariant(self);
            law_curve_respects_floors_and_caps(self.score.0 as nat);
        }
        &self.obstacle_config
    }

    /// The obstacles, oldest first.
    pub fn obstacles(&self) -> (obstacles: &Vec<Obstacle>)
        ensures
            obstacles@ == self@.obstacles,
            all_wf(obstacles@),
            spaced(obstacles@, self@.obstacle_config.min_x_between as int),
    {
        proof {
            use_type_invariant(self);
        }
        &self.obstacles
    }

    /// The background tiles, oldest first.
    pub fn backgrounds(&self) -> (backgrounds: &Vec<BackgroundTile>)
        ensures
            backgrounds@ == self@.backgrounds,
            tiles_wf(backgrounds@),
            tiles_apart(backgrounds@),
    {
        proof {
            use_type_invariant(self);
        }
        &self.backgrounds
    }

    /// The bounds of the play field.
    pub fn bounds(&self) -> (bounds: &Bounds)
        ensures
            *bounds == self@.bounds,
    {
        &self.bounds
    }

    /// Whether the score can take the points of these events.
    pub(crate) fn score_has_room(&self, events: &Vec<ContactEvent>) -> (fits: bool)
        ensures
            fits == score_fits(self@, events@),
    {
        let begins: usize = sensor_begins(events);
        begins <= (u32::MAX - self.score.0) as usize
    }

    /// One tick of a running session. With `given` the ring of a new
    /// obstacle is placed by that sample; without it the spawner draws one.
    pub(crate) fn step(self, obs: &Observation, given: Option<u32>) -> (result: (
        World,
        TickActions,
    ))
        requires
            score_fits(self@, obs@.events),
        ensures
            result.0@.wf(),
            exists|sample: u32|
                {
                    &&& given matches Some(s) ==> sample == s
                    &&& result.0@ == #[trigger] world_step(self@, obs@, sample)
                    &&& result.1@ == world_actions(self@, obs@, sample)
                },
    {
        proof {
            use_type_invariant(&self);
            law_curve_respects_floors_and_caps(self.score.0 as nat);
            law_curve_respects_floors_and_caps(
                self.score.0 as nat + count_sensor_begins(obs@.events),
            );
        }
        let World {
            mut bird,
            mut score,
            mut obstacle_config,
            mut obstacles,
            mut backgrounds,
            mut bounds,
        } = self;

        bird.x = obs.bird_x;
        bird.y = obs.bird_y;
        let score_changed = interpret_contacts(&obs.events, &mut score, &mut bird);
        let strip_collisions = hard_contact(&obs.events);
        score_increases_difficulty(&mut obstacle_config, &score, score_changed);

        let ghost before = obstacles@;
        let spawned_obstacle = match given {
            Some(sample) => place_obstacle(&mut obstacles, bird.x, &obstacle_config, sample),
            None => spawn_obstacles(&mut obstacles, bird.x, &obstacle_config),
        };
        let ghost sample: u32 = choose|sample: u32|
            {
                &&& given matches Some(s) ==> sample == s
                &&& spawned_obstacle == #[trigger] spawn_outcome(
                    before,
                    bird.x as int,
                    obstacle_config,
                    sample,
                )
                &&& obstacles@ == obstacles_after_spawn(
                    before,
                    bird.x as int,
                    obstacle_config,
                    sample,
                )
            };
        let reclaimed_obstacles = despawn_offscreen_obstacles(&mut obstacles, bird.x);
        let (spawned_tile, reclaimed_tiles) = tiling_background(&mut backgrounds, bird.x);
        bounds_follow_bird(&mut bounds, &bird);

        proof {
            law_world_step_keeps_invariant(self@, obs@, sample);
            law_spawn_and_reclamation_commute(before, bird.x as int, obstacle_config, sample);
        }
        let world = World { bird, score, obstacle_config, obstacles, backgrounds, bounds };
        let actions = TickActions {
            strip_collisions,
            spawned_obstacle,
            reclaimed_obstacles,
            spawned_tile,
            reclaimed_tiles,
            entered: None,
        };
        proof {
            assert(world@ == world_step(self@, obs@, sample));
            assert(actions@ == world_actions(self@, obs@, sample));
        }
        (world, actions)
    }
}

} // verus!
