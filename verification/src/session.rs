//! The session state machine, and the tick that drives the game.
//!
//! A [`Game`] holds the pause flag and the camera, which outlast sessions, and
//! the [`World`] of the session under way, which exists exactly while the
//! state is [`GameState::Running`]. The caller drives the game in two calls
//! per frame. [`Game::handle_input`] reads the player's commands before the
//! solver steps; [`Game::tick`] reads what the solver observed after its
//! step. Each hands back the actions that the caller has to carry out.

use vstd::prelude::*;
use crate::bird::{end_on_bird_leaves_screen, jump_impulse, jump_on_space, out_of_bounds};
use crate::camera::{camera_follows_bird, reset_camera, setup_camera, Camera};
use crate::collision::{count_sensor_begins, law_score_counts_each_begin_once, ContactEvent};
use crate::difficulty::{difficulty_curve, law_curve_respects_floors_and_caps};
use crate::obstacles::{law_reclamation_idempotent, Obstacle};
use crate::state::{
    is_paused, pause_after, time_scale_for, toggle_pause, GameState, PauseState,
};
use crate::world::{
    fresh_world, law_world_step_keeps_invariant, no_actions, only_transition, score_fits,
    step_spawned, world_actions, world_step, Observation, ObservationView, TickActions,
    TickActionsView, World, WorldView,
};

verus! {

/// The player's commands of one frame. Each is true in the one frame in which
/// its key went down, however long the key is held.
#[derive(Clone, Copy, Debug, PartialEq, Eq, Structural)]
pub struct Input {
    /// The pause command.
    pub toggle_pause: bool,
    /// The jump command.
    pub jump: bool,
}

/// What the caller has to do after the commands have been read.
#[derive(Clone, Copy, Debug, PartialEq, Eq, Structural)]
pub struct InputActions {
    /// The time scale to give the solver, when the pause flag has changed.
    pub time_scale: Option<u32>,
    /// The upward impulse to give the flyer, if it jumps. Its vertical
    /// velocity is cleared first.
    pub jump: Option<i64>,
}

/// The game: the pause flag and the camera, and the world of the session
/// under way, if one is.
pub struct Game {
    pause_state: PauseState,
    camera: Camera,
    world: Option<World>,
}

/// A [`Game`] as the contracts read it.
pub struct GameView {
    pub pause_state: PauseState,
    pub camera: Camera,
    pub world: Option<WorldView>,
}

impl GameView {
    /// The invariant of the game: while a session is running its world is
    /// well formed and the camera is where the flyer is.
    pub open spec fn wf(self) -> bool {
        self.world matches Some(world) ==> world.wf() && self.camera.x == world.bird.x
    }

    /// The state of the session: running exactly while there is a world.
    pub open spec fn state(self) -> GameState {
        if self.world.is_some() {
            GameState::Running
        } else {
            GameState::Ended
        }
    }
}

/// The game as it starts: not paused, the camera at the origin, and a fresh
/// session running.
pub open spec fn fresh_game() -> GameView {
    GameView {
        pause_state: PauseState(false),
        camera: Camera { x: 0 },
        world: Some(fresh_world()),
    }
}

/// The game after the player's commands have been read: only the pause flag
/// can have changed.
pub open spec fn game_after_input(game: GameView, input: Input) -> GameView {
    GameView {
        pause_state: PauseState(pause_after(game.pause_state.0, input.toggle_pause)),
        camera: game.camera,
        world: game.world,
    }
}

/// The game once a new session has taken the place of one that has ended:
/// the camera is back at the origin and the world is fresh. The pause flag
/// outlasts the session.
pub open spec fn game_restarted(game: GameView) -> GameView {
    GameView {
        pause_state: game.pause_state,
        camera: Camera { x: 0 },
        world: Some(fresh_world()),
    }
}

/// What the player's commands ask of the caller. The pause command is read
/// first; the flyer jumps if the jump command was given, a session is running,
/// the game is not paused, and the flyer is alive.
pub open spec fn input_actions(game: GameView, input: Input) -> InputActions {
    InputActions {
        time_scale: if input.toggle_pause {
            Some(time_scale_for(!game.pause_state.0))
        } else {
            None
        },
        jump: match game.world {
            Some(world) => if pause_after(game.pause_state.0, input.toggle_pause) {
                None
            } else {
                jump_impulse(world.bird, input.jump)
            },
            None => None,
        },
    }
}

/// What a tick demands of the game and the observation: where it will score,
/// the score can take the points.
pub open spec fn tick_allowed(game: GameView, obs: ObservationView) -> bool {
    game.world matches Some(world) ==> game.pause_state.0 || score_fits(world, obs.events)
}

/// The game after one tick.
///
/// With no session running, a new one begins: the camera returns to the
/// origin and the world is fresh, whatever came before. While the game is
/// paused, nothing changes. Otherwise the world takes its step and the camera
/// follows the flyer; if the flyer has then left the play field, the session
/// ends and its world is gone.
pub open spec fn game_after_tick(game: GameView, obs: ObservationView, sample: u32) -> GameView {
    match game.world {
        None => game_restarted(game),
        Some(world) => if game.pause_state.0 {
            game
        } else {
            GameView {
                pause_state: game.pause_state,
                camera: Camera { x: obs.bird_x },
                world: if out_of_bounds(obs.bird_y as int) {
                    None
                } else {
                    Some(world_step(world, obs, sample))
                },
            }
        },
    }
}

/// The change of state that one tick brings about, if any.
pub open spec fn tick_transition(game: GameView, obs: ObservationView) -> Option<GameState> {
    match game.world {
        None => Some(GameState::Running),
        Some(_) => if !game.pause_state.0 && out_of_bounds(obs.bird_y as int) {
            Some(GameState::Ended)
        } else {
            None
        },
    }
}

/// The actions that one tick asks for.
pub open spec fn tick_actions(game: GameView, obs: ObservationView, sample: u32)
    -> TickActionsView {
    match game.world {
        Some(world) if !game.pause_state.0 => {
            let actions = world_actions(world, obs, sample);
            TickActionsView {
                strip_collisions: actions.strip_collisions,
                spawned_obstacle: actions.spawned_obstacle,
                reclaimed_obstacles: actions.reclaimed_obstacles,
                spawned_tile: actions.spawned_tile,
                reclaimed_tiles: actions.reclaimed_tiles,
                entered: tick_transition(game, obs),
            }
        },
        _ => only_transition(tick_transition(game, obs)),
    }
}

impl View for Game {
    type V = GameView;

    closed spec fn view(&self) -> GameView {
        GameView {
            pause_state: self.pause_state,
            camera: self.camera,
            world: match self.world {
                Some(world) => Some(world@),
                None => None,
            },
        }
    }
}

impl Game {
    #[verifier::type_invariant]
    spec fn inv(&self) -> bool {
        self@.wf()
    }

    /// The game as it starts.
    pub fn new() -> (game: Game)
        ensures
            game@ == fresh_game(),
            game@.wf(),
    {
        Game { pause_state: PauseState(false), camera: setup_camera(), world: Some(World::new()) }
    }

    /// The state of the session.
    pub fn state(&self) -> (state: GameState)
        ensures
            state == self@.state(),
    {
        if self.world.is_some() {
            GameState::Running
        } else {
            GameState::Ended
        }
    }

    /// Whether the game is paused.
    pub fn is_paused(&self) -> (paused: bool)
        ensures
            paused == self@.pause_state.0,
    {
        is_paused(&self.pause_state)
    }

    /// The camera.
    pub fn camera(&self) -> (camera: Camera)
        ensures
            camera == self@.camera,
    {
        self.camera
    }

    /// The world of the session under way, if one is.
    pub fn world(&self) -> (world: Option<&World>)
        ensures
            self@.world == match world {
                Some(world) => Some(world@),
                None => None,
            },
            self@.wf(),
    {
        proof {
            use_type_invariant(self);
        }
        self.world.as_ref()
    }

    /// Whether [`Game::tick`] may be called with this observation.
    pub fn can_tick(&self, obs: &Observation) -> (allowed: bool)
        ensures
            allowed == tick_allowed(self@, obs@),
    {
        match &self.world {
            Some(world) => self.pause_state.0 || world.score_has_room(&obs.events),
            None => true,
        }
    }

    /// Reads the player's commands of one frame, before the solver steps.
    /// The pause command flips the pause flag, in any state; the jump command
    /// makes a living flyer jump while a session is running and the game is
    /// not paused. Neither changes the world or the state of the session.
    pub fn handle_input(&mut self, input: &Input) -> (actions: InputActions)
        ensures
            final(self)@ == game_after_input(old(self)@, *input),
            actions == input_actions(old(self)@, *input),
            final(self)@.wf(),
    {
        proof {
            use_type_invariant(&*self);
        }
        let mut pause_state = self.pause_state;
        let time_scale = toggle_pause(&mut pause_state, input.toggle_pause);
        self.pause_state = pause_state;
        let jump = match &self.world {
            Some(world) => if self.pause_state.0 {
                None
            } else {
                jump_on_space(world.bird(), input.jump)
            },
            None => None,
        };
        InputActions { time_scale, jump }
    }

    /// Starts a new session if none is running, and says whether it did. A
    /// session that is running is left alone.
    pub fn restart(&mut self) -> (restarted: bool)
        ensures
            restarted == old(self)@.world.is_none(),
            final(self)@ == if restarted {
                game_restarted(old(self)@)
            } else {
                old(self)@
            },
            final(self)@.wf(),
    {
        proof {
            use_type_invariant(&*self);
        }
        if self.world.is_some() {
            return false;
        }
        let mut camera = self.camera;
        reset_camera(&mut camera);
        self.camera = camera;
        self.world = Some(World::new());
        true
    }

    /// One tick. With `given` the ring of a new obstacle is placed by that
    /// sample; without it the spawner draws one.
    fn advance(&mut self, obs: &Observation, given: Option<u32>) -> (actions: TickActions)
        requires
            tick_allowed(old(self)@, obs@),
        ensures
            final(self)@.wf(),
            exists|sample: u32|
                {
                    &&& given matches Some(s) ==> sample == s
                    &&& final(self)@ == #[trigger] game_after_tick(old(self)@, obs@, sample)
                    &&& actions@ == tick_actions(old(self)@, obs@, sample)
                },
    {
        proof {
            use_type_invariant(&*self);
        }
        let ghost any: u32 = match given {
            Some(sample) => sample,
            None => 0,
        };
        if self.restart() {
            let actions = TickActions::only(Some(GameState::Running));
            assert(self@ == game_after_tick(old(self)@, obs@, any));
            assert(actions@ == tick_actions(old(self)@, obs@, any));
            return actions;
        }
        if self.pause_state.0 {
            let actions = TickActions::only(None);
            assert(self@ == game_after_tick(old(self)@, obs@, any));
            assert(actions@ == tick_actions(old(self)@, obs@, any));
            return actions;
        }
        let mut running: Option<World> = None;
        core::mem::swap(&mut self.world, &mut running);
        let world = running.unwrap();
        let ghost before = world@;
        let (next, mut actions) = world.step(obs, given);
        let ghost sample: u32 = choose|sample: u32|
            {
                &&& given matches Some(s) ==> sample == s
                &&& next@ == #[trigger] world_step(before, obs@, sample)
                &&& actions@ == world_actions(before, obs@, sample)
            };
        let mut camera = self.camera;
        camera_follows_bird(&mut camera, next.bird());
        self.camera = camera;
        actions.entered = end_on_bird_leaves_screen(next.bird());
        if actions.entered.is_none() {
            self.world = Some(next);
        }
        assert(self@ == game_after_tick(old(self)@, obs@, sample));
        assert(actions@ == tick_actions(old(self)@, obs@, sample));
        actions
    }

    /// One tick, after the solver has stepped, for a given sample.
    ///
    /// With no session running a new one begins. While the game is paused
    /// nothing happens. Otherwise the observation is taken in, in a fixed
    /// order: contacts are read, the difficulty follows the score, the world
    /// is regenerated around the flyer, and at last the session ends if the
    /// flyer has left the play field. The sample places the ring of the
    /// obstacle that the spawner creates, if it creates one.
    pub fn tick_with(&mut self, obs: &Observation, sample: u32) -> (actions: TickActions)
        requires
            tick_allowed(old(self)@, obs@),
        ensures
            final(self)@ == game_after_tick(old(self)@, obs@, sample),
            actions@ == tick_actions(old(self)@, obs@, sample),
            final(self)@.wf(),
    {
        self.advance(obs, Some(sample))
    }

    /// One tick, after the solver has stepped. It does what
    /// [`Game::tick_with`] does, with a sample that the spawner draws itself
    /// when it places an obstacle.
    ///
    /// Only the height of a new ring's centre depends on the draw: the state
    /// of the session, the score, the flyer, the camera, the positions of all
    /// obstacles and tiles and every action but the new obstacle's ring centre
    /// are the same for every sample.
    pub fn tick(&mut self, obs: &Observation) -> (actions: TickActions)
        requires
            tick_allowed(old(self)@, obs@),
        ensures
            exists|sample: u32|
                {
                    &&& final(self)@ == #[trigger] game_after_tick(old(self)@, obs@, sample)
                    &&& actions@ == tick_actions(old(self)@, obs@, sample)
                },
            final(self)@.wf(),
            actions@.entered == tick_transition(old(self)@, obs@),
    {
        self.advance(obs, None)
    }
}

/// One tick as the laws read it: what the solver observed, and the sample
/// that was drawn.
pub struct Frame {
    pub obs: ObservationView,
    pub sample: u32,
}

/// The game after a sequence of ticks, the first frame first.
pub open spec fn game_after_ticks(game: GameView, frames: Seq<Frame>) -> GameView
    decreases frames.len(),
{
    if frames.len() == 0 {
        game
    } else {
        game_after_tick(
            game_after_ticks(game, frames.drop_last()),
            frames.last().obs,
            frames.last().sample,
        )
    }
}

/// The number of sensor crossings that begin in a sequence of ticks.
pub open spec fn begins_in(frames: Seq<Frame>) -> nat
    decreases frames.len(),
{
    if frames.len() == 0 {
        0
    } else {
        begins_in(frames.drop_last()) + count_sensor_begins(frames.last().obs.events)
    }
}

/// In none of the ticks has the flyer left the play field.
pub open spec fn flyer_stays_in_bounds(frames: Seq<Frame>) -> bool {
    forall|i: int|
        0 <= i < frames.len() ==> !out_of_bounds((#[trigger] frames[i]).obs.bird_y as int)
}

/// A tick keeps the invariant of the game.
pub proof fn law_tick_keeps_invariant(game: GameView, obs: ObservationView, sample: u32)
    requires
        game.wf(),
        tick_allowed(game, obs),
    ensures
        game_after_tick(game, obs, sample).wf(),
{
    if let Some(world) = game.world {
        if !game.pause_state.0 {
            law_world_step_keeps_invariant(world, obs, sample);
        }
    }
    law_curve_respects_floors_and_caps(0);
}

/// The transitions of the session. A session that is not running starts with
/// the next tick, whatever is observed. A running session ends in a tick
/// exactly if the game is not paused and the flyer has left the play field:
/// contacts, however many and of whatever class, end nothing by themselves, so
/// one death ends the session once. A paused tick changes nothing at all.
pub proof fn law_transitions(game: GameView, obs: ObservationView, sample: u32)
    ensures
        game.state() == GameState::Ended ==> game_after_tick(game, obs, sample).state()
            == GameState::Running,
        game.state() == GameState::Running ==> (game_after_tick(game, obs, sample).state()
            == GameState::Ended <==> !game.pause_state.0 && out_of_bounds(obs.bird_y as int)),
        game.state() == GameState::Running && game.pause_state.0 ==> game_after_tick(
            game,
            obs,
            sample,
        ) == game && tick_actions(game, obs, sample) == no_actions(),
        tick_actions(game, obs, sample).entered == tick_transition(game, obs),
        tick_transition(game, obs) == if game.state() != game_after_tick(
            game,
            obs,
            sample,
        ).state() {
            Some(game_after_tick(game, obs, sample).state())
        } else {
            None::<GameState>
        },
{
}

/// Restart is total. After the tick that follows the end of a session, a new
/// session is running with no points, the default difficulty, a living flyer
/// at the origin, the camera at the origin, and no obstacle or background
/// tile: nothing of the session before is left, and nothing of it has any
/// influence on the new one.
pub proof fn law_restart_is_total(
    game: GameView,
    other: GameView,
    obs: ObservationView,
    sample: u32,
)
    requires
        game.state() == GameState::Ended,
        other.state() == GameState::Ended,
    ensures
        game_after_tick(game, obs, sample).state() == GameState::Running,
        game_after_tick(game, obs, sample).world == Some(fresh_world()),
        game_after_tick(game, obs, sample).camera.x == 0,
        game_after_tick(game, obs, sample).pause_state == game.pause_state,
        game_after_tick(game, obs, sample).world == game_after_tick(other, obs, sample).world,
        fresh_world().score.0 == 0,
        fresh_world().bird.alive,
        fresh_world().bird.x == 0 && fresh_world().bird.y == 0,
        fresh_world().obstacles.len() == 0,
        fresh_world().backgrounds.len() == 0,
        fresh_world().obstacle_config == difficulty_curve(0),
        fresh_world().wf(),
        tick_actions(game, obs, sample).entered == Some(GameState::Running),
{
    law_curve_respects_floors_and_caps(0);
}

/// When a session ends, everything that belonged to it is gone: no flyer, no
/// score, no difficulty, no obstacle and no background tile can be reached
/// from the game.
pub proof fn law_end_releases_everything(game: GameView, obs: ObservationView, sample: u32)
    requires
        game.state() == GameState::Running,
        !game.pause_state.0,
        out_of_bounds(obs.bird_y as int),
    ensures
        game_after_tick(game, obs, sample).world.is_none(),
        tick_actions(game, obs, sample).entered == Some(GameState::Ended),
{
}

/// Pausing is no transition: reading the player's commands leaves the world
/// and the state of the session as they are, and the pause flag changes
/// exactly when the pause command was given.
pub proof fn law_pause_is_no_transition(game: GameView, input: Input)
    ensures
        game_after_input(game, input).world == game.world,
        game_after_input(game, input).state() == game.state(),
        game_after_input(game, input).camera == game.camera,
        game_after_input(game, input).pause_state.0 == (game.pause_state.0
            != input.toggle_pause),
        game.wf() ==> game_after_input(game, input).wf(),
{
}

/// A dead flyer answers no command: once the flyer is dead, no input makes it
/// jump.
pub proof fn law_dead_flyer_never_jumps(game: GameView, input: Input)
    requires
        game.world matches Some(world) ==> !world.bird.alive,
    ensures
        input_actions(game, input).jump.is_none(),
{
}

/// Within a tick the score rises by exactly the number of sensor crossings
/// that begin in it: it never falls, and never rises by more than the number
/// of the tick's events.
pub proof fn law_tick_scores_begins(game: GameView, obs: ObservationView, sample: u32)
    requires
        game.world is Some,
        game_after_tick(game, obs, sample).world is Some,
        tick_allowed(game, obs),
    ensures
        game_after_tick(game, obs, sample).world->0.score.0 == game.world->0.score.0
            + if game.pause_state.0 {
            0
        } else {
            count_sensor_begins(obs.events) as int
        },
        game_after_tick(game, obs, sample).world->0.score.0 >= game.world->0.score.0,
        game_after_tick(game, obs, sample).world->0.score.0 <= game.world->0.score.0
            + obs.events.len(),
{
    law_score_counts_each_begin_once(obs.events, ContactEvent::SensorEnd);
}

/// Reclamation is idempotent across ticks: when the flyer has not moved
/// since the last tick, the next tick reclaims no obstacle, whatever else it
/// observes.
pub proof fn law_second_tick_reclaims_nothing(
    game: GameView,
    first: Frame,
    second: Frame,
)
    requires
        game.world is Some,
        !game.pause_state.0,
        !out_of_bounds(first.obs.bird_y as int),
        second.obs.bird_x == first.obs.bird_x,
    ensures
        tick_actions(
            game_after_tick(game, first.obs, first.sample),
            second.obs,
            second.sample,
        ).reclaimed_obstacles == Seq::<Obstacle>::empty(),
{
    let world = game.world->0;
    law_reclamation_idempotent(
        step_spawned(world, first.obs, first.sample),
        first.obs.bird_x as int,
    );
}

/// Over any sequence of ticks in which the flyer stays in the play field, the
/// session goes on, its invariant holds, and the score has risen by exactly
/// the number of sensor crossings that began: one point for each, and none
/// lost.
pub proof fn law_score_over_ticks(game: GameView, frames: Seq<Frame>)
    requires
        game.wf(),
        game.world is Some,
        !game.pause_state.0,
        flyer_stays_in_bounds(frames),
        game.world->0.score.0 + begins_in(frames) <= u32::MAX,
    ensures
        game_after_ticks(game, frames).wf(),
        game_after_ticks(game, frames).world is Some,
        !game_after_ticks(game, frames).pause_state.0,
        game_after_ticks(game, frames).world->0.score.0 == game.world->0.score.0 + begins_in(
            frames,
        ),
        game_after_ticks(game, frames).world->0.score.0 >= game.world->0.score.0,
    decreases frames.len(),
{
    if frames.len() > 0 {
        let earlier = frames.drop_last();
        assert forall|i: int| 0 <= i < earlier.len() implies !out_of_bounds(
            (#[trigger] earlier[i]).obs.bird_y as int,
        ) by {
            assert(earlier[i] == frames[i]);
        }
        law_score_over_ticks(game, earlier);
        let before = game_after_ticks(game, earlier);
        let last = frames[frames.len() - 1];
        law_tick_keeps_invariant(before, last.obs, last.sample);
    }
}

} // verus!
