use bird_game::background::BackgroundTile;
use bird_game::bird::Bird;
use bird_game::camera::{Bounds, Camera};
use bird_game::collision::ContactEvent;
use bird_game::collision::ContactEvent::{HardContact, SensorBegin, SensorEnd};
use bird_game::difficulty::ObstacleConfig;
use bird_game::obstacles::Obstacle;
use bird_game::score::Score;
use bird_game::session::{Game, Input, InputActions};
use bird_game::world::{Observation, TickActions, World};
use bird_game::state::GameState;

fn seen(bird_x: i32, bird_y: i32, events: Vec<ContactEvent>) -> Observation {
    Observation { bird_x, bird_y, events }
}

fn quiet(bird_x: i32) -> Observation {
    seen(bird_x, 0, Vec::new())
}

fn world(game: &Game) -> &World {
    game.world().unwrap()
}

fn assert_nothing_happened(actions: &TickActions) {
    assert!(!actions.strip_collisions);
    assert_eq!(actions.spawned_obstacle, None);
    assert!(actions.reclaimed_obstacles.is_empty());
    assert_eq!(actions.spawned_tile, None);
    assert!(actions.reclaimed_tiles.is_empty());
    assert_eq!(actions.entered, None);
}

#[test]
fn new_game_is_a_fresh_running_session() {
    let game = Game::new();
    assert_eq!(game.state(), GameState::Running);
    assert!(!game.is_paused());
    assert_eq!(game.camera(), Camera { x: 0 });
    let w = world(&game);
    assert_eq!(*w.bird(), Bird { alive: true, x: 0, y: 0 });
    assert_eq!(*w.score(), Score(0));
    assert_eq!(*w.obstacle_config(), ObstacleConfig::default());
    assert!(w.obstacles().is_empty());
    assert!(w.backgrounds().is_empty());
    assert_eq!(*w.bounds(), Bounds { x: 0 });
}

#[test]
fn new_world_is_fresh() {
    let w = World::new();
    assert_eq!(*w.bird(), Bird { alive: true, x: 0, y: 0 });
    assert_eq!(*w.score(), Score(0));
    assert!(w.obstacles().is_empty());
    assert!(w.backgrounds().is_empty());
}

#[test]
fn first_tick_spawns_obstacle_at_690_and_tile_at_origin() {
    let mut game = Game::new();
    let obs = quiet(0);
    assert!(game.can_tick(&obs));
    let actions = game.tick_with(&obs, 1 << 31);
    let ring = Obstacle { spawn_x: 690, y_mid: 0, y_mid_offset: 125 };
    assert_eq!(actions.spawned_obstacle, Some(ring));
    assert_eq!(actions.spawned_tile, Some(BackgroundTile { x: 0 }));
    assert!(actions.reclaimed_obstacles.is_empty());
    assert!(actions.reclaimed_tiles.is_empty());
    assert!(!actions.strip_collisions);
    assert_eq!(actions.entered, None);
    assert_eq!(world(&game).obstacles(), &vec![ring]);
    assert_eq!(world(&game).backgrounds(), &vec![BackgroundTile { x: 0 }]);
    assert_eq!(*world(&game).bounds(), Bounds { x: -640 });
    assert_eq!(game.state(), GameState::Running);
}

#[test]
fn tick_with_drawn_sample_places_ring_in_band() {
    for _ in 0..50 {
        let mut game = Game::new();
        let actions = game.tick(&quiet(0));
        let ring = actions.spawned_obstacle.unwrap();
        assert_eq!(ring.spawn_x, 690);
        assert_eq!(ring.y_mid_offset, 125);
        assert!(-100 <= ring.y_mid && ring.y_mid <= 100);
        assert_eq!(world(&game).obstacles(), &vec![ring]);
        assert_eq!(actions.spawned_tile, Some(BackgroundTile { x: 0 }));
        assert_eq!(actions.entered, None);
    }
}

#[test]
fn camera_and_flyer_follow_the_observation() {
    let mut game = Game::new();
    game.tick_with(&seen(123, -45, Vec::new()), 0);
    assert_eq!(game.camera(), Camera { x: 123 });
    assert_eq!(*world(&game).bird(), Bird { alive: true, x: 123, y: -45 });
    assert_eq!(*world(&game).bounds(), Bounds { x: 123 - 640 });
}

#[test]
fn obstacles_keep_their_spacing_over_a_flight() {
    let mut game = Game::new();
    let mut x = 0;
    while x <= 6000 {
        game.tick_with(&quiet(x), (x as u32).wrapping_mul(2_654_435_761));
        x += 7;
    }
    let obstacles = world(&game).obstacles();
    assert!(obstacles.len() >= 2);
    for pair in obstacles.windows(2) {
        assert!(pair[1].spawn_x - pair[0].spawn_x >= 650);
    }
    for o in obstacles {
        assert!(o.spawn_x >= 5999 - 690);
        assert!(-100 <= o.y_mid && o.y_mid <= 100);
        assert_eq!(o.y_mid_offset, 125);
    }
    let tiles = world(&game).backgrounds();
    for pair in tiles.windows(2) {
        assert_eq!(pair[1].x - pair[0].x, 1280);
    }
    assert!(tiles.last().unwrap().x + 1280 >= 5999 + 1280);
    assert!(tiles.first().unwrap().x >= 5999 - 2560);
}

#[test]
fn exact_spawn_positions_over_a_flight() {
    let mut game = Game::new();
    let mut spawned: Vec<i64> = Vec::new();
    let mut reclaimed: Vec<i64> = Vec::new();
    let mut x = 0;
    while x <= 3000 {
        let actions = game.tick_with(&quiet(x), 0);
        spawned.extend(actions.spawned_obstacle.iter().map(|o| o.spawn_x));
        reclaimed.extend(actions.reclaimed_obstacles.iter().map(|o| o.spawn_x));
        x += 10;
    }
    assert_eq!(spawned, vec![690, 1340, 1990, 2640, 3290]);
    assert_eq!(reclaimed, vec![690, 1340, 1990]);
    let left: Vec<i64> = world(&game).obstacles().iter().map(|o| o.spawn_x).collect();
    assert_eq!(left, vec![2640, 3290]);
}

#[test]
fn crossing_scores_and_hardens_the_next_obstacle() {
    let mut game = Game::new();
    game.tick_with(&quiet(0), 0);
    let actions = game.tick_with(&seen(650, 0, vec![SensorBegin]), 0);
    assert_eq!(*world(&game).score(), Score(1));
    assert_eq!(*world(&game).obstacle_config(), ObstacleConfig::for_score(1));
    assert_eq!(
        actions.spawned_obstacle,
        Some(Obstacle { spawn_x: 1340, y_mid: -101, y_mid_offset: 124 })
    );
    game.tick_with(&seen(660, 0, vec![SensorEnd]), 0);
    assert_eq!(*world(&game).score(), Score(1));
}

#[test]
fn tighter_spacing_applies_in_the_tick_that_scores() {
    let mut game = Game::new();
    game.tick_with(&quiet(0), 0);
    let actions = game.tick_with(&seen(649, 0, vec![SensorBegin]), 0);
    assert_eq!(actions.spawned_obstacle.map(|o| o.spawn_x), Some(1339));
}

#[test]
fn score_over_ticks_counts_every_begin_once() {
    let mut game = Game::new();
    let ticks = vec![
        vec![],
        vec![SensorBegin],
        vec![SensorEnd],
        vec![SensorBegin, SensorBegin],
        vec![],
        vec![SensorEnd, SensorBegin, SensorEnd],
    ];
    let mut expected = 0;
    let mut last = 0;
    for (i, events) in ticks.into_iter().enumerate() {
        expected += events.iter().filter(|e| **e == SensorBegin).count() as u32;
        game.tick_with(&seen(i as i32, 0, events), 0);
        let score = world(&game).score().0;
        assert_eq!(score, expected);
        assert!(score >= last);
        last = score;
        assert_eq!(*world(&game).obstacle_config(), ObstacleConfig::for_score(score));
    }
    assert_eq!(last, 4);
}

#[test]
fn score_and_death_in_one_tick_either_order() {
    for events in [vec![SensorBegin, HardContact], vec![HardContact, SensorBegin]] {
        let mut game = Game::new();
        let actions = game.tick_with(&seen(5, 5, events), 0);
        assert!(actions.strip_collisions);
        assert_eq!(actions.entered, None);
        assert_eq!(*world(&game).score(), Score(1));
        assert_eq!(*world(&game).bird(), Bird { alive: false, x: 5, y: 5 });
        assert_eq!(game.state(), GameState::Running);
    }
}

#[test]
fn death_does_not_end_the_session_until_the_flyer_has_fallen_out() {
    let mut game = Game::new();
    let actions = game.tick_with(&seen(10, 0, vec![HardContact, HardContact]), 0);
    assert!(actions.strip_collisions);
    assert_eq!(game.state(), GameState::Running);
    let actions = game.tick_with(&seen(11, -200, Vec::new()), 0);
    assert!(!actions.strip_collisions);
    assert!(!world(&game).bird().alive);
    assert_eq!(game.state(), GameState::Running);
    let actions = game.tick_with(&seen(12, -411, Vec::new()), 0);
    assert_eq!(actions.entered, Some(GameState::Ended));
    assert_eq!(game.state(), GameState::Ended);
    assert!(game.world().is_none());
}

#[test]
fn dead_flyer_ignores_jump() {
    let mut game = Game::new();
    let jump = Input { toggle_pause: false, jump: true };
    assert_eq!(game.handle_input(&jump), InputActions { time_scale: None, jump: Some(50) });
    game.tick_with(&seen(0, 0, vec![HardContact]), 0);
    assert_eq!(game.handle_input(&jump), InputActions { time_scale: None, jump: None });
}

#[test]
fn no_input_no_action() {
    let mut game = Game::new();
    let idle = Input { toggle_pause: false, jump: false };
    assert_eq!(game.handle_input(&idle), InputActions { time_scale: None, jump: None });
    assert!(!game.is_paused());
}

#[test]
fn leaving_the_screen_ends_and_next_tick_restarts() {
    let mut game = Game::new();
    game.tick_with(&seen(0, 0, vec![SensorBegin, SensorBegin]), 7);
    game.tick_with(&seen(700, 100, vec![SensorBegin]), 7);
    assert_eq!(*world(&game).score(), Score(3));
    assert_eq!(world(&game).obstacles().len(), 2);

    let actions = game.tick_with(&seen(800, 411, vec![SensorBegin]), 7);
    assert_eq!(actions.entered, Some(GameState::Ended));
    assert_eq!(game.state(), GameState::Ended);
    assert!(game.world().is_none());
    assert_eq!(game.camera(), Camera { x: 800 });

    let obs = seen(900, 900, vec![SensorBegin, HardContact]);
    assert!(game.can_tick(&obs));
    let actions = game.tick_with(&obs, 7);
    assert_eq!(actions.entered, Some(GameState::Running));
    assert!(!actions.strip_collisions);
    assert_eq!(actions.spawned_obstacle, None);
    assert_eq!(actions.spawned_tile, None);
    assert!(actions.reclaimed_obstacles.is_empty());
    assert!(actions.reclaimed_tiles.is_empty());
    assert_eq!(game.state(), GameState::Running);
    assert_eq!(game.camera(), Camera { x: 0 });
    let w = world(&game);
    assert_eq!(*w.score(), Score(0));
    assert_eq!(*w.bird(), Bird { alive: true, x: 0, y: 0 });
    assert_eq!(*w.obstacle_config(), ObstacleConfig::default());
    assert!(w.obstacles().is_empty());
    assert!(w.backgrounds().is_empty());
    assert_eq!(*w.bounds(), Bounds { x: 0 });
}

#[test]
fn restart_after_death_revives_the_flyer() {
    let mut game = Game::new();
    game.tick_with(&seen(0, 0, vec![HardContact]), 0);
    game.tick_with(&seen(0, -500, Vec::new()), 0);
    assert_eq!(game.state(), GameState::Ended);
    game.tick(&quiet(0));
    assert_eq!(game.state(), GameState::Running);
    assert!(world(&game).bird().alive);
    let jump = Input { toggle_pause: false, jump: true };
    assert_eq!(game.handle_input(&jump).jump, Some(50));
}

#[test]
fn session_after_restart_plays_like_the_first() {
    let mut game = Game::new();
    game.tick_with(&seen(0, 0, vec![SensorBegin]), 3);
    game.tick_with(&seen(0, 1000, Vec::new()), 3);
    game.tick_with(&quiet(0), 3);
    let actions = game.tick_with(&quiet(0), 1 << 31);
    assert_eq!(
        actions.spawned_obstacle,
        Some(Obstacle { spawn_x: 690, y_mid: 0, y_mid_offset: 125 })
    );
    assert_eq!(actions.spawned_tile, Some(BackgroundTile { x: 0 }));
}

#[test]
fn upper_and_lower_edge_both_end_the_session() {
    for (y, ends) in [(410, false), (411, true), (-410, false), (-411, true)] {
        let mut game = Game::new();
        let actions = game.tick_with(&seen(0, y, Vec::new()), 0);
        assert_eq!(actions.entered.is_some(), ends);
        assert_eq!(game.state() == GameState::Ended, ends);
    }
}

#[test]
fn pause_freezes_the_session_without_ending_it() {
    let mut game = Game::new();
    game.tick_with(&seen(0, 0, vec![SensorBegin]), 0);
    let pause = Input { toggle_pause: true, jump: true };
    assert_eq!(game.handle_input(&pause), InputActions { time_scale: Some(0), jump: None });
    assert!(game.is_paused());
    assert_eq!(game.state(), GameState::Running);

    let obs = seen(5000, 5000, vec![SensorBegin, HardContact]);
    assert!(game.can_tick(&obs));
    let actions = game.tick_with(&obs, 9);
    assert_nothing_happened(&actions);
    assert_eq!(game.state(), GameState::Running);
    assert_eq!(game.camera(), Camera { x: 0 });
    assert_eq!(*world(&game).score(), Score(1));
    assert_eq!(*world(&game).bird(), Bird { alive: true, x: 0, y: 0 });
    assert_eq!(world(&game).obstacles().len(), 1);

    let resume = Input { toggle_pause: true, jump: true };
    assert_eq!(game.handle_input(&resume), InputActions { time_scale: Some(1), jump: Some(50) });
    assert!(!game.is_paused());
}

#[test]
fn pause_survives_restart() {
    let mut game = Game::new();
    game.tick_with(&seen(0, 999, Vec::new()), 0);
    assert_eq!(game.state(), GameState::Ended);
    let pause = Input { toggle_pause: true, jump: true };
    assert_eq!(game.handle_input(&pause), InputActions { time_scale: Some(0), jump: None });
    let actions = game.tick_with(&quiet(0), 0);
    assert_eq!(actions.entered, Some(GameState::Running));
    assert!(game.is_paused());
    assert_eq!(game.state(), GameState::Running);
    let actions = game.tick_with(&quiet(0), 0);
    assert_nothing_happened(&actions);
}

#[test]
fn reclamation_in_two_ticks_without_movement() {
    let mut game = Game::new();
    game.tick_with(&quiet(0), 0);
    let first = game.tick_with(&quiet(1400), 0);
    assert_eq!(first.reclaimed_obstacles.len(), 1);
    assert_eq!(first.reclaimed_obstacles[0].spawn_x, 690);
    let kept = world(&game).obstacles().clone();
    let second = game.tick_with(&quiet(1400), 0);
    assert!(second.reclaimed_obstacles.is_empty());
    assert_eq!(world(&game).obstacles(), &kept);
}

#[test]
fn difficulty_reaches_its_floors_in_a_long_session() {
    let mut game = Game::new();
    for _ in 0..30 {
        game.tick_with(&seen(0, 0, vec![SensorBegin; 10]), 0);
    }
    assert_eq!(*world(&game).score(), Score(300));
    let config = world(&game).obstacle_config();
    assert_eq!(config.min_x_between, 500);
    assert_eq!(config.y_mid_offset, 100);
    assert_eq!(config.y_mid_range.low, -200);
    assert_eq!(config.y_mid_range.high, 200);
}

#[test]
fn restart_leaves_a_running_session_alone() {
    let mut game = Game::new();
    game.tick_with(&seen(40, 3, vec![SensorBegin]), 0);
    assert!(!game.restart());
    assert_eq!(game.state(), GameState::Running);
    assert_eq!(*world(&game).score(), Score(1));
    assert_eq!(game.camera(), Camera { x: 40 });
    assert_eq!(world(&game).obstacles().len(), 1);
}

#[test]
fn restart_replaces_an_ended_session() {
    let mut game = Game::new();
    game.tick_with(&seen(40, 3, vec![SensorBegin]), 0);
    game.tick_with(&seen(50, -1000, Vec::new()), 0);
    assert_eq!(game.state(), GameState::Ended);
    assert!(game.restart());
    assert_eq!(game.state(), GameState::Running);
    assert_eq!(game.camera(), Camera { x: 0 });
    let w = world(&game);
    assert_eq!(*w.score(), Score(0));
    assert_eq!(*w.bird(), Bird { alive: true, x: 0, y: 0 });
    assert!(w.obstacles().is_empty());
    assert!(w.backgrounds().is_empty());
    assert!(!game.restart());
}

#[test]
fn positions_name_obstacles_and_tiles() {
    let mut game = Game::new();
    let mut x = 0;
    while x <= 4000 {
        game.tick_with(&quiet(x), 17);
        x += 13;
    }
    let obstacles = world(&game).obstacles();
    for (i, a) in obstacles.iter().enumerate() {
        for b in &obstacles[i + 1..] {
            assert_ne!(a.spawn_x, b.spawn_x);
        }
    }
    let tiles = world(&game).backgrounds();
    for (i, a) in tiles.iter().enumerate() {
        for b in &tiles[i + 1..] {
            assert_ne!(a.x, b.x);
        }
    }
}
