use bird_game::background::{
    covered_until, tiling_background, BackgroundTile, TILE_HEIGHT, TILE_KEEP_BEHIND,
    TILE_X_LIMIT,
};

fn tile(x: i64) -> BackgroundTile {
    BackgroundTile { x }
}

#[test]
fn tile_constants_have_documented_values() {
    assert_eq!(TILE_HEIGHT, 2048);
    assert_eq!(TILE_KEEP_BEHIND, 2 * 1280);
    assert_eq!(TILE_X_LIMIT, i32::MAX as i64 + 1280);
}

#[test]
fn frontier_of_no_tiles_is_the_origin() {
    assert_eq!(covered_until(&Vec::new()), 0);
}

#[test]
fn frontier_is_the_greatest_right_edge() {
    assert_eq!(covered_until(&vec![tile(0)]), 1280);
    assert_eq!(covered_until(&vec![tile(0), tile(1280), tile(2560)]), 3840);
    assert_eq!(covered_until(&vec![tile(2560), tile(0), tile(1280)]), 3840);
}

#[test]
fn first_tile_is_laid_at_the_origin() {
    let mut tiles: Vec<BackgroundTile> = Vec::new();
    let (spawned, reclaimed) = tiling_background(&mut tiles, 0);
    assert_eq!(spawned, Some(tile(0)));
    assert!(reclaimed.is_empty());
    assert_eq!(tiles, vec![tile(0)]);
}

#[test]
fn one_tile_per_tick_until_the_view_is_covered() {
    let mut tiles = vec![tile(0)];
    assert_eq!(tiling_background(&mut tiles, 0).0, None);
    assert_eq!(tiling_background(&mut tiles, 1).0, Some(tile(1280)));
    assert_eq!(tiling_background(&mut tiles, 1).0, None);
    assert_eq!(tiles, vec![tile(0), tile(1280)]);
    assert_eq!(tiling_background(&mut tiles, 5000).0, Some(tile(2560)));
    assert_eq!(tiling_background(&mut tiles, 5000).0, Some(tile(3840)));
    assert_eq!(tiling_background(&mut tiles, 5000).0, Some(tile(5120)));
    let (spawned, reclaimed) = tiling_background(&mut tiles, 5000);
    assert_eq!(spawned, None);
    assert!(reclaimed.is_empty());
}

#[test]
fn tiles_far_behind_the_camera_are_reclaimed() {
    let mut tiles = vec![tile(0), tile(1280), tile(2560), tile(3840)];
    let (spawned, reclaimed) = tiling_background(&mut tiles, 3841);
    assert_eq!(reclaimed, vec![tile(0), tile(1280)]);
    assert_eq!(spawned, Some(tile(5120)));
    assert_eq!(tiles, vec![tile(2560), tile(3840), tile(5120)]);
    let mut tiles = vec![tile(0), tile(1280), tile(2560), tile(3840)];
    let (spawned, reclaimed) = tiling_background(&mut tiles, 3840);
    assert_eq!(reclaimed, vec![tile(0)]);
    assert_eq!(spawned, None);
    assert_eq!(tiles, vec![tile(1280), tile(2560), tile(3840)]);
}

#[test]
fn tile_exactly_two_screens_behind_stays() {
    let mut tiles = vec![tile(0), tile(1280), tile(2560)];
    let (_, reclaimed) = tiling_background(&mut tiles, 2560);
    assert!(reclaimed.is_empty());
    let (_, reclaimed) = tiling_background(&mut tiles, 2561);
    assert_eq!(reclaimed, vec![tile(0)]);
}

#[test]
fn tile_reclamation_twice_destroys_nothing_more() {
    let mut tiles = vec![tile(0), tile(1280), tile(2560), tile(3840), tile(5120)];
    let (_, first) = tiling_background(&mut tiles, 3900);
    assert_eq!(first, vec![tile(0), tile(1280)]);
    let kept = tiles.clone();
    let (spawned, second) = tiling_background(&mut tiles, 3900);
    assert_eq!(spawned, None);
    assert!(second.is_empty());
    assert_eq!(tiles, kept);
}

#[test]
fn tile_laid_in_a_tick_is_not_reclaimed_in_it() {
    let mut tiles: Vec<BackgroundTile> = Vec::new();
    let (spawned, reclaimed) = tiling_background(&mut tiles, 10_000);
    assert_eq!(spawned, Some(tile(0)));
    assert!(reclaimed.is_empty());
    assert_eq!(tiles, vec![tile(0)]);
    let (spawned, reclaimed) = tiling_background(&mut tiles, 10_000);
    assert_eq!(spawned, Some(tile(1280)));
    assert_eq!(reclaimed, vec![tile(0)]);
    assert_eq!(tiles, vec![tile(1280)]);
}

#[test]
fn no_tile_is_laid_for_a_camera_far_to_the_left() {
    let mut tiles: Vec<BackgroundTile> = Vec::new();
    assert_eq!(tiling_background(&mut tiles, -1280).0, None);
    assert_eq!(tiling_background(&mut tiles, i32::MIN).0, None);
    assert_eq!(tiling_background(&mut tiles, -1279).0, Some(tile(0)));
}

#[test]
fn tiling_works_at_the_far_end_of_the_position_range() {
    let edge = i32::MAX as i64;
    let mut tiles = vec![tile(edge - 1), tile(edge + 1279)];
    assert_eq!(covered_until(&tiles), edge + 2559);
    assert_eq!(tiling_background(&mut tiles, i32::MAX).0, None);
}
