//! The scrolling background: screen-wide tiles laid ahead of the camera and
//! reclaimed once they are far behind it.
//!
//! The policy mirrors the obstacle spawner's: a bounded window of generated
//! content that follows a moving reference point.

use vstd::prelude::*;
use vstd::math::max;
use crate::filtering::{
    lemma_filter_excluded, lemma_filter_keeps_order, lemma_filter_twice,
};
use crate::screen::SCREEN_WIDTH;

verus! {

/// Height of a tile as it is drawn.
pub const TILE_HEIGHT: i64 = 2048;

/// How far behind the camera a tile's position must be to be reclaimed: two
/// screen widths.
pub const TILE_KEEP_BEHIND: i64 = 2560;

/// The farthest right that a tile can lie: the camera never passes the
/// greatest 32-bit position, and a tile is laid less than a screen width
/// ahead of it.
pub const TILE_X_LIMIT: i64 = 0x7fff_ffff + 1280;

/// One segment of the background, as wide as the screen.
#[derive(Clone, Copy, Debug, PartialEq, Eq, Structural)]
pub struct BackgroundTile {
    /// Position of the tile: its left edge.
    pub x: i64,
}

impl BackgroundTile {
    /// The tile lies where the tiling can have put it: at or right of the
    /// origin, and within reach of the camera.
    pub open spec fn wf(self) -> bool {
        0 <= self.x <= TILE_X_LIMIT
    }

    /// The tile's right edge.
    pub open spec fn right_edge(self) -> int {
        self.x + SCREEN_WIDTH
    }
}

/// Every tile is well formed.
pub open spec fn tiles_wf(tiles: Seq<BackgroundTile>) -> bool {
    forall|i: int| 0 <= i < tiles.len() ==> (#[trigger] tiles[i]).wf()
}

/// Tiles do not overlap: each lies at least a screen width beyond every tile
/// before it.
pub open spec fn tiles_apart(tiles: Seq<BackgroundTile>) -> bool {
    forall|i: int, j: int|
        0 <= i < j < tiles.len() ==> (#[trigger] tiles[j]).x - (#[trigger] tiles[i]).x
            >= SCREEN_WIDTH
}

/// The greatest right edge among the tiles, if there is any tile.
pub open spec fn max_right_edge(tiles: Seq<BackgroundTile>) -> Option<int>
    decreases tiles.len(),
{
    if tiles.len() == 0 {
        None
    } else {
        match max_right_edge(tiles.drop_last()) {
            Some(edge) => Some(max(edge, tiles.last().right_edge())),
            None => Some(tiles.last().right_edge()),
        }
    }
}

/// The frontier: how far the background is covered. It is the greatest right
/// edge among the tiles, and the origin while there is no tile.
pub open spec fn frontier(tiles: Seq<BackgroundTile>) -> int {
    match max_right_edge(tiles) {
        Some(edge) => edge,
        None => 0,
    }
}

/// How far the background must be covered for a camera at `camera_x`: one
/// screen width ahead of it.
pub open spec fn cover_until(camera_x: int) -> int {
    camera_x + SCREEN_WIDTH
}

/// The line behind a camera at `camera_x` beyond which tiles are reclaimed.
pub open spec fn tile_despawn_line(camera_x: int) -> int {
    camera_x - TILE_KEEP_BEHIND
}

/// The tile that the tiling lays for a camera at `camera_x`, if the frontier
/// falls short of the cover it needs: one tile, at the frontier.
pub open spec fn tile_outcome(tiles: Seq<BackgroundTile>, camera_x: int) -> Option<
    BackgroundTile,
> {
    if frontier(tiles) < cover_until(camera_x) {
        Some(BackgroundTile { x: frontier(tiles) as i64 })
    } else {
        None
    }
}

/// The tiles that stay for a camera at `camera_x`: those on or ahead of the
/// despawn line, in their order.
pub open spec fn tiles_kept(tiles: Seq<BackgroundTile>, camera_x: int) -> Seq<BackgroundTile> {
    tiles.filter(|t: BackgroundTile| t.x >= tile_despawn_line(camera_x))
}

/// The tiles that are reclaimed for a camera at `camera_x`: those behind the
/// despawn line, in their order.
pub open spec fn tiles_reclaimed(tiles: Seq<BackgroundTile>, camera_x: int) -> Seq<
    BackgroundTile,
> {
    tiles.filter(|t: BackgroundTile| t.x < tile_despawn_line(camera_x))
}

/// The tiles after the tiling has run: the ones that stay, then the new one,
/// if any. A tile laid in this run is not reclaimed in it.
pub open spec fn tiles_after(tiles: Seq<BackgroundTile>, camera_x: int) -> Seq<BackgroundTile> {
    match tile_outcome(tiles, camera_x) {
        Some(tile) => tiles_kept(tiles, camera_x).push(tile),
        None => tiles_kept(tiles, camera_x),
    }
}

/// The frontier is what its name says: no tile reaches beyond it, and some
/// tile reaches it, unless there is none and it is the origin.
pub proof fn law_frontier_is_greatest_right_edge(tiles: Seq<BackgroundTile>)
    ensures
        forall|i: int|
            0 <= i < tiles.len() ==> (#[trigger] tiles[i]).right_edge() <= frontier(tiles),
        tiles.len() == 0 ==> frontier(tiles) == 0,
        tiles.len() > 0 ==> exists|i: int|
            0 <= i < tiles.len() && (#[trigger] tiles[i]).right_edge() == frontier(tiles),
        tiles.len() > 0 <==> max_right_edge(tiles).is_some(),
    decreases tiles.len(),
{
    if tiles.len() > 0 {
        let rest = tiles.drop_last();
        law_frontier_is_greatest_right_edge(rest);
        assert forall|i: int| 0 <= i < tiles.len() implies (#[trigger] tiles[i]).right_edge()
            <= frontier(tiles) by {
            if i < rest.len() {
                assert(rest[i] == tiles[i]);
            }
        }
        if rest.len() > 0 && frontier(rest) >= tiles.last().right_edge() {
            let k = choose|k: int|
                0 <= k < rest.len() && (#[trigger] rest[k]).right_edge() == frontier(rest);
            assert(tiles[k] == rest[k]);
        } else {
            assert(tiles[tiles.len() - 1].right_edge() == frontier(tiles));
        }
    }
}

/// How far the background is covered.
pub fn covered_until(tiles: &Vec<BackgroundTile>) -> (edge: i64)
    requires
        tiles_wf(tiles@),
    ensures
        edge == frontier(tiles@),
        0 <= edge <= TILE_X_LIMIT + SCREEN_WIDTH,
{
    let mut best: Option<i64> = None;
    let mut i: usize = 0;
    proof {
        assert(tiles@.take(0) =~= Seq::<BackgroundTile>::empty());
    }
    while i < tiles.len()
        invariant
            0 <= i <= tiles.len(),
            tiles_wf(tiles@),
            match best {
                Some(edge) => max_right_edge(tiles@.take(i as int)) == Some(edge as int) && 0
                    <= edge <= TILE_X_LIMIT + SCREEN_WIDTH,
                None => max_right_edge(tiles@.take(i as int)).is_none(),
            },
        decreases tiles.len() - i,
    {
        let edge: i64 = tiles[i].x + SCREEN_WIDTH;
        proof {
            assert(tiles@.take(i as int + 1).drop_last() =~= tiles@.take(i as int));
        }
        best = match best {
            Some(seen) => Some(if seen >= edge { seen } else { edge }),
            None => Some(edge),
        };
        i = i + 1;
    }
    proof {
        assert(tiles@.take(i as int) =~= tiles@);
    }
    match best {
        Some(edge) => edge,
        None => 0,
    }
}

/// The tiling: lays one tile at the frontier when the frontier falls short of
/// one screen width ahead of the camera, and reclaims the tiles whose
/// position is more than two screen widths behind it. The tiles that stay
/// keep their order and the new tile comes last. Returns the tile laid, if
/// any, and the tiles reclaimed.
pub fn tiling_background(tiles: &mut Vec<BackgroundTile>, camera_x: i32) -> (changes: (
    Option<BackgroundTile>,
    Vec<BackgroundTile>,
))
    requires
        tiles_wf(old(tiles)@),
    ensures
        final(tiles)@ == tiles_after(old(tiles)@, camera_x as int),
        changes.0 == tile_outcome(old(tiles)@, camera_x as int),
        changes.1@ == tiles_reclaimed(old(tiles)@, camera_x as int),
        tiles_wf(final(tiles)@),
{
    let edge: i64 = covered_until(tiles);
    let despawn_from: i64 = camera_x as i64 - TILE_KEEP_BEHIND;
    let ghost keep = |t: BackgroundTile| t.x >= tile_despawn_line(camera_x as int);
    let ghost drop = |t: BackgroundTile| t.x < tile_despawn_line(camera_x as int);
    let mut kept: Vec<BackgroundTile> = Vec::new();
    let mut reclaimed: Vec<BackgroundTile> = Vec::new();
    let mut i: usize = 0;
    proof {
        assert(tiles@.take(0) =~= Seq::<BackgroundTile>::empty());
        reveal(Seq::filter);
    }
    while i < tiles.len()
        invariant
            0 <= i <= tiles.len(),
            despawn_from == tile_despawn_line(camera_x as int),
            tiles@ == old(tiles)@,
            tiles_wf(tiles@),
            tiles_wf(kept@),
            keep == (|t: BackgroundTile| t.x >= tile_despawn_line(camera_x as int)),
            drop == (|t: BackgroundTile| t.x < tile_despawn_line(camera_x as int)),
            kept@ == tiles@.take(i as int).filter(keep),
            reclaimed@ == tiles@.take(i as int).filter(drop),
        decreases tiles.len() - i,
    {
        let tile = tiles[i];
        proof {
            let seen = tiles@.take(i as int);
            assert(tiles@.take(i as int + 1) =~= seen.push(tile));
            seen.lemma_filter_push(tile, keep);
            seen.lemma_filter_push(tile, drop);
        }
        if tile.x >= despawn_from {
            kept.push(tile);
        } else {
            reclaimed.push(tile);
        }
        i = i + 1;
    }
    proof {
        assert(tiles@.take(i as int) =~= tiles@);
    }
    let spawned = if edge < camera_x as i64 + SCREEN_WIDTH {
        let tile = BackgroundTile { x: edge };
        kept.push(tile);
        Some(tile)
    } else {
        None
    };
    *tiles = kept;
    (spawned, reclaimed)
}

/// The tiling keeps tiles from overlapping: where each tile lies at least a
/// screen width beyond every tile before it, that is still so after the
/// tiling has run, and the tiles stay well formed.
pub proof fn law_tiling_keeps_tiles_apart(tiles: Seq<BackgroundTile>, camera_x: int)
    requires
        tiles_wf(tiles),
        tiles_apart(tiles),
        i32::MIN <= camera_x <= i32::MAX,
    ensures
        tiles_wf(tiles_after(tiles, camera_x)),
        tiles_apart(tiles_after(tiles, camera_x)),
        tiles_after(tiles, camera_x).len() <= tiles.len() + 1,
{
    let keep = |t: BackgroundTile| t.x >= tile_despawn_line(camera_x);
    let origin = lemma_filter_keeps_order(tiles, keep);
    let kept = tiles_kept(tiles, camera_x);
    let after = tiles_after(tiles, camera_x);
    law_frontier_is_greatest_right_edge(tiles);
    assert forall|i: int| 0 <= i < kept.len() implies (#[trigger] kept[i]).wf()
        && kept[i].right_edge() <= frontier(tiles) by {
        assert(tiles[origin[i]] == kept[i]);
    }
    assert forall|i: int, j: int| 0 <= i < j < kept.len() implies (#[trigger] kept[j]).x - (
    #[trigger] kept[i]).x >= SCREEN_WIDTH by {
        assert(tiles[origin[i]] == kept[i]);
        assert(tiles[origin[j]] == kept[j]);
    }
    assert forall|i: int| 0 <= i < after.len() implies (#[trigger] after[i]).wf() by {
        if i < kept.len() {
            assert(after[i] == kept[i]);
        }
    }
    assert forall|i: int, j: int| 0 <= i < j < after.len() implies (#[trigger] after[j]).x - (
    #[trigger] after[i]).x >= SCREEN_WIDTH by {
        assert(after[i] == kept[i]);
        if j < kept.len() {
            assert(after[j] == kept[j]);
        }
    }
}

/// No two tiles that do not overlap share a position: the position of a tile
/// names it among the tiles of its session.
pub proof fn law_positions_name_tiles(tiles: Seq<BackgroundTile>)
    requires
        tiles_apart(tiles),
    ensures
        forall|i: int, j: int|
            0 <= i < tiles.len() && 0 <= j < tiles.len() && i != j ==> (#[trigger] tiles[i]).x != (
            #[trigger] tiles[j]).x,
{
    assert forall|i: int, j: int|
        0 <= i < tiles.len() && 0 <= j < tiles.len() && i != j implies (#[trigger] tiles[i]).x != (
    #[trigger] tiles[j]).x by {
        if i < j {
            assert(tiles[j].x - tiles[i].x >= SCREEN_WIDTH);
        } else {
            assert(tiles[i].x - tiles[j].x >= SCREEN_WIDTH);
        }
    }
}

/// Reclaiming tiles is idempotent: with the camera where it was, a second
/// pass keeps every tile that the first pass kept and reclaims none.
pub proof fn law_tile_reclamation_idempotent(tiles: Seq<BackgroundTile>, camera_x: int)
    ensures
        tiles_kept(tiles_kept(tiles, camera_x), camera_x) == tiles_kept(tiles, camera_x),
        tiles_reclaimed(tiles_kept(tiles, camera_x), camera_x) == Seq::<BackgroundTile>::empty(),
{
    let keep = |t: BackgroundTile| t.x >= tile_despawn_line(camera_x);
    let drop = |t: BackgroundTile| t.x < tile_despawn_line(camera_x);
    lemma_filter_twice(tiles, keep);
    lemma_filter_excluded(tiles, keep, drop);
}

} // verus!
