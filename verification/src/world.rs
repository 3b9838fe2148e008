//! The static world: depth layers for the sprites, and the square grid of
//! ground tiles laid out around the origin.

use vstd::prelude::*;
use crate::geometry::Vec2i;

verus! {

/// The depth layer a sprite is drawn on; higher layers draw in front.
#[derive(Clone, Copy, PartialEq, Eq, Structural, Debug)]
pub enum SpriteLayer {
    Ground,
    Player,
    Trees,
}

/// Each layer's depth coordinate: the ground at the back, the player above
/// it, the trees in front.
pub open spec fn spec_layer_depth(layer: SpriteLayer) -> int {
    match layer {
        SpriteLayer::Ground => 0,
        SpriteLayer::Player => 1,
        SpriteLayer::Trees => 2,
    }
}

impl SpriteLayer {
    pub fn depth(self) -> (r: i64)
        ensures
            r == spec_layer_depth(self),
    {
        match self {
            SpriteLayer::Ground => 0,
            SpriteLayer::Player => 1,
            SpriteLayer::Trees => 2,
        }
    }
}

/// The corner where the tile grid begins: the grid spans `tile_size *
/// num_tiles` world units per side, centred on the origin (half rounded
/// down), on both axes.
pub open spec fn spec_grid_start(tile_size: int, num_tiles: int) -> int {
    -(tile_size * num_tiles / 2)
}

/// Whether entry `k` of `tiles` is the `k`-th tile of the row-major grid:
/// its column (`k` modulo the side length) positions it along `x`, its row
/// (`k` over the side length) along `y`, each a tile size apart from the
/// grid's starting corner.
pub open spec fn spec_is_grid_tile(
    tiles: Seq<Vec2i>,
    tile_size: int,
    num_tiles: int,
    k: int,
) -> bool {
    &&& tiles[k].x == spec_grid_start(tile_size, num_tiles) + (k % num_tiles) * tile_size
    &&& tiles[k].y == spec_grid_start(tile_size, num_tiles) + (k / num_tiles) * tile_size
}

/// The positions of the `num_tiles` by `num_tiles` ground tiles, row by
/// row from the grid's starting corner.
pub fn ground_tile_positions(tile_size: i64, num_tiles: usize) -> (tiles: Vec<Vec2i>)
    requires
        0 <= tile_size,
        num_tiles <= i64::MAX,
        tile_size * num_tiles <= i64::MAX,
        num_tiles * num_tiles <= usize::MAX,
    ensures
        tiles@.len() == num_tiles * num_tiles,
        forall|k: int|
            0 <= k < tiles@.len() ==> #[trigger] spec_is_grid_tile(
                tiles@,
                tile_size as int,
                num_tiles as int,
                k,
            ),
{
    let ghost s: int = tile_size as int;
    let ghost n: int = num_tiles as int;
    proof {
        assert(0 <= s * n) by (nonlinear_arith)
            requires
                0 <= s,
                0 <= n,
        ;
        assert(0 <= n * n) by (nonlinear_arith)
            requires
                0 <= n,
        ;
    }
    let extent: i64 = tile_size * (num_tiles as i64);
    let start: i64 = -(extent / 2);
    let mut tiles: Vec<Vec2i> = Vec::new();
    let mut tile_y: i64 = start;
    let mut row: usize = 0;
    while row < num_tiles
        invariant
            0 <= tile_size,
            s == tile_size as int,
            n == num_tiles as int,
            n <= i64::MAX,
            s * n <= i64::MAX,
            n * n <= usize::MAX,
            extent == s * n,
            start == spec_grid_start(s, n),
            0 <= row <= n,
            tiles@.len() == row * n,
            tile_y == start + row * s,
            forall|k: int| 0 <= k < tiles@.len() ==> #[trigger] spec_is_grid_tile(tiles@, s, n, k),
        decreases n - row,
    {
        proof {
            lemma_partial_extent_bounds(s, n, row as int);
            lemma_partial_extent_bounds(s, n, row + 1);
            assert((row + 1) * n <= n * n && row * n + n == (row + 1) * n) by (nonlinear_arith)
                requires
                    0 <= row + 1 <= n,
            ;
        }
        let mut tile_x: i64 = start;
        let mut col: usize = 0;
        while col < num_tiles
            invariant
                0 <= tile_size,
                s == tile_size as int,
                n == num_tiles as int,
                n <= i64::MAX,
                s * n <= i64::MAX,
                n * n <= usize::MAX,
                extent == s * n,
                start == spec_grid_start(s, n),
                0 <= row < n,
                0 <= col <= n,
                row * n + n == (row + 1) * n <= n * n,
                tiles@.len() == row * n + col,
                tile_x == start + col * s,
                tile_y == start + row * s,
                forall|k: int|
                    0 <= k < tiles@.len() ==> #[trigger] spec_is_grid_tile(tiles@, s, n, k),
            decreases n - col,
        {
            proof {
                lemma_partial_extent_bounds(s, n, col + 1);
                assert((col + 1) * s == col * s + s && (row + 1) * n == row * n + n)
                    by (nonlinear_arith);
            }
            let ghost pre = tiles@;
            tiles.push(Vec2i { x: tile_x, y: tile_y });
            proof {
                let k0: int = row * n + col;
                vstd::arithmetic::div_mod::lemma_fundamental_div_mod_converse(
                    k0,
                    n,
                    row as int,
                    col as int,
                );
                assert forall|k: int| 0 <= k < tiles@.len() implies #[trigger] spec_is_grid_tile(
                    tiles@,
                    s,
                    n,
                    k,
                ) by {
                    if k < k0 {
                        assert(spec_is_grid_tile(pre, s, n, k));
                        assert(tiles@[k] == pre[k]);
                    } else {
                        assert(k == k0);
                    }
                }
            }
            tile_x = tile_x + tile_size;
            col = col + 1;
        }
        proof {
            assert((row + 1) * s == row * s + s) by (nonlinear_arith);
        }
        tile_y = tile_y + tile_size;
        row = row + 1;
    }
    proof {
        assert(n * n == tiles@.len());
    }
    tiles
}

/// For a count within the grid's side, that many tiles span at most the
/// grid's whole extent.
proof fn lemma_partial_extent_bounds(s: int, n: int, c: int)
    requires
        0 <= s,
        0 <= c <= n,
    ensures
        0 <= c * s <= s * n,
{
    assert(0 <= c * s && c * s <= s * n) by (nonlinear_arith)
        requires
            0 <= s,
            0 <= c <= n,
    ;
}

} // verus!
