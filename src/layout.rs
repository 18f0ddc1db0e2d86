//! Placement of a roster, and of the camera, on a display surface.
use vstd::prelude::*;

use crate::formation::FBPlayer;

verus! {

/// Horizontal distance between neighbouring players, in layout units.
pub const PLAYER_WIDTH: u64 = 40;

/// Vertical distance between the rows of two consecutive team tags, in layout units.
pub const PLAYER_HEIGHT: u64 = 40;

/// Depth at which every player is placed.
pub const PLAYER_DEPTH: u64 = 0;

/// Depth at which the camera is placed, in front of the players.
pub const CAMERA_DEPTH: u64 = 1;

/// Size of the display surface, in layout units.
#[derive(Clone, Copy, Debug, PartialEq, Eq, Structural)]
pub struct Surface {
    pub width: u32,
    pub height: u32,
}

/// Where one player of a roster is drawn, and with which entry of the visual pool.
#[derive(Clone, Copy, Debug, PartialEq, Eq, Structural)]
pub struct Placement {
    /// Index of the player in the roster.
    pub player_index: usize,
    pub x: u64,
    pub y: u64,
    pub z: u64,
    /// Index into the visual pool.
    pub visual: usize,
}

/// The camera: centred on the surface and covering it exactly.
///
/// The centre is kept in half units so that it stays exact on odd-sized surfaces:
/// the centre's coordinates are `center_x_halves / 2` and `center_y_halves / 2`.
#[derive(Clone, Copy, Debug, PartialEq, Eq, Structural)]
pub struct ViewportPlacement {
    pub center_x_halves: u32,
    pub center_y_halves: u32,
    pub z: u64,
    pub width: u32,
    pub height: u32,
}

/// Why a layout could not be made.
#[derive(Clone, Copy, Debug, PartialEq, Eq, Structural)]
pub enum LayoutError {
    /// The visual pool is empty, so no player can be given a visual.
    InvalidInput,
}

/// The placement of the player at index `i` of `roster`, with a pool of `pool_len` visuals:
/// one column per roster index, one row per team tag, and the pool cycled by index.
pub open spec fn player_placement(roster: Seq<FBPlayer>, pool_len: nat, i: int) -> Placement {
    Placement {
        player_index: i as usize,
        x: (PLAYER_WIDTH * i) as u64,
        y: (roster[i].team * PLAYER_HEIGHT) as u64,
        z: PLAYER_DEPTH,
        visual: (i % (pool_len as int)) as usize,
    }
}

/// The placements of a whole roster, in roster order.
pub open spec fn layout(roster: Seq<FBPlayer>, pool_len: nat) -> Seq<Placement> {
    Seq::new(roster.len(), |i: int| player_placement(roster, pool_len, i))
}

/// With a non-empty pool, a roster of any size gets one placement per player; the placement
/// at index `i` lies at `x == PLAYER_WIDTH * i` and `y == PLAYER_HEIGHT * team`, where `team`
/// is the tag of the player at `i`, and shows the visual at `i` modulo the pool's length.
pub proof fn lemma_layout_coordinates(roster: Seq<FBPlayer>, pool_len: nat)
    requires
        pool_len > 0,
        pool_len <= usize::MAX,
        roster.len() <= usize::MAX,
        roster.len() * PLAYER_WIDTH <= u64::MAX,
    ensures
        layout(roster, pool_len).len() == roster.len(),
        forall|i: int|
            0 <= i < roster.len() ==> {
                &&& #[trigger] layout(roster, pool_len)[i].x == PLAYER_WIDTH * i
                &&& layout(roster, pool_len)[i].y == PLAYER_HEIGHT * roster[i].team
                &&& layout(roster, pool_len)[i].visual == i % (pool_len as int)
                &&& layout(roster, pool_len)[i].player_index == i
            },
{
    assert forall|i: int| 0 <= i < roster.len() implies {
        &&& #[trigger] layout(roster, pool_len)[i].x == PLAYER_WIDTH * i
        &&& layout(roster, pool_len)[i].y == PLAYER_HEIGHT * roster[i].team
        &&& layout(roster, pool_len)[i].visual == i % (pool_len as int)
        &&& layout(roster, pool_len)[i].player_index == i
    } by {
        assert(PLAYER_WIDTH * i <= roster.len() * PLAYER_WIDTH) by (nonlinear_arith)
            requires
                0 <= i < roster.len(),
        ;
        assert(0 <= i % (pool_len as int) < pool_len) by (nonlinear_arith)
            requires
                0 <= i,
                pool_len > 0,
        ;
    }
}

/// Lays out `roster` in one row per team tag, giving each player the visual at its index
/// modulo the pool's length. The surface does not bound the layout: rows grow to the right
/// without clamping. Fails with `InvalidInput`, and places nothing, when the pool is empty.
pub fn place_players<V>(roster: &[FBPlayer], visual_pool: &[V], _surface: &Surface) -> (r: Result<
    Vec<Placement>,
    LayoutError,
>)
    requires
        roster@.len() * PLAYER_WIDTH <= u64::MAX,
    ensures
        r is Err <==> visual_pool@.len() == 0,
        r matches Err(e) ==> e == LayoutError::InvalidInput,
        r matches Ok(ps) ==> ps@ == layout(roster@, visual_pool@.len()),
{
    let pool_len = visual_pool.len();
    if pool_len == 0 {
        return Err(LayoutError::InvalidInput);
    }
    let n = roster.len();
    let mut ps: Vec<Placement> = Vec::new();
    let mut i: usize = 0;
    while i < n
        invariant
            n == roster@.len(),
            pool_len == visual_pool@.len(),
            pool_len > 0,
            i <= n,
            n * PLAYER_WIDTH <= u64::MAX,
            ps@ == layout(roster@, pool_len as nat).take(i as int),
        decreases n - i,
    {
        assert(i * PLAYER_WIDTH <= n * PLAYER_WIDTH) by (nonlinear_arith)
            requires
                i <= n,
        ;
        let p = Placement {
            player_index: i,
            x: PLAYER_WIDTH * (i as u64),
            y: (roster[i].team as u64) * PLAYER_HEIGHT,
            z: PLAYER_DEPTH,
            visual: i % pool_len,
        };
        ps.push(p);
        proof {
            assert(ps@ =~= layout(roster@, pool_len as nat).take(i + 1));
        }
        i = i + 1;
    }
    proof {
        assert(ps@ =~= layout(roster@, pool_len as nat));
    }
    Ok(ps)
}

/// Places the camera at the centre of `surface`, covering it exactly.
pub fn place_viewport(surface: &Surface) -> (v: ViewportPlacement)
    ensures
        v.center_x_halves == surface.width,
        v.center_y_halves == surface.height,
        v.z == CAMERA_DEPTH,
        v.width == surface.width,
        v.height == surface.height,
{
    ViewportPlacement {
        center_x_halves: surface.width,
        center_y_halves: surface.height,
        z: CAMERA_DEPTH,
        width: surface.width,
        height: surface.height,
    }
}

} // verus!
