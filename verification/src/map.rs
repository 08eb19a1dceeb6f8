//! The occupancy snapshot of one tick: a fully materialized grid mapping
//! every grid index to "empty" or "occupied by cell id at world position".
//! It is rebuilt from scratch once per tick and never partially updated.

use vstd::prelude::*;

use crate::creatures::{in_world, AbsoluteCoords, LivingCell};
use crate::{HEIGHT, WIDTH};

verus! {

/// A position in grid space: integer indices with the origin at the corner
/// of the plane, `x` in `[0, 2*WIDTH)` and `y` in `[0, 2*HEIGHT)`.
#[derive(Debug, Clone, Copy, PartialEq, Eq, Structural)]
pub struct MapCoords(pub i32, pub i32);

/// The coordinate transform from world space to grid space: shift the
/// signed plane so that its corner `(-WIDTH, -HEIGHT)` lands on `(0, 0)`.
pub open spec fn grid_of(p: AbsoluteCoords) -> MapCoords {
    MapCoords((p.0 + WIDTH) as i32, (p.1 + HEIGHT) as i32)
}

/// Whether a grid index addresses a slot of the map. Both axes use the same
/// half-open convention `[0, extent)`.
pub open spec fn in_grid(c: MapCoords) -> bool {
    &&& 0 <= c.0 < 2 * WIDTH
    &&& 0 <= c.1 < 2 * HEIGHT
}

impl MapCoords {
    /// Apply the coordinate transform to a world position. The result may
    /// lie outside the grid; `in_grid` tells whether it addresses a slot.
    pub fn from_world(value: AbsoluteCoords) -> (r: Self)
        requires
            value.0 + WIDTH <= i32::MAX,
            value.1 + HEIGHT <= i32::MAX,
        ensures
            r == grid_of(value),
    {
        Self(value.0 + WIDTH, value.1 + HEIGHT)
    }
}

/// For every world position on the plane, the transform yields a grid index
/// within `[0, 2*WIDTH] x [0, 2*HEIGHT]` (the far edges fall just outside
/// the half-open slot range and hold no slot).
pub proof fn lemma_transform_bounds(p: AbsoluteCoords)
    requires
        in_world(p),
    ensures
        0 <= grid_of(p).0 <= 2 * WIDTH,
        0 <= grid_of(p).1 <= 2 * HEIGHT,
{
}

/// One slot of the occupancy snapshot.
#[derive(Debug, Clone, Copy, PartialEq, Eq, Structural)]
pub enum VectorMapStates {
    Void,
    /// A cell on the map, holding its id (its index in the population) and
    /// its world position.
    Creature(usize, AbsoluteCoords),
}

/// What a freshly built snapshot holds at grid index `c`: the last cell in
/// iteration order whose position maps onto `c`, or nothing. Later cells
/// overwrite earlier ones (last write wins); positions that transform to an
/// index outside the grid occupy no slot.
pub open spec fn built_slot(cells: Seq<LivingCell>, c: MapCoords) -> VectorMapStates
    decreases cells.len(),
{
    if cells.len() == 0 {
        VectorMapStates::Void
    } else if in_grid(grid_of(cells.last().position)) && grid_of(cells.last().position) == c {
        VectorMapStates::Creature((cells.len() - 1) as usize, cells.last().position)
    } else {
        built_slot(cells.drop_last(), c)
    }
}

/// Single occupancy: a slot of a freshly built snapshot records at most
/// one occupant. Whenever the slot for `c` holds `Creature(id, p)`, cell
/// `id` is the last one in iteration order whose position maps onto `c`:
/// it really stands at `p`, `p` transforms to `c`, and every later cell
/// maps elsewhere.
pub proof fn lemma_single_occupancy(
    cells: Seq<LivingCell>,
    c: MapCoords,
    id: usize,
    p: AbsoluteCoords,
)
    requires
        cells.len() <= usize::MAX,
        built_slot(cells, c) == VectorMapStates::Creature(id, p),
    ensures
        id < cells.len(),
        cells[id as int].position == p,
        grid_of(p) == c,
        in_grid(c),
        forall|j: int| id < j < cells.len() ==> grid_of(#[trigger] cells[j].position) != c,
    decreases cells.len(),
{
    if cells.len() == 0 {
    } else if in_grid(grid_of(cells.last().position)) && grid_of(cells.last().position) == c {
    } else {
        lemma_single_occupancy(cells.drop_last(), c, id, p);
        assert(cells.drop_last()[id as int] == cells[id as int]);
        assert forall|j: int| id < j < cells.len() implies grid_of(
            #[trigger] cells[j].position,
        ) != c by {
            if j < cells.len() - 1 {
                assert(cells.drop_last()[j] == cells[j]);
            } else {
                assert(cells[j] == cells.last());
                if grid_of(cells.last().position) == c {
                    assert(in_grid(grid_of(cells.last().position)));
                    assert(false);
                }
            }
        }
    }
}

/// Whether the destination `p` is free in the snapshot built from `cells`:
/// its grid index is on the map and the slot there is empty.
pub open spec fn snapshot_free(cells: Seq<LivingCell>, p: AbsoluteCoords) -> bool {
    &&& in_grid(grid_of(p))
    &&& built_slot(cells, grid_of(p)) is Void
}

/// Flatten a grid index to an offset into the backing vector of a map of
/// row width `w` (row-major, `y * w + x`).
pub fn xy_to_usize(c: MapCoords, w: i32) -> (r: usize)
    requires
        0 <= c.0,
        0 <= c.1 * w,
        c.1 * w + c.0 <= i32::MAX,
    ensures
        r == c.1 * w + c.0,
{
    ((c.1 * w) + c.0) as usize
}

/// A grid index on the map flattens to an offset within the backing
/// vector.
proof fn lemma_flat_index_bounds(gx: int, gy: int)
    requires
        0 <= gx < 2 * WIDTH,
        0 <= gy < 2 * HEIGHT,
    ensures
        0 <= gy * (2 * WIDTH),
        gy * (2 * WIDTH) + gx < (2 * WIDTH) * (2 * HEIGHT),
{
    assert(0 <= gy * (2 * WIDTH) && gy * (2 * WIDTH) + gx < (2 * WIDTH) * (2 * HEIGHT))
        by (nonlinear_arith)
        requires
            0 <= gx < 2 * WIDTH,
            0 <= gy < 2 * HEIGHT,
    ;
}

/// Distinct grid indices on the map flatten to distinct offsets.
proof fn lemma_flat_index_injective(a_x: int, a_y: int, b_x: int, b_y: int)
    requires
        0 <= a_x < 2 * WIDTH,
        0 <= a_y < 2 * HEIGHT,
        0 <= b_x < 2 * WIDTH,
        0 <= b_y < 2 * HEIGHT,
        a_y * (2 * WIDTH) + a_x == b_y * (2 * WIDTH) + b_x,
    ensures
        a_x == b_x,
        a_y == b_y,
{
    assert(a_x == b_x && a_y == b_y) by (nonlinear_arith)
        requires
            0 <= a_x < 2 * WIDTH,
            0 <= a_y < 2 * HEIGHT,
            0 <= b_x < 2 * WIDTH,
            0 <= b_y < 2 * HEIGHT,
            a_y * (2 * WIDTH) + a_x == b_y * (2 * WIDTH) + b_x,
    ;
}

/// The occupancy snapshot: one slot per grid index, flattened row-major.
pub struct VectorMap {
    v: Vec<VectorMapStates>,
    width: i32,
    height: i32,
}

impl VectorMap {
    /// The map always covers the whole plane grid.
    #[verifier::type_invariant]
    pub closed spec fn well_formed(self) -> bool {
        &&& self.width == 2 * WIDTH
        &&& self.height == 2 * HEIGHT
        &&& self.v@.len() == (2 * WIDTH) * (2 * HEIGHT)
    }

    /// The slot stored at grid index `(gx, gy)`.
    pub closed spec fn slot(self, gx: int, gy: int) -> VectorMapStates {
        self.v@[gy * (2 * WIDTH) + gx]
    }

    /// Whether a destination is free in this snapshot (on the grid, and its
    /// slot empty).
    pub open spec fn free_at(self, p: AbsoluteCoords) -> bool {
        &&& in_grid(grid_of(p))
        &&& self.slot(grid_of(p).0 as int, grid_of(p).1 as int) is Void
    }

    /// Build the snapshot for one tick: every slot starts empty, then each
    /// cell in iteration order is written into the slot its position maps
    /// onto, overwriting any earlier occupant.
    pub fn new(rc: &Vec<LivingCell>) -> (r: Self)
        requires
            forall|i: int| 0 <= i < rc@.len() ==> in_world(#[trigger] rc@[i].position),
        ensures
            forall|gx: int, gy: int|
                0 <= gx < 2 * WIDTH && 0 <= gy < 2 * HEIGHT ==> #[trigger] r.slot(gx, gy)
                    == built_slot(rc@, MapCoords(gx as i32, gy as i32)),
    {
        let total: usize = ((WIDTH as usize) * 2) * ((HEIGHT as usize) * 2);
        let mut v: Vec<VectorMapStates> = Vec::new();
        while v.len() < total
            invariant
                v@.len() <= total,
                total == (2 * WIDTH) * (2 * HEIGHT),
                forall|k: int| 0 <= k < v@.len() ==> v@[k] == VectorMapStates::Void,
            decreases total - v@.len(),
        {
            v.push(VectorMapStates::Void);
        }

        proof {
            assert forall|gx: int, gy: int|
                0 <= gx < 2 * WIDTH && 0 <= gy < 2 * HEIGHT implies #[trigger] v@[gy * (2 * WIDTH)
                + gx] == built_slot(rc@.take(0), MapCoords(gx as i32, gy as i32)) by {
                lemma_flat_index_bounds(gx, gy);
            }
        }

        let mut i: usize = 0;
        while i < rc.len()
            invariant
                i <= rc@.len(),
                v@.len() == (2 * WIDTH) * (2 * HEIGHT),
                forall|k: int| 0 <= k < rc@.len() ==> in_world(#[trigger] rc@[k].position),
                forall|gx: int, gy: int|
                    0 <= gx < 2 * WIDTH && 0 <= gy < 2 * HEIGHT ==> #[trigger] v@[gy * (2 * WIDTH)
                        + gx] == built_slot(rc@.take(i as int), MapCoords(gx as i32, gy as i32)),
            decreases rc@.len() - i,
        {
            let ghost pre = v@;
            let pos = rc[i].position;
            let mc = MapCoords::from_world(pos);
            if mc.0 >= 0 && mc.0 < WIDTH * 2 && mc.1 >= 0 && mc.1 < HEIGHT * 2 {
                proof {
                    lemma_flat_index_bounds(mc.0 as int, mc.1 as int);
                }
                let ii = xy_to_usize(mc, WIDTH * 2);
                v[ii] = VectorMapStates::Creature(i, pos);
            }
            proof {
                let prefix = rc@.take(i as int + 1);
                assert(prefix.drop_last() =~= rc@.take(i as int));
                assert(prefix.last() == rc@[i as int]);
                assert forall|gx: int, gy: int|
                    0 <= gx < 2 * WIDTH && 0 <= gy < 2 * HEIGHT implies #[trigger] v@[gy * (2
                    * WIDTH) + gx] == built_slot(prefix, MapCoords(gx as i32, gy as i32)) by {
                    lemma_flat_index_bounds(gx, gy);
                    let c = MapCoords(gx as i32, gy as i32);
                    if in_grid(mc) && c == mc {
                        assert(built_slot(prefix, c) == VectorMapStates::Creature(i, pos));
                    } else {
                        if in_grid(mc) && gy * (2 * WIDTH) + gx == mc.1 * (2 * WIDTH) + mc.0 {
                            lemma_flat_index_injective(gx, gy, mc.0 as int, mc.1 as int);
                            assert(false);
                        }
                        assert(v@[gy * (2 * WIDTH) + gx] == pre[gy * (2 * WIDTH) + gx]);
                        assert(built_slot(prefix, c) == built_slot(prefix.drop_last(), c));
                    }
                }
            }
            i = i + 1;
        }

        proof {
            assert(rc@.take(rc@.len() as int) =~= rc@);
        }
        Self { width: WIDTH * 2, height: HEIGHT * 2, v }
    }

    /// Read-only lookup of the slot at a grid index; `None` when the index
    /// lies outside the grid on either axis.
    pub fn get_xy(&self, c: MapCoords) -> (r: Option<&VectorMapStates>)
        ensures
            in_grid(c) ==> (r matches Some(s) && *s == self.slot(c.0 as int, c.1 as int)),
            !in_grid(c) ==> r is None,
    {
        proof {
            use_type_invariant(&*self);
        }
        if (c.0 >= 0 && c.0 < self.width) && (c.1 >= 0 && c.1 < self.height) {
            proof {
                lemma_flat_index_bounds(c.0 as int, c.1 as int);
            }
            let ii = xy_to_usize(c, self.width);
            Some(&self.v[ii])
        } else {
            None
        }
    }
}
} // verus!
