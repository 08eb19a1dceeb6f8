//! The agents of the simulation: a `LivingCell` owns a world position and a
//! pending action, and advances its own state machine once per tick against
//! the occupancy snapshot of that tick.

use vstd::prelude::*;

use crate::map::{grid_of, in_grid, snapshot_free, MapCoords, VectorMap, VectorMapStates};
use crate::{HEIGHT, WIDTH};

verus! {

/// A position in world space: signed coordinates centered at the origin,
/// with `x` in `[-WIDTH, WIDTH]` and `y` in `[-HEIGHT, HEIGHT]`.
#[derive(Debug, Clone, Copy, PartialEq, Eq, Structural)]
pub struct AbsoluteCoords(pub i32, pub i32);

/// Whether a position lies on the plane.
pub open spec fn in_world(p: AbsoluteCoords) -> bool {
    &&& -WIDTH <= p.0 <= WIDTH
    &&& -HEIGHT <= p.1 <= HEIGHT
}

/// Lifecycle flag of a cell. A dead cell is never removed from the
/// population; it stays inert at its last position.
#[derive(Debug, Clone, Copy, PartialEq, Eq, Structural)]
pub enum CellState {
    Alive,
    Dead,
}

/// One of the eight compass directions, or an explicit no-op.
#[derive(Debug, Clone, Copy, PartialEq, Eq, Structural)]
pub enum Direction {
    Forward,
    Backward,
    Left,
    Right,
    LeftForward,
    RightForward,
    LeftBackward,
    RightBackward,
    Idle,
}

/// The pending action of a cell, driving its movement state machine.
#[derive(Debug, Clone, Copy, PartialEq, Eq, Structural)]
pub enum Actions {
    DoNothing,
    Look(Direction),
    Go(Direction),
}

/// How a drawn number selects a direction.
pub open spec fn direction_of_index(value: u32) -> Direction {
    if value == 0 {
        Direction::Forward
    } else if value == 1 {
        Direction::Backward
    } else if value == 2 {
        Direction::Left
    } else if value == 3 {
        Direction::Right
    } else if value == 4 {
        Direction::LeftForward
    } else if value == 5 {
        Direction::LeftBackward
    } else if value == 6 {
        Direction::RightForward
    } else if value == 7 {
        Direction::RightBackward
    } else {
        Direction::Idle
    }
}

/// How a drawn number selects a pending action: one of the eight moves, or
/// doing nothing.
pub open spec fn action_of_index(value: u32) -> Actions {
    if value <= 7 {
        Actions::Go(direction_of_index(value))
    } else {
        Actions::DoNothing
    }
}

/// The unit displacement of a direction. Diagonals displace both axes by a
/// full step; no normalization is applied.
pub open spec fn dir_vector(d: Direction) -> AbsoluteCoords {
    match d {
        Direction::Forward => AbsoluteCoords(0, 1),
        Direction::Backward => AbsoluteCoords(0, -1i32),
        Direction::Left => AbsoluteCoords(-1i32, 0),
        Direction::Right => AbsoluteCoords(1, 0),
        Direction::LeftForward => AbsoluteCoords(-1i32, 1),
        Direction::RightForward => AbsoluteCoords(1, 1),
        Direction::LeftBackward => AbsoluteCoords(-1i32, -1i32),
        Direction::RightBackward => AbsoluteCoords(1, -1i32),
        Direction::Idle => AbsoluteCoords(0, 0),
    }
}

/// The destination of one step from `p` in direction `d`.
pub open spec fn moved(p: AbsoluteCoords, d: Direction) -> AbsoluteCoords {
    AbsoluteCoords((p.0 + dir_vector(d).0) as i32, (p.1 + dir_vector(d).1) as i32)
}

impl From<u32> for Direction {
    fn from(value: u32) -> (r: Self) {
        match value {
            0 => Self::Forward,
            1 => Self::Backward,
            2 => Self::Left,
            3 => Self::Right,
            4 => Self::LeftForward,
            5 => Self::LeftBackward,
            6 => Self::RightForward,
            7 => Self::RightBackward,
            _ => Self::Idle,
        }
    }
}

impl vstd::std_specs::convert::FromSpecImpl<u32> for Direction {
    open spec fn obeys_from_spec() -> bool {
        true
    }

    open spec fn from_spec(value: u32) -> Direction {
        direction_of_index(value)
    }
}

impl Direction {
    /// Draw a direction uniformly among the eight compass directions.
    pub fn random() -> (r: Self)
        ensures
            exists|n: u32| n < 8 && r == #[trigger] direction_of_index(n),
    {
        let rnd = seeded_random::Random::new();
        let c = rnd.range(0, 8);
        Self::from(c)
    }

    /// The displacement vector of this direction.
    pub fn get_vector(&self) -> (r: AbsoluteCoords)
        ensures
            r == dir_vector(*self),
    {
        match self {
            Direction::Forward => AbsoluteCoords(0, 1),
            Direction::Backward => AbsoluteCoords(0, -1i32),
            Direction::Left => AbsoluteCoords(-1i32, 0),
            Direction::Right => AbsoluteCoords(1, 0),
            Direction::LeftForward => AbsoluteCoords(-1i32, 1),
            Direction::RightForward => AbsoluteCoords(1, 1),
            Direction::LeftBackward => AbsoluteCoords(-1i32, -1i32),
            Direction::RightBackward => AbsoluteCoords(1, -1i32),
            Direction::Idle => AbsoluteCoords(0, 0),
        }
    }
}

impl Actions {
    /// Draw a pending action: nine outcomes, the eight moves plus doing
    /// nothing.
    pub fn random() -> (r: Self)
        ensures
            exists|n: u32| n < 9 && r == #[trigger] action_of_index(n),
    {
        let random = seeded_random::Random::new();
        let x = random.range(0, 9);
        Self::from_index(x)
    }

    /// The action a drawn number stands for.
    pub fn from_index(value: u32) -> (r: Self)
        ensures
            r == action_of_index(value),
    {
        match value {
            0 => Self::Go(Direction::Forward),
            1 => Self::Go(Direction::Backward),
            2 => Self::Go(Direction::Left),
            3 => Self::Go(Direction::Right),
            4 => Self::Go(Direction::LeftForward),
            5 => Self::Go(Direction::LeftBackward),
            6 => Self::Go(Direction::RightForward),
            7 => Self::Go(Direction::RightBackward),
            _ => Self::DoNothing,
        }
    }
}

/// Component-wise sum of two coordinate pairs.
fn add_coords(a: &AbsoluteCoords, b: &AbsoluteCoords) -> (r: AbsoluteCoords)
    requires
        i32::MIN <= a.0 + b.0 <= i32::MAX,
        i32::MIN <= a.1 + b.1 <= i32::MAX,
    ensures
        r.0 == a.0 + b.0,
        r.1 == a.1 + b.1,
{
    AbsoluteCoords(a.0 + b.0, a.1 + b.1)
}

/// One agent of the simulation. A cell owns its world position and its
/// pending action; it never touches any other cell's state.
#[derive(Debug, Clone, Copy, PartialEq, Eq, Structural)]
pub struct LivingCell {
    pub position: AbsoluteCoords,
    pub state: CellState,
    pub next_state: Actions,
}

/// What one tick does to a single cell, reading the snapshot `m`. A dead
/// cell is left untouched. A live cell makes exactly one transition:
/// - `DoNothing`: adopt the freshly drawn action `chosen`, stay in place;
/// - `Look(d)`: if one step along `d` lands on a free slot, arm `Go(d)`,
///   else fall back to `DoNothing`; stay in place either way;
/// - `Go(d)`: if one step along `d` still lands on a free slot, commit the
///   whole displacement, else stay; either way return to `DoNothing`.
pub open spec fn tick_spec(cell: LivingCell, m: VectorMap, chosen: Actions) -> LivingCell {
    if cell.state is Dead {
        cell
    } else {
        match cell.next_state {
            Actions::DoNothing => LivingCell { next_state: chosen, ..cell },
            Actions::Look(d) => {
                if m.free_at(moved(cell.position, d)) {
                    LivingCell { next_state: Actions::Go(d), ..cell }
                } else {
                    LivingCell { next_state: Actions::DoNothing, ..cell }
                }
            },
            Actions::Go(d) => {
                if m.free_at(moved(cell.position, d)) {
                    LivingCell {
                        position: moved(cell.position, d),
                        next_state: Actions::DoNothing,
                        ..cell
                    }
                } else {
                    LivingCell { next_state: Actions::DoNothing, ..cell }
                }
            },
        }
    }
}

/// The same transition as [`tick_spec`], but stated against the population
/// the snapshot was built from instead of the snapshot value itself.
pub open spec fn tick_against(cell: LivingCell, population: Seq<LivingCell>, chosen: Actions) -> LivingCell {
    if cell.state is Dead {
        cell
    } else {
        match cell.next_state {
            Actions::DoNothing => LivingCell { next_state: chosen, ..cell },
            Actions::Look(d) => {
                if snapshot_free(population, moved(cell.position, d)) {
                    LivingCell { next_state: Actions::Go(d), ..cell }
                } else {
                    LivingCell { next_state: Actions::DoNothing, ..cell }
                }
            },
            Actions::Go(d) => {
                if snapshot_free(population, moved(cell.position, d)) {
                    LivingCell {
                        position: moved(cell.position, d),
                        next_state: Actions::DoNothing,
                        ..cell
                    }
                } else {
                    LivingCell { next_state: Actions::DoNothing, ..cell }
                }
            },
        }
    }
}

/// On a snapshot that records exactly the slots built from `population`,
/// the two readings of one tick agree.
pub proof fn lemma_tick_spec_against(
    cell: LivingCell,
    m: VectorMap,
    population: Seq<LivingCell>,
    chosen: Actions,
)
    requires
        forall|gx: int, gy: int|
            0 <= gx < 2 * WIDTH && 0 <= gy < 2 * HEIGHT ==> #[trigger] m.slot(gx, gy)
                == crate::map::built_slot(population, MapCoords(gx as i32, gy as i32)),
    ensures
        tick_spec(cell, m, chosen) == tick_against(cell, population, chosen),
{
    assert forall|p: AbsoluteCoords| #[trigger] m.free_at(p) == snapshot_free(population, p) by {
        if in_grid(grid_of(p)) {
            let gx = grid_of(p).0 as int;
            let gy = grid_of(p).1 as int;
            assert(MapCoords(gx as i32, gy as i32) == grid_of(p));
            assert(m.slot(gx, gy) == crate::map::built_slot(population, grid_of(p)));
        }
    }
}

/// Collision rejection: a live cell whose pending move aims at an occupied
/// slot of the snapshot does not move; it discards the move and returns to
/// doing nothing.
pub proof fn lemma_collision_rejected(
    cell: LivingCell,
    population: Seq<LivingCell>,
    chosen: Actions,
    d: Direction,
)
    requires
        cell.state is Alive,
        cell.next_state == Actions::Go(d),
        !(crate::map::built_slot(population, grid_of(moved(cell.position, d))) is Void),
    ensures
        tick_against(cell, population, chosen) == (LivingCell { next_state: Actions::DoNothing, ..cell }),
{
}

/// Whether one step along `d` from `p` would cross an edge of the plane.
pub open spec fn pressing_edge(p: AbsoluteCoords, d: Direction) -> bool {
    ||| p.0 == WIDTH && dir_vector(d).0 == 1
    ||| p.0 == -WIDTH && dir_vector(d).0 == -1
    ||| p.1 == HEIGHT && dir_vector(d).1 == 1
    ||| p.1 == -HEIGHT && dir_vector(d).1 == -1
}

/// Boundary clamp: a cell standing on an edge of the plane cannot commit a
/// pending move whose displacement points across that edge; its position is
/// strictly unchanged by the tick. The rejection is all-or-nothing: a
/// diagonal that would cross one axis only is not partially applied.
pub proof fn lemma_boundary_clamp(
    cell: LivingCell,
    population: Seq<LivingCell>,
    chosen: Actions,
    d: Direction,
)
    requires
        in_world(cell.position),
        cell.next_state == Actions::Go(d),
        pressing_edge(cell.position, d),
    ensures
        tick_against(cell, population, chosen).position == cell.position,
{
}

impl LivingCell {
    /// Spawn a live cell at a position drawn uniformly over the plane grid,
    /// with no pending action.
    pub fn new() -> (r: Self)
        ensures
            r.state is Alive,
            r.next_state is DoNothing,
            in_world(r.position),
    {
        let random = seeded_random::Random::new();
        let random_x = random.range(0, 360);
        let random_y = random.range(0, 180);

        Self {
            position: AbsoluteCoords((random_x as i32) - WIDTH, (random_y as i32) - HEIGHT),
            state: CellState::Alive,
            next_state: Actions::DoNothing,
        }
    }

    /// The cell's current world position.
    pub fn get_coords(&self) -> (r: AbsoluteCoords)
        ensures
            r == self.position,
    {
        self.position
    }

    /// Mark the cell dead. Idempotent; position and pending action are left
    /// exactly as they were.
    pub fn kill(&mut self)
        ensures
            final(self).state is Dead,
            final(self).position == old(self).position,
            final(self).next_state == old(self).next_state,
    {
        self.state = CellState::Dead
    }

    /// Whether the destination is safe to enter: on the grid and its slot
    /// empty in the snapshot. An occupied slot and an off-grid destination
    /// are both answered `false`.
    fn safe_to_go(&self, context: &VectorMap, coordinates: AbsoluteCoords) -> (r: bool)
        requires
            coordinates.0 + WIDTH <= i32::MAX,
            coordinates.1 + HEIGHT <= i32::MAX,
        ensures
            r == context.free_at(coordinates),
    {
        if let Some(e) = context.get_xy(MapCoords::from_world(coordinates)) {
            match e {
                VectorMapStates::Void => true,
                VectorMapStates::Creature(_, _) => false,
            }
        } else {
            false
        }
    }

    /// Advance the state machine by one transition against the snapshot,
    /// with `chosen` as the action to adopt if the cell is idle. The whole
    /// effect is pinned by [`tick_spec`]; the position stays on the plane.
    pub fn tick_with(&mut self, context: &VectorMap, chosen: Actions)
        requires
            in_world(old(self).position),
        ensures
            *final(self) == tick_spec(*old(self), *context, chosen),
            in_world(final(self).position),
    {
        if self.state != CellState::Dead {
            let current = self.next_state;
            match current {
                Actions::DoNothing => {
                    self.next_state = chosen;
                },
                Actions::Look(d) => {
                    let d_vec = d.get_vector();
                    let new_pos = add_coords(&self.position, &d_vec);
                    if self.safe_to_go(context, new_pos) {
                        self.next_state = Actions::Go(d);
                    } else {
                        self.next_state = Actions::DoNothing;
                    }
                },
                Actions::Go(d) => {
                    let d_vec = d.get_vector();
                    let new_pos = add_coords(&self.position, &d_vec);
                    if self.safe_to_go(context, new_pos) {
                        self.position = new_pos;
                    }
                    self.next_state = Actions::DoNothing;
                },
            }
        }
    }

    /// Advance the state machine by one transition, drawing the action to
    /// adopt from the random source when the cell is idle. Whatever the
    /// draw, the outcome is one tick for some drawable action.
    pub fn tick(&mut self, context: &VectorMap)
        requires
            in_world(old(self).position),
        ensures
            exists|n: u32|
                n < 9 && *final(self) == tick_spec(*old(self), *context, #[trigger] action_of_index(n)),
            in_world(final(self).position),
    {
        if self.state != CellState::Dead && matches!(self.next_state, Actions::DoNothing) {
            let a = Actions::random();
            self.tick_with(context, a);
        } else {
            self.tick_with(context, Actions::DoNothing);
            assert(action_of_index(8) == Actions::DoNothing);
        }
    }
}

} // verus!
