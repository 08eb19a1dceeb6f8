//! One discrete time step for the whole population: build a single
//! occupancy snapshot from every cell's current position, then tick every
//! cell in a fixed order against that one snapshot. The snapshot is never
//! refreshed mid-step, so two cells may both see a slot as empty and move
//! onto it in the same tick; the next tick's snapshot corrects the picture.

use vstd::prelude::*;

use crate::creatures::{
    action_of_index, in_world, tick_against, Actions, CellState, LivingCell, AbsoluteCoords,
};
use crate::map::VectorMap;
use crate::{HEIGHT, WIDTH};

verus! {

/// Every position of the population lies on the plane.
pub open spec fn all_in_world(cells: Seq<LivingCell>) -> bool {
    forall|i: int| 0 <= i < cells.len() ==> in_world(#[trigger] cells[i].position)
}

/// An action the random source can actually hand out.
pub open spec fn random_choice(a: Actions) -> bool {
    exists|n: u32| n < 9 && a == #[trigger] action_of_index(n)
}

/// Every entry of a drawn action sequence is a drawable action.
pub open spec fn all_random_choices(chosen: Seq<Actions>) -> bool {
    forall|i: int| 0 <= i < chosen.len() ==> random_choice(#[trigger] chosen[i])
}

/// The whole effect of one step: every cell is ticked against the snapshot
/// of the starting population, with `chosen[i]` as the action cell `i`
/// adopts if it is idle.
pub open spec fn step_with_spec(cells: Seq<LivingCell>, chosen: Seq<Actions>) -> Seq<LivingCell> {
    Seq::new(cells.len(), |i: int| tick_against(cells[i], cells, chosen[i]))
}

/// Advance the simulation by one tick with an injected action sequence:
/// the deterministic core of [`step`]. The outcome is a function of the
/// starting population and the drawn actions alone.
pub fn step_with(cells: &mut Vec<LivingCell>, chosen: &Vec<Actions>)
    requires
        chosen@.len() == old(cells)@.len(),
        all_in_world(old(cells)@),
    ensures
        final(cells)@ == step_with_spec(old(cells)@, chosen@),
        all_in_world(final(cells)@),
{
    let ghost orig = cells@;
    let vm = VectorMap::new(cells);
    let mut i: usize = 0;
    while i < cells.len()
        invariant
            i <= orig.len(),
            cells@.len() == orig.len(),
            chosen@.len() == orig.len(),
            all_in_world(orig),
            forall|gx: int, gy: int|
                0 <= gx < 2 * WIDTH && 0 <= gy < 2 * HEIGHT ==> #[trigger] vm.slot(gx, gy)
                    == crate::map::built_slot(orig, crate::map::MapCoords(gx as i32, gy as i32)),
            forall|j: int|
                0 <= j < i ==> #[trigger] cells@[j] == tick_against(orig[j], orig, chosen@[j])
                    && in_world(cells@[j].position),
            forall|j: int| i <= j < orig.len() ==> #[trigger] cells@[j] == orig[j],
        decreases orig.len() - i,
    {
        let mut c = cells[i];
        c.tick_with(&vm, chosen[i]);
        proof {
            crate::creatures::lemma_tick_spec_against(orig[i as int], vm, orig, chosen@[i as int]);
        }
        cells[i] = c;
        i = i + 1;
    }
    proof {
        assert(cells@ =~= step_with_spec(orig, chosen@));
    }
}

/// Advance the simulation by one tick, drawing every idle cell's next
/// action from the random source. Whatever the draws, the new population
/// is exactly one deterministic step for some drawable action sequence.
pub fn step(cells: &mut Vec<LivingCell>)
    requires
        all_in_world(old(cells)@),
    ensures
        exists|chosen: Seq<Actions>|
            {
                &&& chosen.len() == old(cells)@.len()
                &&& all_random_choices(chosen)
                &&& final(cells)@ == #[trigger] step_with_spec(old(cells)@, chosen)
            },
        all_in_world(final(cells)@),
{
    let mut chosen: Vec<Actions> = Vec::new();
    let total: usize = cells.len();
    while chosen.len() < total
        invariant
            chosen@.len() <= total,
            all_random_choices(chosen@),
        decreases total - chosen@.len(),
    {
        chosen.push(Actions::random());
    }
    step_with(cells, &chosen);
}

/// Mark every cell of the population dead, touching nothing else.
pub fn kill_all(cells: &mut Vec<LivingCell>)
    ensures
        final(cells)@.len() == old(cells)@.len(),
        forall|i: int|
            0 <= i < old(cells)@.len() ==> #[trigger] final(cells)@[i] == (LivingCell {
                state: CellState::Dead,
                ..old(cells)@[i]
            }),
{
    let ghost orig = cells@;
    let mut i: usize = 0;
    while i < cells.len()
        invariant
            i <= orig.len(),
            cells@.len() == orig.len(),
            forall|j: int|
                0 <= j < i ==> #[trigger] cells@[j] == (LivingCell {
                    state: CellState::Dead,
                    ..orig[j]
                }),
            forall|j: int| i <= j < orig.len() ==> #[trigger] cells@[j] == orig[j],
        decreases orig.len() - i,
    {
        let mut c = cells[i];
        c.kill();
        cells[i] = c;
        i = i + 1;
    }
}

/// The current position of every cell, in population order; read by the
/// renderer once per tick.
pub fn positions(cells: &Vec<LivingCell>) -> (r: Vec<AbsoluteCoords>)
    ensures
        r@.len() == cells@.len(),
        forall|i: int| 0 <= i < cells@.len() ==> #[trigger] r@[i] == cells@[i].position,
{
    let mut r: Vec<AbsoluteCoords> = Vec::new();
    let mut i: usize = 0;
    while i < cells.len()
        invariant
            i <= cells@.len(),
            r@.len() == i,
            forall|j: int| 0 <= j < i ==> #[trigger] r@[j] == cells@[j].position,
        decreases cells@.len() - i,
    {
        r.push(cells[i].get_coords());
        i = i + 1;
    }
    r
}

/// Spawn a population of live, idle cells at random positions on the
/// plane.
pub fn spawn_cells(count: usize) -> (r: Vec<LivingCell>)
    ensures
        r@.len() == count,
        all_in_world(r@),
        forall|i: int|
            0 <= i < count ==> (#[trigger] r@[i]).state is Alive && r@[i].next_state is DoNothing,
{
    let mut r: Vec<LivingCell> = Vec::new();
    while r.len() < count
        invariant
            r@.len() <= count,
            all_in_world(r@),
            forall|i: int|
                0 <= i < r@.len() ==> (#[trigger] r@[i]).state is Alive
                    && r@[i].next_state is DoNothing,
        decreases count - r@.len(),
    {
        r.push(LivingCell::new());
    }
    r
}

/// The whole evolution of a run: fold one deterministic step per entry of
/// `choices` over the starting population.
pub open spec fn run_spec(cells: Seq<LivingCell>, choices: Seq<Seq<Actions>>) -> Seq<LivingCell>
    decreases choices.len(),
{
    if choices.len() == 0 {
        cells
    } else {
        run_spec(step_with_spec(cells, choices.first()), choices.drop_first())
    }
}

/// Dead cells freeze: once a cell is dead, any number of further steps
/// leaves its position and its pending action exactly as they were at the
/// moment it died.
pub proof fn lemma_dead_cell_frozen(cells: Seq<LivingCell>, choices: Seq<Seq<Actions>>, i: int)
    requires
        0 <= i < cells.len(),
        cells[i].state is Dead,
    ensures
        run_spec(cells, choices).len() == cells.len(),
        run_spec(cells, choices)[i] == cells[i],
    decreases choices.len(),
{
    if choices.len() == 0 {
    } else {
        let next = step_with_spec(cells, choices.first());
        assert(next[i] == tick_against(cells[i], cells, choices.first()[i]));
        assert(next[i] == cells[i]);
        lemma_dead_cell_frozen(next, choices.drop_first(), i);
    }
}

/// Determinism: the evolution of a run is a function of the starting
/// population and the drawn action sequences alone, so two runs that start
/// from the same population and draw the same actions coincide, tick for
/// tick.
pub proof fn lemma_run_deterministic(
    first: Seq<LivingCell>,
    second: Seq<LivingCell>,
    choices: Seq<Seq<Actions>>,
)
    requires
        first == second,
    ensures
        run_spec(first, choices) == run_spec(second, choices),
{
}

} // verus!
