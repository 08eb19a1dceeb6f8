use cellsim::creatures::{Actions, CellState, Direction, LivingCell, AbsoluteCoords};
use cellsim::sim::{kill_all, positions, spawn_cells, step, step_with};
use cellsim::{HEIGHT, WIDTH};
use seeded_random::{Random, Seed};

fn cell_at(x: i32, y: i32, next: Actions) -> LivingCell {
    LivingCell {
        position: AbsoluteCoords(x, y),
        state: CellState::Alive,
        next_state: next,
    }
}

fn idle_choices(n: usize) -> Vec<Actions> {
    vec![Actions::DoNothing; n]
}

#[test]
#[allow(non_snake_case)]
fn testMaps() {
    let _c = LivingCell::new();
}

#[test]
fn go_commits_the_whole_displacement() {
    let mut cells = vec![cell_at(3, 4, Actions::Go(Direction::RightForward))];
    step_with(&mut cells, &idle_choices(1));
    assert_eq!(cells[0].position, AbsoluteCoords(4, 5));
    assert_eq!(cells[0].next_state, Actions::DoNothing);

    let mut cells = vec![cell_at(0, 0, Actions::Go(Direction::Backward))];
    step_with(&mut cells, &idle_choices(1));
    assert_eq!(cells[0].position, AbsoluteCoords(0, -1));
}

#[test]
fn look_arms_go_and_then_moves() {
    let mut cells = vec![cell_at(2, 2, Actions::Look(Direction::Forward))];
    step_with(&mut cells, &idle_choices(1));
    assert_eq!(cells[0].position, AbsoluteCoords(2, 2));
    assert_eq!(cells[0].next_state, Actions::Go(Direction::Forward));
    step_with(&mut cells, &idle_choices(1));
    assert_eq!(cells[0].position, AbsoluteCoords(2, 3));
}

#[test]
fn look_at_occupied_slot_cancels_the_move() {
    let mut cells = vec![
        cell_at(2, 2, Actions::Look(Direction::Forward)),
        cell_at(2, 3, Actions::DoNothing),
    ];
    step_with(&mut cells, &idle_choices(2));
    assert_eq!(cells[0].position, AbsoluteCoords(2, 2));
    assert_eq!(cells[0].next_state, Actions::DoNothing);
}

#[test]
fn collision_with_occupied_cell_is_rejected() {
    // Agent A is idle and agent B occupies the slot directly forward of A:
    // A adopts the forward move, then fails to commit it; its position
    // never changes.
    let mut cells = vec![
        cell_at(0, 0, Actions::DoNothing),
        cell_at(0, 1, Actions::DoNothing),
    ];
    let choices = vec![Actions::Go(Direction::Forward), Actions::DoNothing];
    step_with(&mut cells, &choices);
    assert_eq!(cells[0].position, AbsoluteCoords(0, 0));
    assert_eq!(cells[0].next_state, Actions::Go(Direction::Forward));
    step_with(&mut cells, &choices);
    assert_eq!(cells[0].position, AbsoluteCoords(0, 0));
    assert_eq!(cells[1].position, AbsoluteCoords(0, 1));
}

#[test]
fn boundary_clamp_rejects_moves_off_the_plane() {
    let mut cells = vec![
        cell_at(WIDTH, 0, Actions::Go(Direction::Right)),
        cell_at(0, HEIGHT, Actions::Go(Direction::Forward)),
        cell_at(-WIDTH, 0, Actions::Go(Direction::Left)),
        cell_at(WIDTH, 5, Actions::Go(Direction::RightForward)),
    ];
    step_with(&mut cells, &idle_choices(4));
    assert_eq!(cells[0].position, AbsoluteCoords(WIDTH, 0));
    assert_eq!(cells[1].position, AbsoluteCoords(0, HEIGHT));
    assert_eq!(cells[2].position, AbsoluteCoords(-WIDTH, 0));
    // All-or-nothing: the diagonal is not partially applied on the y axis.
    assert_eq!(cells[3].position, AbsoluteCoords(WIDTH, 5));
}

#[test]
fn dead_agents_freeze() {
    let mut cells = vec![
        cell_at(7, -2, Actions::Go(Direction::Left)),
        cell_at(30, 30, Actions::DoNothing),
    ];
    cells[0].kill();
    let frozen = cells[0].clone();
    for _ in 0..5 {
        step(&mut cells);
    }
    assert_eq!(cells[0].position, frozen.position);
    assert_eq!(cells[0].next_state, frozen.next_state);
    assert_eq!(cells[0].state, CellState::Dead);
    // kill is idempotent.
    cells[0].kill();
    assert_eq!(cells[0].position, frozen.position);
    assert_eq!(cells[0].next_state, frozen.next_state);
}

#[test]
fn determinism_under_fixed_randomness() {
    let start = vec![
        cell_at(0, 0, Actions::DoNothing),
        cell_at(5, 5, Actions::DoNothing),
        cell_at(-3, 7, Actions::DoNothing),
        cell_at(120, -60, Actions::DoNothing),
    ];
    let mut first = start.clone();
    let mut second = start.clone();
    let rng_first = Random::from_seed(Seed::unsafe_new(42));
    let rng_second = Random::from_seed(Seed::unsafe_new(42));
    for _ in 0..12 {
        let choices_first: Vec<Actions> =
            (0..first.len()).map(|_| Actions::from_index(rng_first.range(0, 9))).collect();
        let choices_second: Vec<Actions> =
            (0..second.len()).map(|_| Actions::from_index(rng_second.range(0, 9))).collect();
        assert_eq!(choices_first, choices_second);
        step_with(&mut first, &choices_first);
        step_with(&mut second, &choices_second);
        assert_eq!(positions(&first), positions(&second));
    }
}

#[test]
fn step_keeps_population_on_the_plane() {
    let mut cells = spawn_cells(60);
    for _ in 0..10 {
        step(&mut cells);
        assert_eq!(cells.len(), 60);
        for c in &cells {
            let p = c.get_coords();
            assert!(-WIDTH <= p.0 && p.0 <= WIDTH);
            assert!(-HEIGHT <= p.1 && p.1 <= HEIGHT);
        }
    }
}

#[test]
fn spawned_cells_are_live_idle_and_on_the_plane() {
    let cells = spawn_cells(100);
    assert_eq!(cells.len(), 100);
    for c in &cells {
        assert_eq!(c.state, CellState::Alive);
        assert_eq!(c.next_state, Actions::DoNothing);
        let p = c.get_coords();
        assert!(-WIDTH <= p.0 && p.0 <= WIDTH);
        assert!(-HEIGHT <= p.1 && p.1 <= HEIGHT);
    }
}

#[test]
fn random_direction_is_never_the_no_op() {
    // The draw ranges over the eight compass directions only; the explicit
    // no-op is outside the half-open range of the source.
    for _ in 0..100 {
        assert_ne!(Direction::random(), Direction::Idle);
    }
}

#[test]
fn random_action_is_a_move_or_nothing() {
    for _ in 0..100 {
        let a = Actions::random();
        assert!(matches!(a, Actions::Go(_) | Actions::DoNothing));
    }
}

#[test]
fn kill_all_marks_every_cell_dead_in_place() {
    let mut cells = vec![
        cell_at(1, 2, Actions::Go(Direction::Forward)),
        cell_at(3, 4, Actions::DoNothing),
    ];
    kill_all(&mut cells);
    assert_eq!(cells.len(), 2);
    assert_eq!(cells[0].state, CellState::Dead);
    assert_eq!(cells[1].state, CellState::Dead);
    assert_eq!(cells[0].position, AbsoluteCoords(1, 2));
    assert_eq!(cells[0].next_state, Actions::Go(Direction::Forward));
}

#[test]
fn positions_reads_every_cell_in_order() {
    let cells = vec![
        cell_at(1, 2, Actions::DoNothing),
        cell_at(-3, 4, Actions::DoNothing),
    ];
    let ps = positions(&cells);
    assert_eq!(ps, vec![AbsoluteCoords(1, 2), AbsoluteCoords(-3, 4)]);
}

#[test]
fn same_tick_moves_use_the_stale_snapshot() {
    // Two cells both see the slot between them as empty in the snapshot
    // taken at the start of the tick, so both may move onto it; the overlap
    // is the documented collision approximation.
    let mut cells = vec![
        cell_at(0, 0, Actions::Go(Direction::Right)),
        cell_at(2, 0, Actions::Go(Direction::Left)),
    ];
    step_with(&mut cells, &idle_choices(2));
    assert_eq!(cells[0].position, AbsoluteCoords(1, 0));
    assert_eq!(cells[1].position, AbsoluteCoords(1, 0));
}
