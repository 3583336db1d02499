use gol::{Cell, Color, GridError, World, WorldBuilder};

fn world_from(width: i32, height: i32, rows: &[&str]) -> World {
    let mut states = Vec::new();
    for row in rows {
        for c in row.chars() {
            states.push(c == '#');
        }
    }
    WorldBuilder::new().world_size(width, height).build_with(&states).unwrap()
}

fn picture(world: &World) -> Vec<String> {
    let mut rows = Vec::new();
    for y in 0..world.height() {
        let mut row = String::new();
        for x in 0..world.width() {
            row.push(if world.cell_is_alive_at(x, y) { '#' } else { '.' });
        }
        rows.push(row);
    }
    rows
}

#[test]
fn new_cell_has_nothing_pending() {
    let live = Cell::new(true);
    assert!(live.is_alive);
    assert!(!live.next_state);
    let dead = Cell::new(false);
    assert!(!dead.is_alive);
    assert!(!dead.next_state);
}

#[test]
fn builder_defaults() {
    let world = WorldBuilder::new().world_size(2, 3).build().unwrap();
    assert_eq!(world.token(), '*');
    assert_eq!(world.color(), Color::Default);
    assert_eq!(world.width(), 2);
    assert_eq!(world.height(), 3);
}

#[test]
fn builder_keeps_colour_and_glyph() {
    let world = WorldBuilder::new()
        .world_size(4, 2)
        .cell_color(Color::Green)
        .cell_token('o')
        .build()
        .unwrap();
    assert_eq!(world.token(), 'o');
    assert_eq!(world.color(), Color::Green);
}

#[test]
fn build_without_size_is_refused() {
    let r = WorldBuilder::new().build();
    assert!(matches!(r, Err(GridError::InvalidDimensions)));
}

#[test]
fn build_with_bad_dimensions_is_refused() {
    assert!(matches!(
        WorldBuilder::new().world_size(0, 5).build(),
        Err(GridError::InvalidDimensions)
    ));
    assert!(matches!(
        WorldBuilder::new().world_size(5, 0).build(),
        Err(GridError::InvalidDimensions)
    ));
    assert!(matches!(
        WorldBuilder::new().world_size(-1, 5).build(),
        Err(GridError::InvalidDimensions)
    ));
    assert!(matches!(
        WorldBuilder::new().world_size(-3, -3).build_with(&vec![true; 9]),
        Err(GridError::InvalidDimensions)
    ));
}

#[test]
fn build_with_wrong_number_of_states_is_refused() {
    let r = WorldBuilder::new().world_size(2, 2).build_with(&vec![true, false, true]);
    assert!(matches!(r, Err(GridError::WrongCellCount)));
    let r = WorldBuilder::new().world_size(2, 2).build_with(&vec![]);
    assert!(matches!(r, Err(GridError::WrongCellCount)));
}

#[test]
fn build_with_places_states_row_by_row() {
    let world = world_from(3, 2, &["#..", ".##"]);
    assert!(world.cell_is_alive_at(0, 0));
    assert!(!world.cell_is_alive_at(1, 0));
    assert!(!world.cell_is_alive_at(2, 0));
    assert!(!world.cell_is_alive_at(0, 1));
    assert!(world.cell_is_alive_at(1, 1));
    assert!(world.cell_is_alive_at(2, 1));
    let cell = world.cell_at(1, 1);
    assert!(cell.is_alive);
    assert!(!cell.next_state);
}

#[test]
fn cell_count_is_width_times_height() {
    let mut world = WorldBuilder::new().world_size(7, 3).build().unwrap();
    assert_eq!(world.cell_count(), 21);
    world.reset();
    assert_eq!(world.cell_count(), 21);
    world.update();
    assert_eq!(world.cell_count(), 21);
    world.resize(4, 5).unwrap();
    assert_eq!(world.cell_count(), 20);
    assert_eq!(world.cell_count(), world.width() * world.height());
}

#[test]
fn reset_keeps_dimensions() {
    let mut world = WorldBuilder::new().world_size(6, 4).cell_token('x').build().unwrap();
    world.reset();
    assert_eq!(world.width(), 6);
    assert_eq!(world.height(), 4);
    assert_eq!(world.cell_count(), 24);
    assert_eq!(world.token(), 'x');
}

#[test]
fn reset_with_replaces_visible_states_only() {
    let mut world = world_from(2, 2, &["#.", ".#"]);
    world.update();
    let pending_before: Vec<bool> =
        vec![world.cell_at(0, 0).next_state, world.cell_at(1, 0).next_state,
             world.cell_at(0, 1).next_state, world.cell_at(1, 1).next_state];
    world.reset_with(&vec![true, true, false, true]).unwrap();
    assert_eq!(picture(&world), vec!["##", ".#"]);
    let pending_after: Vec<bool> =
        vec![world.cell_at(0, 0).next_state, world.cell_at(1, 0).next_state,
             world.cell_at(0, 1).next_state, world.cell_at(1, 1).next_state];
    assert_eq!(pending_before, pending_after);
    assert_eq!(world.width(), 2);
    assert_eq!(world.height(), 2);
}

#[test]
fn reset_with_wrong_number_of_states_changes_nothing() {
    let mut world = world_from(2, 2, &["#.", ".#"]);
    let r = world.reset_with(&vec![true; 5]);
    assert_eq!(r, Err(GridError::WrongCellCount));
    assert_eq!(picture(&world), vec!["#.", ".#"]);
}

#[test]
fn resize_gives_exactly_the_new_number_of_cells() {
    let mut world = WorldBuilder::new().world_size(3, 3).build().unwrap();
    assert_eq!(world.resize(10, 2), Ok(()));
    assert_eq!(world.width(), 10);
    assert_eq!(world.height(), 2);
    assert_eq!(world.cell_count(), 20);
    assert_eq!(world.resize(1, 1), Ok(()));
    assert_eq!(world.cell_count(), 1);
    for y in 0..world.height() {
        for x in 0..world.width() {
            assert!(!world.cell_at(x, y).next_state);
        }
    }
}

#[test]
fn resize_to_nothing_is_refused() {
    let mut world = world_from(2, 2, &["#.", ".#"]);
    assert_eq!(world.resize(0, 4), Err(GridError::InvalidDimensions));
    assert_eq!(world.resize(4, 0), Err(GridError::InvalidDimensions));
    assert_eq!(world.resize_with(0, 0, &vec![]), Err(GridError::InvalidDimensions));
    assert_eq!(picture(&world), vec!["#.", ".#"]);
}

#[test]
fn resize_with_takes_the_given_states() {
    let mut world = world_from(2, 2, &["##", "##"]);
    world.update();
    assert_eq!(world.resize_with(3, 1, &vec![false, true, false]), Ok(()));
    assert_eq!(picture(&world), vec![".#."]);
    assert!(!world.cell_at(1, 0).next_state);
    assert_eq!(
        world.resize_with(3, 2, &vec![false, true, false]),
        Err(GridError::WrongCellCount)
    );
    assert_eq!(picture(&world), vec![".#."]);
}

#[test]
fn two_neighbours_keep_the_state() {
    // The centre has exactly two live neighbours.
    let mut alive = world_from(3, 3, &["#..", ".#.", "..#"]);
    alive.update();
    assert!(alive.cell_is_alive_at(1, 1));
    let mut dead = world_from(3, 3, &["#..", "...", "..#"]);
    dead.update();
    assert!(!dead.cell_is_alive_at(1, 1));
}

#[test]
fn three_neighbours_give_life() {
    let mut dead = world_from(3, 3, &["#.#", "...", "..#"]);
    dead.update();
    assert!(dead.cell_is_alive_at(1, 1));
    let mut alive = world_from(3, 3, &["#.#", ".#.", "..#"]);
    alive.update();
    assert!(alive.cell_is_alive_at(1, 1));
}

#[test]
fn other_counts_give_death() {
    let cases: [[&str; 3]; 7] = [
        ["...", ".#.", "..."],
        ["#..", ".#.", "..."],
        ["#.#", ".#.", "#.#"],
        ["###", ".#.", "#.#"],
        ["###", "##.", "#.#"],
        ["###", "###", "#.#"],
        ["###", "###", "###"],
    ];
    for rows in cases.iter() {
        let mut world = world_from(3, 3, rows);
        world.update();
        assert!(!world.cell_is_alive_at(1, 1));
    }
}

#[test]
fn border_does_not_wrap() {
    // On a full grid a corner sees three neighbours and lives, an edge sees
    // five and dies, the centre sees eight and dies.
    let mut world = world_from(3, 3, &["###", "###", "###"]);
    world.update();
    assert_eq!(picture(&world), vec!["#.#", "...", "#.#"]);
    // A live column on the right edge adds nothing to the left edge.
    let mut world = world_from(4, 3, &["...#", "...#", "...#"]);
    world.update();
    assert_eq!(picture(&world), vec!["....", "..##", "...."]);
}

#[test]
fn single_row_and_single_cell() {
    let mut world = world_from(3, 1, &["###"]);
    world.update();
    assert_eq!(picture(&world), vec![".#."]);
    let mut world = world_from(1, 1, &["#"]);
    world.update();
    assert_eq!(picture(&world), vec!["."]);
}

#[test]
fn update_commits_pending_states() {
    let mut world = world_from(3, 3, &["...", "###", "..."]);
    world.update();
    for y in 0..3 {
        for x in 0..3 {
            let cell = world.cell_at(x, y);
            assert_eq!(cell.is_alive, cell.next_state);
        }
    }
}

#[test]
fn block_is_a_still_life() {
    let rows = ["......", "..##..", "..##..", "......"];
    let mut world = world_from(6, 4, &rows);
    for _ in 0..10 {
        world.update();
        assert_eq!(picture(&world), rows.to_vec());
    }
}

#[test]
fn blinker_oscillates() {
    let horizontal = [".....", ".....", ".###.", ".....", "....."];
    let vertical = [".....", "..#..", "..#..", "..#..", "....."];
    let mut world = world_from(5, 5, &horizontal);
    world.update();
    assert_eq!(picture(&world), vertical.to_vec());
    world.update();
    assert_eq!(picture(&world), horizontal.to_vec());
}

#[test]
fn block_in_five_by_five_survives_a_step() {
    let mut world = WorldBuilder::new().world_size(5, 5).build_with(&vec![false; 25]).unwrap();
    let mut states = vec![false; 25];
    for (x, y) in [(1usize, 1usize), (2, 1), (1, 2), (2, 2)] {
        states[y * 5 + x] = true;
    }
    world.reset_with(&states).unwrap();
    world.update();
    let mut alive = 0;
    for y in 0..5 {
        for x in 0..5 {
            let in_block = (1..=2).contains(&x) && (1..=2).contains(&y);
            assert_eq!(world.cell_is_alive_at(x, y), in_block);
            if world.cell_is_alive_at(x, y) {
                alive += 1;
            }
        }
    }
    assert_eq!(alive, 4);
    assert_eq!(world.cell_count() - alive, 21);
}

#[test]
fn glider_moves_as_a_whole() {
    let mut world = world_from(5, 5, &[".#...", "..#..", "###..", ".....", "....."]);
    world.update();
    assert_eq!(picture(&world), vec![".....", "#.#..", ".##..", ".#...", "....."]);
}
