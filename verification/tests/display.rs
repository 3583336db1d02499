use gol::random::random_states;
use gol::{
    dispatch, Color, Command, Config, DrawCall, GridError, InputEvent, WorldBuilder,
    DEFAULT_TICK_MILLIS, DEFAULT_TOKEN,
};

#[test]
fn render_draws_live_cells_row_by_row() {
    let states = vec![false, true, false, true, true, false];
    let world = WorldBuilder::new()
        .world_size(3, 2)
        .cell_color(Color::Red)
        .cell_token('@')
        .build_with(&states)
        .unwrap();
    let draws = world.render();
    let call = |x, y| DrawCall { x, y, color: Color::Red, token: '@' };
    assert_eq!(draws, vec![call(1, 0), call(0, 1), call(1, 1)]);
}

#[test]
fn render_of_a_dead_world_draws_nothing() {
    let world = WorldBuilder::new().world_size(4, 4).build_with(&vec![false; 16]).unwrap();
    assert!(world.render().is_empty());
}

#[test]
fn render_of_a_full_world_draws_every_cell() {
    let world = WorldBuilder::new().world_size(3, 2).build_with(&vec![true; 6]).unwrap();
    let draws = world.render();
    assert_eq!(draws.len(), 6);
    for (i, d) in draws.iter().enumerate() {
        assert_eq!(d.x, i % 3);
        assert_eq!(d.y, i / 3);
        assert_eq!(d.token, '*');
        assert_eq!(d.color, Color::Default);
    }
}

#[test]
fn random_states_have_the_length_asked_for() {
    assert_eq!(random_states(0).len(), 0);
    assert_eq!(random_states(1).len(), 1);
    assert_eq!(random_states(1000).len(), 1000);
}

#[test]
fn random_worlds_are_not_all_alike() {
    // Among 4096 fair draws both outcomes occur, but for a chance of 2^-4095.
    let states = random_states(4096);
    assert!(states.iter().any(|b| *b));
    assert!(states.iter().any(|b| !*b));
}

#[test]
fn default_tick_is_a_tenth_of_a_second() {
    assert_eq!(DEFAULT_TICK_MILLIS, 100);
}

#[test]
fn quit_key_leaves_the_loop() {
    let states = vec![true, false, false, true];
    let mut world = WorldBuilder::new().world_size(2, 2).build_with(&states).unwrap();
    assert_eq!(dispatch(&mut world, InputEvent::Key('q')), Ok(Command::Quit));
    assert!(world.cell_is_alive_at(0, 0));
    assert!(!world.cell_is_alive_at(1, 0));
    assert!(!world.cell_is_alive_at(0, 1));
    assert!(world.cell_is_alive_at(1, 1));
}

#[test]
fn reset_key_keeps_the_shape() {
    let mut world = WorldBuilder::new().world_size(8, 3).build().unwrap();
    assert_eq!(dispatch(&mut world, InputEvent::Key('r')), Ok(Command::Continue));
    assert_eq!(world.width(), 8);
    assert_eq!(world.height(), 3);
    assert_eq!(world.cell_count(), 24);
}

#[test]
fn other_events_change_nothing() {
    let states = vec![true, false, false, true];
    let mut world = WorldBuilder::new().world_size(2, 2).build_with(&states).unwrap();
    assert_eq!(dispatch(&mut world, InputEvent::Key('x')), Ok(Command::Continue));
    assert_eq!(dispatch(&mut world, InputEvent::Key('Q')), Ok(Command::Continue));
    assert_eq!(dispatch(&mut world, InputEvent::Other), Ok(Command::Continue));
    assert!(world.cell_is_alive_at(0, 0));
    assert!(!world.cell_is_alive_at(1, 0));
    assert!(!world.cell_is_alive_at(0, 1));
    assert!(world.cell_is_alive_at(1, 1));
}

#[test]
fn resize_event_replaces_the_grid() {
    let mut world = WorldBuilder::new().world_size(2, 2).cell_token('+').build().unwrap();
    assert_eq!(dispatch(&mut world, InputEvent::Resize(9, 4)), Ok(Command::Continue));
    assert_eq!(world.width(), 9);
    assert_eq!(world.height(), 4);
    assert_eq!(world.cell_count(), 36);
    assert_eq!(world.token(), '+');
}

#[test]
fn resize_event_without_room_is_refused() {
    let mut world = WorldBuilder::new().world_size(2, 2).build().unwrap();
    assert_eq!(dispatch(&mut world, InputEvent::Resize(0, 4)), Err(GridError::InvalidDimensions));
    assert_eq!(dispatch(&mut world, InputEvent::Resize(5, -1)), Err(GridError::InvalidDimensions));
    assert_eq!(world.width(), 2);
    assert_eq!(world.height(), 2);
}

#[test]
fn colour_names() {
    assert_eq!(Color::from_name("red"), Color::Red);
    assert_eq!(Color::from_name("blue"), Color::Blue);
    assert_eq!(Color::from_name("green"), Color::Green);
    assert_eq!(Color::from_name("white"), Color::White);
    assert_eq!(Color::from_name("black"), Color::Black);
    assert_eq!(Color::from_name("yellow"), Color::Yellow);
    assert_eq!(Color::from_name(""), Color::Default);
    assert_eq!(Color::from_name("Red"), Color::Default);
    assert_eq!(Color::from_name("magenta"), Color::Default);
    assert_eq!(Color::from_name("default"), Color::Default);
}

#[test]
fn config_defaults() {
    let config = Config::default();
    assert_eq!(config, Config { color: Color::Default, token: '*', tick_millis: 100 });
    assert_eq!(Config::new(None, None, None), config);
    assert_eq!(Config::new(None, None, Some("")), config);
    assert_eq!(DEFAULT_TOKEN, '*');
}

#[test]
fn config_takes_what_is_given() {
    let config = Config::new(Some("yellow"), Some(250), Some("#!"));
    assert_eq!(config, Config { color: Color::Yellow, token: '#', tick_millis: 250 });
    let config = Config::new(Some("purple"), Some(0), Some("é"));
    assert_eq!(config, Config { color: Color::Default, token: 'é', tick_millis: 0 });
}
