use road_intersection::input::{Direction, GameEvent, InputEvent, InputHandler, Key};
use road_intersection::map::intersection::LaneId;

fn key(k: Key) -> InputEvent {
    InputEvent::KeyDown { key: k, repeat: false }
}

#[test]
fn direction_index_follows_north_south_east_west() {
    assert_eq!(Direction::North.index(), 0);
    assert_eq!(Direction::South.index(), 1);
    assert_eq!(Direction::East.index(), 2);
    assert_eq!(Direction::West.index(), 3);
}

#[test]
fn direction_and_lane_convert_both_ways() {
    assert_eq!(Direction::from_lane(LaneId::NorthIn), Direction::North);
    assert_eq!(Direction::from_lane(LaneId::SouthIn), Direction::South);
    assert_eq!(Direction::from_lane(LaneId::EastIn), Direction::East);
    assert_eq!(Direction::from_lane(LaneId::WestIn), Direction::West);
    for d in [Direction::North, Direction::South, Direction::East, Direction::West] {
        assert_eq!(Direction::from_lane(d.to_lane()), d);
    }
    assert_eq!(Direction::West.to_lane(), LaneId::WestIn);
}

#[test]
fn random_direction_is_round_robin_and_wraps() {
    let mut counter: u8 = 0;
    let picks: Vec<Direction> = (0..5).map(|_| Direction::random(&mut counter)).collect();
    assert_eq!(
        picks,
        vec![Direction::North, Direction::South, Direction::East, Direction::West, Direction::North]
    );
    assert_eq!(counter, 5);
    let mut counter: u8 = 255;
    assert_eq!(Direction::random(&mut counter), Direction::West);
    assert_eq!(counter, 0);
}

#[test]
fn arrow_keys_spawn_from_the_opposite_side() {
    let mut h = InputHandler::new();
    let out = h.poll(&vec![key(Key::Up), key(Key::Down), key(Key::Right), key(Key::Left)]);
    assert_eq!(
        out,
        vec![
            GameEvent::SpawnVehicle(Direction::South),
            GameEvent::SpawnVehicle(Direction::North),
            GameEvent::SpawnVehicle(Direction::West),
            GameEvent::SpawnVehicle(Direction::East),
        ]
    );
}

#[test]
fn spawning_cannot_be_spammed() {
    let mut h = InputHandler::new();
    let out = h.poll(&vec![key(Key::Up), key(Key::Up), key(Key::Up)]);
    assert_eq!(out, vec![GameEvent::SpawnVehicle(Direction::South)]);
    // Still blocked on a later poll, until the vehicle has cleared the spawn point.
    assert_eq!(h.poll(&vec![key(Key::Up)]), vec![]);
    h.clear_spawn(Direction::South);
    assert_eq!(h.poll(&vec![key(Key::Up)]), vec![GameEvent::SpawnVehicle(Direction::South)]);
}

#[test]
fn clearing_one_direction_leaves_the_others_blocked() {
    let mut h = InputHandler::new();
    h.poll(&vec![key(Key::Up), key(Key::Down)]);
    h.clear_spawn(Direction::North);
    assert_eq!(
        h.poll(&vec![key(Key::Up), key(Key::Down)]),
        vec![GameEvent::SpawnVehicle(Direction::North)]
    );
}

#[test]
fn held_key_repeats_are_ignored() {
    let mut h = InputHandler::new();
    let out = h.poll(&vec![InputEvent::KeyDown { key: Key::Left, repeat: true }]);
    assert_eq!(out, vec![]);
}

#[test]
fn escape_and_window_close_quit() {
    let mut h = InputHandler::new();
    let out = h.poll(&vec![
        InputEvent::KeyDown { key: Key::Escape, repeat: true },
        InputEvent::Quit,
        InputEvent::Other,
        key(Key::Other),
    ]);
    assert_eq!(out, vec![GameEvent::Quit, GameEvent::Quit]);
}

#[test]
fn r_key_cycles_through_directions() {
    let mut h = InputHandler::new();
    let out = h.poll(&vec![key(Key::R), key(Key::R), key(Key::R), key(Key::R), key(Key::R)]);
    // The fifth press comes back to North, which is still blocked.
    assert_eq!(
        out,
        vec![
            GameEvent::SpawnVehicle(Direction::North),
            GameEvent::SpawnVehicle(Direction::South),
            GameEvent::SpawnVehicle(Direction::East),
            GameEvent::SpawnVehicle(Direction::West),
        ]
    );
}

#[test]
fn r_key_spends_its_turn_even_when_blocked() {
    let mut h = InputHandler::new();
    // Down blocks North; `r` then picks North (blocked, nothing) and then South.
    let out = h.poll(&vec![key(Key::Down), key(Key::R), key(Key::R)]);
    assert_eq!(
        out,
        vec![GameEvent::SpawnVehicle(Direction::North), GameEvent::SpawnVehicle(Direction::South)]
    );
}
