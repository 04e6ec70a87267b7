use road_intersection::input::Direction;
use road_intersection::render::{Rect, Rgb, Shape};
use road_intersection::traffic_light::controller::{
    lane_capacity, EntryLane, TrafficLightController, MAX_DURATION_NANOS,
};

/// One frame at 60 frames per second, as `Duration::from_nanos(1_000_000_000 / 60)`.
const FRAME: u128 = 1_000_000_000 / 60;

fn greens(c: &TrafficLightController) -> [bool; 4] {
    [
        c.is_green(EntryLane::North),
        c.is_green(EntryLane::South),
        c.is_green(EntryLane::East),
        c.is_green(EntryLane::West),
    ]
}

fn run(c: &mut TrafficLightController, frames: usize, counts: [u32; 4]) {
    for _ in 0..frames {
        c.update(FRAME, counts);
    }
}

#[test]
fn lane_capacity_is_twelve() {
    // floor(340 / (20 + 8))
    assert_eq!(lane_capacity(), 12);
}

#[test]
fn entry_lane_index_and_from_direction() {
    assert_eq!(EntryLane::North.index(), 0);
    assert_eq!(EntryLane::South.index(), 1);
    assert_eq!(EntryLane::East.index(), 2);
    assert_eq!(EntryLane::West.index(), 3);
    assert_eq!(EntryLane::from(Direction::East), EntryLane::East);
    assert_eq!(EntryLane::from(Direction::North), EntryLane::North);
}

#[test]
fn starts_all_red() {
    let c = TrafficLightController::new();
    assert_eq!(greens(&c), [false; 4]);
    assert_eq!(c.phase_elapsed_nanos(), 0);
    let d = TrafficLightController::default();
    assert_eq!(greens(&d), [false; 4]);
}

#[test]
fn all_red_lasts_800_ms_then_north_south_turns_green() {
    let mut c = TrafficLightController::new();
    // 48 frames are 799.99997 ms: still all red.
    run(&mut c, 48, [0; 4]);
    assert_eq!(greens(&c), [false; 4]);
    run(&mut c, 1, [0; 4]);
    assert_eq!(greens(&c), [true, true, false, false]);
    assert_eq!(c.phase_elapsed_nanos(), 0);
}

#[test]
fn quiet_green_ends_after_base_time() {
    let mut c = TrafficLightController::new();
    run(&mut c, 49, [0; 4]);
    // 240 frames are just short of 4 s.
    run(&mut c, 240, [0; 4]);
    assert_eq!(greens(&c), [true, true, false, false]);
    run(&mut c, 1, [0; 4]);
    assert_eq!(greens(&c), [false; 4]);
}

#[test]
fn congestion_extends_green_up_to_the_maximum() {
    let mut c = TrafficLightController::new();
    run(&mut c, 49, [0; 4]);
    // Five vehicles queue from the south: congested.
    run(&mut c, 720, [0, 5, 0, 0]);
    assert_eq!(greens(&c), [true, true, false, false]);
    run(&mut c, 1, [0, 5, 0, 0]);
    assert_eq!(greens(&c), [false; 4]);
}

#[test]
fn congestion_on_the_other_axis_does_not_extend() {
    let mut c = TrafficLightController::new();
    run(&mut c, 49, [0; 4]);
    run(&mut c, 241, [0, 0, 12, 12]);
    assert_eq!(greens(&c), [false; 4]);
}

#[test]
fn ten_vehicles_count_as_congested_by_share_of_capacity() {
    // Four is below both thresholds; congestion starts at five.
    let mut c = TrafficLightController::new();
    run(&mut c, 49, [0; 4]);
    run(&mut c, 241, [4, 4, 0, 0]);
    assert_eq!(greens(&c), [false; 4]);
    let mut c = TrafficLightController::new();
    run(&mut c, 49, [0; 4]);
    run(&mut c, 241, [10, 0, 0, 0]);
    assert_eq!(greens(&c), [true, true, false, false]);
}

#[test]
fn axes_alternate_through_all_red() {
    let mut c = TrafficLightController::new();
    run(&mut c, 49, [0; 4]);
    run(&mut c, 241, [0; 4]);
    assert_eq!(greens(&c), [false; 4]);
    run(&mut c, 49, [0; 4]);
    assert_eq!(greens(&c), [false, false, true, true]);
    run(&mut c, 241, [0; 4]);
    run(&mut c, 49, [0; 4]);
    assert_eq!(greens(&c), [true, true, false, false]);
}

#[test]
fn a_long_step_switches_at_once() {
    let mut c = TrafficLightController::new();
    c.update(5_000_000_000, [0; 4]);
    assert_eq!(greens(&c), [true, true, false, false]);
    c.update(20_000_000_000, [9, 9, 9, 9]);
    assert_eq!(greens(&c), [false; 4]);
    assert!(MAX_DURATION_NANOS > 20_000_000_000);
}

#[test]
fn draw_commands_paint_four_lights() {
    let mut c = TrafficLightController::new();
    run(&mut c, 49, [0; 4]);
    let cmds = c.draw_commands();
    assert_eq!(cmds.len(), 16);
    // North light stands at (370, 322): pole from there down.
    assert_eq!(cmds[0].shape, Shape::Fill(Rect { x: 367, y: 322, w: 6, h: 28 }));
    // East light stands at (478, 310), West light at (322, 370).
    assert_eq!(cmds[8].shape, Shape::Fill(Rect { x: 475, y: 310, w: 6, h: 28 }));
    assert_eq!(cmds[12].shape, Shape::Fill(Rect { x: 319, y: 370, w: 6, h: 28 }));
    assert_eq!(cmds[1].shape, Shape::Fill(Rect { x: 363, y: 300, w: 14, h: 22 }));
    // North is green: red lens off, green lens lit.
    assert_eq!(cmds[2].color, Rgb { r: 50, g: 50, b: 55 });
    assert_eq!(cmds[2].shape, Shape::Fill(Rect { x: 365, y: 304, w: 10, h: 10 }));
    assert_eq!(cmds[3].color, Rgb { r: 40, g: 200, b: 60 });
    assert_eq!(cmds[3].shape, Shape::Fill(Rect { x: 365, y: 316, w: 10, h: 10 }));
    // East is red: red lens lit.
    assert_eq!(cmds[10].color, Rgb { r: 220, g: 40, b: 40 });
}
