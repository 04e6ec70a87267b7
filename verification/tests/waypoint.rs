use road_intersection::input::Key;
use road_intersection::render::{Rect, Rgb, Shape};
use road_intersection::waypoint::input::{handle_key, lane_for_byte};
use road_intersection::waypoint::map::{lane_capacity, Intersection, LaneId, Point, Segment};
use road_intersection::waypoint::route::{build_waypoints, Route};
use road_intersection::waypoint::traffic_light::{
    flip_phase, phase_congested, Phase, TrafficLightController,
};
use road_intersection::waypoint::vehicle::{record_queue_lengths, Trip};

fn p(x: i32, y: i32) -> Point {
    Point::new(x, y)
}

fn greens(c: &TrafficLightController) -> [bool; 4] {
    [
        c.can_proceed(LaneId::NorthIn),
        c.can_proceed(LaneId::SouthIn),
        c.can_proceed(LaneId::EastIn),
        c.can_proceed(LaneId::WestIn),
    ]
}

#[test]
fn capacity_formula() {
    assert_eq!(lane_capacity(400, 20, 8), 14);
    assert_eq!(lane_capacity(28, 20, 8), 1);
    assert_eq!(lane_capacity(27, 20, 8), 0);
    assert_eq!(lane_capacity(-5, 20, 8), 0);
    // A zero divisor: unbounded room for a lane of positive length, none otherwise.
    assert_eq!(lane_capacity(400, 0, 0), usize::MAX);
    assert_eq!(lane_capacity(0, 0, 0), 0);
    assert_eq!(lane_capacity(-400, 20, -20), 0);
    // Negative sizes: the quotient's sign decides.
    assert_eq!(lane_capacity(-10, -3, 0), 3);
    assert_eq!(lane_capacity(10, -3, 0), 0);
    let i = Intersection::new();
    assert_eq!(i.lanes[0].capacity(20, 8), 14);
}

#[test]
fn layout_of_the_lanes() {
    let i = Intersection::new();
    let n = i.get_lane(LaneId::NorthIn).unwrap();
    assert_eq!(n.spawn_point, p(420, -40));
    assert_eq!(n.stop_line, Segment::new(p(400, 360), p(440, 360)));
    assert_eq!(n.direction, p(0, 1));
    assert_eq!(n.length, 400);
    assert_eq!(n.light_position(), p(438, 346));
    let w = i.get_lane(LaneId::WestIn).unwrap();
    assert_eq!(w.spawn_point, p(-40, 420));
    assert_eq!(w.stop_line, Segment::new(p(360, 400), p(360, 440)));
    assert_eq!(i.light_position(LaneId::EastIn), (454, 362));
    assert_eq!(i.light_position(LaneId::SouthIn), (362, 454));
    assert_eq!(i.conflict_zone(), Rect { x: 360, y: 360, w: 80, h: 80 });
}

#[test]
fn missing_lane_has_its_light_at_the_origin() {
    let mut i = Intersection::new();
    i.lanes.truncate(1);
    assert_eq!(i.light_position(LaneId::WestIn), (0, 0));
    assert!(i.get_lane_mut(LaneId::WestIn).is_none());
}

#[test]
fn get_lane_mut_changes_that_lane_only() {
    let mut i = Intersection::new();
    i.get_lane_mut(LaneId::EastIn).unwrap().queue_len = 3;
    let lens: Vec<usize> = i.lanes.iter().map(|l| l.queue_len).collect();
    assert_eq!(lens, vec![0, 0, 3, 0]);
}

#[test]
fn waypoints_of_every_route() {
    assert_eq!(build_waypoints(LaneId::NorthIn, Route::Straight), vec![p(420, 350), p(420, 850)]);
    assert_eq!(
        build_waypoints(LaneId::NorthIn, Route::Left),
        vec![p(420, 350), p(440, 380), p(850, 380)]
    );
    assert_eq!(
        build_waypoints(LaneId::SouthIn, Route::Left),
        vec![p(380, 450), p(360, 420), p(-50, 420)]
    );
    assert_eq!(
        build_waypoints(LaneId::EastIn, Route::Right),
        vec![p(450, 380), p(380, 360), p(380, -50)]
    );
    assert_eq!(
        build_waypoints(LaneId::WestIn, Route::Right),
        vec![p(350, 420), p(420, 440), p(420, 850)]
    );
}

#[test]
fn route_colors() {
    assert_eq!(Route::Left.color(), Rgb { r: 255, g: 200, b: 0 });
    assert_eq!(Route::Straight.color(), Rgb { r: 0, g: 160, b: 255 });
    assert_eq!(Route::Right.color(), Rgb { r: 255, g: 80, b: 80 });
    assert_eq!(Route::route_for(0), Route::Left);
    assert_eq!(Route::route_for(2), Route::Right);
    // Every route comes out: 600 draws miss one with a chance of about 3 * (2/3)^600.
    let mut seen = [false; 3];
    for _ in 0..600 {
        match Route::random() {
            Route::Left => seen[0] = true,
            Route::Straight => seen[1] = true,
            Route::Right => seen[2] = true,
        }
    }
    assert_eq!(seen, [true, true, true]);
}

#[test]
fn keys_map_to_lanes_and_spawn_points() {
    let i = Intersection::new();
    assert_eq!(handle_key(Key::Up, &i), Some((LaneId::SouthIn, p(380, 840))));
    assert_eq!(handle_key(Key::Down, &i), Some((LaneId::NorthIn, p(420, -40))));
    assert_eq!(handle_key(Key::Right, &i), Some((LaneId::WestIn, p(-40, 420))));
    assert_eq!(handle_key(Key::Left, &i), Some((LaneId::EastIn, p(840, 380))));
    assert_eq!(handle_key(Key::Other, &i), None);
    assert_eq!(handle_key(Key::Escape, &i), None);
    let (id, spawn) = handle_key(Key::R, &i).unwrap();
    assert_eq!(i.get_lane(id).unwrap().spawn_point, spawn);
    assert_eq!(lane_for_byte(0), LaneId::NorthIn);
    assert_eq!(lane_for_byte(7), LaneId::WestIn);
    assert_eq!(lane_for_byte(254), LaneId::EastIn);
}

#[test]
fn controller_starts_north_south_green() {
    let c = TrafficLightController::new();
    assert_eq!(greens(&c), [true, true, false, false]);
    assert_eq!(flip_phase(Phase::NorthSouth), Phase::EastWest);
}

#[test]
fn green_then_all_red_then_other_axis() {
    let i = Intersection::new();
    let mut c = TrafficLightController::new();
    // 187 frames are 2992 ms; the 188th reaches 3008 ms and ends the green.
    for _ in 0..187 {
        c.update(&i);
    }
    assert_eq!(greens(&c), [true, true, false, false]);
    c.update(&i);
    assert_eq!(greens(&c), [false; 4]);
    // All red for 500 ms: 31 frames are 496 ms, the 32nd switches.
    for _ in 0..31 {
        c.update(&i);
    }
    assert_eq!(greens(&c), [false; 4]);
    c.update(&i);
    assert_eq!(greens(&c), [false, false, true, true]);
}

#[test]
fn full_lane_extends_green_once() {
    let mut i = Intersection::new();
    i.get_lane_mut(LaneId::SouthIn).unwrap().queue_len = 14;
    assert!(phase_congested(&i, Phase::NorthSouth));
    assert!(!phase_congested(&i, Phase::EastWest));
    let mut c = TrafficLightController::new();
    for _ in 0..188 {
        c.update(&i);
    }
    assert_eq!(greens(&c), [true, true, false, false]);
    // The queue clears, but the extension stays: green up to 5000 ms.
    let empty = Intersection::new();
    for _ in 188..312 {
        c.update(&empty);
    }
    assert_eq!(greens(&c), [true, true, false, false]);
    c.update(&empty);
    assert_eq!(greens(&c), [false; 4]);
}

#[test]
fn signal_and_map_drawing() {
    let i = Intersection::new();
    let c = TrafficLightController::new();
    let cmds = c.draw_commands(&i);
    assert_eq!(cmds.len(), 4);
    assert_eq!(cmds[0].color, Rgb { r: 40, g: 200, b: 60 });
    assert_eq!(cmds[0].shape, Shape::Fill(Rect { x: 433, y: 341, w: 10, h: 10 }));
    assert_eq!(cmds[2].color, Rgb { r: 200, g: 40, b: 40 });
    let roads = i.road_commands();
    assert_eq!(roads[0].shape, Shape::Fill(Rect { x: 0, y: 360, w: 800, h: 80 }));
    assert_eq!(roads[1].shape, Shape::Fill(Rect { x: 360, y: 0, w: 80, h: 800 }));
    let zone = i.conflict_zone_commands();
    assert_eq!(zone[1].color, Rgb { r: 180, g: 60, b: 60 });
    assert_eq!(zone[1].shape, Shape::Outline(Rect { x: 360, y: 360, w: 80, h: 80 }));
    let housings = i.light_placeholder_commands();
    assert_eq!(housings.len(), 8);
    assert_eq!(housings[0].shape, Shape::Fill(Rect { x: 430, y: 338, w: 16, h: 16 }));
}

#[test]
fn lane_markings_are_dashed_toward_and_away_from_the_box() {
    let cmds = Intersection::new().lane_marking_commands();
    // 15 dashes per arm: 14 pixels long, one every 24 pixels over 360 pixels.
    assert_eq!(cmds.len(), 60);
    assert!(cmds.iter().all(|c| c.color == Rgb { r: 220, g: 220, b: 80 }));
    assert_eq!(cmds[0].shape, Shape::Line(420, 0, 420, 14));
    assert_eq!(cmds[14].shape, Shape::Line(420, 336, 420, 350));
    assert_eq!(cmds[15].shape, Shape::Line(380, 440, 380, 454));
    assert_eq!(cmds[30].shape, Shape::Line(0, 380, 14, 380));
    assert_eq!(cmds[59].shape, Shape::Line(776, 420, 790, 420));
}

#[test]
fn trip_waits_at_the_stop_line_on_red() {
    let mut t = Trip::new(LaneId::NorthIn, Route::Straight, 2);
    assert!(!t.past_stop_line());
    assert!(t.starts_tick());
    t.reach_waypoint(false);
    assert_eq!(t.waypoint_idx, 0);
    t.reach_waypoint(true);
    assert_eq!(t.waypoint_idx, 1);
    assert!(t.past_stop_line());
    t.end_tick(false);
    assert!(t.active);
    t.reach_waypoint(false);
    assert_eq!(t.waypoint_idx, 2);
    t.end_tick(false);
    assert!(!t.active);
    assert!(!t.starts_tick());
}

#[test]
fn trip_leaves_when_off_screen() {
    let mut t = Trip::new(LaneId::EastIn, Route::Left, 3);
    t.end_tick(true);
    assert!(!t.active);
    let mut u = Trip::new(LaneId::EastIn, Route::Left, 0);
    assert!(!u.starts_tick());
    assert!(!u.active);
}

#[test]
fn queue_lengths_are_recorded_per_lane() {
    let mut i = Intersection::new();
    let mut moved = Trip::new(LaneId::NorthIn, Route::Left, 3);
    moved.waypoint_idx = 1;
    let trips = vec![
        Trip::new(LaneId::NorthIn, Route::Straight, 2),
        Trip::new(LaneId::NorthIn, Route::Right, 3),
        moved,
        Trip::new(LaneId::WestIn, Route::Straight, 2),
    ];
    record_queue_lengths(&mut i, &trips);
    let lens: Vec<usize> = i.lanes.iter().map(|l| l.queue_len).collect();
    assert_eq!(lens, vec![2, 0, 0, 1]);
}
