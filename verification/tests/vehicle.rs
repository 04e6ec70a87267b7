use road_intersection::input::Direction;
use road_intersection::map::intersection::{Intersection, Lane, LaneId};
use road_intersection::render::Rgb;
use road_intersection::vehicle::route::{Route, ROUTE_COUNTER_START};
use road_intersection::vehicle::{
    approach_vel, can_proceed, entry_motion_of, exit_vel, left_arc, lower_left_priority,
    opposing_blocks_left, opposing_dir, perpendicular_occupying, queue_counts, right_arc,
    right_turn_exit_blocked, spawn_pt, sync_lane_queues, Arc, Motion, VehicleStatus, LARGE_R,
    SMALL_R,
};

fn status(direction: Direction, route: Route, motion: Motion) -> VehicleStatus {
    VehicleStatus { direction, route, motion, in_box: false, near_box: false }
}

#[test]
fn route_colors_match_the_legend() {
    assert_eq!(Route::Straight.color(), Rgb { r: 0, g: 80, b: 220 });
    assert_eq!(Route::Left.color(), Rgb { r: 230, g: 190, b: 0 });
    assert_eq!(Route::Right.color(), Rgb { r: 220, g: 100, b: 0 });
}

#[test]
fn routes_are_dealt_round_robin() {
    let mut counter = ROUTE_COUNTER_START;
    let picks: Vec<Route> = (0..4).map(|_| Route::random(&mut counter)).collect();
    assert_eq!(picks, vec![Route::Straight, Route::Left, Route::Right, Route::Straight]);
    assert_eq!(counter, 8);
    let mut counter = u32::MAX;
    assert_eq!(Route::random(&mut counter), Route::Straight);
    assert_eq!(counter, 1);
}

#[test]
fn spawn_points_and_headings() {
    assert_eq!(spawn_pt(Direction::North), (370, 0));
    assert_eq!(spawn_pt(Direction::South), (430, 800));
    assert_eq!(spawn_pt(Direction::East), (800, 310));
    assert_eq!(spawn_pt(Direction::West), (0, 370));
    assert_eq!(approach_vel(Direction::North), (0, 1));
    assert_eq!(approach_vel(Direction::East), (-1, 0));
}

#[test]
fn turning_arcs() {
    assert_eq!(right_arc(Direction::North), Arc { cx: 340, cy: 340, start: 0, end: 1 });
    assert_eq!(right_arc(Direction::West), Arc { cx: 340, cy: 460, start: 3, end: 4 });
    assert_eq!(left_arc(Direction::South), Arc { cx: 340, cy: 460, start: 0, end: -1 });
    assert_eq!(left_arc(Direction::East), Arc { cx: 460, cy: 460, start: 3, end: 2 });
    assert_eq!(exit_vel(Direction::North, Route::Right), (-1, 0));
    assert_eq!(exit_vel(Direction::West, Route::Left), (0, -1));
}

/// The point `q` quarter turns around the arc's centre (y grows downward).
fn arc_start(a: Arc, r: i32) -> (i32, i32) {
    match a.start.rem_euclid(4) {
        0 => (a.cx + r, a.cy),
        1 => (a.cx, a.cy + r),
        2 => (a.cx - r, a.cy),
        _ => (a.cx, a.cy - r),
    }
}

#[test]
fn arcs_start_on_the_stop_line() {
    // North and South: at the stop point itself.
    assert_eq!(arc_start(right_arc(Direction::North), SMALL_R), (370, 340));
    assert_eq!(arc_start(left_arc(Direction::North), LARGE_R), (370, 340));
    assert_eq!(arc_start(right_arc(Direction::South), SMALL_R), (430, 460));
    assert_eq!(arc_start(left_arc(Direction::South), LARGE_R), (430, 460));
    // East and West: on the stop line, off the lane centre.
    assert_eq!(arc_start(right_arc(Direction::East), SMALL_R), (460, 370));
    assert_eq!(arc_start(left_arc(Direction::West), LARGE_R), (340, 430));
}

#[test]
fn opposites_and_left_priority() {
    assert_eq!(opposing_dir(Direction::North), Direction::South);
    assert_eq!(opposing_dir(Direction::East), Direction::West);
    assert!(lower_left_priority(Direction::North));
    assert!(lower_left_priority(Direction::East));
    assert!(!lower_left_priority(Direction::South));
    assert!(!lower_left_priority(Direction::West));
}

#[test]
fn red_light_keeps_a_vehicle_out() {
    let me = status(Direction::North, Route::Straight, Motion::Waiting);
    assert!(!can_proceed(false, &me, &vec![me]));
    assert!(can_proceed(true, &me, &vec![me]));
}

#[test]
fn perpendicular_traffic_in_the_box_blocks() {
    let me = status(Direction::North, Route::Straight, Motion::Waiting);
    let mut cross = status(Direction::East, Route::Straight, Motion::Exiting);
    assert!(!perpendicular_occupying(Direction::North, &vec![me, cross]));
    cross.in_box = true;
    assert!(perpendicular_occupying(Direction::North, &vec![me, cross]));
    assert!(!can_proceed(true, &me, &vec![me, cross]));
    // A turning perpendicular vehicle blocks wherever it is.
    let turning = status(Direction::West, Route::Right, Motion::Turning);
    assert!(perpendicular_occupying(Direction::South, &vec![turning]));
    // Traffic of the same axis does not.
    let opposite = status(Direction::South, Route::Left, Motion::Turning);
    assert!(!perpendicular_occupying(Direction::North, &vec![opposite]));
}

#[test]
fn left_turner_yields_to_opposing_traffic() {
    let me = status(Direction::North, Route::Left, Motion::Waiting);
    let turning = status(Direction::South, Route::Right, Motion::Turning);
    assert!(opposing_blocks_left(Direction::North, &vec![turning]));
    let mut leaving = status(Direction::South, Route::Straight, Motion::Exiting);
    assert!(!opposing_blocks_left(Direction::North, &vec![leaving]));
    leaving.near_box = true;
    assert!(opposing_blocks_left(Direction::North, &vec![leaving]));
    assert!(!can_proceed(true, &me, &vec![me, leaving]));
    // Two waiting left-turners: North yields to South, South goes.
    let south = status(Direction::South, Route::Left, Motion::Waiting);
    assert!(opposing_blocks_left(Direction::North, &vec![south]));
    assert!(!opposing_blocks_left(Direction::South, &vec![me]));
    assert!(can_proceed(true, &south, &vec![me, south]));
    assert!(!can_proceed(true, &me, &vec![me, south]));
    // Approaching vehicles do not block.
    let approaching = status(Direction::South, Route::Straight, Motion::Approaching);
    assert!(!opposing_blocks_left(Direction::North, &vec![approaching]));
}

#[test]
fn right_turner_waits_for_opposing_left_turn() {
    let me = status(Direction::East, Route::Right, Motion::Waiting);
    let left = status(Direction::West, Route::Left, Motion::Turning);
    assert!(right_turn_exit_blocked(Direction::East, &vec![left]));
    assert!(!can_proceed(true, &me, &vec![me, left]));
    let straight = status(Direction::West, Route::Straight, Motion::Exiting);
    assert!(!right_turn_exit_blocked(Direction::East, &vec![straight]));
    assert!(can_proceed(true, &me, &vec![me, straight]));
}

#[test]
fn trip_state_transitions() {
    // Not yet at the stop line: keep approaching.
    assert_eq!(Motion::Approaching.after_tick(Route::Straight, true, false, false), Motion::Approaching);
    // At the stop line on green: straight traffic drives through, turners turn.
    assert_eq!(Motion::Approaching.after_tick(Route::Straight, true, true, false), Motion::Exiting);
    assert_eq!(Motion::Approaching.after_tick(Route::Right, true, true, false), Motion::Turning);
    // A left-turner always stops first, and red stops everyone.
    assert_eq!(Motion::Approaching.after_tick(Route::Left, true, true, false), Motion::Waiting);
    assert_eq!(Motion::Approaching.after_tick(Route::Right, false, true, false), Motion::Waiting);
    assert_eq!(Motion::Waiting.after_tick(Route::Left, false, false, false), Motion::Waiting);
    assert_eq!(Motion::Waiting.after_tick(Route::Left, true, false, false), Motion::Turning);
    assert_eq!(Motion::Turning.after_tick(Route::Left, true, false, false), Motion::Turning);
    assert_eq!(Motion::Turning.after_tick(Route::Left, true, false, true), Motion::Exiting);
    assert_eq!(Motion::Exiting.after_tick(Route::Right, false, true, true), Motion::Exiting);
    assert_eq!(entry_motion_of(Route::Straight), Motion::Exiting);
    assert_eq!(entry_motion_of(Route::Left), Motion::Turning);
}

#[test]
fn queue_counts_count_vehicles_before_the_box() {
    let vs = vec![
        status(Direction::North, Route::Straight, Motion::Approaching),
        status(Direction::North, Route::Left, Motion::Waiting),
        status(Direction::North, Route::Left, Motion::Turning),
        status(Direction::West, Route::Right, Motion::Waiting),
        status(Direction::East, Route::Straight, Motion::Exiting),
    ];
    assert_eq!(queue_counts(&vs), [2, 0, 0, 1]);
    assert_eq!(queue_counts(&vec![]), [0, 0, 0, 0]);
}

#[test]
fn lane_queues_are_synced_by_direction() {
    let mut intersection = Intersection::new();
    sync_lane_queues([3, 1, 4, 1], &mut intersection.lanes);
    let lens: Vec<(LaneId, usize)> = intersection.lanes.iter().map(|l| (l.id, l.queue_len)).collect();
    assert_eq!(
        lens,
        vec![(LaneId::NorthIn, 3), (LaneId::SouthIn, 1), (LaneId::EastIn, 4), (LaneId::WestIn, 1)]
    );
    let mut lanes = vec![Lane { id: LaneId::WestIn, queue_len: 9 }];
    sync_lane_queues([0, 0, 0, 7], &mut lanes);
    assert_eq!(lanes[0].queue_len, 7);
}
