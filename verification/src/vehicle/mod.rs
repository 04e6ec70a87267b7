//! Right-of-way rules for vehicles.
//!
//! A vehicle's position is a pair of floats, so moving it is the renderer's
//! business; what is decided here is everything that is not arithmetic on
//! those floats: where a vehicle spawns and heads, which arcs it turns on,
//! when it may enter the intersection, how its trip state advances, and how
//! many vehicles queue on each lane.
pub mod route;

use vstd::prelude::*;

use crate::constants::{
    INTERSECTION_X, INTERSECTION_Y, ROAD_WIDTH, SPAWN_EAST, SPAWN_NORTH, SPAWN_SOUTH, SPAWN_WEST,
    STOP_LINE_EAST, STOP_LINE_NORTH, STOP_LINE_SOUTH, STOP_LINE_WEST,
};
use crate::input::{direction_at, Direction};
use crate::map::intersection::Lane;
use crate::traffic_light::controller::LaneQueueCounts;
use route::Route;

verus! {

/// Where a vehicle is in its trip.
#[derive(Clone, Copy, PartialEq, Eq, Debug, Structural)]
pub enum Motion {
    /// Driving toward the stop line.
    Approaching,
    /// Stopped at the stop line.
    Waiting,
    /// On a turning arc inside the intersection.
    Turning,
    /// Driving straight away from the stop line or out of a turn.
    Exiting,
}

/// What the rules read of a vehicle.
#[derive(Clone, Copy, PartialEq, Eq, Debug, Structural)]
pub struct VehicleStatus {
    pub direction: Direction,
    pub route: Route,
    pub motion: Motion,
    /// The vehicle's centre lies in the central box, edges included.
    pub in_box: bool,
    /// The vehicle's centre lies strictly inside the central box widened on
    /// every side by twice the vehicle length.
    pub near_box: bool,
}

/// A circular arc around `(cx, cy)` from angle `start` to angle `end`, both
/// counted in quarter turns (a quarter turn is pi/2 radians).
#[derive(Clone, Copy, PartialEq, Eq, Debug, Structural)]
pub struct Arc {
    pub cx: i32,
    pub cy: i32,
    pub start: i32,
    pub end: i32,
}

pub open spec fn is_north_south(dir: Direction) -> bool {
    dir == Direction::North || dir == Direction::South
}

pub open spec fn opposite(dir: Direction) -> Direction {
    match dir {
        Direction::North => Direction::South,
        Direction::South => Direction::North,
        Direction::East => Direction::West,
        Direction::West => Direction::East,
    }
}

/// North and East yield to an opposing left-turner that waits too.
pub open spec fn yields_left(dir: Direction) -> bool {
    dir == Direction::North || dir == Direction::East
}

/// `v` travels across `dir` and occupies the intersection.
pub open spec fn occupies_across(dir: Direction, v: VehicleStatus) -> bool {
    &&& is_north_south(v.direction) != is_north_south(dir)
    &&& (v.motion == Motion::Turning || (v.motion == Motion::Exiting && v.in_box))
}

/// `v` comes from the opposite side and is turning left.
pub open spec fn opposing_left_turner(dir: Direction, v: VehicleStatus) -> bool {
    &&& v.direction == opposite(dir)
    &&& v.route == Route::Left
    &&& v.motion == Motion::Turning
}

/// `v` comes from the opposite side and keeps a left-turner from `dir` out.
pub open spec fn blocks_left_turn(dir: Direction, v: VehicleStatus) -> bool {
    &&& v.direction == opposite(dir)
    &&& match v.motion {
        Motion::Turning => true,
        Motion::Exiting => v.near_box,
        Motion::Waiting => v.route == Route::Left && yields_left(dir),
        Motion::Approaching => false,
    }
}

/// Whether a vehicle from `me` with route `route` may enter the intersection.
pub open spec fn may_enter(green: bool, me: VehicleStatus, others: Seq<VehicleStatus>) -> bool {
    &&& green
    &&& !(exists|i: int| 0 <= i < others.len() && occupies_across(me.direction, others[i]))
    &&& !(me.route == Route::Left && exists|i: int|
        0 <= i < others.len() && blocks_left_turn(me.direction, others[i]))
    &&& !(me.route == Route::Right && exists|i: int|
        0 <= i < others.len() && opposing_left_turner(me.direction, others[i]))
}

/// The trip state a vehicle enters the intersection in.
pub open spec fn entry_motion(route: Route) -> Motion {
    if route == Route::Straight {
        Motion::Exiting
    } else {
        Motion::Turning
    }
}

/// The trip state after one tick. `at_stop_line`: an approaching vehicle has
/// reached its stop line this tick; `turn_done`: a turning vehicle has reached
/// the end of its arc this tick.
pub open spec fn motion_after(
    motion: Motion,
    route: Route,
    can_proceed: bool,
    at_stop_line: bool,
    turn_done: bool,
) -> Motion {
    match motion {
        Motion::Approaching => if !at_stop_line {
            Motion::Approaching
        } else if can_proceed && route != Route::Left {
            entry_motion(route)
        } else {
            Motion::Waiting
        },
        Motion::Waiting => if can_proceed {
            entry_motion(route)
        } else {
            Motion::Waiting
        },
        Motion::Turning => if turn_done {
            Motion::Exiting
        } else {
            Motion::Turning
        },
        Motion::Exiting => Motion::Exiting,
    }
}

/// The vehicle has not yet entered the intersection.
pub open spec fn before_box(m: Motion) -> bool {
    m == Motion::Approaching || m == Motion::Waiting
}

pub open spec fn queued(v: VehicleStatus) -> bool {
    before_box(v.motion)
}

/// How many vehicles of `vs` come from `d` and have not entered the intersection.
pub open spec fn queued_count(vs: Seq<VehicleStatus>, d: Direction) -> nat
    decreases vs.len(),
{
    if vs.len() == 0 {
        0
    } else {
        queued_count(vs.drop_last(), d) + if vs.last().direction == d && queued(vs.last()) {
            1nat
        } else {
            0nat
        }
    }
}

pub fn lower_left_priority(dir: Direction) -> (r: bool)
    ensures
        r == yields_left(dir),
{
    match dir {
        Direction::North | Direction::East => true,
        _ => false,
    }
}

pub fn opposing_dir(dir: Direction) -> (r: Direction)
    ensures
        r == opposite(dir),
{
    match dir {
        Direction::North => Direction::South,
        Direction::South => Direction::North,
        Direction::East => Direction::West,
        Direction::West => Direction::East,
    }
}

/// Where a vehicle from `dir` appears.
pub fn spawn_pt(dir: Direction) -> (p: (i32, i32))
    ensures
        p == match dir {
            Direction::North => SPAWN_NORTH,
            Direction::South => SPAWN_SOUTH,
            Direction::East => SPAWN_EAST,
            Direction::West => SPAWN_WEST,
        },
{
    match dir {
        Direction::North => SPAWN_NORTH,
        Direction::South => SPAWN_SOUTH,
        Direction::East => SPAWN_EAST,
        Direction::West => SPAWN_WEST,
    }
}

/// Unit heading of a vehicle from `dir` on its approach (y grows downward).
pub fn approach_vel(dir: Direction) -> (v: (i32, i32))
    ensures
        v == match dir {
            Direction::North => (0i32, 1i32),
            Direction::South => (0i32, -1i32),
            Direction::East => (-1i32, 0i32),
            Direction::West => (1i32, 0i32),
        },
{
    match dir {
        Direction::North => (0, 1),
        Direction::South => (0, -1),
        Direction::East => (-1, 0),
        Direction::West => (1, 0),
    }
}

/// Radius of a right turn's arc.
pub const SMALL_R: i32 = 30;

/// Radius of a left turn's arc.
pub const LARGE_R: i32 = 90;

/// The arc of a right turn from `dir`.
pub open spec fn right_arc_of(dir: Direction) -> Arc {
    match dir {
        Direction::North => Arc { cx: INTERSECTION_X, cy: INTERSECTION_Y, start: 0, end: 1 },
        Direction::South => Arc {
            cx: (INTERSECTION_X + ROAD_WIDTH) as i32,
            cy: (INTERSECTION_Y + ROAD_WIDTH) as i32,
            start: 2,
            end: 3,
        },
        Direction::East => Arc {
            cx: (INTERSECTION_X + ROAD_WIDTH) as i32,
            cy: INTERSECTION_Y,
            start: 1,
            end: 2,
        },
        Direction::West => Arc {
            cx: INTERSECTION_X,
            cy: (INTERSECTION_Y + ROAD_WIDTH) as i32,
            start: 3,
            end: 4,
        },
    }
}

/// The arc of a left turn from `dir`.
pub open spec fn left_arc_of(dir: Direction) -> Arc {
    match dir {
        Direction::North => Arc {
            cx: (INTERSECTION_X + ROAD_WIDTH) as i32,
            cy: INTERSECTION_Y,
            start: 2,
            end: 1,
        },
        Direction::South => Arc {
            cx: INTERSECTION_X,
            cy: (INTERSECTION_Y + ROAD_WIDTH) as i32,
            start: 0,
            end: -1i32,
        },
        Direction::East => Arc {
            cx: (INTERSECTION_X + ROAD_WIDTH) as i32,
            cy: (INTERSECTION_Y + ROAD_WIDTH) as i32,
            start: 3,
            end: 2,
        },
        Direction::West => Arc { cx: INTERSECTION_X, cy: INTERSECTION_Y, start: 1, end: 0 },
    }
}

/// The point at angle `q` quarter turns on the circle of radius `r` around
/// `(cx, cy)`; angles grow clockwise on screen, since y grows downward.
pub open spec fn arc_point(cx: int, cy: int, r: int, q: int) -> (int, int) {
    if q % 4 == 0 {
        (cx + r, cy)
    } else if q % 4 == 1 {
        (cx, cy + r)
    } else if q % 4 == 2 {
        (cx - r, cy)
    } else {
        (cx, cy - r)
    }
}

/// Where a vehicle from `dir` stops: its lane at the stop line.
pub open spec fn stop_point(dir: Direction) -> (int, int) {
    match dir {
        Direction::North => (SPAWN_NORTH.0 as int, STOP_LINE_NORTH as int),
        Direction::South => (SPAWN_SOUTH.0 as int, STOP_LINE_SOUTH as int),
        Direction::East => (STOP_LINE_EAST as int, SPAWN_EAST.1 as int),
        Direction::West => (STOP_LINE_WEST as int, SPAWN_WEST.1 as int),
    }
}

/// The arc of a right turn: a quarter circle, counter-clockwise on screen,
/// around the box corner nearest the entry lane.
pub fn right_arc(dir: Direction) -> (a: Arc)
    ensures
        a == right_arc_of(dir),
{
    let ix = INTERSECTION_X;
    let iy = INTERSECTION_Y;
    let ex = INTERSECTION_X + ROAD_WIDTH;
    let ey = INTERSECTION_Y + ROAD_WIDTH;
    match dir {
        Direction::North => Arc { cx: ix, cy: iy, start: 0, end: 1 },
        Direction::South => Arc { cx: ex, cy: ey, start: 2, end: 3 },
        Direction::East => Arc { cx: ex, cy: iy, start: 1, end: 2 },
        Direction::West => Arc { cx: ix, cy: ey, start: 3, end: 4 },
    }
}

/// The arc of a left turn: a quarter circle, clockwise on screen, around the
/// far box corner on the left of the entry lane.
pub fn left_arc(dir: Direction) -> (a: Arc)
    ensures
        a == left_arc_of(dir),
{
    let ix = INTERSECTION_X;
    let iy = INTERSECTION_Y;
    let ex = INTERSECTION_X + ROAD_WIDTH;
    let ey = INTERSECTION_Y + ROAD_WIDTH;
    match dir {
        Direction::North => Arc { cx: ex, cy: iy, start: 2, end: 1 },
        Direction::South => Arc { cx: ix, cy: ey, start: 0, end: -1 },
        Direction::East => Arc { cx: ex, cy: ey, start: 3, end: 2 },
        Direction::West => Arc { cx: ix, cy: iy, start: 1, end: 0 },
    }
}

/// Unit heading of a vehicle from `dir` after its turn.
pub fn exit_vel(dir: Direction, route: Route) -> (v: (i32, i32))
    requires
        route != Route::Straight,
    ensures
        v == match (dir, route) {
            (Direction::North, Route::Right) => (-1i32, 0i32),
            (Direction::North, _) => (1i32, 0i32),
            (Direction::South, Route::Right) => (1i32, 0i32),
            (Direction::South, _) => (-1i32, 0i32),
            (Direction::East, Route::Right) => (0i32, -1i32),
            (Direction::East, _) => (0i32, 1i32),
            (Direction::West, Route::Right) => (0i32, 1i32),
            (Direction::West, _) => (0i32, -1i32),
        },
{
    match (dir, route) {
        (Direction::North, Route::Right) => (-1, 0),
        (Direction::North, _) => (1, 0),
        (Direction::South, Route::Right) => (1, 0),
        (Direction::South, _) => (-1, 0),
        (Direction::East, Route::Right) => (0, -1),
        (Direction::East, _) => (0, 1),
        (Direction::West, Route::Right) => (0, 1),
        (Direction::West, _) => (0, -1),
    }
}

/// Whether a vehicle crossing the path of `dir` occupies the intersection.
pub fn perpendicular_occupying(dir: Direction, vehicles: &Vec<VehicleStatus>) -> (r: bool)
    ensures
        r == exists|i: int| 0 <= i < vehicles@.len() && occupies_across(dir, vehicles@[i]),
{
    let ns = matches!(dir, Direction::North | Direction::South);
    let mut i: usize = 0;
    while i < vehicles.len()
        invariant
            0 <= i <= vehicles@.len(),
            ns == is_north_south(dir),
            forall|j: int| 0 <= j < i ==> !occupies_across(dir, #[trigger] vehicles@[j]),
        decreases vehicles@.len() - i,
    {
        let v = &vehicles[i];
        let v_ns = matches!(v.direction, Direction::North | Direction::South);
        if v_ns != ns {
            let occupying = match v.motion {
                Motion::Turning => true,
                Motion::Exiting => v.in_box,
                _ => false,
            };
            if occupying {
                return true;
            }
        }
        i += 1;
    }
    false
}

/// Whether a vehicle from the opposite side of `dir` is on a left-turn arc,
/// which a right-turner from `dir` would meet on its exit.
pub fn right_turn_exit_blocked(dir: Direction, vehicles: &Vec<VehicleStatus>) -> (r: bool)
    ensures
        r == exists|i: int| 0 <= i < vehicles@.len() && opposing_left_turner(dir, vehicles@[i]),
{
    let opp = opposing_dir(dir);
    let mut i: usize = 0;
    while i < vehicles.len()
        invariant
            0 <= i <= vehicles@.len(),
            opp == opposite(dir),
            forall|j: int| 0 <= j < i ==> !opposing_left_turner(dir, #[trigger] vehicles@[j]),
        decreases vehicles@.len() - i,
    {
        let v = &vehicles[i];
        if v.direction == opp && v.route == Route::Left && v.motion == Motion::Turning {
            return true;
        }
        i += 1;
    }
    false
}

/// Whether opposing traffic keeps a left-turner from `dir` out of the
/// intersection.
pub fn opposing_blocks_left(dir: Direction, vehicles: &Vec<VehicleStatus>) -> (r: bool)
    ensures
        r == exists|i: int| 0 <= i < vehicles@.len() && blocks_left_turn(dir, vehicles@[i]),
{
    let opp = opposing_dir(dir);
    let mut i: usize = 0;
    while i < vehicles.len()
        invariant
            0 <= i <= vehicles@.len(),
            opp == opposite(dir),
            forall|j: int| 0 <= j < i ==> !blocks_left_turn(dir, #[trigger] vehicles@[j]),
        decreases vehicles@.len() - i,
    {
        let v = &vehicles[i];
        if v.direction == opp {
            let blocks = match v.motion {
                Motion::Turning => true,
                Motion::Exiting => v.near_box,
                Motion::Waiting => v.route == Route::Left && lower_left_priority(dir),
                Motion::Approaching => false,
            };
            if blocks {
                return true;
            }
        }
        i += 1;
    }
    false
}

/// Whether vehicle `me` may enter the intersection, given whether its light is
/// green and the status of every vehicle on the map.
pub fn can_proceed(green: bool, me: &VehicleStatus, vehicles: &Vec<VehicleStatus>) -> (r: bool)
    ensures
        r == may_enter(green, *me, vehicles@),
{
    let perp_blocked = perpendicular_occupying(me.direction, vehicles);
    let left_blocked = me.route == Route::Left && opposing_blocks_left(me.direction, vehicles);
    let right_blocked = me.route == Route::Right && right_turn_exit_blocked(me.direction, vehicles);
    green && !perp_blocked && !left_blocked && !right_blocked
}

impl Motion {
    /// The trip state after one tick; see `motion_after`.
    pub fn after_tick(
        self,
        route: Route,
        can_proceed: bool,
        at_stop_line: bool,
        turn_done: bool,
    ) -> (m: Motion)
        ensures
            m == motion_after(self, route, can_proceed, at_stop_line, turn_done),
    {
        match self {
            Motion::Approaching => {
                if !at_stop_line {
                    Motion::Approaching
                } else if can_proceed && route != Route::Left {
                    entry_motion_of(route)
                } else {
                    Motion::Waiting
                }
            },
            Motion::Waiting => {
                if can_proceed {
                    entry_motion_of(route)
                } else {
                    Motion::Waiting
                }
            },
            Motion::Turning => {
                if turn_done {
                    Motion::Exiting
                } else {
                    Motion::Turning
                }
            },
            Motion::Exiting => Motion::Exiting,
        }
    }
}

/// The trip state a vehicle enters the intersection in: straight through, or
/// onto its turning arc.
pub fn entry_motion_of(route: Route) -> (m: Motion)
    ensures
        m == entry_motion(route),
{
    match route {
        Route::Straight => Motion::Exiting,
        _ => Motion::Turning,
    }
}

/// Number of vehicles from each direction, North, South, East, West, that
/// have not yet entered the intersection.
pub fn queue_counts(vehicles: &Vec<VehicleStatus>) -> (counts: LaneQueueCounts)
    requires
        vehicles@.len() <= u32::MAX,
    ensures
        forall|k: int| 0 <= k < 4 ==> counts@[k] == queued_count(vehicles@, direction_at(k)),
{
    let mut counts: [u32; 4] = [0u32; 4];
    let mut i: usize = 0;
    while i < vehicles.len()
        invariant
            0 <= i <= vehicles@.len(),
            vehicles@.len() <= u32::MAX,
            forall|k: int|
                0 <= k < 4 ==> counts@[k] == queued_count(
                    #[trigger] vehicles@.take(i as int),
                    direction_at(k),
                ),
            forall|k: int| 0 <= k < 4 ==> counts@[k] <= i,
        decreases vehicles@.len() - i,
    {
        let v = &vehicles[i];
        proof {
            assert(vehicles@.take(i as int + 1).drop_last() =~= vehicles@.take(i as int));
        }
        if matches!(v.motion, Motion::Approaching | Motion::Waiting) {
            let k = v.direction.index();
            counts[k] = counts[k] + 1;
        }
        i += 1;
    }
    proof {
        assert(vehicles@.take(vehicles@.len() as int) =~= vehicles@);
    }
    counts
}

/// Copies the queue counts into the lanes of the intersection.
pub fn sync_lane_queues(counts: LaneQueueCounts, lanes: &mut Vec<Lane>)
    ensures
        final(lanes)@.len() == old(lanes)@.len(),
        forall|i: int|
            0 <= i < final(lanes)@.len() ==> (#[trigger] final(lanes)@[i]).id == old(lanes)@[i].id
                && final(lanes)@[i].queue_len == counts@[crate::input::lane_direction(
                old(lanes)@[i].id,
            ).idx()],
{
    let mut i: usize = 0;
    while i < lanes.len()
        invariant
            0 <= i <= lanes@.len(),
            lanes@.len() == old(lanes)@.len(),
            forall|j: int| i <= j < lanes@.len() ==> lanes@[j] == old(lanes)@[j],
            forall|j: int|
                0 <= j < i ==> (#[trigger] lanes@[j]).id == old(lanes)@[j].id && lanes@[j].queue_len
                    == counts@[crate::input::lane_direction(old(lanes)@[j].id).idx()],
        decreases lanes@.len() - i,
    {
        let mut lane = lanes[i];
        lane.queue_len = counts[Direction::from_lane(lane.id).index()] as usize;
        lanes.set(i, lane);
        i += 1;
    }
}

/// Red lights and right of way are obeyed: a vehicle leaves its lane for the
/// intersection only on a tick in which it may proceed, and a vehicle may
/// proceed only on green and only while no vehicle that crosses its path
/// turns or stands in the intersection.
pub proof fn law_enter_only_when_allowed(
    me: VehicleStatus,
    green: bool,
    others: Seq<VehicleStatus>,
    can_proceed: bool,
    at_stop_line: bool,
    turn_done: bool,
)
    ensures
        before_box(me.motion) && !before_box(
            motion_after(me.motion, me.route, can_proceed, at_stop_line, turn_done),
        ) ==> can_proceed,
        may_enter(green, me, others) ==> green,
        may_enter(green, me, others) ==> forall|i: int|
            0 <= i < others.len() ==> !occupies_across(me.direction, #[trigger] others[i]),
{
}

/// Vehicles go on green: a vehicle waiting at its stop line enters the
/// intersection on the first tick on which it may proceed, and one that
/// reaches its stop line on such a tick drives on without stopping, unless it
/// turns left.
pub proof fn law_go_when_allowed(route: Route, at_stop_line: bool, turn_done: bool)
    ensures
        motion_after(Motion::Waiting, route, true, at_stop_line, turn_done) == entry_motion(route),
        route != Route::Left ==> motion_after(Motion::Approaching, route, true, true, turn_done)
            == entry_motion(route),
{
}

/// Turns begin at the stop line: both arcs of every approach start on its
/// stop line, and for the North and South approaches exactly at the point
/// where their vehicles stop.
pub proof fn law_turns_start_at_stop_line(dir: Direction)
    ensures
        ({
            let r = right_arc_of(dir);
            let l = left_arc_of(dir);
            let rp = arc_point(r.cx as int, r.cy as int, SMALL_R as int, r.start as int);
            let lp = arc_point(l.cx as int, l.cy as int, LARGE_R as int, l.start as int);
            &&& !is_north_south(dir) ==> rp.0 == stop_point(dir).0 && lp.0 == stop_point(dir).0
            &&& is_north_south(dir) ==> rp == stop_point(dir) && lp == stop_point(dir)
        }),
{
}

/// Vehicles that have not entered the intersection (approaching or waiting
/// at their stop line) never block anyone's way across or out of it.
pub proof fn law_queued_vehicles_never_block(dir: Direction, v: VehicleStatus)
    requires
        v.motion == Motion::Approaching || v.motion == Motion::Waiting,
    ensures
        !occupies_across(dir, v),
        !opposing_left_turner(dir, v),
        v.motion == Motion::Approaching ==> !blocks_left_turn(dir, v),
{
}

/// On green, a vehicle that goes straight or turns right may enter whenever
/// every other vehicle is still approaching or waiting at its stop line,
/// whatever their directions and routes.
pub proof fn law_green_with_queued_traffic(me: VehicleStatus, others: Seq<VehicleStatus>)
    requires
        me.route != Route::Left,
        forall|i: int|
            0 <= i < others.len() ==> (#[trigger] others[i]).motion == Motion::Approaching
                || others[i].motion == Motion::Waiting,
    ensures
        may_enter(true, me, others),
{
    assert forall|i: int| 0 <= i < others.len() implies !occupies_across(
        me.direction,
        #[trigger] others[i],
    ) && !opposing_left_turner(me.direction, others[i]) by {
        law_queued_vehicles_never_block(me.direction, others[i]);
    }
}

/// A left-turner always stops at its stop line before it turns.
pub proof fn law_left_turn_stops_first(
    can_proceed: bool,
    at_stop_line: bool,
    turn_done: bool,
)
    ensures
        motion_after(Motion::Approaching, Route::Left, can_proceed, at_stop_line, turn_done)
            != Motion::Turning,
{
}

/// Vehicles follow their route: a vehicle going straight never turns, a
/// turning vehicle enters on its arc, and once out of the intersection a
/// vehicle stays out.
pub proof fn law_route_followed(
    motion: Motion,
    route: Route,
    can_proceed: bool,
    at_stop_line: bool,
    turn_done: bool,
)
    ensures
        route == Route::Straight && motion != Motion::Turning ==> motion_after(
            motion,
            route,
            can_proceed,
            at_stop_line,
            turn_done,
        ) != Motion::Turning,
        route != Route::Straight && before_box(motion) && !before_box(
            motion_after(motion, route, can_proceed, at_stop_line, turn_done),
        ) ==> motion_after(motion, route, can_proceed, at_stop_line, turn_done)
            == Motion::Turning,
        motion == Motion::Exiting ==> motion_after(
            motion,
            route,
            can_proceed,
            at_stop_line,
            turn_done,
        ) == Motion::Exiting,
{
}

} // verus!
