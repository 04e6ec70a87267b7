//! Routes of the waypoint layout: a random turn fixed at spawn, its colour,
//! and the waypoints that carry a vehicle through the intersection.
use rand::Rng;
use vstd::prelude::*;

use crate::render::{rgb, Rgb};
use crate::waypoint::constants::{ROAD_WIDTH, VEHICLE_LENGTH, WINDOW_HEIGHT, WINDOW_WIDTH};
use crate::waypoint::map::{layout_lanes, pt, LaneId, Point};

verus! {

/// Turn direction assigned at spawn, immutable for the vehicle's lifetime.
#[derive(Debug, Clone, Copy, PartialEq, Eq, Structural)]
pub enum Route {
    Left,
    Straight,
    Right,
}

/// `rand::thread_rng().gen_range(0..bound)`: a number drawn from the
/// thread-local generator. rand's source returns `low + hi` with
/// `hi < high - low`, so the number lies in `0..bound`; which one is chance.
#[verifier::external_body]
fn random_below(bound: u8) -> (r: u8)
    requires
        0 < bound,
    ensures
        r < bound,
{
    rand::thread_rng().gen_range(0u8..bound)
}

/// The route with the given position in the order Left, Straight, Right.
pub open spec fn route_at(n: int) -> Route {
    if n == 0 {
        Route::Left
    } else if n == 1 {
        Route::Straight
    } else {
        Route::Right
    }
}

/// Route colours: Left is yellow, Straight is blue, Right is red.
pub open spec fn route_color(route: Route) -> Rgb {
    match route {
        Route::Left => rgb(255, 200, 0),
        Route::Straight => rgb(0, 160, 255),
        Route::Right => rgb(255, 80, 80),
    }
}

impl Route {
    /// The route drawn as number `n` of `0..3`.
    pub fn route_for(n: u8) -> (r: Self)
        requires
            n < 3,
        ensures
            r == route_at(n as int),
    {
        match n {
            0 => Self::Left,
            1 => Self::Straight,
            _ => Self::Right,
        }
    }

    /// Picks a route with the thread-local generator; every route can come out.
    pub fn random() -> (r: Self) {
        Self::route_for(random_below(3))
    }

    pub fn color(self) -> (c: Rgb)
        ensures
            c == route_color(self),
    {
        match self {
            Route::Left => Rgb { r: 255, g: 200, b: 0 },
            Route::Straight => Rgb { r: 0, g: 160, b: 255 },
            Route::Right => Rgb { r: 255, g: 80, b: 80 },
        }
    }
}

/// Stop-line checkpoint of a lane: the vehicle's centre just behind the stop line.
pub open spec fn stop_point(lane_id: LaneId) -> Point {
    match lane_id {
        LaneId::NorthIn => pt(420, 350),
        LaneId::SouthIn => pt(380, 450),
        LaneId::EastIn => pt(450, 380),
        LaneId::WestIn => pt(350, 420),
    }
}

/// Off-screen exit points, 50 pixels past the window's edge.
pub open spec fn exit_south() -> Point {
    pt(420, 850)
}

pub open spec fn exit_north() -> Point {
    pt(380, -50)
}

pub open spec fn exit_east() -> Point {
    pt(850, 380)
}

pub open spec fn exit_west() -> Point {
    pt(-50, 420)
}

/// Pivot points at the edges of the conflict box.
pub open spec fn pivot_ne() -> Point {
    pt(440, 380)
}

pub open spec fn pivot_sw() -> Point {
    pt(360, 420)
}

pub open spec fn pivot_se() -> Point {
    pt(420, 440)
}

pub open spec fn pivot_nw() -> Point {
    pt(380, 360)
}

/// The waypoints of a vehicle: its stop line first, then (for a turn) the
/// pivot on the side it turns to, then the exit on that side. Traffic keeps
/// to the right: from the north (heading south) left is east and right is
/// west, from the south left is west, from the east left is south, from the
/// west left is north.
pub open spec fn waypoints_of(lane_id: LaneId, route: Route) -> Seq<Point> {
    let stop = stop_point(lane_id);
    match (lane_id, route) {
        (LaneId::NorthIn, Route::Straight) => seq![stop, exit_south()],
        (LaneId::NorthIn, Route::Left) => seq![stop, pivot_ne(), exit_east()],
        (LaneId::NorthIn, Route::Right) => seq![stop, pivot_sw(), exit_west()],
        (LaneId::SouthIn, Route::Straight) => seq![stop, exit_north()],
        (LaneId::SouthIn, Route::Left) => seq![stop, pivot_sw(), exit_west()],
        (LaneId::SouthIn, Route::Right) => seq![stop, pivot_ne(), exit_east()],
        (LaneId::EastIn, Route::Straight) => seq![stop, exit_west()],
        (LaneId::EastIn, Route::Left) => seq![stop, pivot_se(), exit_south()],
        (LaneId::EastIn, Route::Right) => seq![stop, pivot_nw(), exit_north()],
        (LaneId::WestIn, Route::Straight) => seq![stop, exit_east()],
        (LaneId::WestIn, Route::Left) => seq![stop, pivot_nw(), exit_north()],
        (LaneId::WestIn, Route::Right) => seq![stop, pivot_se(), exit_south()],
    }
}

/// Build the ordered waypoint list for a vehicle spawned in `lane_id` with
/// `route`. Waypoint 0 is always the stop-line checkpoint, where the vehicle
/// parks on red; the rest guide it through the intersection and off-screen.
pub fn build_waypoints(lane_id: LaneId, route: Route) -> (w: Vec<Point>)
    ensures
        w@ == waypoints_of(lane_id, route),
{
    let cx = WINDOW_WIDTH as i32 / 2;
    let cy = WINDOW_HEIGHT as i32 / 2;
    let half = ROAD_WIDTH / 2;
    let off = ROAD_WIDTH / 4;
    let vhalf = VEHICLE_LENGTH / 2;
    let edge: i32 = 50;

    let stop = match lane_id {
        LaneId::NorthIn => Point::new(cx + off, cy - half - vhalf),
        LaneId::SouthIn => Point::new(cx - off, cy + half + vhalf),
        LaneId::EastIn => Point::new(cx + half + vhalf, cy - off),
        LaneId::WestIn => Point::new(cx - half - vhalf, cy + off),
    };

    let exit_south = Point::new(cx + off, WINDOW_HEIGHT as i32 + edge);
    let exit_north = Point::new(cx - off, -edge);
    let exit_east = Point::new(WINDOW_WIDTH as i32 + edge, cy - off);
    let exit_west = Point::new(-edge, cy + off);

    let pivot_ne = Point::new(cx + half, cy - off);
    let pivot_sw = Point::new(cx - half, cy + off);
    let pivot_se = Point::new(cx + off, cy + half);
    let pivot_nw = Point::new(cx - off, cy - half);

    let w = match (lane_id, route) {
        (LaneId::NorthIn, Route::Straight) => vec![stop, exit_south],
        (LaneId::NorthIn, Route::Left) => vec![stop, pivot_ne, exit_east],
        (LaneId::NorthIn, Route::Right) => vec![stop, pivot_sw, exit_west],
        (LaneId::SouthIn, Route::Straight) => vec![stop, exit_north],
        (LaneId::SouthIn, Route::Left) => vec![stop, pivot_sw, exit_west],
        (LaneId::SouthIn, Route::Right) => vec![stop, pivot_ne, exit_east],
        (LaneId::EastIn, Route::Straight) => vec![stop, exit_west],
        (LaneId::EastIn, Route::Left) => vec![stop, pivot_se, exit_south],
        (LaneId::EastIn, Route::Right) => vec![stop, pivot_nw, exit_north],
        (LaneId::WestIn, Route::Straight) => vec![stop, exit_east],
        (LaneId::WestIn, Route::Left) => vec![stop, pivot_nw, exit_north],
        (LaneId::WestIn, Route::Right) => vec![stop, pivot_se, exit_south],
    };
    proof {
        assert(w@ =~= waypoints_of(lane_id, route));
    }
    w
}


/// How far `e` lies from the window's centre in the direction `v`.
pub open spec fn reach(e: Point, v: Point) -> int {
    (e.x - 400) * v.x + (e.y - 400) * v.y
}

/// Every route leaves on its own side: for each lane of the layout, heading
/// `d` on screen (y grows downward), the last waypoint of a left turn lies
/// beyond the window's edge on the driver's left, `(d.y, -d.x)`; that of a
/// right turn beyond the edge on the right, `(-d.y, d.x)`; and that of a
/// straight route beyond the edge straight ahead. Every path starts at the
/// lane's stop line.
pub proof fn law_routes_exit_on_their_side(i: int)
    requires
        0 <= i < 4,
    ensures
        ({
            let lane = layout_lanes()[i];
            let d = lane.direction;
            let left = waypoints_of(lane.id, Route::Left);
            let right = waypoints_of(lane.id, Route::Right);
            let straight = waypoints_of(lane.id, Route::Straight);
            &&& reach(left.last(), pt(d.y as int, -d.x)) > 400
            &&& reach(right.last(), pt(-d.y, d.x as int)) > 400
            &&& reach(straight.last(), d) > 400
            &&& left[0] == right[0] && right[0] == straight[0]
        }),
{
    let lane = layout_lanes()[i];
    let d = lane.direction;
    let left = waypoints_of(lane.id, Route::Left).last();
    let right = waypoints_of(lane.id, Route::Right).last();
    let straight = waypoints_of(lane.id, Route::Straight).last();
    if i == 0 {
        assert(lane.id == LaneId::NorthIn && d.x == 0 && d.y == 1);
        assert(left == exit_east() && right == exit_west() && straight == exit_south());
    } else if i == 1 {
        assert(lane.id == LaneId::SouthIn && d.x == 0 && d.y == -1);
        assert(left == exit_west() && right == exit_east() && straight == exit_north());
    } else if i == 2 {
        assert(lane.id == LaneId::EastIn && d.x == -1 && d.y == 0);
        assert(left == exit_south() && right == exit_north() && straight == exit_west());
    } else {
        assert(lane.id == LaneId::WestIn && d.x == 1 && d.y == 0);
        assert(left == exit_north() && right == exit_south() && straight == exit_east());
    }
    let lv = pt(d.y as int, -d.x);
    let rv = pt(-d.y, d.x as int);
    assert(reach(left, lv) == (left.x - 400) * lv.x + (left.y - 400) * lv.y);
    assert(reach(left, lv) > 400) by (nonlinear_arith)
        requires
            reach(left, lv) == (left.x - 400) * lv.x + (left.y - 400) * lv.y,
            (left.x == 850 && left.y == 380 && lv.x == 1 && lv.y == 0) || (left.x == -50
                && left.y == 420 && lv.x == -1 && lv.y == 0) || (left.x == 420 && left.y == 850
                && lv.x == 0 && lv.y == 1) || (left.x == 380 && left.y == -50 && lv.x == 0 && lv.y
                == -1),
    ;
    assert(reach(right, rv) > 400) by (nonlinear_arith)
        requires
            reach(right, rv) == (right.x - 400) * rv.x + (right.y - 400) * rv.y,
            (right.x == 850 && right.y == 380 && rv.x == 1 && rv.y == 0) || (right.x == -50
                && right.y == 420 && rv.x == -1 && rv.y == 0) || (right.x == 420 && right.y == 850
                && rv.x == 0 && rv.y == 1) || (right.x == 380 && right.y == -50 && rv.x == 0 && rv.y
                == -1),
    ;
    assert(reach(straight, d) > 400) by (nonlinear_arith)
        requires
            reach(straight, d) == (straight.x - 400) * d.x + (straight.y - 400) * d.y,
            (straight.x == 850 && straight.y == 380 && d.x == 1 && d.y == 0) || (straight.x == -50
                && straight.y == 420 && d.x == -1 && d.y == 0) || (straight.x == 420 && straight.y
                == 850 && d.x == 0 && d.y == 1) || (straight.x == 380 && straight.y == -50 && d.x
                == 0 && d.y == -1),
    ;
}

} // verus!
