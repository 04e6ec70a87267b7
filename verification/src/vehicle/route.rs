//! The turn a vehicle takes through the intersection, fixed at spawn.
use vstd::prelude::*;

use crate::render::{rgb, Rgb};

verus! {

#[derive(Clone, Copy, PartialEq, Eq, Debug, Structural)]
pub enum Route {
    Straight,
    Left,
    Right,
}

/// Value of the round-robin route counter before the first vehicle.
pub const ROUTE_COUNTER_START: u32 = 0;

/// The route dealt at counter value `c`: the counter advances by two per
/// vehicle, and `c % 3` picks the route so that successive vehicles get
/// Straight, Left, Right, Straight, ...
pub open spec fn route_of_count(c: int) -> Route {
    if c % 3 == 0 {
        Route::Straight
    } else if c % 3 == 2 {
        Route::Left
    } else {
        Route::Right
    }
}

/// The route dealt after `r` in the round robin.
pub open spec fn next_route(r: Route) -> Route {
    match r {
        Route::Straight => Route::Left,
        Route::Left => Route::Right,
        Route::Right => Route::Straight,
    }
}

/// Route colours: Straight is blue, Left is yellow, Right is orange.
pub open spec fn route_color(route: Route) -> Rgb {
    match route {
        Route::Straight => rgb(0, 80, 220),
        Route::Left => rgb(230, 190, 0),
        Route::Right => rgb(220, 100, 0),
    }
}

impl Route {
    /// Round-robin pick: the route for `counter % 3` (0 Straight, 2 Left,
    /// 1 Right); the counter then advances by two, wrapping at 2^32.
    pub fn random(counter: &mut u32) -> (r: Self)
        ensures
            r == route_of_count(*old(counter) as int),
            *final(counter) == (*old(counter) as int + 2) % 0x1_0000_0000,
    {
        let n = *counter % 3;
        *counter = counter.wrapping_add(2);
        match n {
            0 => Route::Straight,
            2 => Route::Left,
            _ => Route::Right,
        }
    }

    /// Route colours for the audit: Straight is blue, Left is yellow, Right is orange.
    pub fn color(self) -> (c: Rgb)
        ensures
            c == route_color(self),
    {
        match self {
            Route::Straight => Rgb { r: 0, g: 80, b: 220 },
            Route::Left => Rgb { r: 230, g: 190, b: 0 },
            Route::Right => Rgb { r: 220, g: 100, b: 0 },
        }
    }
}

/// Routes are dealt round-robin, Straight, Left, Right, Straight, ...: the
/// first vehicle goes straight, and each pick is followed by the next route
/// in that order, as long as the counter does not wrap.
pub proof fn law_routes_round_robin(c: u32)
    requires
        c as int + 2 < 0x1_0000_0000,
    ensures
        route_of_count(ROUTE_COUNTER_START as int) == Route::Straight,
        route_of_count(c as int + 2) == next_route(route_of_count(c as int)),
{
}

} // verus!
