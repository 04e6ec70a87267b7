//! Keyboard spawning for the waypoint layout.
//!
//! Key bindings: Up spawns on SouthIn (a car from the south heading north),
//! Down on NorthIn, Right on WestIn, Left on EastIn, `r` on a random entry
//! lane.
use vstd::prelude::*;

use crate::input::Key;
use crate::waypoint::map::{first_lane_with, Intersection, Lane, LaneId, Point};

verus! {

/// `rand::random::<u8>()`: a byte from the thread-local generator. Any byte
/// can come out; nothing more is stated.
#[verifier::external_body]
fn random_byte() -> u8 {
    rand::random::<u8>()
}

/// The lane with the given position in the order NorthIn, SouthIn, EastIn, WestIn.
pub open spec fn lane_at(n: int) -> LaneId {
    if n == 0 {
        LaneId::NorthIn
    } else if n == 1 {
        LaneId::SouthIn
    } else if n == 2 {
        LaneId::EastIn
    } else {
        LaneId::WestIn
    }
}

/// The lane that a key spawns on; `r` is left out, it draws a lane at random.
pub open spec fn key_lane(key: Key) -> Option<LaneId> {
    match key {
        Key::Up => Some(LaneId::SouthIn),
        Key::Down => Some(LaneId::NorthIn),
        Key::Right => Some(LaneId::WestIn),
        Key::Left => Some(LaneId::EastIn),
        _ => None,
    }
}

/// The spawn request for lane `id`: the lane and its spawn point, if the
/// intersection has the lane.
pub open spec fn spawn_request(lanes: Seq<Lane>, id: LaneId) -> Option<(LaneId, Point)> {
    if exists|i: int| first_lane_with(lanes, id, i) {
        let i = choose|i: int| first_lane_with(lanes, id, i);
        Some((id, lanes[i].spawn_point))
    } else {
        None
    }
}

/// The lane for the random byte `b`: `b % 4` in the order NorthIn, SouthIn,
/// EastIn, WestIn.
pub fn lane_for_byte(b: u8) -> (id: LaneId)
    ensures
        id == lane_at(b as int % 4),
{
    match b % 4 {
        0 => LaneId::NorthIn,
        1 => LaneId::SouthIn,
        2 => LaneId::EastIn,
        _ => LaneId::WestIn,
    }
}

fn random_lane() -> LaneId {
    lane_for_byte(random_byte())
}

/// Where a key asks for a vehicle: the lane and the spawn point to hand to
/// `VehicleManager::try_spawn`, or `None` for a key that spawns nothing.
pub fn handle_key(key: Key, intersection: &Intersection) -> (r: Option<(LaneId, Point)>)
    ensures
        key != Key::R ==> r == match key_lane(key) {
            Some(id) => spawn_request(intersection.lanes@, id),
            None => None,
        },
        key == Key::R ==> exists|id: LaneId| r == spawn_request(intersection.lanes@, id),
{
    let lane_id = match key {
        Key::Up => Some(LaneId::SouthIn),
        Key::Down => Some(LaneId::NorthIn),
        Key::Right => Some(LaneId::WestIn),
        Key::Left => Some(LaneId::EastIn),
        Key::R => Some(random_lane()),
        _ => None,
    };
    match lane_id {
        Some(id) => try_spawn(intersection, id),
        None => None,
    }
}

/// The spawn request for lane `lane_id`: its spawn point, copied out of the
/// intersection.
fn try_spawn(intersection: &Intersection, lane_id: LaneId) -> (r: Option<(LaneId, Point)>)
    ensures
        r == spawn_request(intersection.lanes@, lane_id),
{
    match intersection.get_lane(lane_id) {
        Some(l) => {
            proof {
                crate::waypoint::map::lemma_first_lane_unique(intersection.lanes@, lane_id);
            }
            Some((lane_id, l.spawn_point))
        },
        None => None,
    }
}


/// The random lane covers every lane: for each lane some byte draws it, and
/// the four residues of a byte modulo four draw four different lanes.
pub proof fn law_random_lane_covers_every_lane(id: LaneId)
    ensures
        exists|b: u8| #[trigger] lane_at(b as int % 4) == id,
        forall|i: int, j: int|
            0 <= i < j < 4 ==> #[trigger] lane_at(i) != #[trigger] lane_at(j),
{
    let b: u8 = match id {
        LaneId::NorthIn => 0,
        LaneId::SouthIn => 1,
        LaneId::EastIn => 2,
        LaneId::WestIn => 3,
    };
    assert(lane_at(b as int % 4) == id);
}

} // verus!
