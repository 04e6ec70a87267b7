//! Vehicle trips of the waypoint layout.
//!
//! A vehicle's position is a pair of floats and moves by float arithmetic;
//! what is decided here is the rest of its trip: which waypoint it heads
//! for, when it may pass the stop-line checkpoint, when it leaves the map,
//! and how many vehicles queue on each lane.
use vstd::prelude::*;

use crate::waypoint::map::{first_lane_with, Intersection, Lane, LaneId};
use crate::waypoint::route::Route;
use crate::waypoint::traffic_light::lane_ids;

verus! {

/// The discrete part of a vehicle: its lane, its route, and its progress
/// along the route's waypoints.
#[derive(Debug, Clone, Copy, PartialEq, Eq, Structural)]
pub struct Trip {
    pub lane_id: LaneId,
    pub route: Route,
    /// Index of the next waypoint to move toward; index 0 is the stop-line
    /// checkpoint.
    pub waypoint_idx: usize,
    /// Number of waypoints of the route.
    pub waypoint_count: usize,
    pub active: bool,
}

impl Trip {
    pub fn new(lane_id: LaneId, route: Route, waypoint_count: usize) -> (t: Self)
        ensures
            t == (Trip { lane_id, route, waypoint_idx: 0, waypoint_count, active: true }),
    {
        Trip { lane_id, route, waypoint_idx: 0, waypoint_count, active: true }
    }

    /// True once the vehicle has advanced past the stop-line checkpoint.
    pub fn past_stop_line(&self) -> (r: bool)
        ensures
            r == (self.waypoint_idx > 0),
    {
        self.waypoint_idx > 0
    }

    /// Whether the vehicle moves this tick: not when it is inactive, nor when
    /// its waypoints are used up, in which case it becomes inactive.
    pub fn starts_tick(&mut self) -> (moves: bool)
        ensures
            moves == (old(self).active && old(self).waypoint_idx < old(self).waypoint_count),
            *final(self) == (if old(self).active && old(self).waypoint_idx
                >= old(self).waypoint_count {
                Trip { active: false, ..*old(self) }
            } else {
                *old(self)
            }),
    {
        if !self.active {
            return false;
        }
        if self.waypoint_idx >= self.waypoint_count {
            self.active = false;
            return false;
        }
        true
    }

    /// The vehicle has reached its current waypoint. At the stop-line
    /// checkpoint it heads on only on green; any other waypoint it passes.
    pub fn reach_waypoint(&mut self, green: bool)
        requires
            old(self).waypoint_idx < old(self).waypoint_count,
        ensures
            *final(self) == reached(*old(self), green),
    {
        if self.waypoint_idx == 0 {
            if green {
                self.waypoint_idx += 1;
            }
        } else {
            self.waypoint_idx += 1;
        }
    }

    /// End of a tick: the vehicle leaves once all waypoints are consumed or it
    /// is off-screen.
    pub fn end_tick(&mut self, off_screen: bool)
        ensures
            *final(self) == (if old(self).waypoint_idx >= old(self).waypoint_count || off_screen {
                Trip { active: false, ..*old(self) }
            } else {
                *old(self)
            }),
    {
        if self.waypoint_idx >= self.waypoint_count || off_screen {
            self.active = false;
        }
    }
}

/// A trip after it reached its current waypoint: at the stop-line checkpoint
/// it heads on only on green; past it, it heads for the next waypoint.
pub open spec fn reached(t: Trip, green: bool) -> Trip {
    if t.waypoint_idx == 0 && !green {
        t
    } else {
        Trip { waypoint_idx: (t.waypoint_idx + 1) as usize, ..t }
    }
}

/// Vehicles stop at red: a vehicle at the stop-line checkpoint passes it
/// exactly when its light is green, and no step of a trip takes a vehicle
/// back to an earlier waypoint.
pub proof fn law_stop_line_needs_green(t: Trip, green: bool)
    requires
        t.waypoint_idx < t.waypoint_count,
    ensures
        t.waypoint_idx == 0 ==> (reached(t, green).waypoint_idx > 0 <==> green),
        reached(t, green).waypoint_idx >= t.waypoint_idx,
        reached(t, green).lane_id == t.lane_id && reached(t, green).route == t.route,
{
}

pub open spec fn queued_on_lane(t: Trip, id: LaneId) -> bool {
    t.lane_id == id && t.waypoint_idx == 0
}

/// How many trips of `trips` are on lane `id` before its stop line.
pub open spec fn queue_length(trips: Seq<Trip>, id: LaneId) -> nat
    decreases trips.len(),
{
    if trips.len() == 0 {
        0
    } else {
        queue_length(trips.drop_last(), id) + if queued_on_lane(trips.last(), id) {
            1nat
        } else {
            0nat
        }
    }
}

fn count_queued(trips: &Vec<Trip>, id: LaneId) -> (q: usize)
    ensures
        q == queue_length(trips@, id),
{
    let mut q: usize = 0;
    let mut i: usize = 0;
    while i < trips.len()
        invariant
            0 <= i <= trips@.len(),
            q == queue_length(trips@.take(i as int), id),
            q <= i,
        decreases trips@.len() - i,
    {
        proof {
            assert(trips@.take(i as int + 1).drop_last() =~= trips@.take(i as int));
        }
        if trips[i].lane_id == id && !trips[i].past_stop_line() {
            q += 1;
        }
        i += 1;
    }
    proof {
        assert(trips@.take(trips@.len() as int) =~= trips@);
    }
    q
}

/// Lane `i` of `lanes` after the queue lengths are recorded: the first lane
/// with each id gets the queue length of its id; every other lane is as it was.
pub open spec fn recorded_lane(lanes: Seq<Lane>, trips: Seq<Trip>, i: int) -> Lane {
    if first_lane_with(lanes, lanes[i].id, i) {
        Lane { queue_len: queue_length(trips, lanes[i].id) as usize, ..lanes[i] }
    } else {
        lanes[i]
    }
}

/// What holds of the lanes once the first `k` lane ids have been recorded.
pub open spec fn recorded_upto(old_lanes: Seq<Lane>, lanes: Seq<Lane>, trips: Seq<Trip>, k: int) -> bool {
    &&& lanes.len() == old_lanes.len()
    &&& forall|i: int| 0 <= i < old_lanes.len() ==> (#[trigger] lanes[i]).id == old_lanes[i].id
    &&& forall|i: int|
        0 <= i < old_lanes.len() ==> #[trigger] lanes[i] == (if (exists|j: int|
            0 <= j < k && lane_ids()[j] == old_lanes[i].id) {
            recorded_lane(old_lanes, trips, i)
        } else {
            old_lanes[i]
        })
}

proof fn lemma_record_step(
    old_lanes: Seq<Lane>,
    before: Seq<Lane>,
    now: Seq<Lane>,
    trips: Seq<Trip>,
    k: int,
    q: usize,
)
    requires
        0 <= k < 4,
        recorded_upto(old_lanes, before, trips, k),
        q == queue_length(trips, lane_ids()[k]),
        (exists|f: int|
            first_lane_with(before, lane_ids()[k], f) && now == before.update(
                f,
                Lane { queue_len: q, ..before[f] },
            )) || ((forall|i: int| 0 <= i < before.len() ==> before[i].id != lane_ids()[k]) && now
            == before),
    ensures
        recorded_upto(old_lanes, now, trips, k + 1),
{
    let id = lane_ids()[k];
    assert forall|i: int, j: int| 0 <= i < 4 && 0 <= j < 4 && i != j implies lane_ids()[i]
        != lane_ids()[j] by {}
    assert forall|i: int| 0 <= i < old_lanes.len() && old_lanes[i].id == id implies !(exists|
        j: int,
    | 0 <= j < k && lane_ids()[j] == old_lanes[i].id) by {}
    assert forall|f: int| first_lane_with(before, id, f) implies first_lane_with(old_lanes, id, f) by {
        assert forall|j: int| 0 <= j < f implies old_lanes[j].id != id by {
            assert(before[j].id == old_lanes[j].id);
        }
    }
    assert forall|i: int| 0 <= i < old_lanes.len() implies #[trigger] now[i] == (if (exists|j: int|
        0 <= j < k + 1 && lane_ids()[j] == old_lanes[i].id) {
        recorded_lane(old_lanes, trips, i)
    } else {
        old_lanes[i]
    }) by {
        if old_lanes[i].id == id {
            assert(lane_ids()[k] == old_lanes[i].id);
            assert(before[i] == old_lanes[i]);
        } else {
            assert((exists|j: int| 0 <= j < k + 1 && lane_ids()[j] == old_lanes[i].id) == (exists|
                j: int,
            | 0 <= j < k && lane_ids()[j] == old_lanes[i].id));
        }
    }
}

/// Writes into the intersection how many vehicles queue on each lane, before
/// its stop line.
pub fn record_queue_lengths(intersection: &mut Intersection, trips: &Vec<Trip>)
    ensures
        final(intersection).lanes@.len() == old(intersection).lanes@.len(),
        forall|i: int|
            0 <= i < old(intersection).lanes@.len() ==> #[trigger] final(intersection).lanes@[i]
                == recorded_lane(old(intersection).lanes@, trips@, i),
        final(intersection).center == old(intersection).center,
        final(intersection).half_road == old(intersection).half_road,
{
    let ids = [LaneId::NorthIn, LaneId::SouthIn, LaneId::EastIn, LaneId::WestIn];
    let mut k: usize = 0;
    while k < 4
        invariant
            0 <= k <= 4,
            ids@ == lane_ids(),
            intersection.lanes@.len() == old(intersection).lanes@.len(),
            intersection.center == old(intersection).center,
            intersection.half_road == old(intersection).half_road,
            recorded_upto(old(intersection).lanes@, intersection.lanes@, trips@, k as int),
        decreases 4 - k,
    {
        let id = ids[k];
        let q = count_queued(trips, id);
        assert(id == lane_ids()[k as int]);
        let ghost before = intersection.lanes@;
        match intersection.get_lane_mut(id) {
            Some(lane) => {
                lane.queue_len = q;
            },
            None => {},
        }
        proof {
            assert((exists|f: int|
                first_lane_with(before, id, f) && intersection.lanes@ == before.update(
                    f,
                    Lane { queue_len: q, ..before[f] },
                )) || ((forall|i: int| 0 <= i < before.len() ==> before[i].id != id)
                && intersection.lanes@ == before));
            lemma_record_step(old(intersection).lanes@, before, intersection.lanes@, trips@, k as int, q);
        }
        k += 1;
    }
    proof {
        assert forall|i: int| 0 <= i < old(intersection).lanes@.len() implies #[trigger]
            intersection.lanes@[i] == recorded_lane(old(intersection).lanes@, trips@, i) by {
            let id = old(intersection).lanes@[i].id;
            let j = match id {
                LaneId::NorthIn => 0int,
                LaneId::SouthIn => 1,
                LaneId::EastIn => 2,
                LaneId::WestIn => 3,
            };
            assert(ids@[j] == id);
        }
    }
}

} // verus!
