//! Adaptive traffic-light controller.
//!
//! Phase cycle: North-South green, all-red buffer, East-West green, all-red
//! buffer, and so on. A green phase lasts at least `BASE_GREEN_MS` and at most
//! `MAX_GREEN_MS`; in between it is kept while one of its lanes is congested.
//! Time is counted in nanoseconds, as `std::time::Duration` counts it.
use vstd::prelude::*;

use crate::constants::{
    ALL_RED_MS, BASE_GREEN_MS, CONGESTION_THRESHOLD_PERCENT, LANE_EAST_Y, LANE_LENGTH, LANE_NORTH_X,
    LANE_SOUTH_X, LANE_WEST_Y, MAX_GREEN_MS, MIN_CONGESTED_QUEUE, SAFETY_GAP, STOP_LINE_EAST,
    STOP_LINE_NORTH, STOP_LINE_SOUTH, STOP_LINE_WEST, VEHICLE_LENGTH,
};
use crate::input::Direction;
use crate::render::{fill, rgb, DrawCmd, Rect, Rgb, Shape};

verus! {

#[derive(Clone, Copy, PartialEq, Eq, Debug, Structural)]
pub enum LightState {
    Red,
    Green,
}

#[derive(Clone, Copy, PartialEq, Eq, Debug, Structural)]
pub enum EntryLane {
    North,
    South,
    East,
    West,
}

impl EntryLane {
    /// Position of the lane in the order North, South, East, West.
    pub open spec fn idx(self) -> int {
        match self {
            EntryLane::North => 0,
            EntryLane::South => 1,
            EntryLane::East => 2,
            EntryLane::West => 3,
        }
    }

    pub fn index(self) -> (i: usize)
        ensures
            i as int == self.idx(),
            i < 4,
    {
        match self {
            EntryLane::North => 0,
            EntryLane::South => 1,
            EntryLane::East => 2,
            EntryLane::West => 3,
        }
    }

    fn all() -> (r: [EntryLane; 4])
        ensures
            r@ == seq![EntryLane::North, EntryLane::South, EntryLane::East, EntryLane::West],
    {
        [EntryLane::North, EntryLane::South, EntryLane::East, EntryLane::West]
    }
}

pub open spec fn entry_lane_of(dir: Direction) -> EntryLane {
    match dir {
        Direction::North => EntryLane::North,
        Direction::South => EntryLane::South,
        Direction::East => EntryLane::East,
        Direction::West => EntryLane::West,
    }
}

impl From<Direction> for EntryLane {
    fn from(dir: Direction) -> (r: Self) {
        match dir {
            Direction::North => EntryLane::North,
            Direction::South => EntryLane::South,
            Direction::East => EntryLane::East,
            Direction::West => EntryLane::West,
        }
    }
}

impl vstd::std_specs::convert::FromSpecImpl<Direction> for EntryLane {
    open spec fn obeys_from_spec() -> bool {
        true
    }

    open spec fn from_spec(dir: Direction) -> Self {
        entry_lane_of(dir)
    }
}

/// Queue counts indexed by entry lane: North, South, East, West.
pub type LaneQueueCounts = [u32; 4];

#[derive(Clone, Copy, PartialEq, Eq, Debug, Structural)]
pub enum Phase {
    NorthSouthGreen,
    AllRed,
    EastWestGreen,
}

#[derive(Clone, Copy, PartialEq, Eq, Debug, Structural)]
pub enum GreenAxis {
    NorthSouth,
    EastWest,
}

#[derive(Clone, Copy)]
struct TrafficLight {
    state: LightState,
    position: (i32, i32),
}

pub struct TrafficLightController {
    lights: [TrafficLight; 4],
    phase: Phase,
    /// Time spent in the current phase, in nanoseconds.
    phase_timer: u128,
    next_green_axis: GreenAxis,
}

/// The largest time `std::time::Duration` can hold, in nanoseconds.
pub const MAX_DURATION_NANOS: u128 = 18_446_744_073_709_551_615_999_999_999;

pub const NANOS_PER_MILLI: u128 = 1_000_000;

pub open spec fn millis(ms: u64) -> nat {
    (ms * 1_000_000) as nat
}

/// The abstract state of a controller.
pub struct ControllerView {
    pub phase: Phase,
    /// Time spent in the current phase, in nanoseconds.
    pub timer: nat,
    pub next_axis: GreenAxis,
    /// Light of each entry lane, North, South, East, West.
    pub lights: Seq<LightState>,
    /// Where each light stands, North, South, East, West.
    pub positions: Seq<(i32, i32)>,
}

/// Whether the lane at position `lane` (North, South, East, West) is green in `phase`.
pub open spec fn green_in(phase: Phase, lane: int) -> bool {
    match phase {
        Phase::NorthSouthGreen => lane == 0 || lane == 1,
        Phase::EastWestGreen => lane == 2 || lane == 3,
        Phase::AllRed => false,
    }
}

pub open spec fn lights_for(phase: Phase) -> Seq<LightState> {
    Seq::new(4, |i: int| if green_in(phase, i) { LightState::Green } else { LightState::Red })
}

/// Each light stands 18 pixels behind the stop line of its lane.
pub open spec fn light_positions() -> Seq<(i32, i32)> {
    seq![
        (LANE_SOUTH_X, (STOP_LINE_NORTH - 18) as i32),
        (LANE_NORTH_X, (STOP_LINE_SOUTH + 18) as i32),
        ((STOP_LINE_EAST + 18) as i32, LANE_WEST_Y),
        ((STOP_LINE_WEST - 18) as i32, LANE_EAST_Y),
    ]
}

pub open spec fn green_phase_of(axis: GreenAxis) -> Phase {
    match axis {
        GreenAxis::NorthSouth => Phase::NorthSouthGreen,
        GreenAxis::EastWest => Phase::EastWestGreen,
    }
}

pub open spec fn other_axis(axis: GreenAxis) -> GreenAxis {
    match axis {
        GreenAxis::NorthSouth => GreenAxis::EastWest,
        GreenAxis::EastWest => GreenAxis::NorthSouth,
    }
}

/// floor(lane length / (vehicle length + safety gap)).
pub open spec fn capacity() -> int {
    (LANE_LENGTH as int) / ((VEHICLE_LENGTH + SAFETY_GAP) as int)
}

/// The queue length at which a lane reaches `CONGESTION_THRESHOLD_PERCENT`
/// of its capacity, rounded up.
pub open spec fn congestion_cutoff() -> int {
    (capacity() * CONGESTION_THRESHOLD_PERCENT + 99) / 100
}

pub open spec fn congested(count: u32) -> bool {
    count >= MIN_CONGESTED_QUEUE || count >= congestion_cutoff()
}

/// Whether a green phase that has lasted `timer` nanoseconds ends, given the
/// queues of its two lanes.
pub open spec fn green_ends(timer: nat, count_a: u32, count_b: u32) -> bool {
    timer >= millis(MAX_GREEN_MS) || (timer >= millis(BASE_GREEN_MS) && !congested(count_a)
        && !congested(count_b))
}

impl ControllerView {
    pub open spec fn wf(self) -> bool {
        &&& self.lights == lights_for(self.phase)
        &&& self.positions == light_positions()
        &&& self.timer <= MAX_DURATION_NANOS
        &&& self.phase == Phase::NorthSouthGreen ==> self.next_axis == GreenAxis::EastWest
        &&& self.phase == Phase::EastWestGreen ==> self.next_axis == GreenAxis::NorthSouth
    }

    pub open spec fn is_green(self, lane: EntryLane) -> bool {
        self.lights[lane.idx()] == LightState::Green
    }

    pub open spec fn in_phase(self, phase: Phase, timer: nat, next_axis: GreenAxis) -> Self {
        ControllerView { phase, timer, next_axis, lights: lights_for(phase), positions: self.positions }
    }

    /// The state after `delta` nanoseconds with the given queue counts.
    pub open spec fn step(self, delta: nat, counts: Seq<u32>) -> Self {
        let t = self.timer + delta;
        match self.phase {
            Phase::NorthSouthGreen => if green_ends(t, counts[0], counts[1]) {
                self.in_phase(Phase::AllRed, 0, GreenAxis::EastWest)
            } else {
                ControllerView { timer: t, ..self }
            },
            Phase::EastWestGreen => if green_ends(t, counts[2], counts[3]) {
                self.in_phase(Phase::AllRed, 0, GreenAxis::NorthSouth)
            } else {
                ControllerView { timer: t, ..self }
            },
            Phase::AllRed => if t >= millis(ALL_RED_MS) {
                self.in_phase(green_phase_of(self.next_axis), 0, other_axis(self.next_axis))
            } else {
                ControllerView { timer: t, ..self }
            },
        }
    }
}

impl View for TrafficLightController {
    type V = ControllerView;

    closed spec fn view(&self) -> ControllerView {
        ControllerView {
            phase: self.phase,
            timer: self.phase_timer as nat,
            next_axis: self.next_green_axis,
            lights: self.lights@.map_values(|l: TrafficLight| l.state),
            positions: self.lights@.map_values(|l: TrafficLight| l.position),
        }
    }
}

pub fn lane_capacity() -> (c: u32)
    ensures
        c == capacity(),
        c == 12,
{
    (LANE_LENGTH / (VEHICLE_LENGTH + SAFETY_GAP)) as u32
}

fn is_lane_congested(count: u32) -> (r: bool)
    ensures
        r == congested(count),
{
    let cap = lane_capacity();
    let pct_threshold = (cap * CONGESTION_THRESHOLD_PERCENT + 99) / 100;
    count >= MIN_CONGESTED_QUEUE || count >= pct_threshold
}

fn phase_has_green(phase: Phase, lane: EntryLane) -> (r: bool)
    ensures
        r == green_in(phase, lane.idx()),
{
    match phase {
        Phase::NorthSouthGreen => lane == EntryLane::North || lane == EntryLane::South,
        Phase::EastWestGreen => lane == EntryLane::East || lane == EntryLane::West,
        Phase::AllRed => false,
    }
}

impl TrafficLightController {
    pub fn new() -> (r: Self)
        ensures
            r@.wf(),
            r@.phase == Phase::AllRed,
            r@.timer == 0,
            r@.next_axis == GreenAxis::NorthSouth,
    {
        let lights = [
            TrafficLight { state: LightState::Red, position: (LANE_SOUTH_X, STOP_LINE_NORTH - 18) },
            TrafficLight { state: LightState::Red, position: (LANE_NORTH_X, STOP_LINE_SOUTH + 18) },
            TrafficLight { state: LightState::Red, position: (STOP_LINE_EAST + 18, LANE_WEST_Y) },
            TrafficLight { state: LightState::Red, position: (STOP_LINE_WEST - 18, LANE_EAST_Y) },
        ];
        let mut controller = TrafficLightController {
            lights,
            phase: Phase::AllRed,
            phase_timer: 0,
            next_green_axis: GreenAxis::NorthSouth,
        };
        controller.apply_phase_lights();
        assert(controller@.positions =~= light_positions());
        controller
    }

    pub fn is_green(&self, lane: EntryLane) -> (r: bool)
        ensures
            r == self@.is_green(lane),
    {
        self.lights[lane.index()].state == LightState::Green
    }

    /// Time spent in the current phase, in nanoseconds.
    pub fn phase_elapsed_nanos(&self) -> (t: u128)
        ensures
            t == self@.timer,
    {
        self.phase_timer
    }

    pub fn update(&mut self, delta_nanos: u128, queue_counts: LaneQueueCounts)
        requires
            old(self)@.wf(),
            old(self)@.timer + delta_nanos <= MAX_DURATION_NANOS,
        ensures
            final(self)@ == old(self)@.step(delta_nanos as nat, queue_counts@),
            final(self)@.wf(),
    {
        self.phase_timer = self.phase_timer + delta_nanos;
        match self.phase {
            Phase::NorthSouthGreen => {
                if self.should_end_green([EntryLane::North, EntryLane::South], queue_counts) {
                    self.begin_all_red();
                }
            },
            Phase::EastWestGreen => {
                if self.should_end_green([EntryLane::East, EntryLane::West], queue_counts) {
                    self.begin_all_red();
                }
            },
            Phase::AllRed => {
                if self.phase_timer >= ALL_RED_MS as u128 * NANOS_PER_MILLI {
                    self.advance_from_all_red();
                }
            },
        }
        proof {
            assert(self@.lights =~= old(self)@.step(delta_nanos as nat, queue_counts@).lights);
            assert(self@.positions =~= old(self)@.positions);
        }
    }

    fn should_end_green(&self, lanes: [EntryLane; 2], queue_counts: LaneQueueCounts) -> (r: bool)
        ensures
            r == green_ends(
                self.phase_timer as nat,
                queue_counts@[lanes@[0].idx()],
                queue_counts@[lanes@[1].idx()],
            ),
    {
        let base_green = BASE_GREEN_MS as u128 * NANOS_PER_MILLI;
        let max_green = MAX_GREEN_MS as u128 * NANOS_PER_MILLI;
        let congested = is_lane_congested(queue_counts[lanes[0].index()]) || is_lane_congested(
            queue_counts[lanes[1].index()],
        );
        if self.phase_timer >= max_green {
            return true;
        }
        if self.phase_timer < base_green {
            return false;
        }
        !congested
    }

    fn begin_all_red(&mut self)
        requires
            old(self).phase != Phase::AllRed,
        ensures
            final(self).phase == Phase::AllRed,
            final(self).phase_timer == 0,
            final(self).next_green_axis == (if old(self).phase == Phase::NorthSouthGreen {
                GreenAxis::EastWest
            } else {
                GreenAxis::NorthSouth
            }),
            final(self)@.lights == lights_for(Phase::AllRed),
            final(self)@.positions == old(self)@.positions,
    {
        self.next_green_axis = match self.phase {
            Phase::NorthSouthGreen => GreenAxis::EastWest,
            Phase::EastWestGreen => GreenAxis::NorthSouth,
            Phase::AllRed => self.next_green_axis,
        };
        self.phase = Phase::AllRed;
        self.phase_timer = 0;
        self.apply_phase_lights();
    }

    fn advance_from_all_red(&mut self)
        ensures
            final(self).phase == green_phase_of(old(self).next_green_axis),
            final(self).next_green_axis == other_axis(old(self).next_green_axis),
            final(self).phase_timer == 0,
            final(self)@.lights == lights_for(final(self).phase),
            final(self)@.positions == old(self)@.positions,
    {
        self.phase = match self.next_green_axis {
            GreenAxis::NorthSouth => Phase::NorthSouthGreen,
            GreenAxis::EastWest => Phase::EastWestGreen,
        };
        self.next_green_axis = match self.next_green_axis {
            GreenAxis::NorthSouth => GreenAxis::EastWest,
            GreenAxis::EastWest => GreenAxis::NorthSouth,
        };
        self.phase_timer = 0;
        self.apply_phase_lights();
    }

    fn apply_phase_lights(&mut self)
        ensures
            final(self).phase == old(self).phase,
            final(self).phase_timer == old(self).phase_timer,
            final(self).next_green_axis == old(self).next_green_axis,
            final(self)@.lights == lights_for(old(self).phase),
            final(self)@.positions == old(self)@.positions,
    {
        let lanes = EntryLane::all();
        let mut i: usize = 0;
        while i < 4
            invariant
                0 <= i <= 4,
                lanes@ == seq![EntryLane::North, EntryLane::South, EntryLane::East, EntryLane::West],
                self.phase == old(self).phase,
                self.phase_timer == old(self).phase_timer,
                self.next_green_axis == old(self).next_green_axis,
                forall|j: int| 0 <= j < 4 ==> self.lights@[j].position == old(self).lights@[j].position,
                forall|j: int| 0 <= j < i ==> self.lights@[j].state == lights_for(self.phase)[j],
            decreases 4 - i,
        {
            let lane = lanes[i];
            let mut light = self.lights[lane.index()];
            light.state = if phase_has_green(self.phase, lane) {
                LightState::Green
            } else {
                LightState::Red
            };
            self.lights[lane.index()] = light;
            i += 1;
        }
        proof {
            assert(self@.lights =~= lights_for(old(self).phase));
            assert(self@.positions =~= old(self)@.positions);
        }
    }
}

/// Safety: a lane of the North-South axis and a lane of the East-West axis are
/// never green at the same time, and the two lanes of one axis always show the
/// same light.
pub proof fn law_no_conflicting_greens(v: ControllerView)
    requires
        v.wf(),
    ensures
        !((v.is_green(EntryLane::North) || v.is_green(EntryLane::South)) && (v.is_green(
            EntryLane::East,
        ) || v.is_green(EntryLane::West))),
        v.lights[0] == v.lights[1],
        v.lights[2] == v.lights[3],
{
}

/// Every step keeps the controller well formed.
pub proof fn law_step_keeps_wf(v: ControllerView, delta: nat, counts: Seq<u32>)
    requires
        v.wf(),
        v.timer + delta <= MAX_DURATION_NANOS,
        counts.len() == 4,
    ensures
        v.step(delta, counts).wf(),
{
}

/// A green phase is never cut short of `BASE_GREEN_MS`.
pub proof fn law_minimum_green(v: ControllerView, delta: nat, counts: Seq<u32>)
    requires
        v.wf(),
        v.phase != Phase::AllRed,
        v.timer + delta < millis(BASE_GREEN_MS),
    ensures
        v.step(delta, counts).phase == v.phase,
        v.step(delta, counts).timer == v.timer + delta,
{
}

/// A green phase never outlasts `MAX_GREEN_MS`, however congested its lanes.
pub proof fn law_maximum_green(v: ControllerView, delta: nat, counts: Seq<u32>)
    requires
        v.wf(),
        v.phase != Phase::AllRed,
        v.timer + delta >= millis(MAX_GREEN_MS),
    ensures
        v.step(delta, counts).phase == Phase::AllRed,
        v.step(delta, counts).timer == 0,
{
}

/// A lane is congested exactly when at least five vehicles queue on it: five
/// is the fixed minimum, and 80% of a capacity of twelve rounds up to ten,
/// which five already covers. So congestion grows with the queue.
pub proof fn law_congestion_threshold(count: u32, more: u32)
    ensures
        congested(count) <==> count >= 5,
        congested(count) && count <= more ==> congested(more),
{
}

/// A queue of five or more vehicles on a lane of the green axis keeps that
/// green between 4 s and 12 s; with fewer than five on both of its lanes
/// the green ends once 4 s are up.
pub proof fn law_queue_keeps_green(v: ControllerView, delta: nat, counts: Seq<u32>)
    requires
        v.wf(),
        counts.len() == 4,
        4_000_000_000 <= v.timer + delta < 12_000_000_000,
    ensures
        v.phase == Phase::NorthSouthGreen && (counts[0] >= 5 || counts[1] >= 5) ==> v.step(
            delta,
            counts,
        ).phase == Phase::NorthSouthGreen && v.step(delta, counts).timer == v.timer + delta,
        v.phase == Phase::EastWestGreen && (counts[2] >= 5 || counts[3] >= 5) ==> v.step(
            delta,
            counts,
        ).phase == Phase::EastWestGreen && v.step(delta, counts).timer == v.timer + delta,
        v.phase == Phase::NorthSouthGreen && counts[0] < 5 && counts[1] < 5 ==> v.step(
            delta,
            counts,
        ).phase == Phase::AllRed,
        v.phase == Phase::EastWestGreen && counts[2] < 5 && counts[3] < 5 ==> v.step(
            delta,
            counts,
        ).phase == Phase::AllRed,
{
}

/// Between the minimum and the maximum, a green phase is kept exactly while
/// one of its lanes is congested.
pub proof fn law_congestion_extends_green(v: ControllerView, delta: nat, counts: Seq<u32>)
    requires
        v.wf(),
        v.phase != Phase::AllRed,
        millis(BASE_GREEN_MS) <= v.timer + delta < millis(MAX_GREEN_MS),
        counts.len() == 4,
    ensures
        v.phase == Phase::NorthSouthGreen ==> (v.step(delta, counts).phase == v.phase <==> (
        congested(counts[0]) || congested(counts[1]))),
        v.phase == Phase::EastWestGreen ==> (v.step(delta, counts).phase == v.phase <==> (
        congested(counts[2]) || congested(counts[3]))),
{
}

/// The all-red buffer lasts `ALL_RED_MS`; while it lasts every light is red.
pub proof fn law_all_red_buffer(v: ControllerView, delta: nat, counts: Seq<u32>)
    requires
        v.wf(),
        v.phase == Phase::AllRed,
    ensures
        v.lights == seq![LightState::Red, LightState::Red, LightState::Red, LightState::Red],
        v.timer + delta < millis(ALL_RED_MS) ==> v.step(delta, counts).phase == Phase::AllRed,
        v.timer + delta >= millis(ALL_RED_MS) ==> v.step(delta, counts).phase == green_phase_of(
            v.next_axis,
        ),
{
    assert(v.lights =~= seq![LightState::Red, LightState::Red, LightState::Red, LightState::Red]);
}

/// Every green phase is followed by the all-red buffer, and the green phase
/// after that buffer belongs to the other axis.
pub proof fn law_axes_alternate(
    v: ControllerView,
    d1: nat,
    c1: Seq<u32>,
    d2: nat,
    c2: Seq<u32>,
)
    requires
        v.wf(),
        v.phase != Phase::AllRed,
    ensures
        v.step(d1, c1).phase == v.phase || v.step(d1, c1).phase == Phase::AllRed,
        v.step(d1, c1).phase == Phase::AllRed ==> v.step(d1, c1).step(d2, c2).phase != v.phase,
{
}

impl Default for TrafficLightController {
    fn default() -> (r: Self)
        ensures
            r@.wf(),
            r@.phase == Phase::AllRed,
            r@.timer == 0,
            r@.next_axis == GreenAxis::NorthSouth,
    {
        Self::new()
    }
}

const POLE_WIDTH: u32 = 6;

const POLE_HEIGHT: u32 = 28;

const HOUSING_WIDTH: u32 = 14;

const HOUSING_HEIGHT: u32 = 22;

const LENS_SIZE: u32 = 10;

pub open spec fn lens_color(lit: bool, state: LightState) -> Rgb {
    if !lit {
        rgb(50, 50, 55)
    } else if state == LightState::Red {
        rgb(220, 40, 40)
    } else {
        rgb(40, 200, 60)
    }
}

/// One light: a pole standing at `(cx, cy)`, the housing on top of it, and in
/// the housing a red lens above a green lens, the one of the current state lit.
pub open spec fn light_unit_cmds(cx: int, cy: int, state: LightState) -> Seq<DrawCmd> {
    let housing_y = cy - 22;
    let lens_x = cx - 5;
    let lens_y = housing_y + 4;
    seq![
        fill(rgb(90, 90, 95), cx - 3, cy, 6, 28),
        fill(rgb(25, 25, 28), cx - 7, housing_y, 14, 22),
        fill(lens_color(state == LightState::Red, state), lens_x, lens_y, 10, 10),
        fill(lens_color(state == LightState::Green, state), lens_x, lens_y + 12, 10, 10),
    ]
}

/// The first `n` lights, in the order North, South, East, West.
pub open spec fn lights_cmds(v: ControllerView, n: nat) -> Seq<DrawCmd>
    decreases n,
{
    if n == 0 {
        Seq::empty()
    } else {
        let i = n - 1;
        lights_cmds(v, (n - 1) as nat) + light_unit_cmds(
            v.positions[i].0 as int,
            v.positions[i].1 as int,
            v.lights[i],
        )
    }
}

fn fill_cmd(color: Rgb, x: i32, y: i32, w: u32, h: u32) -> (c: DrawCmd)
    ensures
        c == fill(color, x as int, y as int, w, h),
{
    DrawCmd { color, shape: Shape::Fill(Rect { x, y, w, h }) }
}

/// Pole and housing at the roadside, lenses on top (red and green only).
fn draw_traffic_light_unit(cmds: &mut Vec<DrawCmd>, pos: (i32, i32), state: LightState)
    requires
        pos.0 >= i32::MIN + 7,
        pos.1 >= i32::MIN + 22,
    ensures
        final(cmds)@ == old(cmds)@ + light_unit_cmds(pos.0 as int, pos.1 as int, state),
{
    let (cx, cy) = pos;
    let pole_x = cx - POLE_WIDTH as i32 / 2;
    let pole_y = cy;
    cmds.push(fill_cmd(Rgb { r: 90, g: 90, b: 95 }, pole_x, pole_y, POLE_WIDTH, POLE_HEIGHT));
    let housing_x = cx - HOUSING_WIDTH as i32 / 2;
    let housing_y = pole_y - HOUSING_HEIGHT as i32;
    cmds.push(
        fill_cmd(Rgb { r: 25, g: 25, b: 28 }, housing_x, housing_y, HOUSING_WIDTH, HOUSING_HEIGHT),
    );
    let lens_x = cx - LENS_SIZE as i32 / 2;
    let lens_y = housing_y + 4;
    let active = match state {
        LightState::Red => Rgb { r: 220, g: 40, b: 40 },
        LightState::Green => Rgb { r: 40, g: 200, b: 60 },
    };
    let inactive = Rgb { r: 50, g: 50, b: 55 };
    // Red lens (top)
    cmds.push(
        fill_cmd(
            if state == LightState::Red {
                active
            } else {
                inactive
            },
            lens_x,
            lens_y,
            LENS_SIZE,
            LENS_SIZE,
        ),
    );
    // Green lens (bottom)
    cmds.push(
        fill_cmd(
            if state == LightState::Green {
                active
            } else {
                inactive
            },
            lens_x,
            lens_y + LENS_SIZE as i32 + 2,
            LENS_SIZE,
            LENS_SIZE,
        ),
    );
    proof {
        assert(final(cmds)@ =~= old(cmds)@ + light_unit_cmds(pos.0 as int, pos.1 as int, state));
    }
}

impl TrafficLightController {
    /// What drawing the four lights paints, in order.
    pub fn draw_commands(&self) -> (cmds: Vec<DrawCmd>)
        requires
            self@.wf(),
        ensures
            cmds@ == lights_cmds(self@, 4),
    {
        let mut cmds: Vec<DrawCmd> = Vec::new();
        let mut i: usize = 0;
        while i < 4
            invariant
                0 <= i <= 4,
                self@.wf(),
                cmds@ == lights_cmds(self@, i as nat),
            decreases 4 - i,
        {
            let light = self.lights[i];
            draw_traffic_light_unit(&mut cmds, light.position, light.state);
            i += 1;
        }
        cmds
    }
}

} // verus!
