//! Traffic lights of the waypoint layout.
//!
//! Phase cycle: North-South green, all-red buffer, East-West green, all-red
//! buffer, and so on; each update accounts for one 16 ms frame. A green phase
//! lasts `BASE_GREEN_MS`; if a lane of the active phase has reached its
//! capacity by then, the green is extended, once, by `CONGESTION_EXTENSION_MS`.
use vstd::prelude::*;

use crate::render::{fill, rgb, DrawCmd, Rect, Rgb, Shape};
use crate::waypoint::constants::{
    ALL_RED_MS, BASE_GREEN_MS, CONGESTION_EXTENSION_MS, FRAME_MS, SAFETY_GAP, VEHICLE_LENGTH,
};
use crate::waypoint::map::{
    capacity_of, first_lane_with, light_spot, lights_in_range, Intersection, Lane, LaneId,
};

verus! {

/// Traffic signal colour for a single lane entry.
#[derive(Debug, Clone, Copy, PartialEq, Eq, Structural)]
pub enum LightColor {
    Red,
    Green,
}

#[derive(Debug, Clone, Copy, PartialEq, Eq, Structural)]
pub enum Phase {
    NorthSouth,
    EastWest,
}

/// Internal controller state machine.
#[derive(Debug, Clone, Copy, PartialEq, Eq, Structural)]
pub enum CtrlState {
    Green,
    AllRed,
}

/// Drives all four entry lights with conflict-free phase switching and
/// queue-based green extension.
pub struct TrafficLightController {
    phase: Phase,
    state: CtrlState,
    timer_ms: u32,
    /// True once a congestion extension has been awarded for the current phase.
    extended: bool,
    lights: [(LaneId, LightColor); 4],
}

pub struct ControllerView {
    pub phase: Phase,
    pub state: CtrlState,
    pub timer_ms: u32,
    pub extended: bool,
    /// The light of each lane, in the order North, South, East, West.
    pub lights: Seq<(LaneId, LightColor)>,
}

impl View for TrafficLightController {
    type V = ControllerView;

    closed spec fn view(&self) -> ControllerView {
        ControllerView {
            phase: self.phase,
            state: self.state,
            timer_ms: self.timer_ms,
            extended: self.extended,
            lights: self.lights@,
        }
    }
}

pub open spec fn lane_ids() -> Seq<LaneId> {
    seq![LaneId::NorthIn, LaneId::SouthIn, LaneId::EastIn, LaneId::WestIn]
}

pub open spec fn is_north_south(id: LaneId) -> bool {
    id == LaneId::NorthIn || id == LaneId::SouthIn
}

/// The colour of lane `id` while `phase` is green.
pub open spec fn phase_color(phase: Phase, id: LaneId) -> LightColor {
    if is_north_south(id) == (phase == Phase::NorthSouth) {
        LightColor::Green
    } else {
        LightColor::Red
    }
}

pub open spec fn lights_for(phase: Phase, state: CtrlState) -> Seq<(LaneId, LightColor)> {
    lane_ids().map_values(
        |id: LaneId|
            (id, if state == CtrlState::Green {
                phase_color(phase, id)
            } else {
                LightColor::Red
            }),
    )
}

pub open spec fn flipped(p: Phase) -> Phase {
    match p {
        Phase::NorthSouth => Phase::EastWest,
        Phase::EastWest => Phase::NorthSouth,
    }
}

pub open spec fn phase_lanes(p: Phase) -> (LaneId, LaneId) {
    match p {
        Phase::NorthSouth => (LaneId::NorthIn, LaneId::SouthIn),
        Phase::EastWest => (LaneId::EastIn, LaneId::WestIn),
    }
}

/// Lane `id` of `lanes` is full: its queue has reached its capacity.
pub open spec fn lane_full(lanes: Seq<Lane>, id: LaneId) -> bool {
    exists|i: int|
        first_lane_with(lanes, id, i) && lanes[i].queue_len >= capacity_of(
            lanes[i].length as int,
            VEHICLE_LENGTH as int,
            SAFETY_GAP as int,
        )
}

pub open spec fn phase_full(lanes: Seq<Lane>, p: Phase) -> bool {
    lane_full(lanes, phase_lanes(p).0) || lane_full(lanes, phase_lanes(p).1)
}

impl ControllerView {
    pub open spec fn wf(self) -> bool {
        self.lights == lights_for(self.phase, self.state)
    }

    /// The colour of lane `id`.
    pub open spec fn color_of(self, id: LaneId) -> LightColor {
        self.lights[match id {
            LaneId::NorthIn => 0int,
            LaneId::SouthIn => 1,
            LaneId::EastIn => 2,
            LaneId::WestIn => 3,
        }].1
    }

    /// The state after one frame, given the lanes of the intersection.
    pub open spec fn step(self, lanes: Seq<Lane>) -> Self {
        let t = if self.timer_ms + FRAME_MS > u32::MAX {
            u32::MAX
        } else {
            (self.timer_ms + FRAME_MS) as u32
        };
        match self.state {
            CtrlState::Green => if t < BASE_GREEN_MS {
                ControllerView { timer_ms: t, ..self }
            } else {
                let extended = self.extended || phase_full(lanes, self.phase);
                let max_green = if extended {
                    BASE_GREEN_MS + CONGESTION_EXTENSION_MS
                } else {
                    BASE_GREEN_MS as int
                };
                if t >= max_green {
                    ControllerView {
                        state: CtrlState::AllRed,
                        timer_ms: 0,
                        extended,
                        lights: lights_for(self.phase, CtrlState::AllRed),
                        ..self
                    }
                } else {
                    ControllerView { timer_ms: t, extended, ..self }
                }
            },
            CtrlState::AllRed => if t >= ALL_RED_MS {
                ControllerView {
                    phase: flipped(self.phase),
                    state: CtrlState::Green,
                    timer_ms: 0,
                    extended: false,
                    lights: lights_for(flipped(self.phase), CtrlState::Green),
                }
            } else {
                ControllerView { timer_ms: t, ..self }
            },
        }
    }
}

proof fn lemma_ids_from_map(lights: Seq<(LaneId, LightColor)>)
    requires
        lights.map_values(|l: (LaneId, LightColor)| l.0) == lane_ids(),
    ensures
        lights.len() == 4,
        forall|j: int| 0 <= j < 4 ==> (#[trigger] lights[j]).0 == lane_ids()[j],
{
    let ids = lights.map_values(|l: (LaneId, LightColor)| l.0);
    assert(ids.len() == lane_ids().len());
    assert(lane_ids().len() == 4);
    assert(lights.len() == 4);
    assert forall|j: int| 0 <= j < 4 implies (#[trigger] lights[j]).0 == lane_ids()[j] by {
        assert(ids[j] == lights[j].0);
        assert(lights.map_values(|l: (LaneId, LightColor)| l.0)[j] == lane_ids()[j]);
    }
}

proof fn lemma_lights_for_ids(p: Phase, st: CtrlState)
    ensures
        lights_for(p, st).map_values(|l: (LaneId, LightColor)| l.0) == lane_ids(),
{
    assert(lights_for(p, st).map_values(|l: (LaneId, LightColor)| l.0) =~= lane_ids());
}

pub fn flip_phase(p: Phase) -> (r: Phase)
    ensures
        r == flipped(p),
{
    match p {
        Phase::NorthSouth => Phase::EastWest,
        Phase::EastWest => Phase::NorthSouth,
    }
}

fn lane_is_full(intersection: &Intersection, id: LaneId) -> (r: bool)
    ensures
        r == lane_full(intersection.lanes@, id),
{
    match intersection.get_lane(id) {
        Some(l) => l.queue_len >= l.capacity(VEHICLE_LENGTH, SAFETY_GAP),
        None => false,
    }
}

/// Returns true if any lane in the active phase has reached capacity.
pub fn phase_congested(intersection: &Intersection, phase: Phase) -> (r: bool)
    ensures
        r == phase_full(intersection.lanes@, phase),
{
    let ids = match phase {
        Phase::NorthSouth => [LaneId::NorthIn, LaneId::SouthIn],
        Phase::EastWest => [LaneId::EastIn, LaneId::WestIn],
    };
    lane_is_full(intersection, ids[0]) || lane_is_full(intersection, ids[1])
}

impl TrafficLightController {
    pub fn new() -> (r: Self)
        ensures
            r@.wf(),
            r@.phase == Phase::NorthSouth,
            r@.state == CtrlState::Green,
            r@.timer_ms == 0,
            !r@.extended,
            r@ == green_start(Phase::NorthSouth),
    {
        let mut ctrl = TrafficLightController {
            phase: Phase::NorthSouth,
            state: CtrlState::Green,
            timer_ms: 0,
            extended: false,
            lights: [
                (LaneId::NorthIn, LightColor::Red),
                (LaneId::SouthIn, LightColor::Red),
                (LaneId::EastIn, LightColor::Red),
                (LaneId::WestIn, LightColor::Red),
            ],
        };
        proof {
            assert(ctrl.lights@.map_values(|l: (LaneId, LightColor)| l.0) =~= lane_ids());
        }
        ctrl.apply_phase();
        ctrl
    }

    /// Returns true when the given lane may proceed past its stop line.
    pub fn can_proceed(&self, lane: LaneId) -> (r: bool)
        requires
            self@.wf(),
        ensures
            r == (self@.color_of(lane) == LightColor::Green),
    {
        let mut i: usize = 0;
        while i < 4
            invariant
                0 <= i <= 4,
                self@.wf(),
                forall|j: int| 0 <= j < i ==> self.lights@[j].0 != lane,
            decreases 4 - i,
        {
            let (id, c) = self.lights[i];
            if id == lane {
                return c == LightColor::Green;
            }
            i += 1;
        }
        false
    }

    /// Advance the controller by one frame (16 ms).
    pub fn update(&mut self, intersection: &Intersection)
        requires
            old(self)@.wf(),
        ensures
            final(self)@ == old(self)@.step(intersection.lanes@),
            final(self)@.wf(),
    {
        proof {
            lemma_lights_for_ids(self.phase, self.state);
        }
        self.timer_ms = self.timer_ms.saturating_add(FRAME_MS);
        match self.state {
            CtrlState::Green => {
                if self.timer_ms < BASE_GREEN_MS {
                    return ;
                }
                // Award extension once when the active approach is congested.
                if !self.extended && phase_congested(intersection, self.phase) {
                    self.extended = true;
                }
                let max_green = if self.extended {
                    BASE_GREEN_MS + CONGESTION_EXTENSION_MS
                } else {
                    BASE_GREEN_MS
                };
                if self.timer_ms >= max_green {
                    self.state = CtrlState::AllRed;
                    self.timer_ms = 0;
                    self.set_all_red();
                }
            },
            CtrlState::AllRed => {
                if self.timer_ms >= ALL_RED_MS {
                    self.phase = flip_phase(self.phase);
                    self.extended = false;
                    self.timer_ms = 0;
                    self.state = CtrlState::Green;
                    self.apply_phase();
                }
            },
        }
    }

    fn apply_phase(&mut self)
        requires
            old(self).lights@.map_values(|l: (LaneId, LightColor)| l.0) == lane_ids(),
            old(self).state == CtrlState::Green,
        ensures
            final(self)@ == (ControllerView {
                lights: lights_for(old(self).phase, CtrlState::Green),
                ..old(self)@
            }),
    {
        let (ns, ew) = match self.phase {
            Phase::NorthSouth => (LightColor::Green, LightColor::Red),
            Phase::EastWest => (LightColor::Red, LightColor::Green),
        };
        proof {
            lemma_ids_from_map(self.lights@);
        }
        let mut i: usize = 0;
        while i < 4
            invariant
                0 <= i <= 4,
                self.phase == old(self).phase,
                self.state == old(self).state,
                self.timer_ms == old(self).timer_ms,
                self.extended == old(self).extended,
                ns == phase_color(self.phase, LaneId::NorthIn),
                ew == phase_color(self.phase, LaneId::EastIn),
                forall|j: int| 0 <= j < 4 ==> (#[trigger] self.lights@[j]).0 == lane_ids()[j],
                forall|j: int|
                    0 <= j < i ==> (#[trigger] self.lights@[j]).1 == phase_color(
                        self.phase,
                        lane_ids()[j],
                    ),
            decreases 4 - i,
        {
            let (id, _) = self.lights[i];
            let color = match id {
                LaneId::NorthIn | LaneId::SouthIn => ns,
                LaneId::EastIn | LaneId::WestIn => ew,
            };
            self.lights[i] = (id, color);
            i += 1;
        }
        proof {
            assert(self@.lights =~= lights_for(old(self).phase, CtrlState::Green));
        }
    }

    fn set_all_red(&mut self)
        requires
            old(self).lights@.map_values(|l: (LaneId, LightColor)| l.0) == lane_ids(),
            old(self).state == CtrlState::AllRed,
        ensures
            final(self)@ == (ControllerView {
                lights: lights_for(old(self).phase, CtrlState::AllRed),
                ..old(self)@
            }),
    {
        proof {
            lemma_ids_from_map(self.lights@);
        }
        let mut i: usize = 0;
        while i < 4
            invariant
                0 <= i <= 4,
                self.phase == old(self).phase,
                self.state == old(self).state,
                self.timer_ms == old(self).timer_ms,
                self.extended == old(self).extended,
                forall|j: int| 0 <= j < 4 ==> (#[trigger] self.lights@[j]).0 == lane_ids()[j],
                forall|j: int| 0 <= j < i ==> (#[trigger] self.lights@[j]).1 == LightColor::Red,
            decreases 4 - i,
        {
            let (id, _) = self.lights[i];
            self.lights[i] = (id, LightColor::Red);
            i += 1;
        }
        proof {
            assert(self@.lights =~= lights_for(old(self).phase, CtrlState::AllRed));
        }
    }
}

pub open spec fn signal_rgb(c: LightColor) -> Rgb {
    match c {
        LightColor::Red => rgb(200, 40, 40),
        LightColor::Green => rgb(40, 200, 60),
    }
}

/// A 10-pixel square in the signal colour over the light of each of the
/// first `n` entries of `lights`.
pub open spec fn signal_cmds(lights: Seq<(LaneId, LightColor)>, lanes: Seq<Lane>, n: nat) -> Seq<
    DrawCmd,
>
    decreases n,
{
    if n == 0 {
        Seq::empty()
    } else {
        let (id, color) = lights[n - 1];
        let p = light_spot(lanes, id);
        signal_cmds(lights, lanes, (n - 1) as nat).push(
            fill(signal_rgb(color), p.0 - 5, p.1 - 5, 10, 10),
        )
    }
}

impl TrafficLightController {
    /// What drawing the signals paints: each lane's colour on its light.
    pub fn draw_commands(&self, intersection: &Intersection) -> (cmds: Vec<DrawCmd>)
        requires
            lights_in_range(intersection.lanes@),
        ensures
            cmds@ == signal_cmds(self@.lights, intersection.lanes@, 4),
    {
        let mut cmds: Vec<DrawCmd> = Vec::new();
        let mut i: usize = 0;
        while i < 4
            invariant
                0 <= i <= 4,
                lights_in_range(intersection.lanes@),
                cmds@ == signal_cmds(self@.lights, intersection.lanes@, i as nat),
            decreases 4 - i,
        {
            let (id, color) = self.lights[i];
            let (x, y) = intersection.light_position(id);
            proof {
                lemma_light_spot_in_range(intersection.lanes@, id);
            }
            let c = match color {
                LightColor::Red => Rgb { r: 200, g: 40, b: 40 },
                LightColor::Green => Rgb { r: 40, g: 200, b: 60 },
            };
            cmds.push(DrawCmd { color: c, shape: Shape::Fill(Rect { x: x - 5, y: y - 5, w: 10, h: 10 }) });
            i += 1;
        }
        cmds
    }
}

proof fn lemma_light_spot_in_range(lanes: Seq<Lane>, id: LaneId)
    requires
        lights_in_range(lanes),
    ensures
        -10_000 <= light_spot(lanes, id).0 <= 10_000,
        -10_000 <= light_spot(lanes, id).1 <= 10_000,
{
    if exists|i: int| first_lane_with(lanes, id, i) {
        let i = choose|i: int| first_lane_with(lanes, id, i);
        assert(-10_000 <= lanes[i].light_position.x <= 10_000);
    }
}

impl Default for TrafficLightController {
    fn default() -> (r: Self)
        ensures
            r@.wf(),
            r@.phase == Phase::NorthSouth,
            r@.state == CtrlState::Green,
            r@.timer_ms == 0,
            !r@.extended,
    {
        Self::new()
    }
}

/// Safety: the lights never show green to a North-South lane and an East-West
/// lane at once, and the two lanes of an axis always show the same colour.
pub proof fn law_no_conflicting_greens(v: ControllerView)
    requires
        v.wf(),
    ensures
        !((v.color_of(LaneId::NorthIn) == LightColor::Green || v.color_of(LaneId::SouthIn)
            == LightColor::Green) && (v.color_of(LaneId::EastIn) == LightColor::Green || v.color_of(
            LaneId::WestIn,
        ) == LightColor::Green)),
        v.color_of(LaneId::NorthIn) == v.color_of(LaneId::SouthIn),
        v.color_of(LaneId::EastIn) == v.color_of(LaneId::WestIn),
{
}

/// Every update keeps the controller well formed.
pub proof fn law_step_keeps_wf(v: ControllerView, lanes: Seq<Lane>)
    requires
        v.wf(),
    ensures
        v.step(lanes).wf(),
{
}

/// Green timing: a green phase holds for `BASE_GREEN_MS`; it then ends unless
/// a lane of the phase is full, in which case it is extended, once, to
/// `BASE_GREEN_MS + CONGESTION_EXTENSION_MS`; an extension once awarded is
/// kept for the rest of the phase.
pub proof fn law_green_timing(v: ControllerView, lanes: Seq<Lane>)
    requires
        v.wf(),
        v.state == CtrlState::Green,
        v.timer_ms < u32::MAX - FRAME_MS,
    ensures
        v.timer_ms + FRAME_MS < BASE_GREEN_MS ==> v.step(lanes).state == CtrlState::Green,
        BASE_GREEN_MS <= v.timer_ms + FRAME_MS < BASE_GREEN_MS + CONGESTION_EXTENSION_MS ==> (
        v.step(lanes).state == CtrlState::Green <==> (v.extended || phase_full(lanes, v.phase))),
        v.timer_ms + FRAME_MS >= BASE_GREEN_MS + CONGESTION_EXTENSION_MS ==> v.step(lanes).state
            == CtrlState::AllRed,
        v.extended ==> v.step(lanes).extended,
        v.step(lanes).phase == v.phase,
{
}

/// After `ALL_RED_MS` of all-red the other axis turns green with a fresh
/// extension allowance; before that every light stays red.
pub proof fn law_all_red_then_other_axis(v: ControllerView, lanes: Seq<Lane>)
    requires
        v.wf(),
        v.state == CtrlState::AllRed,
    ensures
        forall|id: LaneId| v.color_of(id) == LightColor::Red,
        v.timer_ms + FRAME_MS >= ALL_RED_MS ==> v.step(lanes).state == CtrlState::Green
            && v.step(lanes).phase == flipped(v.phase) && !v.step(lanes).extended
            && v.step(lanes).timer_ms == 0,
        v.timer_ms + FRAME_MS < ALL_RED_MS ==> v.step(lanes).state == CtrlState::AllRed
            && v.step(lanes).phase == v.phase,
{
}


/// The controller after one update per frame, in order, each update given the
/// lanes of its frame.
pub open spec fn run(v: ControllerView, frames: Seq<Seq<Lane>>) -> ControllerView
    decreases frames.len(),
{
    if frames.len() == 0 {
        v
    } else {
        run(v, frames.drop_last()).step(frames.last())
    }
}

/// A fresh green phase of `phase`: timer at zero, no extension yet.
pub open spec fn green_start(phase: Phase) -> ControllerView {
    ControllerView {
        phase,
        state: CtrlState::Green,
        timer_ms: 0,
        extended: false,
        lights: lights_for(phase, CtrlState::Green),
    }
}

/// The all-red buffer that follows a green phase of `phase`.
pub open spec fn all_red_start(phase: Phase, extended: bool) -> ControllerView {
    ControllerView {
        phase,
        state: CtrlState::AllRed,
        timer_ms: 0,
        extended,
        lights: lights_for(phase, CtrlState::AllRed),
    }
}

proof fn lemma_run_take(v: ControllerView, frames: Seq<Seq<Lane>>, k: int)
    requires
        0 <= k < frames.len(),
    ensures
        run(v, frames.take(k + 1)) == run(v, frames.take(k)).step(frames[k]),
{
    assert(frames.take(k + 1).drop_last() =~= frames.take(k));
}

proof fn lemma_run_append(v: ControllerView, a: Seq<Seq<Lane>>, b: Seq<Seq<Lane>>)
    ensures
        run(v, a + b) == run(run(v, a), b),
    decreases b.len(),
{
    if b.len() == 0 {
        assert(a + b =~= a);
    } else {
        lemma_run_append(v, a, b.drop_last());
        assert((a + b).drop_last() =~= a + b.drop_last());
        assert((a + b).last() == b.last());
    }
}

/// The first `k` frames of a fresh green phase, up to the base green time.
proof fn lemma_green_frames(v: ControllerView, frames: Seq<Seq<Lane>>, k: int)
    requires
        v == green_start(v.phase),
        0 <= k <= frames.len(),
        k <= 187,
    ensures
        run(v, frames.take(k)) == (ControllerView { timer_ms: (FRAME_MS * k) as u32, ..v }),
    decreases k,
{
    if k == 0 {
        assert(frames.take(0) =~= Seq::<Seq<Lane>>::empty());
    } else {
        lemma_green_frames(v, frames, k - 1);
        lemma_run_take(v, frames, k - 1);
    }
}

/// Frames 188 up to 312 of a green phase extended at frame 188.
proof fn lemma_extended_frames(v: ControllerView, frames: Seq<Seq<Lane>>, k: int)
    requires
        v == green_start(v.phase),
        188 <= k <= frames.len(),
        k <= 312,
        phase_full(frames[187], v.phase),
    ensures
        run(v, frames.take(k)) == (ControllerView {
            timer_ms: (FRAME_MS * k) as u32,
            extended: true,
            ..v
        }),
    decreases k,
{
    if k == 188 {
        lemma_green_frames(v, frames, 187);
    } else {
        lemma_extended_frames(v, frames, k - 1);
    }
    lemma_run_take(v, frames, k - 1);
}

/// The first `k` frames of an all-red buffer, before it ends.
proof fn lemma_all_red_frames(v: ControllerView, frames: Seq<Seq<Lane>>, k: int)
    requires
        v.state == CtrlState::AllRed,
        v.timer_ms == 0,
        0 <= k <= frames.len(),
        k <= 31,
    ensures
        run(v, frames.take(k)) == (ControllerView { timer_ms: (FRAME_MS * k) as u32, ..v }),
    decreases k,
{
    if k == 0 {
        assert(frames.take(0) =~= Seq::<Seq<Lane>>::empty());
    } else {
        lemma_all_red_frames(v, frames, k - 1);
        lemma_run_take(v, frames, k - 1);
    }
}

/// Length of a green phase, one update per 16 ms frame: a fresh green phase
/// stays green for its first 187 frames; at frame 188 it turns all-red,
/// unless a lane of the phase is full on that frame, and then it stays green
/// up to frame 312 and turns all-red at frame 313, whatever the lanes do in
/// between.
pub proof fn law_green_phase_frames(phase: Phase, frames: Seq<Seq<Lane>>)
    ensures
        forall|k: int|
            #![trigger run(green_start(phase), frames.take(k))]
            0 <= k <= frames.len() && k < 188 ==> run(green_start(phase), frames.take(k)).state
                == CtrlState::Green && run(green_start(phase), frames.take(k)).phase == phase,
        frames.len() >= 188 && !phase_full(frames[187], phase) ==> run(
            green_start(phase),
            frames.take(188),
        ) == all_red_start(phase, false),
        frames.len() >= 188 && phase_full(frames[187], phase) ==> forall|k: int|
            #![trigger run(green_start(phase), frames.take(k))]
            188 <= k <= frames.len() && k < 313 ==> run(green_start(phase), frames.take(k)).state
                == CtrlState::Green && run(green_start(phase), frames.take(k)).phase == phase,
        frames.len() >= 313 && phase_full(frames[187], phase) ==> run(
            green_start(phase),
            frames.take(313),
        ) == all_red_start(phase, true),
{
    let v = green_start(phase);
    assert forall|k: int| 0 <= k <= frames.len() && k < 188 implies #[trigger] run(
        v,
        frames.take(k),
    ).state == CtrlState::Green && run(v, frames.take(k)).phase == phase by {
        if k <= 187 {
            lemma_green_frames(v, frames, k);
        }
    }
    if frames.len() >= 188 {
        lemma_green_frames(v, frames, 187);
        lemma_run_take(v, frames, 187);
        if phase_full(frames[187], phase) {
            assert forall|k: int| 188 <= k <= frames.len() && k < 313 implies #[trigger] run(
                v,
                frames.take(k),
            ).state == CtrlState::Green && run(v, frames.take(k)).phase == phase by {
                lemma_extended_frames(v, frames, k);
            }
            if frames.len() >= 313 {
                lemma_extended_frames(v, frames, 312);
                lemma_run_take(v, frames, 312);
            }
        }
    }
}

/// Length of the all-red buffer: every light stays red for the first 31
/// frames, and at frame 32 the other axis starts a fresh green phase.
pub proof fn law_all_red_frames(phase: Phase, extended: bool, frames: Seq<Seq<Lane>>)
    ensures
        forall|k: int|
            #![trigger run(all_red_start(phase, extended), frames.take(k))]
            0 <= k <= frames.len() && k < 32 ==> run(all_red_start(phase, extended), frames.take(k)).state
                == CtrlState::AllRed,
        frames.len() >= 32 ==> run(all_red_start(phase, extended), frames.take(32)) == green_start(
            flipped(phase),
        ),
{
    let v = all_red_start(phase, extended);
    assert forall|k: int| 0 <= k <= frames.len() && k < 32 implies #[trigger] run(
        v,
        frames.take(k),
    ).state == CtrlState::AllRed by {
        lemma_all_red_frames(v, frames, k);
    }
    if frames.len() >= 32 {
        lemma_all_red_frames(v, frames, 31);
        lemma_run_take(v, frames, 31);
    }
}

/// The axes alternate: a green phase of `phase`, 188 frames long or 313 when
/// extended, followed by the 32 frames of all-red, leaves the other axis at
/// the start of its own green phase.
pub proof fn law_phases_alternate(phase: Phase, frames: Seq<Seq<Lane>>)
    requires
        frames.len() >= 188,
        frames.len() >= (if phase_full(frames[187], phase) {
            313int
        } else {
            188int
        }) + 32,
    ensures
        run(
            green_start(phase),
            frames.take(
                (if phase_full(frames[187], phase) {
                    313int
                } else {
                    188int
                }) + 32,
            ),
        ) == green_start(flipped(phase)),
{
    let full = phase_full(frames[187], phase);
    let g: int = if full {
        313
    } else {
        188
    };
    law_green_phase_frames(phase, frames);
    let rest = frames.subrange(g, g + 32);
    assert(frames.take(g + 32) =~= frames.take(g) + rest);
    lemma_run_append(green_start(phase), frames.take(g), rest);
    law_all_red_frames(phase, full, rest);
    assert(rest.take(32) =~= rest);
}


/// Frames of a green phase of `phase` whose 188th frame has the lanes `lanes`:
/// 313 if a lane of the phase is full then, 188 otherwise.
pub open spec fn green_frames(lanes: Seq<Lane>, phase: Phase) -> int {
    if phase_full(lanes, phase) {
        313
    } else {
        188
    }
}

/// The phase green in cycle `n`, when cycle 0 has `phase` green.
pub open spec fn cycle_phase(phase: Phase, n: nat) -> Phase
    decreases n,
{
    if n == 0 {
        phase
    } else {
        flipped(cycle_phase(phase, (n - 1) as nat))
    }
}

/// The frame at which cycle `n` begins, when cycle 0 begins at frame 0 with
/// `phase` green: each cycle is a green phase of `green_frames` frames and
/// an all-red buffer of 32.
pub open spec fn cycle_start(frames: Seq<Seq<Lane>>, phase: Phase, n: nat) -> int
    decreases n,
{
    if n == 0 {
        0
    } else {
        let s = cycle_start(frames, phase, (n - 1) as nat);
        s + green_frames(frames[s + 187], cycle_phase(phase, (n - 1) as nat)) + 32
    }
}

/// The whole cycle of the lights, from a fresh green phase on (as
/// `TrafficLightController::new` starts): cycle `n` begins at frame
/// `cycle_start`, green phases alternate between the two axes, and from that
/// frame on the controller runs exactly as a fresh green phase of
/// `cycle_phase` run on the frames from there. With `law_green_phase_frames`
/// and `law_all_red_frames`, every green phase lasts 188 frames, or 313 when
/// a lane of it is full on its 188th frame, and every all-red buffer 32.
pub proof fn law_cycles(phase: Phase, frames: Seq<Seq<Lane>>, n: nat)
    requires
        cycle_start(frames, phase, n) <= frames.len(),
    ensures
        cycle_start(frames, phase, n) >= 0,
        cycle_phase(phase, n) == (if n % 2 == 0 {
            phase
        } else {
            flipped(phase)
        }),
        n > 0 ==> cycle_start(frames, phase, n) - cycle_start(frames, phase, (n - 1) as nat) == 220
            || cycle_start(frames, phase, n) - cycle_start(frames, phase, (n - 1) as nat) == 345,
        forall|j: int|
            #![trigger run(green_start(phase), frames.take(j))]
            cycle_start(frames, phase, n) <= j <= frames.len() ==> run(
                green_start(phase),
                frames.take(j),
            ) == run(
                green_start(cycle_phase(phase, n)),
                frames.skip(cycle_start(frames, phase, n)).take(j - cycle_start(frames, phase, n)),
            ),
    decreases n,
{
    let v = green_start(phase);
    if n == 0 {
        assert forall|j: int| 0 <= j <= frames.len() implies #[trigger] run(v, frames.take(j))
            == run(v, frames.skip(0).take(j - 0)) by {
            assert(frames.skip(0).take(j) =~= frames.take(j));
        }
    } else {
        let m = (n - 1) as nat;
        let s = cycle_start(frames, phase, m);
        let p = cycle_phase(phase, m);
        let g = green_frames(frames[s + 187], p);
        let t = cycle_start(frames, phase, n);
        assert(t == s + g + 32);
        law_cycles(phase, frames, m);
        let f = frames.skip(s);
        assert(f.len() == frames.len() - s);
        assert(f[187] == frames[s + 187]);
        law_phases_alternate(p, f);
        assert forall|j: int| t <= j <= frames.len() implies #[trigger] run(v, frames.take(j))
            == run(green_start(cycle_phase(phase, n)), frames.skip(t).take(j - t)) by {
            assert(run(v, frames.take(j)) == run(green_start(p), f.take(j - s)));
            assert(f.take(j - s) =~= f.take(g + 32) + frames.skip(t).take(j - t));
            lemma_run_append(green_start(p), f.take(g + 32), frames.skip(t).take(j - t));
        }
    }
}


/// The congestion test of a phase looks at exactly the two lanes it makes
/// green: North-South at NorthIn and SouthIn, East-West at EastIn and WestIn,
/// each of them on its own.
pub proof fn law_phase_full_checks_its_lanes(lanes: Seq<Lane>, p: Phase)
    ensures
        phase_full(lanes, Phase::NorthSouth) <==> lane_full(lanes, LaneId::NorthIn) || lane_full(
            lanes,
            LaneId::SouthIn,
        ),
        phase_full(lanes, Phase::EastWest) <==> lane_full(lanes, LaneId::EastIn) || lane_full(
            lanes,
            LaneId::WestIn,
        ),
        forall|id: LaneId|
            phase_color(p, id) == LightColor::Green && #[trigger] lane_full(lanes, id) ==> phase_full(
                lanes,
                p,
            ),
        phase_full(lanes, p) ==> exists|id: LaneId|
            phase_color(p, id) == LightColor::Green && #[trigger] lane_full(lanes, id),
{
    if phase_full(lanes, p) {
        let (a, b) = phase_lanes(p);
        assert(phase_color(p, a) == LightColor::Green && phase_color(p, b) == LightColor::Green);
        if lane_full(lanes, a) {
            assert(phase_color(p, a) == LightColor::Green && lane_full(lanes, a));
        } else {
            assert(phase_color(p, b) == LightColor::Green && lane_full(lanes, b));
        }
    }
}

} // verus!
