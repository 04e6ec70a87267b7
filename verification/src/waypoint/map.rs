//! Lanes and geometry of the waypoint layout. Every coordinate of this layout
//! is a whole pixel, so points are kept as integers.
use vstd::prelude::*;

use crate::map::intersection::{dash_lines, draw_dashes};
use crate::render::{fill, outline, rgb, DrawCmd, Rect, Rgb, Shape};
use crate::waypoint::constants::{LANE_LENGTH, ROAD_WIDTH, WINDOW_HEIGHT, WINDOW_WIDTH};

verus! {

#[derive(Debug, Clone, Copy, PartialEq, Eq, Hash, Structural)]
pub enum LaneId {
    NorthIn,
    SouthIn,
    EastIn,
    WestIn,
}

/// A point in screen pixels (y grows downward).
#[derive(Debug, Clone, Copy, PartialEq, Eq, Structural)]
pub struct Point {
    pub x: i32,
    pub y: i32,
}

impl Point {
    pub fn new(x: i32, y: i32) -> (p: Self)
        ensures
            p == (Point { x, y }),
    {
        Point { x, y }
    }
}

#[derive(Debug, Clone, Copy, PartialEq, Eq, Structural)]
pub struct Segment {
    pub start: Point,
    pub end: Point,
}

impl Segment {
    pub fn new(start: Point, end: Point) -> (s: Self)
        ensures
            s == (Segment { start, end }),
    {
        Segment { start, end }
    }
}

#[derive(Debug, Clone, Copy, PartialEq, Eq, Structural)]
pub struct Lane {
    pub id: LaneId,
    pub spawn_point: Point,
    pub stop_line: Segment,
    /// Unit heading of traffic on the lane.
    pub direction: Point,
    pub length: i32,
    pub queue_len: usize,
    pub light_position: Point,
}

/// floor(lane_length / (vehicle_length + safety_gap)), taken as a count: a
/// negative quotient counts as no room at all, and a zero divisor gives no
/// room for an empty lane and unbounded room (`usize::MAX`) for a lane of
/// positive length.
pub open spec fn capacity_of(lane_length: int, vehicle_length: int, safety_gap: int) -> nat {
    let d = vehicle_length + safety_gap;
    if d == 0 {
        if lane_length > 0 {
            usize::MAX as nat
        } else {
            0
        }
    } else if lane_length > 0 && d > 0 {
        (lane_length / d) as nat
    } else if lane_length < 0 && d < 0 {
        ((-lane_length) / (-d)) as nat
    } else {
        0
    }
}

/// capacity = floor(lane_length / (vehicle_length + safety_gap))
pub fn lane_capacity(lane_length: i32, vehicle_length: i32, safety_gap: i32) -> (c: usize)
    ensures
        c == capacity_of(lane_length as int, vehicle_length as int, safety_gap as int),
{
    let l = lane_length as i64;
    let d = vehicle_length as i64 + safety_gap as i64;
    if d == 0 {
        if l > 0 {
            usize::MAX
        } else {
            0
        }
    } else if l > 0 && d > 0 {
        (l / d) as usize
    } else if l < 0 && d < 0 {
        ((-l) / (-d)) as usize
    } else {
        0
    }
}

impl Lane {
    pub open spec fn light_at(self) -> Point {
        self.light_position
    }

    pub fn capacity(&self, vehicle_length: i32, safety_gap: i32) -> (c: usize)
        ensures
            c == capacity_of(self.length as int, vehicle_length as int, safety_gap as int),
    {
        lane_capacity(self.length, vehicle_length, safety_gap)
    }

    pub fn light_position(&self) -> (p: Point)
        ensures
            p == self.light_at(),
    {
        self.light_position
    }
}

pub struct Intersection {
    pub lanes: Vec<Lane>,
    /// Centre of the conflict box.
    pub center: Point,
    /// Half the road width.
    pub half_road: i32,
}

pub open spec fn pt(x: int, y: int) -> Point {
    Point { x: x as i32, y: y as i32 }
}

pub open spec fn seg(x1: int, y1: int, x2: int, y2: int) -> Segment {
    Segment { start: pt(x1, y1), end: pt(x2, y2) }
}

/// The lanes of the layout around the centre (400, 400): each lane runs 20
/// pixels off the road's centre line, from its spawn point 400 pixels before
/// the stop line; the stop line spans the lane at the edge of the 80-pixel
/// box, and the light stands beside it.
pub open spec fn layout_lanes() -> Seq<Lane> {
    seq![
        Lane {
            id: LaneId::NorthIn,
            spawn_point: pt(420, -40),
            stop_line: seg(400, 360, 440, 360),
            direction: pt(0, 1),
            length: LANE_LENGTH,
            queue_len: 0,
            light_position: pt(438, 346),
        },
        Lane {
            id: LaneId::SouthIn,
            spawn_point: pt(380, 840),
            stop_line: seg(360, 440, 400, 440),
            direction: pt(0, -1),
            length: LANE_LENGTH,
            queue_len: 0,
            light_position: pt(362, 454),
        },
        Lane {
            id: LaneId::EastIn,
            spawn_point: pt(840, 380),
            stop_line: seg(440, 360, 440, 400),
            direction: pt(-1, 0),
            length: LANE_LENGTH,
            queue_len: 0,
            light_position: pt(454, 362),
        },
        Lane {
            id: LaneId::WestIn,
            spawn_point: pt(-40, 420),
            stop_line: seg(360, 400, 360, 440),
            direction: pt(1, 0),
            length: LANE_LENGTH,
            queue_len: 0,
            light_position: pt(346, 438),
        },
    ]
}

pub open spec fn first_lane_with(lanes: Seq<Lane>, id: LaneId, i: int) -> bool {
    &&& 0 <= i < lanes.len()
    &&& lanes[i].id == id
    &&& forall|j: int| 0 <= j < i ==> lanes[j].id != id
}

/// There is at most one first lane with a given id.
pub proof fn lemma_first_lane_unique(lanes: Seq<Lane>, id: LaneId)
    ensures
        forall|i: int, j: int|
            first_lane_with(lanes, id, i) && first_lane_with(lanes, id, j) ==> i == j,
{
    assert forall|i: int, j: int|
        first_lane_with(lanes, id, i) && first_lane_with(lanes, id, j) implies i == j by {
        if i < j {
            assert(lanes[i].id != id);
        } else if j < i {
            assert(lanes[j].id != id);
        }
    }
}

/// Where the light of lane `id` stands: that of the first lane with this id,
/// or (0, 0) when there is none.
pub open spec fn light_spot(lanes: Seq<Lane>, id: LaneId) -> (i32, i32) {
    if exists|i: int| first_lane_with(lanes, id, i) {
        let i = choose|i: int| first_lane_with(lanes, id, i);
        (lanes[i].light_position.x, lanes[i].light_position.y)
    } else {
        (0, 0)
    }
}

/// The lanes keep the layout's geometry; only queue lengths change.
pub open spec fn same_geometry(a: Lane, b: Lane) -> bool {
    &&& a.id == b.id
    &&& a.spawn_point == b.spawn_point
    &&& a.stop_line == b.stop_line
    &&& a.direction == b.direction
    &&& a.length == b.length
    &&& a.light_position == b.light_position
}

fn build_lane(
    id: LaneId,
    spawn_point: Point,
    stop_line: Segment,
    direction: Point,
    light_position: Point,
) -> (l: Lane)
    ensures
        l == (Lane {
            id,
            spawn_point,
            stop_line,
            direction,
            length: LANE_LENGTH,
            queue_len: 0,
            light_position,
        }),
{
    Lane { id, spawn_point, stop_line, direction, length: LANE_LENGTH, queue_len: 0, light_position }
}

impl Intersection {
    /// The layout's geometry: centre (400, 400), half a road width 40.
    pub open spec fn wf(self) -> bool {
        &&& self.center == pt(400, 400)
        &&& self.half_road == 40
    }

    pub fn new() -> (r: Self)
        ensures
            r.wf(),
            r.lanes@ == layout_lanes(),
    {
        let center = Point::new(WINDOW_WIDTH as i32 / 2, WINDOW_HEIGHT as i32 / 2);
        let half_road = ROAD_WIDTH / 2;
        let lane_offset = ROAD_WIDTH / 4;
        let stop_half = ROAD_WIDTH / 4;
        let mut lanes: Vec<Lane> = Vec::new();
        lanes.push(
            build_lane(
                LaneId::NorthIn,
                Point::new(center.x + lane_offset, center.y - half_road - LANE_LENGTH),
                Segment::new(
                    Point::new(center.x + lane_offset - stop_half, center.y - half_road),
                    Point::new(center.x + lane_offset + stop_half, center.y - half_road),
                ),
                Point::new(0, 1),
                Point::new(center.x + lane_offset + 18, center.y - half_road - 14),
            ),
        );
        lanes.push(
            build_lane(
                LaneId::SouthIn,
                Point::new(center.x - lane_offset, center.y + half_road + LANE_LENGTH),
                Segment::new(
                    Point::new(center.x - lane_offset - stop_half, center.y + half_road),
                    Point::new(center.x - lane_offset + stop_half, center.y + half_road),
                ),
                Point::new(0, -1),
                Point::new(center.x - lane_offset - 18, center.y + half_road + 14),
            ),
        );
        lanes.push(
            build_lane(
                LaneId::EastIn,
                Point::new(center.x + half_road + LANE_LENGTH, center.y - lane_offset),
                Segment::new(
                    Point::new(center.x + half_road, center.y - lane_offset - stop_half),
                    Point::new(center.x + half_road, center.y - lane_offset + stop_half),
                ),
                Point::new(-1, 0),
                Point::new(center.x + half_road + 14, center.y - lane_offset - 18),
            ),
        );
        lanes.push(
            build_lane(
                LaneId::WestIn,
                Point::new(center.x - half_road - LANE_LENGTH, center.y + lane_offset),
                Segment::new(
                    Point::new(center.x - half_road, center.y + lane_offset - stop_half),
                    Point::new(center.x - half_road, center.y + lane_offset + stop_half),
                ),
                Point::new(1, 0),
                Point::new(center.x - half_road - 14, center.y + lane_offset + 18),
            ),
        );
        proof {
            assert(lanes@ =~= layout_lanes());
        }
        Intersection { lanes, center, half_road }
    }

    /// The first lane with the given id, if any.
    pub fn get_lane(&self, id: LaneId) -> (r: Option<&Lane>)
        ensures
            match r {
                Some(l) => exists|i: int| first_lane_with(self.lanes@, id, i) && *l == self.lanes@[i],
                None => forall|i: int| 0 <= i < self.lanes@.len() ==> self.lanes@[i].id != id,
            },
    {
        let mut i: usize = 0;
        while i < self.lanes.len()
            invariant
                0 <= i <= self.lanes@.len(),
                forall|j: int| 0 <= j < i ==> self.lanes@[j].id != id,
            decreases self.lanes@.len() - i,
        {
            if self.lanes[i].id == id {
                return Some(&self.lanes[i]);
            }
            i += 1;
        }
        None
    }

    /// The first lane with the given id, if any, for changing it; nothing else
    /// of the intersection changes.
    pub fn get_lane_mut(&mut self, id: LaneId) -> (r: Option<&mut Lane>)
        ensures
            match r {
                Some(l) => exists|i: int|
                    first_lane_with(old(self).lanes@, id, i) && *l == old(self).lanes@[i]
                        && final(self).lanes@ == old(self).lanes@.update(i, *final(l)),
                None => (forall|i: int|
                    0 <= i < old(self).lanes@.len() ==> old(self).lanes@[i].id != id)
                    && final(self).lanes@ == old(self).lanes@,
            },
            final(self).center == old(self).center,
            final(self).half_road == old(self).half_road,
    {
        let mut found: Option<usize> = None;
        let mut i: usize = 0;
        while i < self.lanes.len()
            invariant_except_break
                found is None,
            invariant
                0 <= i <= self.lanes@.len(),
                forall|j: int| 0 <= j < i ==> self.lanes@[j].id != id,
            ensures
                match found {
                    Some(k) => first_lane_with(self.lanes@, id, k as int),
                    None => forall|j: int| 0 <= j < self.lanes@.len() ==> self.lanes@[j].id != id,
                },
            decreases self.lanes@.len() - i,
        {
            if self.lanes[i].id == id {
                found = Some(i);
                break;
            }
            i += 1;
        }
        match found {
            Some(k) => Some(&mut self.lanes[k]),
            None => None,
        }
    }

    /// Axis-aligned box covering the intersection conflict zone (no-go area).
    pub fn conflict_zone(&self) -> (r: Rect)
        requires
            self.wf(),
        ensures
            r == (Rect { x: 360, y: 360, w: ROAD_WIDTH as u32, h: ROAD_WIDTH as u32 }),
    {
        let half = self.half_road;
        let cx = self.center.x;
        let cy = self.center.y;
        Rect { x: cx - half, y: cy - half, w: ROAD_WIDTH as u32, h: ROAD_WIDTH as u32 }
    }

    /// Where the light of a lane stands; (0, 0) for a lane the intersection lacks.
    pub fn light_position(&self, id: LaneId) -> (r: (i32, i32))
        ensures
            r == light_spot(self.lanes@, id),
    {
        match self.get_lane(id) {
            Some(lane) => {
                proof {
                    lemma_first_lane_unique(self.lanes@, id);
                }
                let p = lane.light_position();
                (p.x, p.y)
            },
            None => (0, 0),
        }
    }
}

/// The horizontal road, then the vertical one.
pub open spec fn road_cmds() -> Seq<DrawCmd> {
    seq![
        fill(rgb(55, 55, 55), 0, 360, WINDOW_WIDTH, ROAD_WIDTH as u32),
        fill(rgb(55, 55, 55), 360, 0, ROAD_WIDTH as u32, WINDOW_HEIGHT),
    ]
}

/// The conflict box, filled, then outlined in red.
pub open spec fn conflict_zone_cmds() -> Seq<DrawCmd> {
    seq![
        fill(rgb(70, 70, 70), 360, 360, ROAD_WIDTH as u32, ROAD_WIDTH as u32),
        outline(rgb(180, 60, 60), 360, 360, ROAD_WIDTH as u32, ROAD_WIDTH as u32),
    ]
}

/// The dashed markings between the opposing flows of each road arm: 14-pixel
/// dashes every 24 pixels, from the window's edge to the conflict box on the
/// north and west arms and from the box to the edge on the south and east
/// arms.
pub open spec fn lane_marking_cmds() -> Seq<DrawCmd> {
    let c = rgb(220, 220, 80);
    dash_lines(c, true, 420, 0, 360, 14, 24) + dash_lines(c, true, 380, 440, 800, 14, 24)
        + dash_lines(c, false, 380, 0, 360, 14, 24) + dash_lines(c, false, 420, 440, 800, 14, 24)
}

/// A dark 16-pixel housing centred on the light of each of the first `n` lanes.
pub open spec fn placeholder_cmds(lanes: Seq<Lane>, n: nat) -> Seq<DrawCmd>
    decreases n,
{
    if n == 0 {
        Seq::empty()
    } else {
        let p = lanes[n - 1].light_position;
        placeholder_cmds(lanes, (n - 1) as nat) + seq![
            fill(rgb(30, 30, 30), p.x - 8, p.y - 8, 16, 16),
            outline(rgb(80, 80, 80), p.x - 8, p.y - 8, 16, 16),
        ]
    }
}

/// Every light of `lanes` lies well inside the screen's neighbourhood.
pub open spec fn lights_in_range(lanes: Seq<Lane>) -> bool {
    forall|i: int|
        0 <= i < lanes.len() ==> -10_000 <= (#[trigger] lanes[i]).light_position.x <= 10_000
            && -10_000 <= lanes[i].light_position.y <= 10_000
}

impl Intersection {
    /// What drawing the road surfaces paints.
    pub fn road_commands(&self) -> (cmds: Vec<DrawCmd>)
        requires
            self.wf(),
        ensures
            cmds@ == road_cmds(),
    {
        let cx = self.center.x;
        let cy = self.center.y;
        let half = self.half_road;
        let color = Rgb { r: 55, g: 55, b: 55 };
        let mut cmds: Vec<DrawCmd> = Vec::new();
        cmds.push(
            DrawCmd {
                color,
                shape: Shape::Fill(Rect { x: 0, y: cy - half, w: WINDOW_WIDTH, h: ROAD_WIDTH as u32 }),
            },
        );
        cmds.push(
            DrawCmd {
                color,
                shape: Shape::Fill(Rect { x: cx - half, y: 0, w: ROAD_WIDTH as u32, h: WINDOW_HEIGHT }),
            },
        );
        proof {
            assert(cmds@ =~= road_cmds());
        }
        cmds
    }

    /// What drawing the conflict box paints.
    pub fn conflict_zone_commands(&self) -> (cmds: Vec<DrawCmd>)
        requires
            self.wf(),
        ensures
            cmds@ == conflict_zone_cmds(),
    {
        let mut cmds: Vec<DrawCmd> = Vec::new();
        cmds.push(DrawCmd { color: Rgb { r: 70, g: 70, b: 70 }, shape: Shape::Fill(self.conflict_zone()) });
        cmds.push(
            DrawCmd { color: Rgb { r: 180, g: 60, b: 60 }, shape: Shape::Outline(self.conflict_zone()) },
        );
        proof {
            assert(cmds@ =~= conflict_zone_cmds());
        }
        cmds
    }

    /// What drawing the lane markings paints, arm by arm: north, south,
    /// west, east.
    pub fn lane_marking_commands(&self) -> (cmds: Vec<DrawCmd>)
        requires
            self.wf(),
        ensures
            cmds@ == lane_marking_cmds(),
    {
        let cx = self.center.x;
        let cy = self.center.y;
        let half = self.half_road;
        let off = ROAD_WIDTH / 4;
        let color = Rgb { r: 220, g: 220, b: 80 };
        let mut cmds: Vec<DrawCmd> = Vec::new();
        draw_dashes(&mut cmds, color, true, cx + off, 0, cy - half, 14, 24);
        draw_dashes(&mut cmds, color, true, cx - off, cy + half, WINDOW_HEIGHT as i32, 14, 24);
        draw_dashes(&mut cmds, color, false, cy - off, 0, cx - half, 14, 24);
        draw_dashes(&mut cmds, color, false, cy + off, cx + half, WINDOW_WIDTH as i32, 14, 24);
        proof {
            assert(cmds@ =~= lane_marking_cmds());
        }
        cmds
    }

    /// What drawing the light housings paints, lane by lane.
    pub fn light_placeholder_commands(&self) -> (cmds: Vec<DrawCmd>)
        requires
            lights_in_range(self.lanes@),
        ensures
            cmds@ == placeholder_cmds(self.lanes@, self.lanes@.len()),
    {
        let mut cmds: Vec<DrawCmd> = Vec::new();
        let mut i: usize = 0;
        while i < self.lanes.len()
            invariant
                0 <= i <= self.lanes@.len(),
                lights_in_range(self.lanes@),
                cmds@ == placeholder_cmds(self.lanes@, i as nat),
            decreases self.lanes@.len() - i,
        {
            let p = self.lanes[i].light_position();
            let x = p.x;
            let y = p.y;
            let ghost before = cmds@;
            cmds.push(
                DrawCmd {
                    color: Rgb { r: 30, g: 30, b: 30 },
                    shape: Shape::Fill(Rect { x: x - 8, y: y - 8, w: 16, h: 16 }),
                },
            );
            cmds.push(
                DrawCmd {
                    color: Rgb { r: 80, g: 80, b: 80 },
                    shape: Shape::Outline(Rect { x: x - 8, y: y - 8, w: 16, h: 16 }),
                },
            );
            proof {
                assert(cmds@ =~= placeholder_cmds(self.lanes@, i as nat + 1));
            }
            i += 1;
        }
        cmds
    }
}

impl Default for Intersection {
    fn default() -> (r: Self)
        ensures
            r.wf(),
            r.lanes@ == layout_lanes(),
    {
        Self::new()
    }
}

} // verus!
