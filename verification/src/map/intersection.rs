//! Static intersection: the four entry lanes and their queue lengths.
use vstd::prelude::*;

use crate::constants::{
    INTERSECTION_X, INTERSECTION_Y, LANE_WIDTH, ROAD_WIDTH, STOP_LINE_EAST, STOP_LINE_NORTH,
    STOP_LINE_SOUTH, STOP_LINE_WEST, WINDOW_HEIGHT, WINDOW_WIDTH,
};
use crate::render::{fill, line, rgb, DrawCmd, Rect, Rgb, Shape};

verus! {

/// One entry lane per compass approach.
#[derive(Debug, Clone, Copy, PartialEq, Eq, Hash, Structural)]
pub enum LaneId {
    NorthIn,
    SouthIn,
    EastIn,
    WestIn,
}

/// An entry lane and the number of vehicles queued on it.
#[derive(Debug, Clone, Copy, PartialEq, Eq, Structural)]
pub struct Lane {
    pub id: LaneId,
    pub queue_len: usize,
}

pub struct Intersection {
    pub lanes: Vec<Lane>,
}

/// The lanes of a fresh intersection: the four approaches in order, all empty.
pub open spec fn initial_lanes() -> Seq<Lane> {
    seq![
        Lane { id: LaneId::NorthIn, queue_len: 0 },
        Lane { id: LaneId::SouthIn, queue_len: 0 },
        Lane { id: LaneId::EastIn, queue_len: 0 },
        Lane { id: LaneId::WestIn, queue_len: 0 },
    ]
}

/// `i` is the first position in `lanes` whose lane has the given id.
pub open spec fn first_lane_with(lanes: Seq<Lane>, id: LaneId, i: int) -> bool {
    &&& 0 <= i < lanes.len()
    &&& lanes[i].id == id
    &&& forall|j: int| 0 <= j < i ==> lanes[j].id != id
}

impl Intersection {
    pub fn new() -> (r: Self)
        ensures
            r.lanes@ == initial_lanes(),
    {
        let mut lanes: Vec<Lane> = Vec::new();
        lanes.push(Lane { id: LaneId::NorthIn, queue_len: 0 });
        lanes.push(Lane { id: LaneId::SouthIn, queue_len: 0 });
        lanes.push(Lane { id: LaneId::EastIn, queue_len: 0 });
        lanes.push(Lane { id: LaneId::WestIn, queue_len: 0 });
        Intersection { lanes }
    }

    /// The first lane with the given id, if any.
    pub fn get_lane(&self, id: LaneId) -> (r: Option<&Lane>)
        ensures
            match r {
                Some(l) => exists|i: int| first_lane_with(self.lanes@, id, i) && *l == self.lanes@[i],
                None => forall|i: int| 0 <= i < self.lanes@.len() ==> self.lanes@[i].id != id,
            },
    {
        let mut i: usize = 0;
        while i < self.lanes.len()
            invariant
                0 <= i <= self.lanes@.len(),
                forall|j: int| 0 <= j < i ==> self.lanes@[j].id != id,
            decreases self.lanes@.len() - i,
        {
            if self.lanes[i].id == id {
                return Some(&self.lanes[i]);
            }
            i += 1;
        }
        None
    }
}

/// Length of a painted dash of a centre line.
pub const DASH: i32 = 20;

/// Distance from the start of one dash to the start of the next.
pub const DASH_STEP: i32 = 35;

/// The dashes painted from `start` toward `end`, `dash` long and starting
/// every `step`: the k-th runs from `start + step*k` to
/// `start + step*k + dash`, cut at `end`, for every k with
/// `start + step*k < end`.
pub open spec fn dash_spans_of(start: int, end: int, dash: int, step: int) -> Seq<(int, int)> {
    let n = if start < end && step > 0 {
        (end - start + step - 1) / step
    } else {
        0
    };
    Seq::new(
        n as nat,
        |k: int|
            (
                start + step * k,
                if start + step * k + dash <= end {
                    start + step * k + dash
                } else {
                    end
                },
            ),
    )
}

/// The dashes of a centre line from `start` toward `end`.
pub open spec fn dash_spans(start: int, end: int) -> Seq<(int, int)> {
    dash_spans_of(start, end, DASH as int, DASH_STEP as int)
}

/// Dashes along the vertical line at `at` (the horizontal line at height
/// `at` when `vertical` is false), as lines in `color`.
pub open spec fn dash_lines(
    color: Rgb,
    vertical: bool,
    at: int,
    start: int,
    end: int,
    dash: int,
    step: int,
) -> Seq<DrawCmd> {
    dash_spans_of(start, end, dash, step).map_values(
        |s: (int, int)|
            if vertical {
                line(color, at, s.0, at, s.1)
            } else {
                line(color, s.0, at, s.1, at)
            },
    )
}

pub open spec fn road_color() -> Rgb {
    rgb(60, 60, 60)
}

pub open spec fn lane_line_color() -> Rgb {
    rgb(255, 220, 0)
}

pub open spec fn stop_line_color() -> Rgb {
    rgb(255, 255, 255)
}

/// The vertical road, then the horizontal one.
pub open spec fn surface_cmds() -> Seq<DrawCmd> {
    seq![
        fill(road_color(), INTERSECTION_X as int, 0, ROAD_WIDTH as u32, WINDOW_HEIGHT),
        fill(road_color(), 0, INTERSECTION_Y as int, WINDOW_WIDTH, ROAD_WIDTH as u32),
    ]
}

pub open spec fn vertical_dashes(x: int, start: int, end: int) -> Seq<DrawCmd> {
    dash_lines(lane_line_color(), true, x, start, end, DASH as int, DASH_STEP as int)
}

pub open spec fn horizontal_dashes(y: int, start: int, end: int) -> Seq<DrawCmd> {
    dash_lines(lane_line_color(), false, y, start, end, DASH as int, DASH_STEP as int)
}

/// Dashed centre lines on the four arms, north, south, west, east, each
/// stopping at the central box.
pub open spec fn center_line_cmds() -> Seq<DrawCmd> {
    let cx = INTERSECTION_X + LANE_WIDTH;
    let cy = INTERSECTION_Y + LANE_WIDTH;
    vertical_dashes(cx, 0, INTERSECTION_Y as int) + vertical_dashes(
        cx,
        STOP_LINE_SOUTH as int,
        WINDOW_HEIGHT as int,
    ) + horizontal_dashes(cy, 0, INTERSECTION_X as int) + horizontal_dashes(
        cy,
        STOP_LINE_EAST as int,
        WINDOW_WIDTH as int,
    )
}

/// A stop line across each entry lane, at the edge of the central box.
pub open spec fn stop_line_cmds() -> Seq<DrawCmd> {
    seq![
        line(stop_line_color(), INTERSECTION_X as int, STOP_LINE_NORTH as int, (INTERSECTION_X + LANE_WIDTH) as int, STOP_LINE_NORTH as int),
        line(stop_line_color(), (INTERSECTION_X + LANE_WIDTH) as int, STOP_LINE_SOUTH as int, (INTERSECTION_X + ROAD_WIDTH) as int, STOP_LINE_SOUTH as int),
        line(stop_line_color(), STOP_LINE_EAST as int, INTERSECTION_Y as int, STOP_LINE_EAST as int, (INTERSECTION_Y + LANE_WIDTH) as int),
        line(stop_line_color(), STOP_LINE_WEST as int, (INTERSECTION_Y + LANE_WIDTH) as int, STOP_LINE_WEST as int, (INTERSECTION_Y + ROAD_WIDTH) as int),
    ]
}

fn push_line(cmds: &mut Vec<DrawCmd>, color: Rgb, x1: i32, y1: i32, x2: i32, y2: i32)
    ensures
        final(cmds)@ == old(cmds)@.push(line(color, x1 as int, y1 as int, x2 as int, y2 as int)),
{
    cmds.push(DrawCmd { color, shape: Shape::Line(x1, y1, x2, y2) });
}

fn draw_surface(cmds: &mut Vec<DrawCmd>)
    ensures
        final(cmds)@ == old(cmds)@ + surface_cmds(),
{
    let color = Rgb { r: 60, g: 60, b: 60 };
    cmds.push(
        DrawCmd {
            color,
            shape: Shape::Fill(
                Rect { x: INTERSECTION_X, y: 0, w: ROAD_WIDTH as u32, h: WINDOW_HEIGHT },
            ),
        },
    );
    cmds.push(
        DrawCmd {
            color,
            shape: Shape::Fill(
                Rect { x: 0, y: INTERSECTION_Y, w: WINDOW_WIDTH, h: ROAD_WIDTH as u32 },
            ),
        },
    );
    proof {
        assert(final(cmds)@ =~= old(cmds)@ + surface_cmds());
    }
}

/// Paints in `color` the dashes from `start` toward `end`, `dash` long and
/// starting every `step`, along the vertical line at `at` (or, when
/// `vertical` is false, along the horizontal line at height `at`).
pub(crate) fn draw_dashes(
    cmds: &mut Vec<DrawCmd>,
    color: Rgb,
    vertical: bool,
    at: i32,
    start: i32,
    end: i32,
    dash: i32,
    step: i32,
)
    requires
        0 < dash,
        0 < step,
        start < end ==> end - 1 + step <= i32::MAX && end - 1 + dash <= i32::MAX,
    ensures
        final(cmds)@ == old(cmds)@ + dash_lines(
            color,
            vertical,
            at as int,
            start as int,
            end as int,
            dash as int,
            step as int,
        ),
{
    let ghost spans = dash_spans_of(start as int, end as int, dash as int, step as int);
    let ghost drawn = dash_lines(
        color,
        vertical,
        at as int,
        start as int,
        end as int,
        dash as int,
        step as int,
    );
    let mut p = start;
    let ghost mut k: int = 0;
    if start < end {
        proof {
            lemma_dash_count(start as int, end as int, step as int, 0);
        }
    }
    while p < end
        invariant
            0 < dash,
            0 < step,
            start < end ==> end - 1 + step <= i32::MAX && end - 1 + dash <= i32::MAX,
            p == start + step * k,
            0 <= k <= spans.len(),
            p < end ==> k < spans.len(),
            p >= end ==> k == spans.len(),
            spans == dash_spans_of(start as int, end as int, dash as int, step as int),
            drawn.len() == spans.len(),
            drawn == dash_lines(
                color,
                vertical,
                at as int,
                start as int,
                end as int,
                dash as int,
                step as int,
            ),
            cmds@ == old(cmds)@ + drawn.take(k),
        decreases end + step - p,
    {
        let stop = if p + dash <= end {
            p + dash
        } else {
            end
        };
        let ghost before = cmds@;
        if vertical {
            push_line(&mut *cmds, color, at, p, at, stop);
        } else {
            push_line(&mut *cmds, color, p, at, stop, at);
        }
        proof {
            let sp = spans[k];
            assert(sp == (p as int, stop as int));
            assert(drawn[k] == (if vertical {
                line(color, at as int, p as int, at as int, stop as int)
            } else {
                line(color, p as int, at as int, stop as int, at as int)
            }));
            assert(drawn.take(k + 1) =~= drawn.take(k).push(drawn[k]));
            assert(cmds@ == before.push(drawn[k]));
            assert(cmds@ =~= old(cmds)@ + drawn.take(k + 1));
        }
        p = p + step;
        proof {
            k = k + 1;
            assert(step * k == step * (k - 1) + step) by (nonlinear_arith);
            lemma_dash_count(start as int, end as int, step as int, k);
        }
    }
    proof {
        assert(drawn.take(k) =~= drawn);
    }
}

proof fn lemma_dash_count(start: int, end: int, step: int, k: int)
    requires
        start < end,
        step > 0,
        k >= 0,
    ensures
        start + step * k < end <==> k < (end - start + step - 1) / step,
{
    let n = end - start;
    let q = (n + step - 1) / step;
    let r = (n + step - 1) % step;
    assert(n + step - 1 == step * q + r && 0 <= r < step) by (nonlinear_arith)
        requires
            step > 0,
            q == (n + step - 1) / step,
            r == (n + step - 1) % step,
    ;
    assert(step * k < n <==> k < q) by (nonlinear_arith)
        requires
            step > 0,
            k >= 0,
            n > 0,
            n + step - 1 == step * q + r,
            0 <= r < step,
    ;
}

fn draw_center_lines(cmds: &mut Vec<DrawCmd>)
    ensures
        final(cmds)@ == old(cmds)@ + center_line_cmds(),
{
    let cx = INTERSECTION_X + LANE_WIDTH;
    let cy = INTERSECTION_Y + LANE_WIDTH;
    let color = Rgb { r: 255, g: 220, b: 0 };
    draw_dashes(cmds, color, true, cx, 0, INTERSECTION_Y, DASH, DASH_STEP);
    draw_dashes(cmds, color, true, cx, STOP_LINE_SOUTH, WINDOW_HEIGHT as i32, DASH, DASH_STEP);
    draw_dashes(cmds, color, false, cy, 0, INTERSECTION_X, DASH, DASH_STEP);
    draw_dashes(cmds, color, false, cy, STOP_LINE_EAST, WINDOW_WIDTH as i32, DASH, DASH_STEP);
    proof {
        assert(final(cmds)@ =~= old(cmds)@ + center_line_cmds());
    }
}

fn draw_stop_lines(cmds: &mut Vec<DrawCmd>)
    ensures
        final(cmds)@ == old(cmds)@ + stop_line_cmds(),
{
    let color = Rgb { r: 255, g: 255, b: 255 };
    push_line(cmds, color, INTERSECTION_X, STOP_LINE_NORTH, INTERSECTION_X + LANE_WIDTH, STOP_LINE_NORTH);
    push_line(
        cmds,
        color,
        INTERSECTION_X + LANE_WIDTH,
        STOP_LINE_SOUTH,
        INTERSECTION_X + ROAD_WIDTH,
        STOP_LINE_SOUTH,
    );
    push_line(cmds, color, STOP_LINE_EAST, INTERSECTION_Y, STOP_LINE_EAST, INTERSECTION_Y + LANE_WIDTH);
    push_line(
        cmds,
        color,
        STOP_LINE_WEST,
        INTERSECTION_Y + LANE_WIDTH,
        STOP_LINE_WEST,
        INTERSECTION_Y + ROAD_WIDTH,
    );
    proof {
        assert(final(cmds)@ =~= old(cmds)@ + stop_line_cmds());
    }
}

impl Intersection {
    /// What drawing the roads paints, in order: the road surface, the dashed
    /// centre lines, the stop lines.
    pub fn draw_commands(&self) -> (cmds: Vec<DrawCmd>)
        ensures
            cmds@ == surface_cmds() + center_line_cmds() + stop_line_cmds(),
    {
        let mut cmds: Vec<DrawCmd> = Vec::new();
        draw_surface(&mut cmds);
        draw_center_lines(&mut cmds);
        draw_stop_lines(&mut cmds);
        proof {
            assert(cmds@ =~= surface_cmds() + center_line_cmds() + stop_line_cmds());
        }
        cmds
    }
}

impl Default for Intersection {
    fn default() -> (r: Self)
        ensures
            r.lanes@ == initial_lanes(),
    {
        Self::new()
    }
}

} // verus!
