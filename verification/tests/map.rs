use road_intersection::map::intersection::{Intersection, Lane, LaneId};
use road_intersection::render::{DrawCmd, Rect, Rgb, Shape};

#[test]
fn new_intersection_has_four_empty_lanes() {
    let i = Intersection::new();
    let ids: Vec<LaneId> = i.lanes.iter().map(|l| l.id).collect();
    assert_eq!(ids, vec![LaneId::NorthIn, LaneId::SouthIn, LaneId::EastIn, LaneId::WestIn]);
    assert!(i.lanes.iter().all(|l| l.queue_len == 0));
    assert_eq!(Intersection::default().lanes.len(), 4);
}

#[test]
fn get_lane_finds_the_first_lane_with_the_id() {
    let mut i = Intersection::new();
    i.lanes[2].queue_len = 6;
    assert_eq!(i.get_lane(LaneId::EastIn), Some(&Lane { id: LaneId::EastIn, queue_len: 6 }));
    i.lanes.push(Lane { id: LaneId::EastIn, queue_len: 1 });
    assert_eq!(i.get_lane(LaneId::EastIn).unwrap().queue_len, 6);
    i.lanes.retain(|l| l.id != LaneId::NorthIn);
    assert_eq!(i.get_lane(LaneId::NorthIn), None);
}

#[test]
fn road_drawing_is_surface_then_dashes_then_stop_lines() {
    let cmds = Intersection::new().draw_commands();
    let road = Rgb { r: 60, g: 60, b: 60 };
    assert_eq!(cmds[0], DrawCmd { color: road, shape: Shape::Fill(Rect { x: 340, y: 0, w: 120, h: 800 }) });
    assert_eq!(cmds[1], DrawCmd { color: road, shape: Shape::Fill(Rect { x: 0, y: 340, w: 800, h: 120 }) });
    // Ten dashes on each arm: 0..340 and 460..800 in steps of 35.
    let dashes: Vec<&DrawCmd> = cmds.iter().filter(|c| c.color == Rgb { r: 255, g: 220, b: 0 }).collect();
    assert_eq!(dashes.len(), 40);
    assert_eq!(dashes[0].shape, Shape::Line(400, 0, 400, 20));
    // The last dash above the box ends 5 pixels short of it.
    assert_eq!(dashes[9].shape, Shape::Line(400, 315, 400, 335));
    assert_eq!(dashes[10].shape, Shape::Line(400, 460, 400, 480));
    assert_eq!(dashes[19].shape, Shape::Line(400, 775, 400, 795));
    assert_eq!(dashes[20].shape, Shape::Line(0, 400, 20, 400));
    let stops: Vec<Shape> = cmds[42..].iter().map(|c| c.shape).collect();
    assert_eq!(
        stops,
        vec![
            Shape::Line(340, 340, 400, 340),
            Shape::Line(400, 460, 460, 460),
            Shape::Line(460, 340, 460, 400),
            Shape::Line(340, 400, 340, 460),
        ]
    );
    assert_eq!(cmds.len(), 46);
}
