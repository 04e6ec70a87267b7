use road_intersection::render::{Rect, Rgb, Shape};
use road_intersection::ui::legend::{draw_commands, glyph};

#[test]
fn glyphs_cover_the_legend_letters() {
    assert_eq!(glyph('A'), Some([0x0E, 0x11, 0x11, 0x1F, 0x11, 0x11, 0x11]));
    assert_eq!(glyph('a'), glyph('A'));
    assert_eq!(glyph('t'), Some([0x1C, 0x04, 0x04, 0x04, 0x04, 0x04, 0x04]));
    for ch in "RoutesLeftStraightRight".chars() {
        assert!(glyph(ch).is_some(), "no glyph for {ch}");
    }
    assert_eq!(glyph(' '), None);
    assert_eq!(glyph('1'), None);
}

#[test]
fn every_capital_has_the_glyph_of_its_lowercase_letter() {
    for ch in 'A'..='Z' {
        assert!(glyph(ch).is_some(), "no glyph for {ch}");
        assert_eq!(glyph(ch), glyph(ch.to_ascii_lowercase()));
    }
    assert_eq!(glyph('B'), Some([0x1E, 0x11, 0x11, 0x1E, 0x11, 0x11, 0x1E]));
    assert_eq!(glyph('T'), glyph('t'));
}

fn pixels(rows: [u8; 7]) -> usize {
    rows.iter().map(|r| r.count_ones() as usize).sum()
}

#[test]
fn legend_panel_rows_and_text() {
    let cmds = draw_commands();
    assert_eq!(cmds[0].color, Rgb { r: 18, g: 28, b: 18 });
    assert_eq!(cmds[0].shape, Shape::Fill(Rect { x: 672, y: 702, w: 118, h: 88 }));
    assert_eq!(cmds[1].shape, Shape::Outline(Rect { x: 672, y: 702, w: 118, h: 88 }));
    // Title: one pixel per set glyph bit.
    let title: usize = "Routes".chars().map(|c| pixels(glyph(c).unwrap())).sum();
    // First pixel of 'R': top row 0x1E is .XXXX. -> leftmost set column is 0.
    assert_eq!(cmds[2].shape, Shape::Fill(Rect { x: 680, y: 710, w: 1, h: 1 }));
    assert_eq!(cmds[2].color, Rgb { r: 220, g: 220, b: 220 });
    let row0 = 2 + title;
    // Left row: yellow swatch with dark border.
    assert_eq!(cmds[row0].color, Rgb { r: 230, g: 190, b: 0 });
    assert_eq!(cmds[row0].shape, Shape::Fill(Rect { x: 680, y: 728, w: 12, h: 12 }));
    assert_eq!(cmds[row0 + 1].shape, Shape::Outline(Rect { x: 680, y: 728, w: 12, h: 12 }));
    let labels: usize = ["Left", "Straight", "Right"]
        .iter()
        .map(|l| l.chars().map(|c| pixels(glyph(c).unwrap())).sum::<usize>())
        .sum();
    assert_eq!(cmds.len(), 2 + title + 3 * 2 + labels);
    // Straight row is blue, Right row orange.
    let row1 = row0 + 2 + "Left".chars().map(|c| pixels(glyph(c).unwrap())).sum::<usize>();
    assert_eq!(cmds[row1].color, Rgb { r: 0, g: 80, b: 220 });
    assert_eq!(cmds[row1].shape, Shape::Fill(Rect { x: 680, y: 750, w: 12, h: 12 }));
}
