//! The route legend: a panel in the bottom-right corner with a colour swatch
//! and a label per route, lettered in a 5x7 pixel font.
use vstd::prelude::*;

use crate::constants::{WINDOW_HEIGHT, WINDOW_WIDTH};
use crate::render::{fill, outline, rgb, DrawCmd, Rect, Rgb, Shape};
use crate::vehicle::route::{route_color, Route};
use vstd::std_specs::iter::IteratorSpec;

verus! {

broadcast use {vstd::string::axiom_spec_iter, vstd::string::next_postcondition};

pub const PANEL_W: u32 = 118;

pub const PANEL_H: u32 = 88;

pub const PANEL_MARGIN: i32 = 10;

pub const PANEL_PAD: i32 = 8;

pub const ROW_H: i32 = 22;

pub const SWATCH: u32 = 12;

pub const CHAR_W: i32 = 6;

pub const GLYPH_H: i32 = 7;

/// A capital letter stands for its lowercase letter; every other character
/// stands for itself.
pub open spec fn lowercase(ch: char) -> char {
    if 'A' <= ch <= 'Z' {
        ((ch as int) + 32) as char
    } else {
        ch
    }
}

/// The 5x7 glyph of a lowercase letter, one byte per row, top row first;
/// bit 4 of a row is its leftmost pixel.
pub open spec fn letter_rows(ch: char) -> Option<Seq<u8>> {
    if ch == 'a' {
        Some(seq![0x0Eu8, 0x11, 0x11, 0x1F, 0x11, 0x11, 0x11])
    } else if ch == 'b' {
        Some(seq![0x1Eu8, 0x11, 0x11, 0x1E, 0x11, 0x11, 0x1E])
    } else if ch == 'c' {
        Some(seq![0x0Eu8, 0x11, 0x10, 0x10, 0x10, 0x11, 0x0E])
    } else if ch == 'd' {
        Some(seq![0x1Eu8, 0x11, 0x11, 0x11, 0x11, 0x11, 0x1E])
    } else if ch == 'e' {
        Some(seq![0x1Fu8, 0x10, 0x10, 0x1E, 0x10, 0x10, 0x1F])
    } else if ch == 'f' {
        Some(seq![0x1Eu8, 0x10, 0x10, 0x1C, 0x10, 0x10, 0x10])
    } else if ch == 'g' {
        Some(seq![0x0Eu8, 0x11, 0x11, 0x1F, 0x11, 0x11, 0x0E])
    } else if ch == 'h' {
        Some(seq![0x11u8, 0x11, 0x11, 0x1F, 0x11, 0x11, 0x11])
    } else if ch == 'i' {
        Some(seq![0x0Eu8, 0x04, 0x04, 0x04, 0x04, 0x04, 0x0E])
    } else if ch == 'j' {
        Some(seq![0x07u8, 0x02, 0x02, 0x02, 0x02, 0x12, 0x0C])
    } else if ch == 'k' {
        Some(seq![0x11u8, 0x12, 0x14, 0x18, 0x14, 0x12, 0x11])
    } else if ch == 'l' {
        Some(seq![0x10u8, 0x10, 0x10, 0x10, 0x10, 0x10, 0x1F])
    } else if ch == 'm' {
        Some(seq![0x11u8, 0x1B, 0x15, 0x15, 0x11, 0x11, 0x11])
    } else if ch == 'n' {
        Some(seq![0x11u8, 0x19, 0x15, 0x13, 0x11, 0x11, 0x11])
    } else if ch == 'o' {
        Some(seq![0x0Eu8, 0x11, 0x11, 0x11, 0x11, 0x11, 0x0E])
    } else if ch == 'p' {
        Some(seq![0x1Eu8, 0x11, 0x11, 0x1E, 0x10, 0x10, 0x10])
    } else if ch == 'q' {
        Some(seq![0x0Eu8, 0x11, 0x11, 0x11, 0x15, 0x12, 0x0D])
    } else if ch == 'r' {
        Some(seq![0x1Eu8, 0x11, 0x11, 0x1E, 0x12, 0x11, 0x11])
    } else if ch == 's' {
        Some(seq![0x0Eu8, 0x11, 0x10, 0x0E, 0x01, 0x11, 0x0E])
    } else if ch == 't' {
        Some(seq![0x1Cu8, 0x04, 0x04, 0x04, 0x04, 0x04, 0x04])
    } else if ch == 'u' {
        Some(seq![0x11u8, 0x11, 0x11, 0x11, 0x11, 0x11, 0x0E])
    } else if ch == 'v' {
        Some(seq![0x11u8, 0x11, 0x11, 0x11, 0x11, 0x0A, 0x04])
    } else if ch == 'w' {
        Some(seq![0x11u8, 0x11, 0x11, 0x15, 0x15, 0x15, 0x0A])
    } else if ch == 'x' {
        Some(seq![0x11u8, 0x11, 0x0A, 0x04, 0x0A, 0x11, 0x11])
    } else if ch == 'y' {
        Some(seq![0x11u8, 0x11, 0x0A, 0x04, 0x04, 0x04, 0x04])
    } else if ch == 'z' {
        Some(seq![0x1Fu8, 0x01, 0x02, 0x04, 0x08, 0x10, 0x1F])
    } else {
        None
    }
}

/// The glyph of a character: every letter, capital or not, has the glyph of
/// its lowercase letter; other characters have none and are not drawn.
pub open spec fn glyph_rows(ch: char) -> Option<Seq<u8>> {
    letter_rows(lowercase(ch))
}

/// The font covers the alphabet: every capital letter has a glyph, the same
/// as the glyph of its lowercase letter.
pub proof fn law_capitals_have_glyphs(ch: char)
    requires
        'A' <= ch <= 'Z',
    ensures
        'a' <= lowercase(ch) <= 'z',
        glyph_rows(ch) is Some,
        glyph_rows(ch) == glyph_rows(lowercase(ch)),
{
}

/// Whether pixel `col` (0 is leftmost) of a glyph row is set.
pub open spec fn pixel_on(bits: u8, col: int) -> bool {
    bits & (1u8 << ((4 - col) as u8)) != 0
}

/// The pixels of the first `n` cells of a glyph, row by row, left to right.
pub open spec fn glyph_pixels(x: int, y: int, rows: Seq<u8>, color: Rgb, n: nat) -> Seq<DrawCmd>
    decreases n,
{
    if n == 0 {
        Seq::empty()
    } else {
        let cell = n - 1;
        let row = cell / 5;
        let col = cell % 5;
        let before = glyph_pixels(x, y, rows, color, (n - 1) as nat);
        if pixel_on(rows[row], col) {
            before.push(fill(color, x + col, y + row, 1, 1))
        } else {
            before
        }
    }
}

/// One character with its top-left corner at `(x, y)`.
pub open spec fn char_cmds(x: int, y: int, ch: char, color: Rgb) -> Seq<DrawCmd> {
    match glyph_rows(ch) {
        Some(rows) => glyph_pixels(x, y, rows, color, 35),
        None => Seq::empty(),
    }
}

/// Every lit pixel of the character at `(x, y)` lies on the screen's
/// coordinate range.
pub open spec fn char_fits(x: int, y: int, ch: char) -> bool {
    match glyph_rows(ch) {
        Some(rows) => forall|r: int, c: int|
            0 <= r < 7 && 0 <= c < 5 && #[trigger] pixel_on(rows[r], c) ==> x + c <= i32::MAX
                && y + r <= i32::MAX,
        None => true,
    }
}

/// The `k`-th character of a clipped text is looked at: it is the first, or
/// the one before it was drawn.
pub open spec fn char_reached(x: int, max_x: int, k: int) -> bool {
    k == 0 || x + CHAR_W * k - 1 <= max_x
}

/// Laying out `text` from `x` up to `max_x` stays on the coordinate range:
/// the clipping test of every character looked at, the advance past every
/// character drawn, and the pixels of those characters.
pub open spec fn text_fits(x: int, y: int, max_x: int, text: Seq<char>) -> bool {
    forall|k: int|
        0 <= k < text.len() && #[trigger] char_reached(x, max_x, k) ==> x + CHAR_W * k + 5
            <= i32::MAX && (x + CHAR_W * k + 5 <= max_x ==> x + CHAR_W * k + 6 <= i32::MAX
            && char_fits(x + CHAR_W * k, y, text[k]))
}

/// The first `n` characters of `text` from `(x, y)`, six pixels apart; a
/// character is drawn only if its glyph ends at or before `max_x`.
pub open spec fn text_cmds(x: int, y: int, max_x: int, text: Seq<char>, color: Rgb, n: nat) -> Seq<
    DrawCmd,
>
    decreases n,
{
    if n == 0 {
        Seq::empty()
    } else {
        let k = n - 1;
        let cx = x + CHAR_W * k;
        let before = text_cmds(x, y, max_x, text, color, (n - 1) as nat);
        if cx + 5 > max_x {
            before
        } else {
            before + char_cmds(cx, y, text[k], color)
        }
    }
}

pub fn glyph(ch: char) -> (r: Option<[u8; 7]>)
    ensures
        match r {
            Some(rows) => glyph_rows(ch) == Some(rows@),
            None => glyph_rows(ch) is None,
        },
{
    let rows = match ch {
        'A' | 'a' => [0x0E, 0x11, 0x11, 0x1F, 0x11, 0x11, 0x11],
        'B' | 'b' => [0x1E, 0x11, 0x11, 0x1E, 0x11, 0x11, 0x1E],
        'C' | 'c' => [0x0E, 0x11, 0x10, 0x10, 0x10, 0x11, 0x0E],
        'D' | 'd' => [0x1E, 0x11, 0x11, 0x11, 0x11, 0x11, 0x1E],
        'E' | 'e' => [0x1F, 0x10, 0x10, 0x1E, 0x10, 0x10, 0x1F],
        'F' | 'f' => [0x1E, 0x10, 0x10, 0x1C, 0x10, 0x10, 0x10],
        'G' | 'g' => [0x0E, 0x11, 0x11, 0x1F, 0x11, 0x11, 0x0E],
        'H' | 'h' => [0x11, 0x11, 0x11, 0x1F, 0x11, 0x11, 0x11],
        'I' | 'i' => [0x0E, 0x04, 0x04, 0x04, 0x04, 0x04, 0x0E],
        'J' | 'j' => [0x07, 0x02, 0x02, 0x02, 0x02, 0x12, 0x0C],
        'K' | 'k' => [0x11, 0x12, 0x14, 0x18, 0x14, 0x12, 0x11],
        'L' | 'l' => [0x10, 0x10, 0x10, 0x10, 0x10, 0x10, 0x1F],
        'M' | 'm' => [0x11, 0x1B, 0x15, 0x15, 0x11, 0x11, 0x11],
        'N' | 'n' => [0x11, 0x19, 0x15, 0x13, 0x11, 0x11, 0x11],
        'O' | 'o' => [0x0E, 0x11, 0x11, 0x11, 0x11, 0x11, 0x0E],
        'P' | 'p' => [0x1E, 0x11, 0x11, 0x1E, 0x10, 0x10, 0x10],
        'Q' | 'q' => [0x0E, 0x11, 0x11, 0x11, 0x15, 0x12, 0x0D],
        'R' | 'r' => [0x1E, 0x11, 0x11, 0x1E, 0x12, 0x11, 0x11],
        'S' | 's' => [0x0E, 0x11, 0x10, 0x0E, 0x01, 0x11, 0x0E],
        'T' | 't' => [0x1C, 0x04, 0x04, 0x04, 0x04, 0x04, 0x04],
        'U' | 'u' => [0x11, 0x11, 0x11, 0x11, 0x11, 0x11, 0x0E],
        'V' | 'v' => [0x11, 0x11, 0x11, 0x11, 0x11, 0x0A, 0x04],
        'W' | 'w' => [0x11, 0x11, 0x11, 0x15, 0x15, 0x15, 0x0A],
        'X' | 'x' => [0x11, 0x11, 0x0A, 0x04, 0x0A, 0x11, 0x11],
        'Y' | 'y' => [0x11, 0x11, 0x0A, 0x04, 0x04, 0x04, 0x04],
        'Z' | 'z' => [0x1F, 0x01, 0x02, 0x04, 0x08, 0x10, 0x1F],
        _ => return None,
    };
    proof {
        assert(glyph_rows(ch) == Some(rows@));
    }
    Some(rows)
}

fn draw_char(cmds: &mut Vec<DrawCmd>, x: i32, y: i32, ch: char, color: Rgb)
    requires
        char_fits(x as int, y as int, ch),
    ensures
        final(cmds)@ == old(cmds)@ + char_cmds(x as int, y as int, ch, color),
{
    let rows = match glyph(ch) {
        Some(rows) => rows,
        None => {
            proof {
                assert(old(cmds)@ + char_cmds(x as int, y as int, ch, color) =~= old(cmds)@);
            }
            return ;
        },
    };
    let mut row: i32 = 0;
    while row < 7
        invariant
            0 <= row <= 7,
            char_fits(x as int, y as int, ch),
            glyph_rows(ch) == Some(rows@),
            cmds@ == old(cmds)@ + glyph_pixels(x as int, y as int, rows@, color, (row * 5) as nat),
        decreases 7 - row,
    {
        let bits = rows[row as usize];
        let mut col: i32 = 0;
        while col < 5
            invariant
                0 <= row < 7,
                0 <= col <= 5,
                char_fits(x as int, y as int, ch),
                glyph_rows(ch) == Some(rows@),
                bits == rows@[row as int],
                cmds@ == old(cmds)@ + glyph_pixels(
                    x as int,
                    y as int,
                    rows@,
                    color,
                    (row * 5 + col) as nat,
                ),
            decreases 5 - col,
        {
            let ghost before = cmds@;
            proof {
                let cell = row * 5 + col;
                assert(cell / 5 == row && cell % 5 == col) by (nonlinear_arith)
                    requires
                        cell == row * 5 + col,
                        0 <= col < 5,
                        0 <= row,
                ;
            }
            if bits & (1u8 << ((4 - col) as u8)) != 0 {
                proof {
                    let rs = glyph_rows(ch)->Some_0;
                    assert(rs == rows@);
                    assert(pixel_on(rs[row as int], col as int));
                }
                cmds.push(DrawCmd { color, shape: Shape::Fill(Rect { x: x + col, y: y + row, w: 1, h: 1 }) });
            }
            proof {
                assert(cmds@ =~= old(cmds)@ + glyph_pixels(
                    x as int,
                    y as int,
                    rows@,
                    color,
                    (row * 5 + col + 1) as nat,
                ));
            }
            col += 1;
        }
        row += 1;
    }
}

fn draw_text_clipped(cmds: &mut Vec<DrawCmd>, x: i32, y: i32, max_x: i32, text: &str, color: Rgb)
    requires
        text_fits(x as int, y as int, max_x as int, text@),
    ensures
        final(cmds)@ == old(cmds)@ + text_cmds(x as int, y as int, max_x as int, text@, color, text@.len()),
{
    let mut cx = x;
    let mut chars = text.chars();
    let ghost mut k: nat = 0;
    loop
        invariant_except_break
            cx == x + CHAR_W * k,
            char_reached(x as int, max_x as int, k as int),
            chars.remaining() == text@.skip(k as int),
            chars.obeys_prophetic_iter_laws(),
        invariant
            text_fits(x as int, y as int, max_x as int, text@),
            k <= text@.len(),
            cmds@ == old(cmds)@ + text_cmds(x as int, y as int, max_x as int, text@, color, k),
        ensures
            cmds@ == old(cmds)@ + text_cmds(x as int, y as int, max_x as int, text@, color, text@.len()),
        decreases text@.len() - k,
    {
        let next = chars.next();
        match next {
            None => {
                proof {
                    assert(k == text@.len());
                }
                break;
            },
            Some(ch) => {
                assert(k < text@.len());
                assert(char_reached(x as int, max_x as int, k as int));
                if cx + 5 > max_x {
                    proof {
                        lemma_text_clipped_rest(x as int, y as int, max_x as int, text@, color, k);
                    }
                    break;
                }
                draw_char(cmds, cx, y, ch, color);
                cx += CHAR_W;
                proof {
                    assert(ch == text@[k as int]);
                    k = k + 1;
                    assert(chars.remaining() =~= text@.skip(k as int));
                }
            },
        }
    }
}

/// A text of at most a thousand characters laid out from a point of the
/// first ten thousand pixels stays on the coordinate range.
proof fn lemma_small_text_fits(x: int, y: int, max_x: int, text: Seq<char>)
    requires
        0 <= x <= 10_000,
        0 <= y <= 10_000,
        text.len() <= 1000,
    ensures
        text_fits(x, y, max_x, text),
{
    assert forall|k: int|
        0 <= k < text.len() && #[trigger] char_reached(x, max_x, k) implies x + CHAR_W * k + 5
        <= i32::MAX && (x + CHAR_W * k + 5 <= max_x ==> x + CHAR_W * k + 6 <= i32::MAX
        && char_fits(x + CHAR_W * k, y, text[k])) by {
        match glyph_rows(text[k]) {
            Some(rows) => {
                assert forall|r: int, c: int|
                    0 <= r < 7 && 0 <= c < 5 && #[trigger] pixel_on(rows[r], c) implies x + CHAR_W
                    * k + c <= i32::MAX && y + r <= i32::MAX by {}
            },
            None => {},
        }
    }
}

proof fn lemma_text_clipped_rest(x: int, y: int, max_x: int, text: Seq<char>, color: Rgb, k: nat)
    requires
        k <= text.len(),
        x + CHAR_W * k + 5 > max_x,
    ensures
        text_cmds(x, y, max_x, text, color, text.len()) == text_cmds(x, y, max_x, text, color, k),
    decreases text.len() - k,
{
    if k < text.len() {
        lemma_text_clipped_rest(x, y, max_x, text, color, k + 1);
    }
}

fn draw_text(cmds: &mut Vec<DrawCmd>, x: i32, y: i32, text: &str, color: Rgb)
    requires
        text_fits(x as int, y as int, i32::MAX as int, text@),
    ensures
        final(cmds)@ == old(cmds)@ + text_cmds(
            x as int,
            y as int,
            i32::MAX as int,
            text@,
            color,
            text@.len(),
        ),
{
    draw_text_clipped(cmds, x, y, i32::MAX, text, color);
}

pub open spec fn title_chars() -> Seq<char> {
    seq!['R', 'o', 'u', 't', 'e', 's']
}

/// The legend rows, top to bottom: each route with its label.
pub open spec fn legend_entries() -> Seq<(Route, Seq<char>)> {
    seq![
        (Route::Left, seq!['L', 'e', 'f', 't']),
        (Route::Straight, seq!['S', 't', 'r', 'a', 'i', 'g', 'h', 't']),
        (Route::Right, seq!['R', 'i', 'g', 'h', 't']),
    ]
}

pub open spec fn legend_left() -> int {
    WINDOW_WIDTH - PANEL_W - PANEL_MARGIN
}

pub open spec fn legend_top() -> int {
    WINDOW_HEIGHT - PANEL_H - PANEL_MARGIN
}

/// Row `i` of the legend: a swatch in the route's colour with a dark border,
/// then the label, clipped at the panel's inner right edge.
pub open spec fn row_cmds(i: int) -> Seq<DrawCmd> {
    let row_y = legend_top() + PANEL_PAD + GLYPH_H + 6 + i * ROW_H;
    let swatch_x = legend_left() + PANEL_PAD;
    let swatch_y = row_y + (ROW_H - SWATCH) / 2;
    let text_x = legend_left() + PANEL_PAD + SWATCH + 6;
    let text_y = row_y + (ROW_H - GLYPH_H) / 2;
    let max_text_x = legend_left() + PANEL_W - PANEL_PAD;
    let (route, label) = legend_entries()[i];
    seq![
        fill(route_color(route), swatch_x, swatch_y, SWATCH, SWATCH),
        outline(rgb(30, 30, 30), swatch_x, swatch_y, SWATCH, SWATCH),
    ] + text_cmds(text_x, text_y, max_text_x, label, rgb(235, 235, 235), label.len())
}

/// The first `n` rows of the legend.
pub open spec fn rows_cmds(n: nat) -> Seq<DrawCmd>
    decreases n,
{
    if n == 0 {
        Seq::empty()
    } else {
        rows_cmds((n - 1) as nat) + row_cmds(n - 1)
    }
}

/// The whole legend: panel, border, title, and one row per route.
pub open spec fn legend_cmds() -> Seq<DrawCmd> {
    seq![
        fill(rgb(18, 28, 18), legend_left(), legend_top(), PANEL_W, PANEL_H),
        outline(rgb(200, 200, 200), legend_left(), legend_top(), PANEL_W, PANEL_H),
    ] + text_cmds(
        legend_left() + PANEL_PAD,
        legend_top() + PANEL_PAD,
        i32::MAX as int,
        title_chars(),
        rgb(220, 220, 220),
        6,
    ) + rows_cmds(3)
}

/// What drawing the legend paints, in order.
pub fn draw_commands() -> (cmds: Vec<DrawCmd>)
    ensures
        cmds@ == legend_cmds(),
{
    let mut cmds: Vec<DrawCmd> = Vec::new();
    let panel_x = WINDOW_WIDTH as i32 - PANEL_W as i32 - PANEL_MARGIN;
    let panel_y = WINDOW_HEIGHT as i32 - PANEL_H as i32 - PANEL_MARGIN;
    cmds.push(
        DrawCmd {
            color: Rgb { r: 18, g: 28, b: 18 },
            shape: Shape::Fill(Rect { x: panel_x, y: panel_y, w: PANEL_W, h: PANEL_H }),
        },
    );
    cmds.push(
        DrawCmd {
            color: Rgb { r: 200, g: 200, b: 200 },
            shape: Shape::Outline(Rect { x: panel_x, y: panel_y, w: PANEL_W, h: PANEL_H }),
        },
    );
    let title_y = panel_y + PANEL_PAD;
    proof {
        reveal_strlit("Routes");
        lemma_small_text_fits(panel_x + PANEL_PAD, title_y as int, i32::MAX as int, "Routes"@);
    }
    draw_text(&mut cmds, panel_x + PANEL_PAD, title_y, "Routes", Rgb { r: 220, g: 220, b: 220 });
    proof {
        reveal_strlit("Left");
        reveal_strlit("Straight");
        reveal_strlit("Right");
        assert("Routes"@ == title_chars());
    }
    let entries = [(Route::Left, "Left"), (Route::Straight, "Straight"), (Route::Right, "Right")];
    let rows_top = panel_y + PANEL_PAD + GLYPH_H + 6;
    let text_x = panel_x + PANEL_PAD + SWATCH as i32 + 6;
    let max_text_x = panel_x + PANEL_W as i32 - PANEL_PAD;
    let ghost head = cmds@;
    let mut i: usize = 0;
    while i < 3
        invariant
            0 <= i <= 3,
            panel_x == legend_left(),
            panel_y == legend_top(),
            rows_top == legend_top() + PANEL_PAD + GLYPH_H + 6,
            text_x == legend_left() + PANEL_PAD + SWATCH + 6,
            max_text_x == legend_left() + PANEL_W - PANEL_PAD,
            forall|j: int|
                0 <= j < 3 ==> (#[trigger] entries@[j]).0 == legend_entries()[j].0 && entries@[j].1@
                    == legend_entries()[j].1,
            cmds@ == head + rows_cmds(i as nat),
        decreases 3 - i,
    {
        let (route, label) = entries[i];
        let row_y = rows_top + i as i32 * ROW_H;
        let swatch_x = panel_x + PANEL_PAD;
        let swatch_y = row_y + (ROW_H - SWATCH as i32) / 2;
        let text_y = row_y + (ROW_H - GLYPH_H) / 2;
        let ghost before = cmds@;
        proof {
            lemma_small_text_fits(text_x as int, text_y as int, max_text_x as int, label@);
        }
        cmds.push(
            DrawCmd {
                color: route.color(),
                shape: Shape::Fill(Rect { x: swatch_x, y: swatch_y, w: SWATCH, h: SWATCH }),
            },
        );
        cmds.push(
            DrawCmd {
                color: Rgb { r: 30, g: 30, b: 30 },
                shape: Shape::Outline(Rect { x: swatch_x, y: swatch_y, w: SWATCH, h: SWATCH }),
            },
        );
        draw_text_clipped(&mut cmds, text_x, text_y, max_text_x, label, Rgb { r: 235, g: 235, b: 235 });
        proof {
            assert(cmds@ =~= head + rows_cmds(i as nat + 1));
        }
        i += 1;
    }
    proof {
        assert(cmds@ =~= legend_cmds());
    }
    cmds
}

} // verus!
