//! The persistent canvas: camera state, window size, cursor, and a simple
//! text model with box metrics. The canvas outlives any one frame; a drawing
//! context borrows it and restores its camera transform on `unfork`.

use vstd::prelude::*;
use crate::geometry::{
    Bounds, MAX_COORD, Pt2D, ScreenPt, lemma_abs_mul_le, lemma_div_trunc_bound, spec_div_trunc,
    div_trunc,
};
use crate::render::Color;

verus! {

/// Fixed-point scale of the camera zoom: a `cam_zoom` of `ZOOM_UNIT` draws
/// one map unit per screen unit.
pub const ZOOM_UNIT: i64 = 1024;

/// Largest zoom the camera supports, in `ZOOM_UNIT` steps.
pub const MAX_ZOOM: i64 = 0x10_0000;

/// Screen units one character column of text occupies.
pub const CHAR_WIDTH: i64 = 4096;

/// Screen units one line of text occupies.
pub const LINE_HEIGHT: i64 = 8192;

/// Most lines a text block may hold.
pub const MAX_TEXT_LINES: usize = 64;

/// Most characters a text line may hold.
pub const MAX_LINE_CHARS: usize = 1024;

/// A quotient by a positive divisor is no larger in magnitude than the
/// dividend's own bound.
pub proof fn lemma_div_trunc_magnitude(n: int, d: int, b: int)
    requires
        d >= 1,
        b >= 0,
        -b <= n <= b,
    ensures
        -b <= spec_div_trunc(n, d) <= b,
{
    assert(b * d >= b) by (nonlinear_arith)
        requires
            d >= 1,
            b >= 0,
    ;
    lemma_div_trunc_bound(n, d, b);
}

/// The canvas's persistent state: camera offset and zoom, window size, and
/// the cursor's place.
#[derive(Clone, Copy, PartialEq, Eq, Structural, Debug)]
pub struct Canvas {
    /// Camera offset, in screen units: map point `(0, 0)` renders at screen
    /// point `(-cam_x, -cam_y)`.
    pub cam_x: i64,
    pub cam_y: i64,
    /// Camera zoom, in `ZOOM_UNIT` steps.
    pub cam_zoom: i64,
    pub window_width: i64,
    pub window_height: i64,
    pub cursor_x: i64,
    pub cursor_y: i64,
    /// Whether the cursor is over the map rather than over a panel.
    pub cursor_on_map: bool,
}

/// Where a screen point lies in map space under the canvas's camera.
pub open spec fn spec_screen_to_map(c: Canvas, pt: ScreenPt) -> Pt2D {
    Pt2D {
        x: spec_div_trunc((pt.x + c.cam_x) * (ZOOM_UNIT as int), c.cam_zoom as int) as i64,
        y: spec_div_trunc((pt.y + c.cam_y) * (ZOOM_UNIT as int), c.cam_zoom as int) as i64,
    }
}

/// Where a map point renders on screen under the canvas's camera.
pub open spec fn spec_map_to_screen(c: Canvas, pt: Pt2D) -> ScreenPt {
    ScreenPt {
        x: (spec_div_trunc(pt.x * c.cam_zoom, ZOOM_UNIT as int) - c.cam_x) as i64,
        y: (spec_div_trunc(pt.y * c.cam_zoom, ZOOM_UNIT as int) - c.cam_y) as i64,
    }
}

impl Canvas {
    /// The canvas's fields are within the ranges the camera arithmetic
    /// supports, and the cursor lies within the window.
    pub open spec fn wf(self) -> bool {
        &&& 1 <= self.cam_zoom <= MAX_ZOOM
        &&& -MAX_COORD <= self.cam_x <= MAX_COORD
        &&& -MAX_COORD <= self.cam_y <= MAX_COORD
        &&& 0 <= self.window_width <= MAX_COORD
        &&& 0 <= self.window_height <= MAX_COORD
        &&& 0 <= self.cursor_x <= self.window_width
        &&& 0 <= self.cursor_y <= self.window_height
    }

    /// Convert a screen point to the map point it shows.
    pub fn screen_to_map(&self, pt: ScreenPt) -> (p: Pt2D)
        requires
            self.wf(),
            pt.wf(),
        ensures
            p == spec_screen_to_map(*self, pt),
            -0x100_0000_0000 <= p.x <= 0x100_0000_0000,
            -0x100_0000_0000 <= p.y <= 0x100_0000_0000,
    {
        proof {
            lemma_div_trunc_magnitude(
                ((pt.x + self.cam_x) * ZOOM_UNIT) as int,
                self.cam_zoom as int,
                0x100_0000_0000,
            );
            lemma_div_trunc_magnitude(
                ((pt.y + self.cam_y) * ZOOM_UNIT) as int,
                self.cam_zoom as int,
                0x100_0000_0000,
            );
        }
        let nx: i64 = (pt.x + self.cam_x) * ZOOM_UNIT;
        let ny: i64 = (pt.y + self.cam_y) * ZOOM_UNIT;
        Pt2D { x: div_trunc(nx, self.cam_zoom), y: div_trunc(ny, self.cam_zoom) }
    }

    /// Convert a map point to the screen point it renders at.
    pub fn map_to_screen(&self, pt: Pt2D) -> (p: ScreenPt)
        requires
            self.wf(),
            pt.wf(),
        ensures
            p == spec_map_to_screen(*self, pt),
            -0x100_0000_0000 <= p.x <= 0x100_0000_0000,
            -0x100_0000_0000 <= p.y <= 0x100_0000_0000,
    {
        proof {
            lemma_abs_mul_le(pt.x as int, self.cam_zoom as int, MAX_COORD as int, MAX_ZOOM as int);
            lemma_abs_mul_le(pt.y as int, self.cam_zoom as int, MAX_COORD as int, MAX_ZOOM as int);
            lemma_div_trunc_bound((pt.x * self.cam_zoom) as int, ZOOM_UNIT as int, 0x80_0000_0000);
            lemma_div_trunc_bound((pt.y * self.cam_zoom) as int, ZOOM_UNIT as int, 0x80_0000_0000);
        }
        let sx: i64 = div_trunc(pt.x * self.cam_zoom, ZOOM_UNIT);
        let sy: i64 = div_trunc(pt.y * self.cam_zoom, ZOOM_UNIT);
        ScreenPt { x: sx - self.cam_x, y: sy - self.cam_y }
    }

    /// The map-space rectangle the window currently shows.
    pub fn get_screen_bounds(&self) -> (b: Bounds)
        requires
            self.wf(),
        ensures
            b.min_x == spec_screen_to_map(*self, (ScreenPt { x: 0, y: 0 })).x,
            b.min_y == spec_screen_to_map(*self, (ScreenPt { x: 0, y: 0 })).y,
            b.max_x == spec_screen_to_map(
                *self,
                (ScreenPt { x: self.window_width, y: self.window_height }),
            ).x,
            b.max_y == spec_screen_to_map(
                *self,
                (ScreenPt { x: self.window_width, y: self.window_height }),
            ).y,
    {
        let top_left = self.screen_to_map(ScreenPt { x: 0, y: 0 });
        let bottom_right = self.screen_to_map(
            ScreenPt { x: self.window_width, y: self.window_height },
        );
        Bounds { min_x: top_left.x, min_y: top_left.y, max_x: bottom_right.x, max_y: bottom_right.y }
    }

    /// The cursor's map-space position, if the cursor is over the map.
    pub fn get_cursor_in_map_space(&self) -> (r: Option<Pt2D>)
        requires
            self.wf(),
        ensures
            self.cursor_on_map ==> r == Some(
                spec_screen_to_map(*self, (ScreenPt { x: self.cursor_x, y: self.cursor_y })),
            ),
            !self.cursor_on_map ==> r is None,
    {
        if self.cursor_on_map {
            Some(self.screen_to_map(ScreenPt { x: self.cursor_x, y: self.cursor_y }))
        } else {
            None
        }
    }

    /// Measure a text block: width of its longest line and height of its
    /// line count, in screen units.
    pub fn text_dims(&self, txt: &Text) -> (dims: (i64, i64))
        requires
            txt.wf(),
        ensures
            dims.0 == CHAR_WIDTH * max_line_chars(txt.lines@),
            dims.1 == LINE_HEIGHT * txt.lines@.len(),
            0 <= dims.0 <= CHAR_WIDTH * MAX_LINE_CHARS,
            0 <= dims.1 <= LINE_HEIGHT * MAX_TEXT_LINES,
    {
        let mut w: usize = 0;
        let mut i: usize = 0;
        while i < txt.lines.len()
            invariant
                i <= txt.lines@.len(),
                txt.wf(),
                w == max_line_chars(txt.lines@.take(i as int)),
                w <= MAX_LINE_CHARS,
            decreases txt.lines@.len() - i,
        {
            let n = txt.lines[i].as_str().unicode_len();
            if n > w {
                w = n;
            }
            i = i + 1;
            proof {
                assert(txt.lines@.take(i as int).drop_last() =~= txt.lines@.take(i - 1));
                assert(txt.lines@.take(i as int).last() == txt.lines@[i - 1]);
            }
        }
        proof {
            assert(txt.lines@.take(txt.lines@.len() as int) =~= txt.lines@);
        }
        (CHAR_WIDTH * (w as i64), LINE_HEIGHT * (txt.lines.len() as i64))
    }
}

/// The number of characters in the longest line, or zero for no lines.
pub open spec fn max_line_chars(lines: Seq<String>) -> int
    decreases lines.len(),
{
    if lines.len() == 0 {
        0
    } else {
        let rest = max_line_chars(lines.drop_last());
        let last = lines.last()@.len() as int;
        if last > rest {
            last
        } else {
            rest
        }
    }
}

/// A block of styled text: lines over one background color.
#[derive(Clone, Debug)]
pub struct Text {
    pub lines: Vec<String>,
    pub bg_color: Color,
}

impl Text {
    /// The block is within the size the canvas can measure and place.
    pub open spec fn wf(self) -> bool {
        &&& self.lines@.len() <= MAX_TEXT_LINES
        &&& forall|i: int|
            0 <= i < self.lines@.len() ==> (#[trigger] self.lines@[i])@.len() <= MAX_LINE_CHARS
    }

    pub fn new(bg_color: Color) -> (t: Text)
        ensures
            t.lines@.len() == 0,
            t.bg_color == bg_color,
            t.wf(),
    {
        Text { lines: Vec::new(), bg_color }
    }

    /// Append one line. A line longer than `MAX_LINE_CHARS`, or one beyond
    /// `MAX_TEXT_LINES`, is refused and the block is unchanged.
    pub fn add_line(&mut self, line: String) -> (ok: bool)
        requires
            old(self).wf(),
        ensures
            final(self).bg_color == old(self).bg_color,
            ok ==> final(self).lines@ == old(self).lines@.push(line),
            !ok ==> *final(self) == *old(self),
            !ok <==> (old(self).lines@.len() >= MAX_TEXT_LINES || line@.len() > MAX_LINE_CHARS),
            final(self).wf(),
    {
        if self.lines.len() >= MAX_TEXT_LINES || line.as_str().unicode_len() > MAX_LINE_CHARS {
            return false;
        }
        self.lines.push(line);
        true
    }

    pub fn num_lines(&self) -> (n: usize)
        ensures
            n == self.lines@.len(),
    {
        self.lines.len()
    }
}

/// How a blocking text box is pinned horizontally within the window.
#[derive(Clone, Copy, PartialEq, Eq, Structural, Debug)]
pub enum HorizontalAlignment {
    Left,
    Center,
    Right,
}

/// How a blocking text box is pinned vertically within the window.
#[derive(Clone, Copy, PartialEq, Eq, Structural, Debug)]
pub enum VerticalAlignment {
    Top,
    Center,
    Bottom,
}

/// The x of a box of width `w` aligned within a window of width `win`.
pub open spec fn spec_aligned_x(horiz: HorizontalAlignment, win: int, w: int) -> int {
    match horiz {
        HorizontalAlignment::Left => 0,
        HorizontalAlignment::Center => spec_div_trunc(win - w, 2),
        HorizontalAlignment::Right => win - w,
    }
}

/// The y of a box of height `h` aligned within a window of height `win`.
pub open spec fn spec_aligned_y(vert: VerticalAlignment, win: int, h: int) -> int {
    match vert {
        VerticalAlignment::Top => 0,
        VerticalAlignment::Center => spec_div_trunc(win - h, 2),
        VerticalAlignment::Bottom => win - h,
    }
}

} // verus!
