//! Fixed-point 2D geometry: points, lines, circles, and the tessellation of
//! shapes into triangle lists ready for upload to a GPU buffer.

use vstd::prelude::*;

verus! {

/// Largest magnitude a map- or screen-space coordinate may have, in units.
/// Keeping coordinates within this bound keeps every intermediate product of
/// the tessellation and camera arithmetic inside `i64`.
pub const MAX_COORD: i64 = 0x2000_0000;

/// Fixed-point scale of the unit direction table: a component of `DIR_UNIT`
/// stands for a direction cosine of one.
pub const DIR_UNIT: i64 = 65536;

/// How many triangles a circle is tessellated into.
pub const TRIANGLES_PER_CIRCLE: usize = 60;

/// Truncating (round-toward-zero) signed division, as a mathematical value.
pub open spec fn spec_div_trunc(n: int, d: int) -> int
    recommends
        d > 0,
{
    if n >= 0 {
        n / d
    } else {
        -((-n) / d)
    }
}

/// Truncating signed division of `n` by a positive `d`.
pub fn div_trunc(n: i64, d: i64) -> (r: i64)
    requires
        d > 0,
        n > i64::MIN,
    ensures
        r == spec_div_trunc(n as int, d as int),
{
    if n >= 0 {
        let q: u64 = (n as u64) / (d as u64);
        q as i64
    } else {
        let m: i64 = -n;
        let q: u64 = (m as u64) / (d as u64);
        assert(q <= m as u64) by (nonlinear_arith)
            requires
                q == (m as u64) / (d as u64),
                d > 0,
                m >= 0,
        ;
        -(q as i64)
    }
}

/// A quotient is no larger than any bound whose product with the divisor
/// bounds the dividend on both sides.
pub proof fn lemma_div_trunc_bound(n: int, d: int, b: int)
    requires
        d > 0,
        b >= 0,
        -(b * d) <= n <= b * d,
    ensures
        -b <= spec_div_trunc(n, d) <= b,
{
    if n >= 0 {
        assert(0 <= n / d <= b) by (nonlinear_arith)
            requires
                d > 0,
                b >= 0,
                0 <= n <= b * d,
        ;
    } else {
        assert(0 <= (-n) / d <= b) by (nonlinear_arith)
            requires
                d > 0,
                b >= 0,
                0 < -n <= b * d,
        ;
    }
}

/// A product is bounded by the product of bounds on its factors.
pub proof fn lemma_abs_mul_le(a: int, b: int, ba: int, bb: int)
    requires
        -ba <= a <= ba,
        -bb <= b <= bb,
    ensures
        -(ba * bb) <= a * b <= ba * bb,
{
    assert(-(ba * bb) <= a * b <= ba * bb) by (nonlinear_arith)
        requires
            -ba <= a <= ba,
            -bb <= b <= bb,
    ;
}

/// The floor of the square root of `n`, as a mathematical value.
pub open spec fn sqrt_floor(n: nat) -> nat {
    choose|r: nat| #[trigger] (r * r) <= n < (r + 1) * (r + 1)
}

/// Any two naturals whose squares bracket `n` the same way are equal, so
/// `sqrt_floor` names the one value `isqrt` computes.
pub proof fn lemma_sqrt_floor_unique(n: nat, r: nat)
    requires
        r * r <= n,
        n < (r + 1) * (r + 1),
    ensures
        r == sqrt_floor(n),
{
    assert(r * r <= n < (r + 1) * (r + 1));
    let s = sqrt_floor(n);
    assert(s * s <= n < (s + 1) * (s + 1));
    assert(r == s) by (nonlinear_arith)
        requires
            r * r <= n < (r + 1) * (r + 1),
            s * s <= n < (s + 1) * (s + 1),
    ;
}

/// Integer square root by binary search.
pub fn isqrt(n: u64) -> (r: u64)
    ensures
        r * r <= n < (r + 1) * (r + 1),
        r == sqrt_floor(n as nat),
{
    let mut lo: u64 = 0;
    let mut hi: u64 = 0x1_0000_0000;
    assert((hi * hi) as int > n as int) by (nonlinear_arith)
        requires
            hi == 0x1_0000_0000u64,
            n <= u64::MAX,
    ;
    while lo + 1 < hi
        invariant
            lo < hi <= 0x1_0000_0000,
            (lo * lo) as int <= n as int,
            (hi * hi) as int > n as int,
        decreases hi - lo,
    {
        let mid: u64 = lo + (hi - lo) / 2;
        assert(mid * mid < 0x1_0000_0000_0000_0000) by (nonlinear_arith)
            requires
                mid < 0x1_0000_0000u64,
        ;
        let sq: u64 = mid * mid;
        if sq <= n {
            lo = mid;
        } else {
            hi = mid;
        }
    }
    proof {
        lemma_sqrt_floor_unique(n as nat, lo as nat);
    }
    lo
}

/// Neither leg of a right triangle is longer than the rounded-down
/// hypotenuse.
pub proof fn lemma_component_bound(dx: int, dy: int, len: int)
    requires
        len >= 0,
        len * len <= dx * dx + dy * dy,
        dx * dx + dy * dy < (len + 1) * (len + 1),
    ensures
        -len <= dx <= len,
        -len <= dy <= len,
{
    assert(-len <= dx <= len && -len <= dy <= len) by (nonlinear_arith)
        requires
            len >= 0,
            len * len <= dx * dx + dy * dy,
            dx * dx + dy * dy < (len + 1) * (len + 1),
    ;
}

/// A point in map space, in fixed-point units.
#[derive(Clone, Copy, PartialEq, Eq, Structural, Debug)]
pub struct Pt2D {
    pub x: i64,
    pub y: i64,
}

impl Pt2D {
    /// The point is within the coordinate range the library's arithmetic
    /// supports.
    pub open spec fn wf(self) -> bool {
        &&& -MAX_COORD <= self.x <= MAX_COORD
        &&& -MAX_COORD <= self.y <= MAX_COORD
    }

    pub fn new(x: i64, y: i64) -> (p: Pt2D)
        ensures
            p == (Pt2D { x, y }),
    {
        Pt2D { x, y }
    }

    pub fn x(&self) -> (r: i64)
        ensures
            r == self.x,
    {
        self.x
    }

    pub fn y(&self) -> (r: i64)
        ensures
            r == self.y,
    {
        self.y
    }
}

/// A point in screen space, in fixed-point units from the window's top-left
/// corner.
#[derive(Clone, Copy, PartialEq, Eq, Structural, Debug)]
pub struct ScreenPt {
    pub x: i64,
    pub y: i64,
}

impl ScreenPt {
    pub open spec fn wf(self) -> bool {
        &&& -MAX_COORD <= self.x <= MAX_COORD
        &&& -MAX_COORD <= self.y <= MAX_COORD
    }

    pub fn new(x: i64, y: i64) -> (p: ScreenPt)
        ensures
            p == (ScreenPt { x, y }),
    {
        ScreenPt { x, y }
    }
}

/// A nonnegative length in fixed-point units.
#[derive(Clone, Copy, PartialEq, Eq, Structural, Debug)]
pub struct Distance {
    pub units: i64,
}

impl Distance {
    pub open spec fn wf(self) -> bool {
        0 <= self.units <= MAX_COORD
    }

    pub fn units(units: i64) -> (d: Distance)
        ensures
            d.units == units,
    {
        Distance { units }
    }

    /// Half of this distance, rounded down.
    pub fn half(self) -> (d: Distance)
        requires
            self.units >= 0,
        ensures
            d.units == self.units as int / 2,
    {
        Distance { units: ((self.units as u64) / 2) as i64 }
    }
}

/// An axis-aligned rectangle of map space.
#[derive(Clone, Copy, PartialEq, Eq, Structural, Debug)]
pub struct Bounds {
    pub min_x: i64,
    pub min_y: i64,
    pub max_x: i64,
    pub max_y: i64,
}

/// One tessellated triangle.
#[derive(Clone, Copy, PartialEq, Eq, Structural, Debug)]
pub struct Triangle {
    pub pt1: Pt2D,
    pub pt2: Pt2D,
    pub pt3: Pt2D,
}

/// A tessellated shape: a list of triangles that cover it.
#[derive(Clone, Debug)]
pub struct Polygon {
    pub triangles: Vec<Triangle>,
}

/// The two triangles of the axis-aligned rectangle with top-left corner
/// `(x, y)`, width `w` and height `h`.
pub open spec fn rect_triangles(x: int, y: int, w: int, h: int) -> Seq<Triangle> {
    let c1 = Pt2D { x: x as i64, y: y as i64 };
    let c2 = Pt2D { x: (x + w) as i64, y: y as i64 };
    let c3 = Pt2D { x: (x + w) as i64, y: (y + h) as i64 };
    let c4 = Pt2D { x: x as i64, y: (y + h) as i64 };
    seq![
        Triangle { pt1: c1, pt2: c2, pt3: c3 },
        Triangle { pt1: c1, pt2: c3, pt3: c4 },
    ]
}

impl Polygon {
    pub fn num_triangles(&self) -> (n: usize)
        ensures
            n == self.triangles@.len(),
    {
        self.triangles.len()
    }

    /// Tessellate the axis-aligned rectangle with top-left corner `(x, y)`.
    pub fn rectangle(x: i64, y: i64, w: i64, h: i64) -> (p: Polygon)
        requires
            -0x100_0000_0000 <= x <= 0x100_0000_0000,
            -0x100_0000_0000 <= y <= 0x100_0000_0000,
            0 <= w <= 0x4000_0000,
            0 <= h <= 0x4000_0000,
        ensures
            p.triangles@ == rect_triangles(x as int, y as int, w as int, h as int),
            p.triangles@.len() == 2,
    {
        let c1 = Pt2D { x, y };
        let c2 = Pt2D { x: x + w, y };
        let c3 = Pt2D { x: x + w, y: y + h };
        let c4 = Pt2D { x, y: y + h };
        let mut tris: Vec<Triangle> = Vec::new();
        tris.push(Triangle { pt1: c1, pt2: c2, pt3: c3 });
        tris.push(Triangle { pt1: c1, pt2: c3, pt3: c4 });
        let p = Polygon { triangles: tris };
        proof {
            assert(p.triangles@ =~= rect_triangles(x as int, y as int, w as int, h as int));
        }
        p
    }
}

/// A line segment between two map-space points.
#[derive(Clone, Copy, PartialEq, Eq, Structural, Debug)]
pub struct Line {
    pub pt1: Pt2D,
    pub pt2: Pt2D,
}

/// The perpendicular offset, in units, that pushes the body of a thick line
/// `half` units away from its spine.
pub open spec fn thick_line_offsets(l: Line, half: int) -> (int, int) {
    let len = l.spec_length();
    (
        spec_div_trunc(-(l.dy() * half), len),
        spec_div_trunc(l.dx() * half, len),
    )
}

/// The two triangles of the quad that renders `l` with half-thickness `half`.
pub open spec fn thick_line_triangles(l: Line, half: int) -> Seq<Triangle> {
    let o = thick_line_offsets(l, half);
    let px = o.0;
    let py = o.1;
    let c1 = Pt2D { x: (l.pt1.x + px) as i64, y: (l.pt1.y + py) as i64 };
    let c2 = Pt2D { x: (l.pt2.x + px) as i64, y: (l.pt2.y + py) as i64 };
    let c3 = Pt2D { x: (l.pt2.x - px) as i64, y: (l.pt2.y - py) as i64 };
    let c4 = Pt2D { x: (l.pt1.x - px) as i64, y: (l.pt1.y - py) as i64 };
    seq![
        Triangle { pt1: c1, pt2: c2, pt3: c3 },
        Triangle { pt1: c1, pt2: c3, pt3: c4 },
    ]
}

/// The head of an arrow along `l`: a triangle whose tip is the line's second
/// endpoint, whose base sits `2 * t` units back along the line, and whose
/// wings reach `t` units to either side.
pub open spec fn arrow_head_triangle(l: Line, t: int) -> Triangle {
    let len = l.spec_length();
    let ox = spec_div_trunc(l.dx() * (2 * t), len);
    let oy = spec_div_trunc(l.dy() * (2 * t), len);
    let bx = l.pt2.x - ox;
    let by = l.pt2.y - oy;
    let wx = spec_div_trunc(-(l.dy() * t), len);
    let wy = spec_div_trunc(l.dx() * t, len);
    Triangle {
        pt1: l.pt2,
        pt2: Pt2D { x: (bx + wx) as i64, y: (by + wy) as i64 },
        pt3: Pt2D { x: (bx - wx) as i64, y: (by - wy) as i64 },
    }
}

impl Line {
    pub open spec fn wf(self) -> bool {
        &&& self.pt1.wf()
        &&& self.pt2.wf()
    }

    pub open spec fn dx(self) -> int {
        self.pt2.x - self.pt1.x
    }

    pub open spec fn dy(self) -> int {
        self.pt2.y - self.pt1.y
    }

    pub open spec fn len_sq(self) -> int {
        self.dx() * self.dx() + self.dy() * self.dy()
    }

    /// The segment's length in units, rounded down.
    pub open spec fn spec_length(self) -> int {
        sqrt_floor(self.len_sq() as nat) as int
    }

    pub fn new(pt1: Pt2D, pt2: Pt2D) -> (l: Line)
        ensures
            l == (Line { pt1, pt2 }),
    {
        Line { pt1, pt2 }
    }

    pub fn pt1(&self) -> (p: Pt2D)
        ensures
            p == self.pt1,
    {
        self.pt1
    }

    pub fn pt2(&self) -> (p: Pt2D)
        ensures
            p == self.pt2,
    {
        self.pt2
    }

    /// The segment's length, rounded down to whole units.
    pub fn length(&self) -> (d: Distance)
        requires
            self.wf(),
        ensures
            d.units == self.spec_length(),
            (d.units * d.units) as int <= self.len_sq(),
            self.len_sq() < ((d.units + 1) * (d.units + 1)) as int,
            0 <= d.units <= 0x8000_0000,
            self.pt1 != self.pt2 ==> 1 <= d.units,
    {
        let dx: i64 = self.pt2.x - self.pt1.x;
        let dy: i64 = self.pt2.y - self.pt1.y;
        assert(0 <= dx * dx <= 0x2000_0000_0000_0000 && 0 <= dy * dy
            <= 0x2000_0000_0000_0000) by (nonlinear_arith)
            requires
                -0x4000_0000 <= dx <= 0x4000_0000,
                -0x4000_0000 <= dy <= 0x4000_0000,
        ;
        let sq_i: i64 = dx * dx + dy * dy;
        let sq: u64 = sq_i as u64;
        let len: u64 = isqrt(sq);
        assert(len <= 0x8000_0000) by (nonlinear_arith)
            requires
                (len * len) as int <= 0x4000_0000_0000_0000,
        ;
        if self.pt1 != self.pt2 {
            proof {
                if len == 0 {
                    assert((len + 1) * (len + 1) == 1) by (nonlinear_arith)
                        requires
                            len == 0u64,
                    ;
                    assert(sq as int == 0);
                    assert(dx == 0 && dy == 0) by (nonlinear_arith)
                        requires
                            dx * dx + dy * dy == 0,
                    ;
                    assert(false);
                }
            }
        }
        Distance { units: len as i64 }
    }

    /// Tessellate the segment, rendered `thickness` units wide, into one
    /// quad of two triangles.
    pub fn make_polygons(&self, thickness: Distance) -> (p: Polygon)
        requires
            self.wf(),
            thickness.wf(),
            self.pt1 != self.pt2,
        ensures
            p.triangles@ == thick_line_triangles(*self, thickness.units as int / 2),
            p.triangles@.len() == 2,
    {
        let len_d = self.length();
        let len: i64 = len_d.units;
        let dx: i64 = self.pt2.x - self.pt1.x;
        let dy: i64 = self.pt2.y - self.pt1.y;
        let half: i64 = ((thickness.units as u64) / 2) as i64;
        proof {
            lemma_component_bound(dx as int, dy as int, len as int);
            lemma_abs_mul_le(dy as int, half as int, len as int, half as int);
            lemma_abs_mul_le(dx as int, half as int, len as int, half as int);
            lemma_abs_mul_le(dy as int, half as int, 0x4000_0000, 0x1000_0000);
            lemma_abs_mul_le(dx as int, half as int, 0x4000_0000, 0x1000_0000);
            lemma_div_trunc_bound(-((dy * half) as int), len as int, half as int);
            lemma_div_trunc_bound((dx * half) as int, len as int, half as int);
        }
        let px: i64 = div_trunc(-(dy * half), len);
        let py: i64 = div_trunc(dx * half, len);
        let c1 = Pt2D { x: self.pt1.x + px, y: self.pt1.y + py };
        let c2 = Pt2D { x: self.pt2.x + px, y: self.pt2.y + py };
        let c3 = Pt2D { x: self.pt2.x - px, y: self.pt2.y - py };
        let c4 = Pt2D { x: self.pt1.x - px, y: self.pt1.y - py };
        let mut tris: Vec<Triangle> = Vec::new();
        tris.push(Triangle { pt1: c1, pt2: c2, pt3: c3 });
        tris.push(Triangle { pt1: c1, pt2: c3, pt3: c4 });
        let p = Polygon { triangles: tris };
        proof {
            assert(p.triangles@ =~= thick_line_triangles(*self, half as int));
        }
        p
    }

    /// Tessellate an arrow glyph along the segment: the thick body, then the
    /// head triangle at the second endpoint.
    pub fn make_arrow(&self, thickness: Distance) -> (polys: Vec<Polygon>)
        requires
            self.wf(),
            thickness.wf(),
            self.pt1 != self.pt2,
        ensures
            polys@.len() == 2,
            polys@[0].triangles@ == thick_line_triangles(*self, thickness.units as int / 2),
            polys@[1].triangles@ == seq![arrow_head_triangle(*self, thickness.units as int)],
    {
        let body = self.make_polygons(thickness);
        let len_d = self.length();
        let len: i64 = len_d.units;
        let dx: i64 = self.pt2.x - self.pt1.x;
        let dy: i64 = self.pt2.y - self.pt1.y;
        let t: i64 = thickness.units;
        let head_len: i64 = 2 * t;
        proof {
            lemma_component_bound(dx as int, dy as int, len as int);
            lemma_abs_mul_le(dx as int, head_len as int, len as int, head_len as int);
            lemma_abs_mul_le(dy as int, head_len as int, len as int, head_len as int);
            lemma_abs_mul_le(dx as int, t as int, len as int, t as int);
            lemma_abs_mul_le(dy as int, t as int, len as int, t as int);
            lemma_abs_mul_le(dx as int, head_len as int, 0x4000_0000, 0x4000_0000);
            lemma_abs_mul_le(dy as int, head_len as int, 0x4000_0000, 0x4000_0000);
            lemma_abs_mul_le(dx as int, t as int, 0x4000_0000, 0x2000_0000);
            lemma_abs_mul_le(dy as int, t as int, 0x4000_0000, 0x2000_0000);
            lemma_div_trunc_bound((dx * head_len) as int, len as int, head_len as int);
            lemma_div_trunc_bound((dy * head_len) as int, len as int, head_len as int);
            lemma_div_trunc_bound(-((dy * t) as int), len as int, t as int);
            lemma_div_trunc_bound((dx * t) as int, len as int, t as int);
        }
        let ox: i64 = div_trunc(dx * head_len, len);
        let oy: i64 = div_trunc(dy * head_len, len);
        let bx: i64 = self.pt2.x - ox;
        let by: i64 = self.pt2.y - oy;
        let wx: i64 = div_trunc(-(dy * t), len);
        let wy: i64 = div_trunc(dx * t, len);
        let head = Triangle {
            pt1: self.pt2,
            pt2: Pt2D { x: bx + wx, y: by + wy },
            pt3: Pt2D { x: bx - wx, y: by - wy },
        };
        let mut head_tris: Vec<Triangle> = Vec::new();
        head_tris.push(head);
        let mut polys: Vec<Polygon> = Vec::new();
        polys.push(body);
        polys.push(Polygon { triangles: head_tris });
        proof {
            assert(polys@[1].triangles@ =~= seq![arrow_head_triangle(*self, t as int)]);
        }
        polys
    }
}

/// The fixed-point direction of the `i`th of sixty evenly spaced headings
/// around a circle, scaled by `DIR_UNIT`.
pub open spec fn circle_dir(i: int) -> (int, int) {
    if i == 0 {
        (65536, 0)
    } else if i == 1 {
        (65177, 6850)
    } else if i == 2 {
        (64104, 13626)
    } else if i == 3 {
        (62328, 20252)
    } else if i == 4 {
        (59870, 26656)
    } else if i == 5 {
        (56756, 32768)
    } else if i == 6 {
        (53020, 38521)
    } else if i == 7 {
        (48703, 43852)
    } else if i == 8 {
        (43852, 48703)
    } else if i == 9 {
        (38521, 53020)
    } else if i == 10 {
        (32768, 56756)
    } else if i == 11 {
        (26656, 59870)
    } else if i == 12 {
        (20252, 62328)
    } else if i == 13 {
        (13626, 64104)
    } else if i == 14 {
        (6850, 65177)
    } else if i == 15 {
        (0, 65536)
    } else if i == 16 {
        (-6850, 65177)
    } else if i == 17 {
        (-13626, 64104)
    } else if i == 18 {
        (-20252, 62328)
    } else if i == 19 {
        (-26656, 59870)
    } else if i == 20 {
        (-32768, 56756)
    } else if i == 21 {
        (-38521, 53020)
    } else if i == 22 {
        (-43852, 48703)
    } else if i == 23 {
        (-48703, 43852)
    } else if i == 24 {
        (-53020, 38521)
    } else if i == 25 {
        (-56756, 32768)
    } else if i == 26 {
        (-59870, 26656)
    } else if i == 27 {
        (-62328, 20252)
    } else if i == 28 {
        (-64104, 13626)
    } else if i == 29 {
        (-65177, 6850)
    } else if i == 30 {
        (-65536, 0)
    } else if i == 31 {
        (-65177, -6850)
    } else if i == 32 {
        (-64104, -13626)
    } else if i == 33 {
        (-62328, -20252)
    } else if i == 34 {
        (-59870, -26656)
    } else if i == 35 {
        (-56756, -32768)
    } else if i == 36 {
        (-53020, -38521)
    } else if i == 37 {
        (-48703, -43852)
    } else if i == 38 {
        (-43852, -48703)
    } else if i == 39 {
        (-38521, -53020)
    } else if i == 40 {
        (-32768, -56756)
    } else if i == 41 {
        (-26656, -59870)
    } else if i == 42 {
        (-20252, -62328)
    } else if i == 43 {
        (-13626, -64104)
    } else if i == 44 {
        (-6850, -65177)
    } else if i == 45 {
        (0, -65536)
    } else if i == 46 {
        (6850, -65177)
    } else if i == 47 {
        (13626, -64104)
    } else if i == 48 {
        (20252, -62328)
    } else if i == 49 {
        (26656, -59870)
    } else if i == 50 {
        (32768, -56756)
    } else if i == 51 {
        (38521, -53020)
    } else if i == 52 {
        (43852, -48703)
    } else if i == 53 {
        (48703, -43852)
    } else if i == 54 {
        (53020, -38521)
    } else if i == 55 {
        (56756, -32768)
    } else if i == 56 {
        (59870, -26656)
    } else if i == 57 {
        (62328, -20252)
    } else if i == 58 {
        (64104, -13626)
    } else {
        (65177, -6850)
    }
}

/// The direction table entry for index `i`, as executable values.
pub fn circle_dir_at(i: usize) -> (r: (i64, i64))
    requires
        i < TRIANGLES_PER_CIRCLE,
    ensures
        r.0 == circle_dir(i as int).0,
        r.1 == circle_dir(i as int).1,
        -DIR_UNIT <= r.0 <= DIR_UNIT,
        -DIR_UNIT <= r.1 <= DIR_UNIT,
{
    match i {
        0 => (65536, 0),
        1 => (65177, 6850),
        2 => (64104, 13626),
        3 => (62328, 20252),
        4 => (59870, 26656),
        5 => (56756, 32768),
        6 => (53020, 38521),
        7 => (48703, 43852),
        8 => (43852, 48703),
        9 => (38521, 53020),
        10 => (32768, 56756),
        11 => (26656, 59870),
        12 => (20252, 62328),
        13 => (13626, 64104),
        14 => (6850, 65177),
        15 => (0, 65536),
        16 => (-6850, 65177),
        17 => (-13626, 64104),
        18 => (-20252, 62328),
        19 => (-26656, 59870),
        20 => (-32768, 56756),
        21 => (-38521, 53020),
        22 => (-43852, 48703),
        23 => (-48703, 43852),
        24 => (-53020, 38521),
        25 => (-56756, 32768),
        26 => (-59870, 26656),
        27 => (-62328, 20252),
        28 => (-64104, 13626),
        29 => (-65177, 6850),
        30 => (-65536, 0),
        31 => (-65177, -6850),
        32 => (-64104, -13626),
        33 => (-62328, -20252),
        34 => (-59870, -26656),
        35 => (-56756, -32768),
        36 => (-53020, -38521),
        37 => (-48703, -43852),
        38 => (-43852, -48703),
        39 => (-38521, -53020),
        40 => (-32768, -56756),
        41 => (-26656, -59870),
        42 => (-20252, -62328),
        43 => (-13626, -64104),
        44 => (-6850, -65177),
        45 => (0, -65536),
        46 => (6850, -65177),
        47 => (13626, -64104),
        48 => (20252, -62328),
        49 => (26656, -59870),
        50 => (32768, -56756),
        51 => (38521, -53020),
        52 => (43852, -48703),
        53 => (48703, -43852),
        54 => (53020, -38521),
        55 => (56756, -32768),
        56 => (59870, -26656),
        57 => (62328, -20252),
        58 => (64104, -13626),
        _ => (65177, -6850),
    }
}

/// A circle in map space.
#[derive(Clone, Copy, PartialEq, Eq, Structural, Debug)]
pub struct Circle {
    pub center: Pt2D,
    pub radius: Distance,
}

/// The `i`th vertex on the tessellated rim of `c`, for `0 <= i <= 60`, where
/// index sixty wraps back to index zero.
pub open spec fn circle_point(c: Circle, i: int) -> Pt2D {
    let d = circle_dir(
        if i < TRIANGLES_PER_CIRCLE {
            i
        } else {
            i - TRIANGLES_PER_CIRCLE
        },
    );
    Pt2D {
        x: (c.center.x + spec_div_trunc(c.radius.units * d.0, DIR_UNIT as int)) as i64,
        y: (c.center.y + spec_div_trunc(c.radius.units * d.1, DIR_UNIT as int)) as i64,
    }
}

/// The fan of sixty triangles that tessellates `c`: each triangle joins the
/// center to two consecutive rim vertices.
pub open spec fn circle_triangles(c: Circle) -> Seq<Triangle> {
    Seq::new(
        TRIANGLES_PER_CIRCLE as nat,
        |i: int| Triangle { pt1: c.center, pt2: circle_point(c, i), pt3: circle_point(c, i + 1) },
    )
}

impl Circle {
    pub open spec fn wf(self) -> bool {
        &&& self.center.wf()
        &&& self.radius.wf()
    }

    pub fn new(center: Pt2D, radius: Distance) -> (c: Circle)
        ensures
            c == (Circle { center, radius }),
    {
        Circle { center, radius }
    }

    /// The `i`th rim vertex, wrapping at sixty.
    pub fn point_at(&self, i: usize) -> (p: Pt2D)
        requires
            self.wf(),
            i <= TRIANGLES_PER_CIRCLE,
        ensures
            p == circle_point(*self, i as int),
    {
        let idx: usize = if i < TRIANGLES_PER_CIRCLE {
            i
        } else {
            i - TRIANGLES_PER_CIRCLE
        };
        let d = circle_dir_at(idx);
        let r: i64 = self.radius.units;
        proof {
            assert(-(r * DIR_UNIT) <= r * d.0 <= r * DIR_UNIT && -(r * DIR_UNIT) <= r * d.1 <= r
                * DIR_UNIT) by (nonlinear_arith)
                requires
                    r >= 0,
                    -DIR_UNIT <= d.0 <= DIR_UNIT,
                    -DIR_UNIT <= d.1 <= DIR_UNIT,
            ;
            lemma_div_trunc_bound(r * d.0, DIR_UNIT as int, r as int);
            lemma_div_trunc_bound(r * d.1, DIR_UNIT as int, r as int);
        }
        let ox: i64 = div_trunc(r * d.0, DIR_UNIT);
        let oy: i64 = div_trunc(r * d.1, DIR_UNIT);
        Pt2D { x: self.center.x + ox, y: self.center.y + oy }
    }

    /// Tessellate the circle into a fan of `num_triangles` triangles. The
    /// library's direction table has one resolution, so `num_triangles` must
    /// be `TRIANGLES_PER_CIRCLE`.
    pub fn to_polygon(&self, num_triangles: usize) -> (p: Polygon)
        requires
            self.wf(),
            num_triangles == TRIANGLES_PER_CIRCLE,
        ensures
            p.triangles@ == circle_triangles(*self),
            p.triangles@.len() == TRIANGLES_PER_CIRCLE,
    {
        let mut tris: Vec<Triangle> = Vec::new();
        let mut i: usize = 0;
        while i < num_triangles
            invariant
                self.wf(),
                num_triangles == TRIANGLES_PER_CIRCLE,
                i <= TRIANGLES_PER_CIRCLE,
                tris@ =~= circle_triangles(*self).take(i as int),
            decreases num_triangles - i,
        {
            let p1 = self.point_at(i);
            let p2 = self.point_at(i + 1);
            tris.push(Triangle { pt1: self.center, pt2: p1, pt3: p2 });
            i = i + 1;
            proof {
                assert(tris@ =~= circle_triangles(*self).take(i as int));
            }
        }
        let p = Polygon { triangles: tris };
        proof {
            assert(p.triangles@ =~= circle_triangles(*self));
        }
        p
    }
}

} // verus!
