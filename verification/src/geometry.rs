//! Integer points and rectangles in image space.

use vstd::prelude::*;

verus! {

/// A position in image space, in whole pixels. It may lie outside the canvas.
#[derive(Clone, Copy, Debug, PartialEq, Eq, Structural)]
pub struct Point {
    pub x: i32,
    pub y: i32,
}

impl Point {
    pub fn new(x: i32, y: i32) -> (p: Point)
        ensures
            p == (Point { x, y }),
    {
        Point { x, y }
    }
}

/// A non-empty block of pixels on a canvas: its top-left pixel and its size.
#[derive(Clone, Copy, Debug, PartialEq, Eq, Structural)]
pub struct Region {
    pub x: u32,
    pub y: u32,
    pub width: u32,
    pub height: u32,
}

impl Region {
    /// Does the block cover pixel `(x, y)`?
    pub open spec fn covers(self, x: int, y: int) -> bool {
        self.x <= x < self.x + self.width && self.y <= y < self.y + self.height
    }

    /// The block's last column.
    pub open spec fn last_x(self) -> int {
        self.x + self.width - 1
    }

    /// The block's last row.
    pub open spec fn last_y(self) -> int {
        self.y + self.height - 1
    }

    /// Does the block cover at least one pixel?
    pub open spec fn nonempty(self) -> bool {
        self.width > 0 && self.height > 0
    }

    /// Does the block lie on a canvas of the given size?
    pub open spec fn within(self, width: int, height: int) -> bool {
        self.x + self.width <= width && self.y + self.height <= height
    }

    /// The block that spans columns `left..right` and rows `top..bottom`.
    pub open spec fn spanning(left: int, top: int, right: int, bottom: int) -> Region {
        Region {
            x: left as u32,
            y: top as u32,
            width: (right - left) as u32,
            height: (bottom - top) as u32,
        }
    }

    /// The smallest block that holds both.
    pub open spec fn hull(self, other: Region) -> Region {
        let left = if self.x <= other.x { self.x } else { other.x };
        let top = if self.y <= other.y { self.y } else { other.y };
        let right = if self.x + self.width >= other.x + other.width {
            self.x + self.width
        } else {
            other.x + other.width
        };
        let bottom = if self.y + self.height >= other.y + other.height {
            self.y + self.height
        } else {
            other.y + other.height
        };
        Self::spanning(left as int, top as int, right, bottom)
    }

    /// Computes the hull of two blocks that lie on one canvas.
    pub fn union(&self, other: Region) -> (u: Region)
        requires
            self.x + self.width <= u32::MAX,
            self.y + self.height <= u32::MAX,
            other.x + other.width <= u32::MAX,
            other.y + other.height <= u32::MAX,
        ensures
            u == self.hull(other),
    {
        let left = if self.x <= other.x { self.x } else { other.x };
        let top = if self.y <= other.y { self.y } else { other.y };
        let right = if self.x + self.width >= other.x + other.width {
            self.x + self.width
        } else {
            other.x + other.width
        };
        let bottom = if self.y + self.height >= other.y + other.height {
            self.y + self.height
        } else {
            other.y + other.height
        };
        Region { x: left, y: top, width: right - left, height: bottom - top }
    }

    /// The hull of two blocks on a canvas lies on that canvas, is not empty
    /// if one of them is not, and covers every pixel that either covers.
    pub proof fn lemma_hull(self, other: Region, width: int, height: int)
        requires
            self.within(width, height),
            other.within(width, height),
            width <= u32::MAX,
            height <= u32::MAX,
        ensures
            self.hull(other).within(width, height),
            self.nonempty() || other.nonempty() ==> self.hull(other).nonempty(),
            forall|x: int, y: int|
                self.covers(x, y) || other.covers(x, y) ==> #[trigger] self.hull(other).covers(
                    x,
                    y,
                ),
    {
    }
}

/// An axis-aligned rectangle given by its edges, in image space. `max` is
/// exclusive. The rectangle may reach beyond the canvas, and may be
/// degenerate or inverted.
#[derive(Clone, Copy, Debug, PartialEq, Eq, Structural)]
pub struct Rect {
    pub min_x: i64,
    pub min_y: i64,
    pub max_x: i64,
    pub max_y: i64,
}

/// Rectangle coordinates are kept within this distance of the origin.
pub const COORD_LIMIT: i64 = 0x100_0000_0000;

/// A coordinate moved to the nearest one within `COORD_LIMIT`.
pub open spec fn limited(v: int) -> int {
    if v > COORD_LIMIT {
        COORD_LIMIT as int
    } else if v < -COORD_LIMIT {
        -COORD_LIMIT as int
    } else {
        v
    }
}

/// Computes `limited`.
pub fn limit(v: i64) -> (c: i64)
    ensures
        c == limited(v as int),
        -COORD_LIMIT <= c <= COORD_LIMIT,
{
    if v > COORD_LIMIT {
        COORD_LIMIT
    } else if v < -COORD_LIMIT {
        -COORD_LIMIT
    } else {
        v
    }
}

impl Rect {
    /// All four edges are within `COORD_LIMIT`.
    pub open spec fn bounded(self) -> bool {
        &&& -COORD_LIMIT <= self.min_x <= COORD_LIMIT
        &&& -COORD_LIMIT <= self.min_y <= COORD_LIMIT
        &&& -COORD_LIMIT <= self.max_x <= COORD_LIMIT
        &&& -COORD_LIMIT <= self.max_y <= COORD_LIMIT
    }

    /// The rectangle that covers exactly the pixels of a block.
    pub open spec fn of(r: Region) -> Rect {
        Rect {
            min_x: r.x as i64,
            min_y: r.y as i64,
            max_x: (r.x + r.width) as i64,
            max_y: (r.y + r.height) as i64,
        }
    }

    /// Horizontal extent; negative when the rectangle is inverted.
    pub open spec fn spec_width(self) -> int {
        self.max_x - self.min_x
    }

    /// Vertical extent; negative when the rectangle is inverted.
    pub open spec fn spec_height(self) -> int {
        self.max_y - self.min_y
    }

    /// Closed containment, edges and corners included.
    pub open spec fn spec_contains(self, p: Point) -> bool {
        self.min_x <= p.x <= self.max_x && self.min_y <= p.y <= self.max_y
    }

    pub fn contains(&self, p: Point) -> (b: bool)
        ensures
            b == self.spec_contains(p),
    {
        self.min_x <= p.x as i64 && p.x as i64 <= self.max_x && self.min_y <= p.y as i64 && p.y as i64
            <= self.max_y
    }

    /// Computes the rectangle of a block on a canvas.
    pub fn from_region(r: Region) -> (rect: Rect)
        requires
            r.x + r.width <= u32::MAX,
            r.y + r.height <= u32::MAX,
        ensures
            rect == Self::of(r),
            rect.bounded(),
    {
        Rect {
            min_x: r.x as i64,
            min_y: r.y as i64,
            max_x: r.x as i64 + r.width as i64,
            max_y: r.y as i64 + r.height as i64,
        }
    }
}

/// Does `p` lie closer than `reach` pixels to the corner `(cx, cy)`?
pub open spec fn near(p: Point, cx: int, cy: int, reach: int) -> bool {
    (p.x - cx) * (p.x - cx) + (p.y - cy) * (p.y - cy) < reach * reach
}

/// Computes `near` for a small reach.
pub fn is_near(p: Point, cx: i64, cy: i64, reach: i64) -> (b: bool)
    requires
        0 < reach <= 0x7fff,
        -COORD_LIMIT <= cx <= COORD_LIMIT,
        -COORD_LIMIT <= cy <= COORD_LIMIT,
    ensures
        b == near(p, cx as int, cy as int, reach as int),
{
    let dx: i64 = p.x as i64 - cx;
    let dy: i64 = p.y as i64 - cy;
    if dx >= reach || dx <= -reach || dy >= reach || dy <= -reach {
        assert(dx * dx + dy * dy >= reach * reach) by (nonlinear_arith)
            requires
                dx >= reach || dx <= -reach || dy >= reach || dy <= -reach,
                reach > 0,
        ;
        false
    } else {
        assert(0 <= dx * dx < 0x7fff * 0x7fff && 0 <= dy * dy < 0x7fff * 0x7fff && 0 < reach * reach
            <= 0x7fff * 0x7fff) by (nonlinear_arith)
            requires
                -reach < dx < reach,
                -reach < dy < reach,
                0 < reach <= 0x7fff,
        ;
        dx * dx + dy * dy < reach * reach
    }
}

/// Sub-pixel positions count in units of `1 / FINE` of a pixel.
pub const FINE: i64 = 256;

/// The largest magnitude of a sub-pixel coordinate: that of the farthest
/// whole-pixel position.
pub const FINE_LIMIT: i64 = 0x80_0000_0000;

/// Division that rounds toward zero, for a positive divisor.
pub open spec fn trunc_div(a: int, b: int) -> int {
    if a >= 0 {
        a / b
    } else {
        -((-a) / b)
    }
}

/// Computes `trunc_div`.
pub fn trunc_by(a: i64, b: u64) -> (q: i64)
    requires
        0 < b <= i64::MAX,
        a > i64::MIN,
    ensures
        q == trunc_div(a as int, b as int),
        a >= 0 ==> 0 <= q <= a,
        a <= 0 ==> a <= q <= 0,
{
    if a >= 0 {
        let q: u64 = (a as u64) / b;
        assert(q <= a) by (nonlinear_arith)
            requires
                q == (a as int) / (b as int),
                a >= 0,
                b >= 1,
        ;
        q as i64
    } else {
        let q: u64 = ((-a) as u64) / b;
        assert(q <= -a) by (nonlinear_arith)
            requires
                q == (-a as int) / (b as int),
                -a >= 0,
                b >= 1,
        ;
        -(q as i64)
    }
}

/// A position with sub-pixel precision, in units of `1 / FINE` pixel.
#[derive(Clone, Copy, Debug, PartialEq, Eq, Structural)]
pub struct FinePoint {
    pub x: i64,
    pub y: i64,
}

impl FinePoint {
    /// Both coordinates are within reach of whole-pixel positions.
    pub open spec fn bounded(self) -> bool {
        &&& -FINE_LIMIT <= self.x <= FINE_LIMIT
        &&& -FINE_LIMIT <= self.y <= FINE_LIMIT
    }

    pub open spec fn of(p: Point) -> FinePoint {
        FinePoint { x: (p.x * FINE) as i64, y: (p.y * FINE) as i64 }
    }

    /// The same position in sub-pixel units.
    pub fn from_point(p: Point) -> (f: FinePoint)
        ensures
            f == Self::of(p),
            f.x == p.x * FINE,
            f.y == p.y * FINE,
            f.bounded(),
    {
        FinePoint { x: (p.x as i64) * FINE, y: (p.y as i64) * FINE }
    }

    /// The pixel that the position falls in, rounding toward zero.
    pub open spec fn pixel(self) -> (int, int) {
        (trunc_div(self.x as int, FINE as int), trunc_div(self.y as int, FINE as int))
    }

    /// Computes the pixel that a position within reach falls in.
    pub fn to_pixel(&self) -> (p: (i64, i64))
        requires
            self.bounded(),
        ensures
            p.0 == self.pixel().0,
            p.1 == self.pixel().1,
            -0x8000_0000 <= p.0 <= 0x8000_0000,
            -0x8000_0000 <= p.1 <= 0x8000_0000,
    {
        (trunc_by(self.x, FINE as u64), trunc_by(self.y, FINE as u64))
    }

    /// The square of the distance between two positions, in sub-pixel units.
    pub open spec fn dist_sq(self, other: FinePoint) -> int {
        (other.x - self.x) * (other.x - self.x) + (other.y - self.y) * (other.y - self.y)
    }
}

/// Is `r` the integer square root of `n`, rounded down?
pub open spec fn is_floor_sqrt(n: int, r: int) -> bool {
    0 <= r && r * r <= n < (r + 1) * (r + 1)
}

/// The integer square root of `n`, rounded down.
pub open spec fn floor_sqrt(n: int) -> int {
    choose|r: int| is_floor_sqrt(n, r)
}

/// A number has at most one rounded-down square root.
pub proof fn lemma_floor_sqrt_unique(n: int, r: int, s: int)
    requires
        is_floor_sqrt(n, r),
        is_floor_sqrt(n, s),
    ensures
        r == s,
{
    if r < s {
        assert((r + 1) * (r + 1) <= s * s) by (nonlinear_arith)
            requires
                0 <= r,
                r + 1 <= s,
        ;
    } else if s < r {
        assert((s + 1) * (s + 1) <= r * r) by (nonlinear_arith)
            requires
                0 <= s,
                s + 1 <= r,
        ;
    }
}

/// Computes the rounded-down square root by bisection.
pub fn isqrt(n: u128) -> (r: u64)
    ensures
        is_floor_sqrt(n as int, r as int),
        r == floor_sqrt(n as int),
{
    let mut lo: u128 = 0;
    let mut hi: u128 = 0x1_0000_0000_0000_0000;
    assert(0x1_0000_0000_0000_0000int * 0x1_0000_0000_0000_0000int > u128::MAX) by (nonlinear_arith);
    while hi - lo > 1
        invariant
            lo < hi <= 0x1_0000_0000_0000_0000,
            lo * lo <= n,
            n < hi * hi,
        decreases hi - lo,
    {
        let mid: u128 = lo + (hi - lo) / 2;
        assert(mid * mid <= 0xffff_ffff_ffff_ffff * 0xffff_ffff_ffff_ffff) by (nonlinear_arith)
            requires
                0 <= mid <= 0xffff_ffff_ffff_ffff,
        ;
        assert(0xffff_ffff_ffff_ffffint * 0xffff_ffff_ffff_ffffint <= u128::MAX) by (nonlinear_arith);
        if mid * mid <= n {
            lo = mid;
        } else {
            hi = mid;
        }
    }
    proof {
        assert(hi == lo + 1);
        lemma_floor_sqrt_unique(n as int, lo as int, floor_sqrt(n as int));
    }
    lo as u64
}

/// Where step `i` of `steps` lies between `a` and `b` on one axis, as a
/// whole pixel: the exact point `a + (b - a) * i / steps`, rounded toward zero.
pub open spec fn lerp_pixel(a: int, b: int, steps: int, i: int) -> int {
    trunc_div(a * steps + (b - a) * i, steps * FINE)
}

/// Computes `lerp_pixel` for sub-pixel coordinates within reach.
pub fn lerp_to_pixel(a: i64, b: i64, steps: u64, i: u64) -> (p: i64)
    requires
        -FINE_LIMIT <= a <= FINE_LIMIT,
        -FINE_LIMIT <= b <= FINE_LIMIT,
        1 <= steps <= 0xffff_ffff_ffff,
        i <= steps,
    ensures
        p == lerp_pixel(a as int, b as int, steps as int, i as int),
        -0x1_0000_0000 <= p <= 0x1_0000_0000,
{
    let s: i128 = steps as i128;
    let d: i128 = b as i128 - a as i128;
    assert(-FINE_LIMIT * 0xffff_ffff_ffff <= a * s <= FINE_LIMIT * 0xffff_ffff_ffff)
        by (nonlinear_arith)
        requires
            -FINE_LIMIT <= a <= FINE_LIMIT,
            1 <= s <= 0xffff_ffff_ffff,
    ;
    assert(-2 * FINE_LIMIT * 0xffff_ffff_ffff <= d * i <= 2 * FINE_LIMIT * 0xffff_ffff_ffff)
        by (nonlinear_arith)
        requires
            -2 * FINE_LIMIT <= d <= 2 * FINE_LIMIT,
            0 <= i <= 0xffff_ffff_ffff,
    ;
    let num: i128 = (a as i128) * s + d * (i as i128);
    let den: u128 = (steps as u128) * 256;
    // The point lies between the two ends, so its pixel is within reach too.
    assert(-(FINE_LIMIT * s) <= num <= FINE_LIMIT * s) by (nonlinear_arith)
        requires
            num == a * s + (b - a) * i,
            -FINE_LIMIT <= a <= FINE_LIMIT,
            -FINE_LIMIT <= b <= FINE_LIMIT,
            0 <= i <= s,
    ;
    if num >= 0 {
        let q: u128 = (num as u128) / den;
        assert(q <= 0x8000_0000) by (nonlinear_arith)
            requires
                q == (num as int) / (den as int),
                0 <= num <= FINE_LIMIT * s,
                den == s * 256,
                s >= 1,
                FINE_LIMIT == 0x8000_0000 * 256,
        ;
        q as i64
    } else {
        let q: u128 = ((-num) as u128) / den;
        assert(q <= 0x8000_0000) by (nonlinear_arith)
            requires
                q == (-num as int) / (den as int),
                0 <= -num <= FINE_LIMIT * s,
                den == s * 256,
                s >= 1,
                FINE_LIMIT == 0x8000_0000 * 256,
        ;
        -(q as i64)
    }
}

} // verus!
