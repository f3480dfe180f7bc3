//! The scratch buffer that a stroke tool draws on while a gesture lasts, the
//! dirty block that it accumulates, and the commit of a finished stroke.

use vstd::prelude::*;
use crate::geometry::{floor_sqrt, isqrt, lerp_pixel, lerp_to_pixel, FinePoint, Region, FINE};
use crate::commands::PatchCommand;
use crate::image_store::{layer_sized, lemma_repainted_state, pixel_state, repainted, ImageStore};
use crate::raster::{fits, Color, Grid, PixelBuffer};

verus! {

/// The largest stamp radius, in pixels.
pub const MAX_RADIUS: i64 = 0x7fff_ffff;

/// Does pixel `(x, y)` lie within `r` of the centre `(cx, cy)`?
pub open spec fn in_disc(x: int, y: int, cx: int, cy: int, r: int) -> bool {
    (x - cx) * (x - cx) + (y - cy) * (y - cy) <= r * r
}

/// A pixel of the disc lies in the square around it.
pub proof fn lemma_disc_in_square(x: int, y: int, cx: int, cy: int, r: int)
    requires
        0 <= r,
        in_disc(x, y, cx, cy, r),
    ensures
        cx - r <= x <= cx + r,
        cy - r <= y <= cy + r,
{
    assert(cx - r <= x <= cx + r && cy - r <= y <= cy + r) by (nonlinear_arith)
        requires
            0 <= r,
            (x - cx) * (x - cx) + (y - cy) * (y - cy) <= r * r,
    ;
}

/// The grid with a filled circle of colour `c` stamped on it.
pub open spec fn stamped(g: Grid<Color>, cx: int, cy: int, r: int, c: Color) -> Grid<Color> {
    Grid::build(
        g.width,
        g.height,
        |x: int, y: int|
            if in_disc(x, y, cx, cy, r) {
                c
            } else {
                g.at(x, y)
            },
    )
}

/// The part of a stamp's bounding square that lies on the canvas, if any.
pub open spec fn stamp_box(width: int, height: int, cx: int, cy: int, r: int) -> Option<Region> {
    let left = if cx - r > 0 { cx - r } else { 0 };
    let top = if cy - r > 0 { cy - r } else { 0 };
    let right = if cx + r + 1 < width { cx + r + 1 } else { width };
    let bottom = if cy + r + 1 < height { cy + r + 1 } else { height };
    if left < right && top < bottom {
        Some(Region::spanning(left, top, right, bottom))
    } else {
        None
    }
}

/// The dirty block after one more block has been touched.
pub open spec fn grown(dirty: Option<Region>, added: Option<Region>) -> Option<Region> {
    match (dirty, added) {
        (Some(d), Some(a)) => Some(d.hull(a)),
        (None, Some(a)) => Some(a),
        (d, None) => d,
    }
}

/// The texel that a square stamp of half-size `r` shows at offset
/// `(sx, sy)` from its top-left corner: the texture is stretched over the
/// square of side `2 * r`, nearest texel to the top-left.
pub open spec fn texel(tex: Grid<Color>, sx: int, sy: int, r: int) -> Color {
    tex.at(sx * tex.width / (2 * r), sy * tex.height / (2 * r))
}

/// The grid with a textured square stamped on it. The stamp's alpha is the
/// texel's alpha times the colour's; a pixel takes the stamp only where
/// that alpha exceeds the alpha already there.
pub open spec fn texture_stamped(
    g: Grid<Color>,
    tex: Grid<Color>,
    cx: int,
    cy: int,
    r: int,
    c: Color,
) -> Grid<Color> {
    Grid::build(
        g.width,
        g.height,
        |x: int, y: int|
            {
                let sx = x - (cx - r);
                let sy = y - (cy - r);
                if 0 <= sx < 2 * r && 0 <= sy < 2 * r && tex.width > 0 && tex.height > 0 && texel(
                    tex,
                    sx,
                    sy,
                    r,
                ).a * c.a > g.at(x, y).a * 255 {
                    Color { r: c.r, g: c.g, b: c.b, a: (texel(tex, sx, sy, r).a * c.a / 255) as u8 }
                } else {
                    g.at(x, y)
                }
            },
    )
}

/// The part of a textured stamp's square that lies on the canvas, if any.
pub open spec fn texture_box(width: int, height: int, cx: int, cy: int, r: int) -> Option<Region> {
    let left = if cx - r > 0 { cx - r } else { 0 };
    let top = if cy - r > 0 { cy - r } else { 0 };
    let right = if cx + r < width { cx + r } else { width };
    let bottom = if cy + r < height { cy + r } else { height };
    if left < right && top < bottom {
        Some(Region::spanning(left, top, right, bottom))
    } else {
        None
    }
}

/// One stamp of a stroke: a textured square where the brush has a
/// texture, a filled circle where it has none.
pub open spec fn stamp_at(
    g: Grid<Color>,
    tex: Option<Grid<Color>>,
    cx: int,
    cy: int,
    r: int,
    c: Color,
) -> Grid<Color> {
    match tex {
        Some(t) => texture_stamped(g, t, cx, cy, r, c),
        None => stamped(g, cx, cy, r, c),
    }
}

/// The block that one stamp of a stroke touches.
pub open spec fn stamp_region(
    width: int,
    height: int,
    textured: bool,
    cx: int,
    cy: int,
    r: int,
) -> Option<Region> {
    if textured {
        texture_box(width, height, cx, cy, r)
    } else {
        stamp_box(width, height, cx, cy, r)
    }
}

/// The view of an optional texture.
pub open spec fn texture_view(texture: Option<&PixelBuffer>) -> Option<Grid<Color>> {
    match texture {
        Some(t) => Some(t@),
        None => None,
    }
}

/// Does the dirty block, if there is one, cover `(x, y)`?
pub open spec fn dirty_covers(dirty: Option<Region>, x: int, y: int) -> bool {
    match dirty {
        Some(d) => d.covers(x, y),
        None => false,
    }
}

/// The grid with every pixel of the block `d` made transparent.
pub open spec fn cleared(g: Grid<Color>, d: Region) -> Grid<Color> {
    Grid::build(
        g.width,
        g.height,
        |x: int, y: int|
            if d.covers(x, y) {
                Color::clear()
            } else {
                g.at(x, y)
            },
    )
}

/// The number of steps in which a segment is walked: its length divided by
/// the step length, rounded down, and at least one. The step length is
/// given in hundredths of a pixel.
pub open spec fn segment_steps(a: FinePoint, b: FinePoint, step_hundredths: int) -> int {
    let q = floor_sqrt(a.dist_sq(b) * 10000) / (step_hundredths * FINE);
    if q < 1 {
        1
    } else {
        q
    }
}

/// The pixel of step `i` of `steps` on the way from `a` to `b`.
pub open spec fn segment_point(a: FinePoint, b: FinePoint, steps: int, i: int) -> (int, int) {
    (
        lerp_pixel(a.x as int, b.x as int, steps, i),
        lerp_pixel(a.y as int, b.y as int, steps, i),
    )
}

/// The grid after the first `n` steps of a segment have been stamped.
pub open spec fn stroke_upto(
    g: Grid<Color>,
    tex: Option<Grid<Color>>,
    a: FinePoint,
    b: FinePoint,
    steps: int,
    r: int,
    c: Color,
    n: nat,
) -> Grid<Color>
    decreases n,
{
    if n == 0 {
        g
    } else {
        let p = segment_point(a, b, steps, n - 1);
        stamp_at(stroke_upto(g, tex, a, b, steps, r, c, (n - 1) as nat), tex, p.0, p.1, r, c)
    }
}

/// Does one of the first `n` steps of a segment put its circle over `(x, y)`?
pub open spec fn under_stroke(
    a: FinePoint,
    b: FinePoint,
    steps: int,
    r: int,
    n: nat,
    x: int,
    y: int,
) -> bool {
    exists|i: int| 0 <= i < n && #[trigger] under_step(a, b, steps, r, i, x, y)
}

/// Does step `i` of a segment put its circle over `(x, y)`?
pub open spec fn under_step(
    a: FinePoint,
    b: FinePoint,
    steps: int,
    r: int,
    i: int,
    x: int,
    y: int,
) -> bool {
    in_disc(x, y, segment_point(a, b, steps, i).0, segment_point(a, b, steps, i).1, r)
}

/// A stroke of circles keeps the size of the grid.
pub proof fn lemma_stroke_size(
    g: Grid<Color>,
    tex: Option<Grid<Color>>,
    a: FinePoint,
    b: FinePoint,
    steps: int,
    r: int,
    c: Color,
    n: nat,
)
    ensures
        stroke_upto(g, tex, a, b, steps, r, c, n).width == g.width,
        stroke_upto(g, tex, a, b, steps, r, c, n).height == g.height,
    decreases n,
{
    if n > 0 {
        lemma_stroke_size(g, tex, a, b, steps, r, c, (n - 1) as nat);
    }
}

/// A stroke without texture paints exactly the pixels that lie under one
/// of its circles, and paints them in the stroke's colour; every other
/// pixel stays as it was.
pub proof fn lemma_stroke_is_union_of_discs(
    g: Grid<Color>,
    a: FinePoint,
    b: FinePoint,
    steps: int,
    r: int,
    c: Color,
    n: nat,
    x: int,
    y: int,
)
    requires
        g.contains(x, y),
    ensures
        stroke_upto(g, None, a, b, steps, r, c, n).at(x, y) == if under_stroke(
            a,
            b,
            steps,
            r,
            n,
            x,
            y,
        ) {
            c
        } else {
            g.at(x, y)
        },
    decreases n,
{
    if n > 0 {
        let m = (n - 1) as nat;
        lemma_stroke_is_union_of_discs(g, a, b, steps, r, c, m, x, y);
        lemma_stroke_size(g, None, a, b, steps, r, c, m);
        if under_step(a, b, steps, r, n - 1, x, y) {
            assert(under_stroke(a, b, steps, r, n, x, y));
        } else if under_stroke(a, b, steps, r, m, x, y) {
            let i = choose|i: int| 0 <= i < m && #[trigger] under_step(a, b, steps, r, i, x, y);
            assert(under_step(a, b, steps, r, i, x, y));
            assert(under_stroke(a, b, steps, r, n, x, y));
        } else {
            assert forall|i: int| 0 <= i < n implies !#[trigger] under_step(
                a,
                b,
                steps,
                r,
                i,
                x,
                y,
            ) by {
                if i < m {
                    assert(!under_stroke(a, b, steps, r, m, x, y));
                }
            }
        }
    }
}

/// The dirty block after the first `n` steps of a segment have been stamped.
pub open spec fn dirty_upto(
    dirty: Option<Region>,
    width: int,
    height: int,
    textured: bool,
    a: FinePoint,
    b: FinePoint,
    steps: int,
    r: int,
    n: nat,
) -> Option<Region>
    decreases n,
{
    if n == 0 {
        dirty
    } else {
        let p = segment_point(a, b, steps, n - 1);
        grown(
            dirty_upto(dirty, width, height, textured, a, b, steps, r, (n - 1) as nat),
            stamp_region(width, height, textured, p.0, p.1, r),
        )
    }
}

/// The grid after a whole segment has been stroked: a stamp at both ends
/// and at every step between them.
pub open spec fn stroked(
    g: Grid<Color>,
    tex: Option<Grid<Color>>,
    a: FinePoint,
    b: FinePoint,
    step_hundredths: int,
    r: int,
    c: Color,
) -> Grid<Color> {
    let steps = segment_steps(a, b, step_hundredths);
    stroke_upto(g, tex, a, b, steps, r, c, (steps + 1) as nat)
}

/// The dirty block after a whole segment has been stroked.
pub open spec fn stroked_dirty(
    dirty: Option<Region>,
    width: int,
    height: int,
    textured: bool,
    a: FinePoint,
    b: FinePoint,
    step_hundredths: int,
    r: int,
) -> Option<Region> {
    let steps = segment_steps(a, b, step_hundredths);
    dirty_upto(dirty, width, height, textured, a, b, steps, r, (steps + 1) as nat)
}

/// Computes `segment_steps`.
pub fn segment_step_count(a: FinePoint, b: FinePoint, step_hundredths: u64) -> (steps: u64)
    requires
        a.bounded(),
        b.bounded(),
        100 <= step_hundredths <= 0x7fff_ffff_ffff_ffff,
    ensures
        steps == segment_steps(a, b, step_hundredths as int),
        1 <= steps <= 0xffff_ffff_ffff,
{
    let dx: i128 = b.x as i128 - a.x as i128;
    let dy: i128 = b.y as i128 - a.y as i128;
    assert(0 <= dx * dx <= 0x100_0000_0000 * 0x100_0000_0000 && 0 <= dy * dy <= 0x100_0000_0000
        * 0x100_0000_0000) by (nonlinear_arith)
        requires
            -0x100_0000_0000 <= dx <= 0x100_0000_0000,
            -0x100_0000_0000 <= dy <= 0x100_0000_0000,
    ;
    assert(0x100_0000_0000int * 0x100_0000_0000int == 0x1_0000_0000_0000_0000_0000) by (nonlinear_arith);
    let d2: u128 = (dx * dx + dy * dy) as u128;
    let n: u128 = d2 * 10000;
    let root: u64 = isqrt(n);
    assert(root < 0x1_0000_0000_0000) by (nonlinear_arith)
        requires
            0 <= root,
            root * root <= n,
            n < 0x1_0000_0000_0000 * 0x1_0000_0000_0000,
    ;
    let k: u128 = (step_hundredths as u128) * 256;
    let q: u128 = (root as u128) / k;
    assert(q <= root) by (nonlinear_arith)
        requires
            q == (root as int) / (k as int),
            k >= 1,
            root >= 0,
    ;
    if q < 1 {
        1
    } else {
        q as u64
    }
}

/// The grid with every painted pixel of the block `d` made transparent. A
/// pixel counts as painted when its alpha is not zero.
pub open spec fn wiped(g: Grid<Color>, d: Region) -> Grid<Color> {
    Grid::build(
        g.width,
        g.height,
        |x: int, y: int|
            if d.covers(x, y) && g.at(x, y).a > 0 {
                Color::clear()
            } else {
                g.at(x, y)
            },
    )
}

/// What a painted scratch pixel makes of the layer pixel under it. Erasing
/// clears the pixel whatever the alpha lock says. Painting writes the
/// stroke; on an alpha-locked layer it keeps the alpha that is there and
/// leaves transparent pixels alone.
pub open spec fn commit_pixel(under: Color, stroke: Color, alpha_locked: bool, erase: bool) -> Color {
    if erase {
        Color::clear()
    } else if !alpha_locked {
        stroke
    } else if under.a > 0 {
        Color { r: stroke.r, g: stroke.g, b: stroke.b, a: under.a }
    } else {
        under
    }
}

/// The layer after a stroke has been committed into it: every painted
/// scratch pixel of the dirty block is transferred, nothing else changes.
pub open spec fn committed(
    target: Grid<Color>,
    scratch: Grid<Color>,
    d: Region,
    alpha_locked: bool,
    erase: bool,
) -> Grid<Color> {
    Grid::build(
        target.width,
        target.height,
        |x: int, y: int|
            if d.covers(x, y) && scratch.at(x, y).a > 0 {
                commit_pixel(target.at(x, y), scratch.at(x, y), alpha_locked, erase)
            } else {
                target.at(x, y)
            },
    )
}

/// Painting on an alpha-locked layer changes no pixel's alpha. A
/// transparent pixel stays exactly as it is, and a painted pixel that was
/// not transparent takes the stroke's colour.
pub proof fn lemma_alpha_lock(
    target: Grid<Color>,
    scratch: Grid<Color>,
    d: Region,
    x: int,
    y: int,
)
    requires
        target.contains(x, y),
    ensures
        committed(target, scratch, d, true, false).at(x, y).a == target.at(x, y).a,
        target.at(x, y).a == 0 ==> committed(target, scratch, d, true, false).at(x, y) == target.at(
            x,
            y,
        ),
        target.at(x, y).a > 0 && d.covers(x, y) && scratch.at(x, y).a > 0 ==> {
            let out = committed(target, scratch, d, true, false).at(x, y);
            out.r == scratch.at(x, y).r && out.g == scratch.at(x, y).g && out.b == scratch.at(x, y).b
        },
{
}

/// A commit touches the layer only inside the dirty block.
pub proof fn lemma_commit_is_local(
    target: Grid<Color>,
    scratch: Grid<Color>,
    d: Region,
    alpha_locked: bool,
    erase: bool,
)
    requires
        target.wf(),
        d.within(target.width, target.height),
    ensures
        committed(target, scratch, d, alpha_locked, erase) == target.paste(
            committed(target, scratch, d, alpha_locked, erase).crop(
                d.x as int,
                d.y as int,
                d.width as int,
                d.height as int,
            ),
            d.x as int,
            d.y as int,
        ),
{
    let out = committed(target, scratch, d, alpha_locked, erase);
    let block = out.crop(d.x as int, d.y as int, d.width as int, d.height as int);
    Grid::lemma_equal(out, target.paste(block, d.x as int, d.y as int));
}

/// A scratch buffer as contracts see it: its pixels and its dirty block.
pub struct Sketch {
    pub pixels: Grid<Color>,
    pub dirty: Option<Region>,
}

impl Sketch {
    /// A transparent sketch with no dirty block.
    pub open spec fn blank(width: int, height: int) -> Sketch {
        Sketch { pixels: Grid::filled(width, height, Color::clear()), dirty: None }
    }

    /// The sketch made to fit a canvas: kept if it has the canvas's size,
    /// blank if not.
    pub open spec fn resized(self, width: int, height: int) -> Sketch {
        if self.pixels.width == width && self.pixels.height == height {
            self
        } else {
            Self::blank(width, height)
        }
    }

    /// The sketch after one stamp.
    pub open spec fn stamp(
        self,
        tex: Option<Grid<Color>>,
        cx: int,
        cy: int,
        r: int,
        c: Color,
    ) -> Sketch {
        Sketch {
            pixels: stamp_at(self.pixels, tex, cx, cy, r, c),
            dirty: grown(
                self.dirty,
                stamp_region(self.pixels.width, self.pixels.height, tex.is_some(), cx, cy, r),
            ),
        }
    }

    /// The sketch after a segment has been stroked.
    pub open spec fn stroke(
        self,
        tex: Option<Grid<Color>>,
        a: FinePoint,
        b: FinePoint,
        step_hundredths: int,
        r: int,
        c: Color,
    ) -> Sketch {
        Sketch {
            pixels: stroked(self.pixels, tex, a, b, step_hundredths, r, c),
            dirty: stroked_dirty(
                self.dirty,
                self.pixels.width,
                self.pixels.height,
                tex.is_some(),
                a,
                b,
                step_hundredths,
                r,
            ),
        }
    }

    /// The sketch with its dirty block made transparent and forgotten.
    pub open spec fn erased(self) -> Sketch {
        Sketch {
            pixels: match self.dirty {
                Some(d) => cleared(self.pixels, d),
                None => self.pixels,
            },
            dirty: None,
        }
    }

    /// The sketch after the gesture has been released: the painted pixels
    /// of the dirty block are gone, and so is the block.
    pub open spec fn released(self) -> Sketch {
        Sketch {
            pixels: match self.dirty {
                Some(d) => wiped(self.pixels, d),
                None => self.pixels,
            },
            dirty: None,
        }
    }
}

/// What the release of a gesture with the given sketch does to the store.
/// Without a dirty block nothing happens. With one, if the active layer
/// has pixels, the stroke is committed into it, the store is marked dirty
/// and the command holds the block before and after; otherwise the stroke
/// is dropped and the store stays as it is.
pub open spec fn commit_result(
    sketch: Sketch,
    before: ImageStore,
    after: ImageStore,
    cmd: Option<PatchCommand>,
    name: Seq<char>,
    erase: bool,
) -> bool {
    &&& after.same_canvas(&before)
    &&& match sketch.dirty {
        None => {
            &&& cmd.is_none()
            &&& after.layers@ == before.layers@
            &&& after.composite_dirty == before.composite_dirty
        },
        Some(d) => {
            &&& match before.active_pixels() {
                None => {
                    &&& cmd.is_none()
                    &&& after.layers@ == before.layers@
                    &&& after.composite_dirty == before.composite_dirty
                },
                Some(target) => {
                    let result = committed(
                        target,
                        sketch.pixels,
                        d,
                        before.layers@[before.active_layer as int].alpha_locked,
                        erase,
                    );
                    &&& repainted(before.layers@, after.layers@, before.active_layer as int, result)
                    &&& after.composite_dirty
                    &&& cmd matches Some(c) && c.name@ == name && c.layer_index
                        == before.active_layer && c.x == d.x && c.y == d.y && c.old_patch@
                        == target.crop(d.x as int, d.y as int, d.width as int, d.height as int)
                        && c.new_patch@ == result.crop(
                        d.x as int,
                        d.y as int,
                        d.width as int,
                        d.height as int,
                    )
                },
            }
        },
    }
}

/// The two blocks of a command that a release makes have the size of the
/// dirty block, and the command stands at the block's corner.
pub proof fn lemma_patch_size(
    sketch: Sketch,
    before: ImageStore,
    after: ImageStore,
    cmd: Option<PatchCommand>,
    name: Seq<char>,
    erase: bool,
)
    requires
        commit_result(sketch, before, after, cmd, name, erase),
        cmd.is_some(),
    ensures
        sketch.dirty matches Some(d) && {
            let c = cmd.unwrap();
            &&& c.x == d.x
            &&& c.y == d.y
            &&& c.old_patch@.width == d.width
            &&& c.old_patch@.height == d.height
            &&& c.new_patch@.width == d.width
            &&& c.new_patch@.height == d.height
        },
{
}

/// The command that a release makes records the step that the release
/// took, so that undo and redo walk it exactly.
pub proof fn lemma_commit_records(
    sketch: Sketch,
    before: ImageStore,
    after: ImageStore,
    cmd: Option<PatchCommand>,
    name: Seq<char>,
    erase: bool,
)
    requires
        commit_result(sketch, before, after, cmd, name, erase),
        cmd.is_some(),
        before.wf(),
        sketch.dirty matches Some(d) && d.within(before.width as int, before.height as int),
    ensures
        cmd.unwrap().records(pixel_state(before.layers@), pixel_state(after.layers@)),
{
    let c = cmd.unwrap();
    let d = sketch.dirty.unwrap();
    let idx = before.active_layer as int;
    let target = before.active_pixels().unwrap();
    let locked = before.layers@[idx].alpha_locked;
    let result = committed(target, sketch.pixels, d, locked, erase);
    assert(layer_sized(before.layers@[idx], before.width as int, before.height as int));
    assert(before.layers@[idx].data.raw().unwrap()@.wf());
    lemma_commit_is_local(target, sketch.pixels, d, locked, erase);
    lemma_repainted_state(before.layers@, after.layers@, idx, result);
    assert(pixel_state(before.layers@)[idx] == Some(target));
}

/// A canvas-sized transient buffer with the block of it that the current
/// gesture has touched.
pub struct Scratch {
    pub layer: PixelBuffer,
    pub dirty_rect: Option<Region>,
}

impl View for Scratch {
    type V = Sketch;

    open spec fn view(&self) -> Sketch {
        Sketch { pixels: self.layer@, dirty: self.dirty_rect }
    }
}

impl Scratch {
    /// The dirty block is a non-empty block of the buffer, and outside it
    /// the buffer is transparent.
    pub open spec fn wf(&self) -> bool {
        &&& match self.dirty_rect {
            Some(d) => d.nonempty() && d.within(self.layer@.width, self.layer@.height),
            None => true,
        }
        &&& forall|x: int, y: int|
            self.layer@.contains(x, y) && !dirty_covers(self.dirty_rect, x, y) ==> (
            #[trigger] self.layer@.at(x, y)).a == 0
    }

    /// Is the buffer of the given size?
    pub open spec fn sized(&self, width: u32, height: u32) -> bool {
        self.layer@.width == width && self.layer@.height == height
    }

    /// A transparent scratch buffer with no dirty block.
    pub fn new(width: u32, height: u32) -> (s: Scratch)
        requires
            fits(width, height),
        ensures
            s.wf(),
            s.layer@ == Grid::filled(width as int, height as int, Color::clear()),
            s.dirty_rect.is_none(),
    {
        Scratch { layer: PixelBuffer::new(width, height), dirty_rect: None }
    }

    /// Makes the buffer fit a canvas of the given size. A buffer of another
    /// size is replaced by a transparent one and the stroke in it is lost.
    pub fn ensure_size(&mut self, width: u32, height: u32)
        requires
            fits(width, height),
            old(self).wf(),
        ensures
            final(self).wf(),
            final(self).sized(width, height),
            final(self)@ == old(self)@.resized(width as int, height as int),
    {
        if self.layer.width() != width || self.layer.height() != height {
            self.layer = PixelBuffer::new(width, height);
            self.dirty_rect = None;
        }
    }

    /// Stamps a filled circle of radius `r` around `(cx, cy)` and adds the
    /// part of its bounding square that lies on the canvas to the dirty block.
    pub fn stamp_circle(&mut self, cx: i64, cy: i64, r: i64, color: Color)
        requires
            old(self).wf(),
            0 <= r <= MAX_RADIUS,
            -0x1_0000_0000 <= cx <= 0x1_0000_0000,
            -0x1_0000_0000 <= cy <= 0x1_0000_0000,
        ensures
            final(self).wf(),
            final(self).layer@ == stamped(old(self).layer@, cx as int, cy as int, r as int, color),
            final(self).dirty_rect == grown(
                old(self).dirty_rect,
                stamp_box(
                    old(self).layer@.width,
                    old(self).layer@.height,
                    cx as int,
                    cy as int,
                    r as int,
                ),
            ),
    {
        let ghost before = self.layer@;
        let ghost old_dirty = self.dirty_rect;
        let w = self.layer.width();
        let h = self.layer.height();
        let left: i64 = if cx - r > 0 { cx - r } else { 0 };
        let top: i64 = if cy - r > 0 { cy - r } else { 0 };
        let right: i64 = if cx + r + 1 < w as i64 { cx + r + 1 } else { w as i64 };
        let bottom: i64 = if cy + r + 1 < h as i64 { cy + r + 1 } else { h as i64 };
        proof {
            self.layer.lemma_view();
        }
        if left < right && top < bottom {
            assert(r * r <= 0x3fff_ffff_0000_0001) by (nonlinear_arith)
                requires
                    0 <= r <= 0x7fff_ffff,
            ;
            let rr: i64 = r * r;
            let mut y: i64 = top;
            while y < bottom
                invariant
                    top <= y <= bottom,
                    0 <= left < right <= w,
                    0 <= top < bottom <= h,
                    cx - r <= left,
                    right <= cx + r + 1,
                    cy - r <= top,
                    bottom <= cy + r + 1,
                    0 <= r <= MAX_RADIUS,
                    rr == r * r,
                    self.layer@.width == w,
                    self.layer@.height == h,
                    before.width == w,
                    before.height == h,
                    self.dirty_rect == old_dirty,
                    forall|i: int, j: int|
                        0 <= i < w && 0 <= j < h ==> #[trigger] self.layer@.at(i, j) == if left
                            <= i < right && top <= j < y && in_disc(
                            i,
                            j,
                            cx as int,
                            cy as int,
                            r as int,
                        ) {
                            color
                        } else {
                            before.at(i, j)
                        },
                decreases bottom - y,
            {
                let mut x: i64 = left;
                while x < right
                    invariant
                        left <= x <= right,
                        top <= y < bottom,
                        0 <= left < right <= w,
                        0 <= top < bottom <= h,
                        cx - r <= left,
                        right <= cx + r + 1,
                        cy - r <= top,
                        bottom <= cy + r + 1,
                        0 <= r <= MAX_RADIUS,
                        rr == r * r,
                        self.layer@.width == w,
                        self.layer@.height == h,
                        before.width == w,
                        before.height == h,
                        self.dirty_rect == old_dirty,
                        forall|i: int, j: int|
                            0 <= i < w && 0 <= j < h ==> #[trigger] self.layer@.at(i, j) == if left
                                <= i < right && top <= j && (j < y || (j == y && i < x)) && in_disc(
                                i,
                                j,
                                cx as int,
                                cy as int,
                                r as int,
                            ) {
                                color
                            } else {
                                before.at(i, j)
                            },
                    decreases right - x,
                {
                    let dx: i64 = x - cx;
                    let dy: i64 = y - cy;
                    assert(0 <= dx * dx <= 0x3fff_ffff_0000_0001 && 0 <= dy * dy
                        <= 0x3fff_ffff_0000_0001) by (nonlinear_arith)
                        requires
                            -0x7fff_ffff <= dx <= 0x7fff_ffff,
                            -0x7fff_ffff <= dy <= 0x7fff_ffff,
                    ;
                    if dx * dx + dy * dy <= rr {
                        self.layer.set_pixel(x as u32, y as u32, color);
                    }
                    x += 1;
                }
                y += 1;
            }
            let added = Region {
                x: left as u32,
                y: top as u32,
                width: (right - left) as u32,
                height: (bottom - top) as u32,
            };
            self.dirty_rect = match self.dirty_rect {
                Some(d) => {
                    proof {
                        d.lemma_hull(added, w as int, h as int);
                    }
                    Some(d.union(added))
                },
                None => Some(added),
            };
        }
        proof {
            let goal = stamped(before, cx as int, cy as int, r as int, color);
            assert forall|i: int, j: int| self.layer@.contains(i, j) implies #[trigger] self.layer@.at(
                i,
                j,
            ) == goal.at(i, j) by {
                if in_disc(i, j, cx as int, cy as int, r as int) {
                    lemma_disc_in_square(i, j, cx as int, cy as int, r as int);
                }
            }
            Grid::lemma_equal(self.layer@, goal);
        }
    }

    /// Stamps a textured square of half-size `r` around `(cx, cy)`, keeping
    /// the higher alpha where it meets what is there, and adds the part of
    /// the square that lies on the canvas to the dirty block.
    pub fn stamp_texture(&mut self, texture: &PixelBuffer, cx: i64, cy: i64, r: i64, color: Color)
        requires
            old(self).wf(),
            0 <= r <= MAX_RADIUS,
            -0x1_0000_0000 <= cx <= 0x1_0000_0000,
            -0x1_0000_0000 <= cy <= 0x1_0000_0000,
        ensures
            final(self).wf(),
            final(self).layer@ == texture_stamped(
                old(self).layer@,
                texture@,
                cx as int,
                cy as int,
                r as int,
                color,
            ),
            final(self).dirty_rect == grown(
                old(self).dirty_rect,
                texture_box(
                    old(self).layer@.width,
                    old(self).layer@.height,
                    cx as int,
                    cy as int,
                    r as int,
                ),
            ),
    {
        let ghost before = self.layer@;
        let ghost old_dirty = self.dirty_rect;
        let ghost goal = texture_stamped(before, texture@, cx as int, cy as int, r as int, color);
        let w = self.layer.width();
        let h = self.layer.height();
        let tw = texture.width();
        let th = texture.height();
        let left: i64 = if cx - r > 0 { cx - r } else { 0 };
        let top: i64 = if cy - r > 0 { cy - r } else { 0 };
        let right: i64 = if cx + r < w as i64 { cx + r } else { w as i64 };
        let bottom: i64 = if cy + r < h as i64 { cy + r } else { h as i64 };
        proof {
            self.layer.lemma_view();
            texture.lemma_view();
        }
        if left < right && top < bottom {
            let side: u64 = 2 * (r as u64);
            let mut y: i64 = top;
            while y < bottom
                invariant
                    top <= y <= bottom,
                    0 <= left < right <= w,
                    0 <= top < bottom <= h,
                    cx - r <= left,
                    right <= cx + r,
                    cy - r <= top,
                    bottom <= cy + r,
                    0 < r <= MAX_RADIUS,
                    side == 2 * r,
                    texture@.width == tw,
                    texture@.height == th,
                    self.layer@.width == w,
                    self.layer@.height == h,
                    before.width == w,
                    before.height == h,
                    self.dirty_rect == old_dirty,
                    goal == texture_stamped(before, texture@, cx as int, cy as int, r as int, color),
                    forall|i: int, j: int|
                        0 <= i < w && 0 <= j < h ==> #[trigger] self.layer@.at(i, j) == if left
                            <= i < right && top <= j < y {
                            goal.at(i, j)
                        } else {
                            before.at(i, j)
                        },
                decreases bottom - y,
            {
                let mut x: i64 = left;
                while x < right
                    invariant
                        left <= x <= right,
                        top <= y < bottom,
                        0 <= left < right <= w,
                        0 <= top < bottom <= h,
                        cx - r <= left,
                        right <= cx + r,
                        cy - r <= top,
                        bottom <= cy + r,
                        0 < r <= MAX_RADIUS,
                        side == 2 * r,
                        texture@.width == tw,
                        texture@.height == th,
                        self.layer@.width == w,
                        self.layer@.height == h,
                        before.width == w,
                        before.height == h,
                        self.dirty_rect == old_dirty,
                        goal == texture_stamped(
                            before,
                            texture@,
                            cx as int,
                            cy as int,
                            r as int,
                            color,
                        ),
                        forall|i: int, j: int|
                            0 <= i < w && 0 <= j < h ==> #[trigger] self.layer@.at(i, j) == if left
                                <= i < right && top <= j && (j < y || (j == y && i < x)) {
                                goal.at(i, j)
                            } else {
                                before.at(i, j)
                            },
                    decreases right - x,
                {
                    if tw > 0 && th > 0 {
                        let sx: u64 = (x - (cx - r)) as u64;
                        let sy: u64 = (y - (cy - r)) as u64;
                        assert(sx * tw <= 0xffff_ffff * 0xffff_ffff && sy * th <= 0xffff_ffff
                            * 0xffff_ffff) by (nonlinear_arith)
                            requires
                                0 <= sx <= 0xffff_ffff,
                                0 <= sy <= 0xffff_ffff,
                                0 <= tw <= 0xffff_ffff,
                                0 <= th <= 0xffff_ffff,
                        ;
                        let tx: u64 = sx * (tw as u64) / side;
                        let ty: u64 = sy * (th as u64) / side;
                        assert(tx < tw && ty < th) by (nonlinear_arith)
                            requires
                                tx == (sx * tw) / (side as int),
                                ty == (sy * th) / (side as int),
                                0 <= sx < side,
                                0 <= sy < side,
                                0 < tw,
                                0 < th,
                        ;
                        let t = texture.pixel(tx as u32, ty as u32);
                        let existing = self.layer.pixel(x as u32, y as u32);
                        assert(t.a * color.a <= 255 * 255) by (nonlinear_arith)
                            requires
                                t.a <= 255,
                                color.a <= 255,
                        ;
                        let alpha: u32 = (t.a as u32) * (color.a as u32);
                        if alpha > (existing.a as u32) * 255 {
                            self.layer.set_pixel(
                                x as u32,
                                y as u32,
                                Color { r: color.r, g: color.g, b: color.b, a: (alpha / 255) as u8 },
                            );
                        }
                    }
                    x += 1;
                }
                y += 1;
            }
            let added = Region {
                x: left as u32,
                y: top as u32,
                width: (right - left) as u32,
                height: (bottom - top) as u32,
            };
            self.dirty_rect = match self.dirty_rect {
                Some(d) => {
                    proof {
                        d.lemma_hull(added, w as int, h as int);
                    }
                    Some(d.union(added))
                },
                None => Some(added),
            };
        }
        proof {
            Grid::lemma_equal(self.layer@, goal);
        }
    }

    /// One stamp of a stroke: textured if a texture is given, a filled
    /// circle if not.
    pub fn stamp(
        &mut self,
        texture: Option<&PixelBuffer>,
        cx: i64,
        cy: i64,
        r: i64,
        color: Color,
    )
        requires
            old(self).wf(),
            0 <= r <= MAX_RADIUS,
            -0x1_0000_0000 <= cx <= 0x1_0000_0000,
            -0x1_0000_0000 <= cy <= 0x1_0000_0000,
        ensures
            final(self).wf(),
            final(self).layer@.width == old(self).layer@.width,
            final(self).layer@.height == old(self).layer@.height,
            final(self)@ == old(self)@.stamp(
                texture_view(texture),
                cx as int,
                cy as int,
                r as int,
                color,
            ),
    {
        match texture {
            Some(t) => self.stamp_texture(t, cx, cy, r, color),
            None => self.stamp_circle(cx, cy, r, color),
        }
    }

    /// Strokes the segment from `a` to `b`: walks it in steps of the given
    /// length (in hundredths of a pixel) and puts a stamp of half-size `r`
    /// at both ends and at every step.
    pub fn stamp_segment(
        &mut self,
        texture: Option<&PixelBuffer>,
        a: FinePoint,
        b: FinePoint,
        step_hundredths: u64,
        r: i64,
        color: Color,
    )
        requires
            old(self).wf(),
            a.bounded(),
            b.bounded(),
            100 <= step_hundredths <= 0x7fff_ffff_ffff_ffff,
            0 <= r <= MAX_RADIUS,
        ensures
            final(self).wf(),
            final(self).layer@.width == old(self).layer@.width,
            final(self).layer@.height == old(self).layer@.height,
            final(self)@ == old(self)@.stroke(
                texture_view(texture),
                a,
                b,
                step_hundredths as int,
                r as int,
                color,
            ),
    {
        let ghost before = self.layer@;
        let ghost old_dirty = self.dirty_rect;
        let steps = segment_step_count(a, b, step_hundredths);
        let mut i: u64 = 0;
        while i <= steps
            invariant
                0 <= i <= steps + 1,
                1 <= steps <= 0xffff_ffff_ffff,
                a.bounded(),
                b.bounded(),
                0 <= r <= MAX_RADIUS,
                self.wf(),
                self.layer@.width == before.width,
                self.layer@.height == before.height,
                self.layer@ == stroke_upto(
                    before,
                    texture_view(texture),
                    a,
                    b,
                    steps as int,
                    r as int,
                    color,
                    i as nat,
                ),
                self.dirty_rect == dirty_upto(
                    old_dirty,
                    before.width,
                    before.height,
                    texture.is_some(),
                    a,
                    b,
                    steps as int,
                    r as int,
                    i as nat,
                ),
            decreases steps + 1 - i,
        {
            let px = lerp_to_pixel(a.x, b.x, steps, i);
            let py = lerp_to_pixel(a.y, b.y, steps, i);
            self.stamp(texture, px, py, r, color);
            i += 1;
        }
    }

    /// Makes every pixel of the dirty block transparent and forgets the block.
    pub fn clear_dirty(&mut self)
        requires
            old(self).wf(),
        ensures
            final(self).wf(),
            final(self).layer@.width == old(self).layer@.width,
            final(self).layer@.height == old(self).layer@.height,
            final(self)@ == old(self)@.erased(),
    {
        let ghost before = self.layer@;
        proof {
            self.layer.lemma_view();
        }
        match self.dirty_rect {
            None => {},
            Some(d) => {
                let mut ly: u32 = 0;
                while ly < d.height
                    invariant
                        ly <= d.height,
                        d.within(before.width, before.height),
                        self.layer@.width == before.width,
                        self.layer@.height == before.height,
                        forall|i: int, j: int|
                            before.contains(i, j) ==> #[trigger] self.layer@.at(i, j) == if d.covers(
                                i,
                                j,
                            ) && j < d.y + ly {
                                Color::clear()
                            } else {
                                before.at(i, j)
                            },
                    decreases d.height - ly,
                {
                    let mut lx: u32 = 0;
                    while lx < d.width
                        invariant
                            lx <= d.width,
                            ly < d.height,
                            d.within(before.width, before.height),
                            self.layer@.width == before.width,
                            self.layer@.height == before.height,
                            forall|i: int, j: int|
                                before.contains(i, j) ==> #[trigger] self.layer@.at(i, j)
                                    == if d.covers(i, j) && (j < d.y + ly || (j == d.y + ly && i
                                    < d.x + lx)) {
                                    Color::clear()
                                } else {
                                    before.at(i, j)
                                },
                        decreases d.width - lx,
                    {
                        self.layer.set_pixel(d.x + lx, d.y + ly, Color::transparent());
                        lx += 1;
                    }
                    ly += 1;
                }
                self.dirty_rect = None;
                proof {
                    Grid::lemma_equal(self.layer@, cleared(before, d));
                }
            },
        }
    }

    /// Makes every painted pixel of the block `d` transparent.
    fn wipe(&mut self, d: Region)
        requires
            d.within(old(self).layer@.width, old(self).layer@.height),
        ensures
            final(self).layer@ == wiped(old(self).layer@, d),
            final(self).dirty_rect == old(self).dirty_rect,
    {
        let ghost before = self.layer@;
        proof {
            self.layer.lemma_view();
        }
        let mut ly: u32 = 0;
        while ly < d.height
            invariant
                ly <= d.height,
                d.within(before.width, before.height),
                self.layer@.width == before.width,
                self.layer@.height == before.height,
                self.dirty_rect == old(self).dirty_rect,
                forall|i: int, j: int|
                    before.contains(i, j) ==> #[trigger] self.layer@.at(i, j) == if j < d.y + ly {
                        wiped(before, d).at(i, j)
                    } else {
                        before.at(i, j)
                    },
            decreases d.height - ly,
        {
            let mut lx: u32 = 0;
            while lx < d.width
                invariant
                    lx <= d.width,
                    ly < d.height,
                    d.within(before.width, before.height),
                    self.layer@.width == before.width,
                    self.layer@.height == before.height,
                    self.dirty_rect == old(self).dirty_rect,
                    forall|i: int, j: int|
                        before.contains(i, j) ==> #[trigger] self.layer@.at(i, j) == if j < d.y + ly
                            || (j == d.y + ly && i < d.x + lx) {
                            wiped(before, d).at(i, j)
                        } else {
                            before.at(i, j)
                        },
                decreases d.width - lx,
            {
                let p = self.layer.pixel(d.x + lx, d.y + ly);
                if p.a > 0 {
                    self.layer.set_pixel(d.x + lx, d.y + ly, Color::transparent());
                }
                lx += 1;
            }
            ly += 1;
        }
        proof {
            Grid::lemma_equal(self.layer@, wiped(before, d));
        }
    }

    /// Transfers every painted scratch pixel of the block `d` into `target`
    /// and makes it transparent in the scratch buffer.
    fn transfer(&mut self, target: &mut PixelBuffer, d: Region, alpha_locked: bool, erase: bool)
        requires
            d.within(old(self).layer@.width, old(self).layer@.height),
            old(target)@.width == old(self).layer@.width,
            old(target)@.height == old(self).layer@.height,
        ensures
            final(target)@ == committed(old(target)@, old(self).layer@, d, alpha_locked, erase),
            final(self).layer@ == wiped(old(self).layer@, d),
            final(self).dirty_rect == old(self).dirty_rect,
    {
        let ghost before = self.layer@;
        let ghost under = target@;
        proof {
            self.layer.lemma_view();
            target.lemma_view();
        }
        let mut ly: u32 = 0;
        while ly < d.height
            invariant
                ly <= d.height,
                d.within(before.width, before.height),
                self.layer@.width == before.width,
                self.layer@.height == before.height,
                target@.width == before.width,
                target@.height == before.height,
                under.width == before.width,
                under.height == before.height,
                self.dirty_rect == old(self).dirty_rect,
                forall|i: int, j: int|
                    before.contains(i, j) ==> #[trigger] self.layer@.at(i, j) == if j < d.y + ly {
                        wiped(before, d).at(i, j)
                    } else {
                        before.at(i, j)
                    },
                forall|i: int, j: int|
                    before.contains(i, j) ==> #[trigger] target@.at(i, j) == if j < d.y + ly {
                        committed(under, before, d, alpha_locked, erase).at(i, j)
                    } else {
                        under.at(i, j)
                    },
            decreases d.height - ly,
        {
            let mut lx: u32 = 0;
            while lx < d.width
                invariant
                    lx <= d.width,
                    ly < d.height,
                    d.within(before.width, before.height),
                    self.layer@.width == before.width,
                    self.layer@.height == before.height,
                    target@.width == before.width,
                    target@.height == before.height,
                    under.width == before.width,
                    under.height == before.height,
                    self.dirty_rect == old(self).dirty_rect,
                    forall|i: int, j: int|
                        before.contains(i, j) ==> #[trigger] self.layer@.at(i, j) == if j < d.y + ly
                            || (j == d.y + ly && i < d.x + lx) {
                            wiped(before, d).at(i, j)
                        } else {
                            before.at(i, j)
                        },
                    forall|i: int, j: int|
                        before.contains(i, j) ==> #[trigger] target@.at(i, j) == if j < d.y + ly
                            || (j == d.y + ly && i < d.x + lx) {
                            committed(under, before, d, alpha_locked, erase).at(i, j)
                        } else {
                            under.at(i, j)
                        },
                decreases d.width - lx,
            {
                let x = d.x + lx;
                let y = d.y + ly;
                let stroke = self.layer.pixel(x, y);
                if stroke.a > 0 {
                    if erase {
                        target.set_pixel(x, y, Color::transparent());
                    } else {
                        let existing = target.pixel(x, y);
                        if !alpha_locked {
                            target.set_pixel(x, y, stroke);
                        } else if existing.a > 0 {
                            target.set_pixel(
                                x,
                                y,
                                Color { r: stroke.r, g: stroke.g, b: stroke.b, a: existing.a },
                            );
                        }
                    }
                    self.layer.set_pixel(x, y, Color::transparent());
                }
                lx += 1;
            }
            ly += 1;
        }
        proof {
            Grid::lemma_equal(self.layer@, wiped(before, d));
            Grid::lemma_equal(target@, committed(under, before, d, alpha_locked, erase));
        }
    }

    /// Ends a gesture: commits the stroke into the active layer and returns
    /// the command that undoes it, as `commit_result` says.
    pub fn commit(&mut self, image: &mut ImageStore, name: &str, erase: bool) -> (cmd: Option<
        PatchCommand,
    >)
        requires
            old(self).wf(),
            old(image).wf(),
            old(self).sized(old(image).width, old(image).height),
        ensures
            final(self).wf(),
            final(self).sized(old(image).width, old(image).height),
            final(self)@ == old(self)@.released(),
            final(image).wf(),
            commit_result(old(self)@, *old(image), *final(image), cmd, name@, erase),
            cmd matches Some(c) ==> c.records(
                pixel_state(old(image).layers@),
                pixel_state(final(image).layers@),
            ),
    {
        let ghost before = *image;
        let ghost scratch_before = self.layer@;
        proof {
            self.layer.lemma_view();
        }
        let d = match self.dirty_rect {
            None => {
                return None;
            },
            Some(d) => d,
        };
        self.dirty_rect = None;
        let idx = image.active_layer;
        if idx < image.layers.len() {
            let alpha_locked = image.layers[idx].alpha_locked;
            assert(layer_sized(before.layers@[idx as int], before.width as int, before.height as int));
            match image.layers[idx].data.buffer_mut() {
                Some(target) => {
                    let ghost under = target@;
                    let old_patch = target.crop(d.x, d.y, d.width, d.height);
                    self.transfer(target, d, alpha_locked, erase);
                    let new_patch = target.crop(d.x, d.y, d.width, d.height);
                    image.mark_dirty();
                    proof {
                        assert forall|i: int| 0 <= i < image.layers@.len() implies layer_sized(
                            #[trigger] image.layers@[i],
                            image.width as int,
                            image.height as int,
                        ) by {
                            assert(layer_sized(
                                before.layers@[i],
                                before.width as int,
                                before.height as int,
                            ));
                        }
                    }
                    let cmd = PatchCommand {
                        name: name.to_string(),
                        layer_index: idx,
                        x: d.x,
                        y: d.y,
                        old_patch,
                        new_patch,
                    };
                    proof {
                        lemma_commit_records(
                            old(self)@,
                            before,
                            *image,
                            Some(cmd),
                            name@,
                            erase,
                        );
                    }
                    return Some(cmd);
                },
                None => {},
            }
            assert(image.layers@ =~= before.layers@);
        }
        self.wipe(d);
        None
    }

    /// The scratch buffer for a live preview, with the offset at which to
    /// show it, while the gesture has a dirty block.
    pub fn preview(&self) -> (p: Option<(&PixelBuffer, u32, u32)>)
        ensures
            p == match self.dirty_rect {
                Some(_) => Some((&self.layer, 0u32, 0u32)),
                None => None,
            },
    {
        if self.dirty_rect.is_some() {
            Some((&self.layer, 0, 0))
        } else {
            None
        }
    }
}

} // verus!
