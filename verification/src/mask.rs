//! The selection mask: one byte per pixel, held by the `image` crate.

use vstd::prelude::*;
use crate::geometry::Region;
use crate::raster::{fits, Grid};

verus! {

/// The value of a selected pixel.
pub const SELECTED: u8 = 255;

/// A single-channel raster (`image::GrayImage`). A pixel counts as selected
/// when its value is not zero. The verifier does not look inside: all it
/// knows of a mask comes from the three functions below and from the
/// contracts of the calls that follow them.
#[verifier::external_body]
pub struct Mask {
    img: image::GrayImage,
}

/// Width of a mask in pixels, as `GrayImage::width` reports it.
pub uninterp spec fn mask_width(mask: Mask) -> u32;

/// Height of a mask in pixels, as `GrayImage::height` reports it.
pub uninterp spec fn mask_height(mask: Mask) -> u32;

/// The value that `GrayImage::get_pixel` reads at each in-bounds `(x, y)`.
pub uninterp spec fn mask_values(mask: Mask) -> Map<(int, int), u8>;

/// Is `(x, y)` a selected pixel of the mask?
pub open spec fn selected(g: Grid<u8>, x: int, y: int) -> bool {
    g.contains(x, y) && g.at(x, y) > 0
}

/// Is `b` the tight bounding box of the selected pixels? It holds them
/// all, and each of its four edges touches one.
pub open spec fn is_bounds(g: Grid<u8>, b: Region) -> bool {
    &&& b.nonempty()
    &&& b.within(g.width, g.height)
    &&& forall|x: int, y: int| selected(g, x, y) ==> b.covers(x, y)
    &&& exists|y: int| #[trigger] selected(g, b.x as int, y)
    &&& exists|y: int| #[trigger] selected(g, b.last_x(), y)
    &&& exists|x: int| #[trigger] selected(g, x, b.y as int)
    &&& exists|x: int| #[trigger] selected(g, x, b.last_y())
}

/// The tight bounding box of the selected pixels, if any pixel is selected.
pub open spec fn bounds_of(g: Grid<u8>) -> Option<Region> {
    if exists|b: Region| is_bounds(g, b) {
        Some(choose|b: Region| is_bounds(g, b))
    } else {
        None
    }
}

/// A mask has at most one tight bounding box.
pub proof fn lemma_bounds_unique(g: Grid<u8>, a: Region, b: Region)
    requires
        is_bounds(g, a),
        is_bounds(g, b),
    ensures
        a == b,
{
    let y1 = choose|y: int| selected(g, a.x as int, y);
    assert(b.covers(a.x as int, y1));
    let y2 = choose|y: int| selected(g, b.x as int, y);
    assert(a.covers(b.x as int, y2));
    let y3 = choose|y: int| selected(g, a.last_x(), y);
    assert(b.covers(a.last_x(), y3));
    let y4 = choose|y: int| selected(g, b.last_x(), y);
    assert(a.covers(b.last_x(), y4));
    let x1 = choose|x: int| selected(g, x, a.y as int);
    assert(b.covers(x1, a.y as int));
    let x2 = choose|x: int| selected(g, x, b.y as int);
    assert(a.covers(x2, b.y as int));
    let x3 = choose|x: int| selected(g, x, a.last_y());
    assert(b.covers(x3, a.last_y()));
    let x4 = choose|x: int| selected(g, x, b.last_y());
    assert(a.covers(x4, b.last_y()));
}

impl View for Mask {
    type V = Grid<u8>;

    open spec fn view(&self) -> Grid<u8> {
        Grid::build(
            mask_width(*self) as int,
            mask_height(*self) as int,
            |x: int, y: int| mask_values(*self)[(x, y)],
        )
    }
}

impl Clone for Mask {
    /// `GrayImage::clone`: a mask of the same size with the same values.
    #[verifier::external_body]
    fn clone(&self) -> (copy: Self)
        ensures
            copy@ == self@,
    {
        Mask { img: self.img.clone() }
    }
}

impl Mask {
    /// `GrayImage::new`: a mask of the given size with every value zero.
    /// The size must be allocatable; the crate panics otherwise.
    #[verifier::external_body]
    fn raw_new(width: u32, height: u32) -> (mask: Mask)
        requires
            fits(width, height),
        ensures
            mask@ == Grid::filled(width as int, height as int, 0u8),
    {
        Mask { img: image::GrayImage::new(width, height) }
    }

    /// `GrayImage::width`.
    #[verifier::external_body]
    fn raw_width(&self) -> (w: u32)
        ensures
            w == mask_width(*self),
    {
        self.img.width()
    }

    /// `GrayImage::height`.
    #[verifier::external_body]
    fn raw_height(&self) -> (h: u32)
        ensures
            h == mask_height(*self),
    {
        self.img.height()
    }

    /// `GrayImage::get_pixel`: the value stored at `(x, y)`. The crate panics
    /// outside the bounds, so they are required.
    #[verifier::external_body]
    fn raw_get(&self, x: u32, y: u32) -> (v: u8)
        requires
            x < mask_width(*self),
            y < mask_height(*self),
        ensures
            v == mask_values(*self)[(x as int, y as int)],
    {
        self.img.get_pixel(x, y).0[0]
    }

    /// `GrayImage::put_pixel`: stores `v` at `(x, y)`; the size and every other
    /// value stay. The crate panics outside the bounds, so they are required.
    #[verifier::external_body]
    fn raw_put(&mut self, x: u32, y: u32, v: u8)
        requires
            x < mask_width(*old(self)),
            y < mask_height(*old(self)),
        ensures
            final(self)@ == old(self)@.set(x as int, y as int, v),
    {
        self.img.put_pixel(x, y, image::Luma([v]));
    }

    /// `GrayImage::as_raw`, cloned: the values of the mask, row-major, one
    /// per pixel, at least as many as the size asks for.
    #[verifier::external_body]
    fn raw_to_bytes(&self) -> (bytes: Vec<u8>)
        ensures
            bytes@.len() >= mask_width(*self) as int * mask_height(*self) as int,
            self@ == Grid::build(
                mask_width(*self) as int,
                mask_height(*self) as int,
                |x: int, y: int| bytes@[y * (mask_width(*self) as int) + x],
            ),
    {
        self.img.as_raw().clone()
    }

    /// Every view is a well-formed grid of the mask's own size.
    pub proof fn lemma_view(&self)
        ensures
            self@.wf(),
            self@.width == mask_width(*self),
            self@.height == mask_height(*self),
            self@.width <= u32::MAX,
            self@.height <= u32::MAX,
    {
    }

    /// A mask of the given size with nothing selected.
    pub fn new(width: u32, height: u32) -> (mask: Mask)
        requires
            fits(width, height),
        ensures
            mask@ == Grid::filled(width as int, height as int, 0u8),
    {
        Self::raw_new(width, height)
    }

    /// The mask's values, row-major, one per pixel.
    pub fn to_bytes(&self) -> (bytes: Vec<u8>)
        ensures
            bytes@.len() >= self@.width * self@.height,
            self@ == Grid::build(
                self@.width,
                self@.height,
                |x: int, y: int| bytes@[y * self@.width + x],
            ),
    {
        self.raw_to_bytes()
    }

    pub fn width(&self) -> (w: u32)
        ensures
            w == self@.width,
    {
        self.raw_width()
    }

    pub fn height(&self) -> (h: u32)
        ensures
            h == self@.height,
    {
        self.raw_height()
    }

    /// The value at `(x, y)`, or nothing outside the mask.
    pub fn get_pixel(&self, x: u32, y: u32) -> (v: Option<u8>)
        ensures
            v == if self@.contains(x as int, y as int) {
                Some(self@.at(x as int, y as int))
            } else {
                None
            },
    {
        if x < self.raw_width() && y < self.raw_height() {
            Some(self.raw_get(x, y))
        } else {
            None
        }
    }

    /// The value at an in-bounds position.
    pub fn value(&self, x: u32, y: u32) -> (v: u8)
        requires
            self@.contains(x as int, y as int),
        ensures
            v == self@.at(x as int, y as int),
    {
        self.raw_get(x, y)
    }

    /// Overwrites an in-bounds value.
    pub fn set_value(&mut self, x: u32, y: u32, v: u8)
        requires
            old(self)@.contains(x as int, y as int),
        ensures
            final(self)@ == old(self)@.set(x as int, y as int, v),
    {
        self.raw_put(x, y, v);
    }

    /// Scans the mask for the tight bounding box of its selected pixels.
    pub fn bounds(&self) -> (b: Option<Region>)
        ensures
            b == bounds_of(self@),
            match b {
                Some(r) => is_bounds(self@, r),
                None => forall|x: int, y: int| !selected(self@, x, y),
            },
    {
        let w = self.raw_width();
        let h = self.raw_height();
        let mut min_x: u32 = w;
        let mut max_x: u32 = 0;
        let mut min_y: u32 = h;
        let mut max_y: u32 = 0;
        let mut found = false;
        let ghost mut left_at: int = 0;
        let ghost mut right_at: int = 0;
        let ghost mut top_at: int = 0;
        let ghost mut bottom_at: int = 0;
        let mut y: u32 = 0;
        while y < h
            invariant
                y <= h,
                self@.width == w,
                self@.height == h,
                forall|i: int, j: int|
                    selected(self@, i, j) && j < y ==> found && min_x <= i <= max_x && min_y <= j
                        <= max_y,
                found ==> min_x <= max_x < w && min_y <= max_y < h && selected(
                    self@,
                    min_x as int,
                    left_at,
                ) && selected(self@, max_x as int, right_at) && selected(self@, top_at, min_y as int)
                    && selected(self@, bottom_at, max_y as int),
            decreases h - y,
        {
            let mut x: u32 = 0;
            while x < w
                invariant
                    x <= w,
                    y < h,
                    self@.width == w,
                    self@.height == h,
                    forall|i: int, j: int|
                        selected(self@, i, j) && (j < y || (j == y && i < x)) ==> found && min_x <= i
                            <= max_x && min_y <= j <= max_y,
                    found ==> min_x <= max_x < w && min_y <= max_y < h && selected(
                        self@,
                        min_x as int,
                        left_at,
                    ) && selected(self@, max_x as int, right_at) && selected(
                        self@,
                        top_at,
                        min_y as int,
                    ) && selected(self@, bottom_at, max_y as int),
                decreases w - x,
            {
                if self.raw_get(x, y) > 0 {
                    assert(selected(self@, x as int, y as int));
                    if !found || x < min_x {
                        min_x = x;
                        proof {
                            left_at = y as int;
                        }
                    }
                    if !found || x > max_x {
                        max_x = x;
                        proof {
                            right_at = y as int;
                        }
                    }
                    if !found || y < min_y {
                        min_y = y;
                        proof {
                            top_at = x as int;
                        }
                    }
                    if !found || y > max_y {
                        max_y = y;
                        proof {
                            bottom_at = x as int;
                        }
                    }
                    found = true;
                }
                x += 1;
            }
            y += 1;
        }
        if found {
            let r = Region {
                x: min_x,
                y: min_y,
                width: max_x - min_x + 1,
                height: max_y - min_y + 1,
            };
            proof {
                assert(selected(self@, r.x as int, left_at));
                assert(selected(self@, r.last_x(), right_at));
                assert(selected(self@, top_at, r.y as int));
                assert(selected(self@, bottom_at, r.last_y()));
                assert(is_bounds(self@, r));
                lemma_bounds_unique(self@, r, choose|b: Region| is_bounds(self@, b));
            }
            Some(r)
        } else {
            proof {
                assert forall|b: Region| !is_bounds(self@, b) by {
                    if is_bounds(self@, b) {
                        let y0 = choose|y: int| selected(self@, b.x as int, y);
                        assert(selected(self@, b.x as int, y0));
                    }
                }
            }
            None
        }
    }

    /// Stores `v` at `(x, y)`; outside the mask the call changes nothing and
    /// says so.
    pub fn put_pixel(&mut self, x: u32, y: u32, v: u8) -> (stored: bool)
        ensures
            stored == old(self)@.contains(x as int, y as int),
            final(self)@ == if stored {
                old(self)@.set(x as int, y as int, v)
            } else {
                old(self)@
            },
    {
        if x < self.raw_width() && y < self.raw_height() {
            self.raw_put(x, y, v);
            true
        } else {
            false
        }
    }
}

} // verus!
