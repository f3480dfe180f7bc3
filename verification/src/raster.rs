//! Pixel grids: the mathematical model of a raster, and the colour buffer that
//! the `image` crate stores for the editor.

use vstd::prelude::*;

verus! {

/// One RGBA sample with eight bits per channel, in straight (non-premultiplied) form.
#[derive(Clone, Copy, Debug, PartialEq, Eq, Structural)]
pub struct Color {
    pub r: u8,
    pub g: u8,
    pub b: u8,
    pub a: u8,
}

impl Color {
    /// The fully transparent pixel that fresh buffers are filled with.
    pub open spec fn clear() -> Color {
        Color { r: 0, g: 0, b: 0, a: 0 }
    }

    pub fn new(r: u8, g: u8, b: u8, a: u8) -> (c: Color)
        ensures
            c == (Color { r, g, b, a }),
    {
        Color { r, g, b, a }
    }

    pub fn transparent() -> (c: Color)
        ensures
            c == Color::clear(),
    {
        Color { r: 0, g: 0, b: 0, a: 0 }
    }
}

/// A rectangular grid of cells addressed by `(x, y)`, `x` running left to right
/// and `y` top to bottom. This is what a buffer *is*, whatever holds its bytes.
#[verifier::ext_equal]
pub struct Grid<T> {
    pub width: int,
    pub height: int,
    pub cells: Map<(int, int), T>,
}

impl<T> Grid<T> {
    pub open spec fn contains(self, x: int, y: int) -> bool {
        0 <= x < self.width && 0 <= y < self.height
    }

    pub open spec fn at(self, x: int, y: int) -> T {
        self.cells[(x, y)]
    }

    /// The grid of the given size whose cell `(x, y)` is `f(x, y)`.
    pub open spec fn build(width: int, height: int, f: spec_fn(int, int) -> T) -> Grid<T> {
        Grid {
            width,
            height,
            cells: Map::new(
                |k: (int, int)| 0 <= k.0 < width && 0 <= k.1 < height,
                |k: (int, int)| f(k.0, k.1),
            ),
        }
    }

    /// Exactly the cells inside the bounds are present.
    pub open spec fn wf(self) -> bool {
        &&& 0 <= self.width
        &&& 0 <= self.height
        &&& forall|k: (int, int)| #[trigger]
            self.cells.dom().contains(k) <==> (0 <= k.0 < self.width && 0 <= k.1 < self.height)
    }

    pub open spec fn filled(width: int, height: int, v: T) -> Grid<T> {
        Self::build(width, height, |x: int, y: int| v)
    }

    /// The same grid with `v` at `(x, y)`.
    pub open spec fn set(self, x: int, y: int, v: T) -> Grid<T> {
        Self::build(
            self.width,
            self.height,
            |i: int, j: int|
                if i == x && j == y {
                    v
                } else {
                    self.at(i, j)
                },
        )
    }

    /// The `w` by `h` block whose top-left corner is `(x, y)` of this grid.
    pub open spec fn crop(self, x: int, y: int, w: int, h: int) -> Grid<T> {
        Self::build(w, h, |i: int, j: int| self.at(x + i, y + j))
    }

    /// Does `other`, placed with its top-left corner at `(x, y)`, lie inside this grid?
    pub open spec fn admits(self, other: Grid<T>, x: int, y: int) -> bool {
        0 <= x && 0 <= y && x + other.width <= self.width && y + other.height <= self.height
    }

    /// Is `(i, j)` covered by a `w` by `h` block placed at `(x, y)`?
    pub open spec fn in_block(i: int, j: int, x: int, y: int, w: int, h: int) -> bool {
        x <= i < x + w && y <= j < y + h
    }

    /// This grid with `other` copied over it, top-left corner at `(x, y)`.
    pub open spec fn paste(self, other: Grid<T>, x: int, y: int) -> Grid<T> {
        Self::build(
            self.width,
            self.height,
            |i: int, j: int|
                if Self::in_block(i, j, x, y, other.width, other.height) {
                    other.at(i - x, j - y)
                } else {
                    self.at(i, j)
                },
        )
    }

    /// Raster order: has `(i, j)` been passed when a row-by-row scan stands at `(x, y)`?
    pub open spec fn passed(i: int, j: int, x: int, y: int) -> bool {
        j < y || (j == y && i < x)
    }

    /// Two well-formed grids of one size that agree cell by cell are the same grid.
    pub proof fn lemma_equal(a: Grid<T>, b: Grid<T>)
        requires
            a.wf(),
            b.wf(),
            a.width == b.width,
            a.height == b.height,
            forall|x: int, y: int| a.contains(x, y) ==> #[trigger] a.at(x, y) == b.at(x, y),
        ensures
            a == b,
    {
        assert forall|k: (int, int)| a.cells.dom().contains(k) implies #[trigger] a.cells[k]
            == b.cells[k] by {
            assert(a.contains(k.0, k.1));
            assert(a.at(k.0, k.1) == b.at(k.0, k.1));
        }
        assert(a.cells =~= b.cells);
        assert(a =~= b);
    }
}

/// Can a buffer of this size be allocated at all? Four bytes per pixel must
/// stay within what one allocation may hold.
pub open spec fn fits(width: u32, height: u32) -> bool {
    width as int * height as int * 4 <= isize::MAX as int
}

/// Decides `fits` at run time.
pub fn can_allocate(width: u32, height: u32) -> (ok: bool)
    ensures
        ok == fits(width, height),
{
    assert(width as int * height as int <= 0xffff_ffff * 0xffff_ffff) by (nonlinear_arith)
        requires
            width <= 0xffff_ffff,
            height <= 0xffff_ffff,
    ;
    let area: u64 = (width as u64) * (height as u64);
    let limit: u64 = (isize::MAX as u64) / 4;
    area <= limit
}

/// An RGBA8 raster held by the `image` crate (`image::RgbaImage`). The verifier
/// does not look inside: all it knows of a buffer comes from the three
/// functions below and from the contracts of the calls that follow them.
#[verifier::external_body]
pub struct PixelBuffer {
    img: image::RgbaImage,
}

/// Width of a buffer in pixels, as `RgbaImage::width` reports it.
pub uninterp spec fn buffer_width(buf: PixelBuffer) -> u32;

/// Height of a buffer in pixels, as `RgbaImage::height` reports it.
pub uninterp spec fn buffer_height(buf: PixelBuffer) -> u32;

/// The pixel that `RgbaImage::get_pixel` reads at each in-bounds `(x, y)`.
pub uninterp spec fn buffer_pixels(buf: PixelBuffer) -> Map<(int, int), Color>;

/// What `image::imageops::resize` with `FilterType::Nearest` makes of a raster
/// when asked for `nwidth` by `nheight` pixels.
pub uninterp spec fn nearest_resize(src: Grid<Color>, nwidth: u32, nheight: u32) -> Grid<Color>;

/// Room for the intermediate raster of 32-bit samples that resampling a
/// `width`-wide source to `nheight` rows allocates.
pub open spec fn fits_resample(width: u32, nheight: u32) -> bool {
    width as int * nheight as int * 16 <= isize::MAX as int
}

/// Decides `fits_resample` at run time.
pub fn can_resample(width: u32, nheight: u32) -> (ok: bool)
    ensures
        ok == fits_resample(width, nheight),
{
    assert(width as int * nheight as int <= 0xffff_ffff * 0xffff_ffff) by (nonlinear_arith)
        requires
            width <= 0xffff_ffff,
            nheight <= 0xffff_ffff,
    ;
    let area: u64 = (width as u64) * (nheight as u64);
    let limit: u64 = (isize::MAX as u64) / 16;
    area <= limit
}

impl View for PixelBuffer {
    type V = Grid<Color>;

    open spec fn view(&self) -> Grid<Color> {
        Grid::build(
            buffer_width(*self) as int,
            buffer_height(*self) as int,
            |x: int, y: int| buffer_pixels(*self)[(x, y)],
        )
    }
}

/// The pixel that a row-major RGBA8 byte sequence holds at `(x, y)` of a
/// raster `width` pixels wide.
pub open spec fn decoded_pixel(bytes: Seq<u8>, width: int, x: int, y: int) -> Color {
    let i = 4 * (y * width + x);
    Color { r: bytes[i], g: bytes[i + 1], b: bytes[i + 2], a: bytes[i + 3] }
}

/// The raster that a row-major RGBA8 byte sequence holds.
pub open spec fn decoded(width: int, height: int, bytes: Seq<u8>) -> Grid<Color> {
    Grid::build(width, height, |x: int, y: int| decoded_pixel(bytes, width, x, y))
}

impl Clone for PixelBuffer {
    /// `RgbaImage::clone`: a buffer of the same size with the same pixels.
    #[verifier::external_body]
    fn clone(&self) -> (copy: Self)
        ensures
            copy@ == self@,
    {
        PixelBuffer { img: self.img.clone() }
    }
}

impl PixelBuffer {
    /// `RgbaImage::new`: a buffer of the given size with every channel of every
    /// pixel zero. The size must be allocatable; the crate panics otherwise.
    #[verifier::external_body]
    fn raw_new(width: u32, height: u32) -> (buf: PixelBuffer)
        requires
            fits(width, height),
        ensures
            buf@ == Grid::filled(width as int, height as int, Color::clear()),
    {
        PixelBuffer { img: image::RgbaImage::new(width, height) }
    }

    /// `RgbaImage::width`.
    #[verifier::external_body]
    fn raw_width(&self) -> (w: u32)
        ensures
            w == buffer_width(*self),
    {
        self.img.width()
    }

    /// `RgbaImage::height`.
    #[verifier::external_body]
    fn raw_height(&self) -> (h: u32)
        ensures
            h == buffer_height(*self),
    {
        self.img.height()
    }

    /// `RgbaImage::get_pixel`: the four channels stored at `(x, y)`. The crate
    /// panics outside the bounds, so they are required.
    #[verifier::external_body]
    fn raw_get(&self, x: u32, y: u32) -> (c: Color)
        requires
            x < buffer_width(*self),
            y < buffer_height(*self),
        ensures
            c == buffer_pixels(*self)[(x as int, y as int)],
    {
        let p = self.img.get_pixel(x, y);
        Color { r: p.0[0], g: p.0[1], b: p.0[2], a: p.0[3] }
    }

    /// `RgbaImage::put_pixel`: stores `c` at `(x, y)`; the size and every other
    /// pixel stay. The crate panics outside the bounds, so they are required.
    #[verifier::external_body]
    fn raw_put(&mut self, x: u32, y: u32, c: Color)
        requires
            x < buffer_width(*old(self)),
            y < buffer_height(*old(self)),
        ensures
            final(self)@ == old(self)@.set(x as int, y as int, c),
    {
        self.img.put_pixel(x, y, image::Rgba([c.r, c.g, c.b, c.a]));
    }

    /// `GenericImageView::view` followed by `SubImage::to_image`: a fresh buffer
    /// holding the `w` by `h` block at `(x, y)`. The view panics unless the
    /// block lies inside the buffer.
    #[verifier::external_body]
    fn raw_crop(&self, x: u32, y: u32, w: u32, h: u32) -> (block: PixelBuffer)
        requires
            x + w <= buffer_width(*self),
            y + h <= buffer_height(*self),
        ensures
            block@ == self@.crop(x as int, y as int, w as int, h as int),
    {
        PixelBuffer { img: image::GenericImageView::view(&self.img, x, y, w, h).to_image() }
    }

    /// `GenericImage::copy_from`: succeeds exactly when `other` placed at
    /// `(x, y)` lies inside this buffer, and then overwrites that block with
    /// `other`; on failure nothing is written.
    #[verifier::external_body]
    fn raw_copy_from(&mut self, other: &PixelBuffer, x: u32, y: u32) -> (done: bool)
        ensures
            done == old(self)@.admits(other@, x as int, y as int),
            done ==> final(self)@ == old(self)@.paste(other@, x as int, y as int),
            !done ==> final(self)@ == old(self)@,
    {
        image::GenericImage::copy_from(&mut self.img, &other.img, x, y).is_ok()
    }

    /// `image::imageops::resize` with `FilterType::Nearest`. The result has the
    /// size asked for; when that is the source's own size the crate returns a
    /// copy. Both sizes must be allocatable and nonzero.
    #[verifier::external_body]
    fn raw_resize_nearest(&self, nwidth: u32, nheight: u32) -> (out: PixelBuffer)
        requires
            nwidth >= 1,
            nheight >= 1,
            fits(nwidth, nheight),
            fits_resample(buffer_width(*self), nheight),
        ensures
            out@ == nearest_resize(self@, nwidth, nheight),
            out@.width == nwidth,
            out@.height == nheight,
            nwidth == buffer_width(*self) && nheight == buffer_height(*self) ==> out@ == self@,
    {
        let f = image::imageops::FilterType::Nearest;
        PixelBuffer { img: image::imageops::resize(&self.img, nwidth, nheight, f) }
    }

    /// `RgbaImage::from_raw`: takes the bytes as a row-major RGBA8 raster
    /// if there are enough of them for the size, and gives nothing if
    /// there are not.
    #[verifier::external_body]
    fn raw_from_bytes(width: u32, height: u32, bytes: Vec<u8>) -> (buf: Option<PixelBuffer>)
        ensures
            buf.is_some() == (width as int * height as int * 4 <= bytes@.len()),
            buf matches Some(b) ==> b@ == decoded(width as int, height as int, bytes@),
    {
        match image::RgbaImage::from_raw(width, height, bytes) {
            Some(img) => Some(PixelBuffer { img }),
            None => None,
        }
    }

    /// `RgbaImage::as_raw`, cloned: the bytes of the raster, row-major,
    /// four per pixel, at least as many as the size asks for.
    #[verifier::external_body]
    fn raw_to_bytes(&self) -> (bytes: Vec<u8>)
        ensures
            bytes@.len() >= buffer_width(*self) as int * buffer_height(*self) as int * 4,
            self@ == decoded(buffer_width(*self) as int, buffer_height(*self) as int, bytes@),
    {
        self.img.as_raw().clone()
    }

    /// Every view is a well-formed grid of the buffer's own size.
    pub proof fn lemma_view(&self)
        ensures
            self@.wf(),
            self@.width == buffer_width(*self),
            self@.height == buffer_height(*self),
            self@.width <= u32::MAX,
            self@.height <= u32::MAX,
    {
    }

    /// A transparent buffer of the given size.
    pub fn new(width: u32, height: u32) -> (buf: PixelBuffer)
        requires
            fits(width, height),
        ensures
            buf@ == Grid::filled(width as int, height as int, Color::clear()),
    {
        Self::raw_new(width, height)
    }

    /// The buffer that holds the given row-major RGBA8 bytes, if there are
    /// enough of them for the size.
    pub fn from_bytes(width: u32, height: u32, bytes: Vec<u8>) -> (buf: Option<PixelBuffer>)
        ensures
            buf.is_some() == (width as int * height as int * 4 <= bytes@.len()),
            buf matches Some(b) ==> b@ == decoded(width as int, height as int, bytes@),
    {
        Self::raw_from_bytes(width, height, bytes)
    }

    /// The buffer's bytes, row-major, four per pixel.
    pub fn to_bytes(&self) -> (bytes: Vec<u8>)
        ensures
            bytes@.len() >= self@.width * self@.height * 4,
            self@ == decoded(self@.width, self@.height, bytes@),
    {
        self.raw_to_bytes()
    }

    pub fn width(&self) -> (w: u32)
        ensures
            w == self@.width,
    {
        self.raw_width()
    }

    pub fn height(&self) -> (h: u32)
        ensures
            h == self@.height,
    {
        self.raw_height()
    }

    /// The pixel at `(x, y)`, or nothing outside the buffer.
    pub fn get_pixel(&self, x: u32, y: u32) -> (p: Option<Color>)
        ensures
            p == if self@.contains(x as int, y as int) {
                Some(self@.at(x as int, y as int))
            } else {
                None
            },
    {
        if x < self.raw_width() && y < self.raw_height() {
            Some(self.raw_get(x, y))
        } else {
            None
        }
    }

    /// Stores `c` at `(x, y)`; outside the buffer the call changes nothing and
    /// says so.
    pub fn put_pixel(&mut self, x: u32, y: u32, c: Color) -> (stored: bool)
        ensures
            stored == old(self)@.contains(x as int, y as int),
            final(self)@ == if stored {
                old(self)@.set(x as int, y as int, c)
            } else {
                old(self)@
            },
    {
        if x < self.raw_width() && y < self.raw_height() {
            self.raw_put(x, y, c);
            true
        } else {
            false
        }
    }

    /// The pixel at an in-bounds position.
    pub fn pixel(&self, x: u32, y: u32) -> (c: Color)
        requires
            self@.contains(x as int, y as int),
        ensures
            c == self@.at(x as int, y as int),
    {
        self.raw_get(x, y)
    }

    /// Overwrites an in-bounds pixel.
    pub fn set_pixel(&mut self, x: u32, y: u32, c: Color)
        requires
            old(self)@.contains(x as int, y as int),
        ensures
            final(self)@ == old(self)@.set(x as int, y as int, c),
    {
        self.raw_put(x, y, c);
    }

    /// A copy of the block of `w` by `h` pixels at `(x, y)`.
    pub fn crop(&self, x: u32, y: u32, w: u32, h: u32) -> (block: PixelBuffer)
        requires
            x + w <= self@.width,
            y + h <= self@.height,
        ensures
            block@ == self@.crop(x as int, y as int, w as int, h as int),
    {
        self.raw_crop(x, y, w, h)
    }

    /// Copies `other` over this buffer at `(x, y)` if it lies inside, and
    /// reports whether it did.
    pub fn copy_from(&mut self, other: &PixelBuffer, x: u32, y: u32) -> (done: bool)
        ensures
            done == old(self)@.admits(other@, x as int, y as int),
            final(self)@ == if done {
                old(self)@.paste(other@, x as int, y as int)
            } else {
                old(self)@
            },
    {
        self.raw_copy_from(other, x, y)
    }

    /// Nearest-neighbour resampling to `nwidth` by `nheight`.
    pub fn resize_nearest(&self, nwidth: u32, nheight: u32) -> (out: PixelBuffer)
        requires
            nwidth >= 1,
            nheight >= 1,
            fits(nwidth, nheight),
            fits_resample(self@.width as u32, nheight),
        ensures
            out@ == nearest_resize(self@, nwidth, nheight),
            out@.width == nwidth,
            out@.height == nheight,
            nwidth == self@.width && nheight == self@.height ==> out@ == self@,
    {
        self.raw_resize_nearest(nwidth, nheight)
    }

    /// Sets every pixel to `c`.
    pub fn fill(&mut self, c: Color)
        ensures
            final(self)@ == Grid::filled(old(self)@.width, old(self)@.height, c),
    {
        let w = self.raw_width();
        let h = self.raw_height();
        let mut y: u32 = 0;
        while y < h
            invariant
                y <= h,
                self@.width == w,
                self@.height == h,
                forall|i: int, j: int| 0 <= i < w && 0 <= j < y ==> #[trigger] self@.at(i, j) == c,
            decreases h - y,
        {
            let mut x: u32 = 0;
            while x < w
                invariant
                    x <= w,
                    y < h,
                    self@.width == w,
                    self@.height == h,
                    forall|i: int, j: int|
                        0 <= i < w && 0 <= j < h && Grid::<Color>::passed(i, j, x as int, y as int)
                            ==> #[trigger] self@.at(i, j) == c,
                decreases w - x,
            {
                self.raw_put(x, y, c);
                x += 1;
            }
            y += 1;
        }
        proof {
            Grid::lemma_equal(self@, Grid::filled(w as int, h as int, c));
        }
    }

    /// Do the two buffers have the same size and the same pixels?
    pub fn same_as(&self, other: &PixelBuffer) -> (same: bool)
        ensures
            same == (self@ == other@),
    {
        let w = self.raw_width();
        let h = self.raw_height();
        if other.raw_width() != w || other.raw_height() != h {
            return false;
        }
        let mut y: u32 = 0;
        while y < h
            invariant
                y <= h,
                self@.width == w,
                self@.height == h,
                other@.width == w,
                other@.height == h,
                forall|i: int, j: int|
                    0 <= i < w && 0 <= j < y ==> #[trigger] self@.at(i, j) == other@.at(i, j),
            decreases h - y,
        {
            let mut x: u32 = 0;
            while x < w
                invariant
                    x <= w,
                    y < h,
                    self@.width == w,
                    self@.height == h,
                    other@.width == w,
                    other@.height == h,
                    forall|i: int, j: int|
                        0 <= i < w && 0 <= j < h && Grid::<Color>::passed(i, j, x as int, y as int)
                            ==> #[trigger] self@.at(i, j) == other@.at(i, j),
                decreases w - x,
            {
                let a = self.raw_get(x, y);
                let b = other.raw_get(x, y);
                if a != b {
                    assert(self@.at(x as int, y as int) != other@.at(x as int, y as int));
                    return false;
                }
                x += 1;
            }
            y += 1;
        }
        proof {
            Grid::lemma_equal(self@, other@);
        }
        true
    }
}

} // verus!
