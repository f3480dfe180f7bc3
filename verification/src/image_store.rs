//! The layer stack and its composite.

use vstd::prelude::*;
use crate::blend::{blend_buffer, blend_grid, lemma_opaque_normal_covers};
use crate::layers::{BlendMode, OPAQUE};
use crate::layers::{Layer, LayerData};
use crate::mask::Mask;
use crate::raster::{fits, Color, Grid, PixelBuffer};

verus! {

/// The clip mask of layer `i`: the pixels of the layer directly below, if
/// the layer is clipped, is not the bottom one, and the layer below has pixels.
pub open spec fn clip_mask(layers: Seq<Layer>, i: int) -> Option<Grid<Color>> {
    if layers[i].clipped && i > 0 {
        layers[i - 1].data.pixels()
    } else {
        None
    }
}

/// The accumulator after one more layer: invisible layers and layers
/// without pixels leave it as it is.
pub open spec fn composite_step(below: Grid<Color>, layers: Seq<Layer>, i: int) -> Grid<Color> {
    let layer = layers[i];
    if !layer.visible {
        below
    } else {
        match layer.data.pixels() {
            Some(src) => blend_grid(below, src, layer.opacity, layer.blend, clip_mask(layers, i)),
            None => below,
        }
    }
}

/// The composite of the lowest `n` layers over a transparent canvas.
pub open spec fn composite_upto(width: int, height: int, layers: Seq<Layer>, n: nat) -> Grid<
    Color,
>
    decreases n,
{
    if n == 0 {
        Grid::filled(width, height, Color::clear())
    } else {
        composite_step(composite_upto(width, height, layers, (n - 1) as nat), layers, n - 1)
    }
}

/// The composite of a whole stack, bottom to top, over a transparent canvas.
pub open spec fn composite_of(width: int, height: int, layers: Seq<Layer>) -> Grid<Color> {
    composite_upto(width, height, layers, layers.len())
}

/// Every partial composite has the size of the canvas.
pub proof fn lemma_composite_size(width: int, height: int, layers: Seq<Layer>, n: nat)
    requires
        0 <= width,
        0 <= height,
    ensures
        composite_upto(width, height, layers, n).width == width,
        composite_upto(width, height, layers, n).height == height,
        composite_upto(width, height, layers, n).wf(),
    decreases n,
{
    if n > 0 {
        lemma_composite_size(width, height, layers, (n - 1) as nat);
    }
}

/// Is the layer a visible, unclipped, fully opaque Normal raster of the
/// canvas's size whose every pixel is opaque?
pub open spec fn occluding(layer: Layer, width: int, height: int) -> bool {
    &&& layer.visible
    &&& !layer.clipped
    &&& layer.opacity >= OPAQUE
    &&& layer.blend == BlendMode::Normal
    &&& layer.data.pixels() matches Some(g) && g.wf() && g.width == width && g.height == height
        && forall|x: int, y: int| g.contains(x, y) ==> (#[trigger] g.at(x, y)).a == 255
}

/// Where the top layer of a stack is an opaque Normal layer, the composite
/// is that layer exactly, whatever lies below. For a stack of one such
/// layer the composite is the layer itself.
pub proof fn lemma_opaque_top_occludes(width: int, height: int, layers: Seq<Layer>)
    requires
        0 <= width,
        0 <= height,
        layers.len() >= 1,
        occluding(layers.last(), width, height),
    ensures
        composite_of(width, height, layers) == layers.last().data.pixels().unwrap(),
{
    let n = layers.len();
    let below = composite_upto(width, height, layers, (n - 1) as nat);
    lemma_composite_size(width, height, layers, (n - 1) as nat);
    let top = layers[n - 1];
    assert(clip_mask(layers, n - 1).is_none());
    lemma_opaque_normal_covers(below, top.data.pixels().unwrap(), top.opacity);
}

/// Flattens `layers`, bottom to top, into `dest`, whose size is the canvas.
/// What `dest` held before does not matter.
pub fn composite_layers(dest: &mut PixelBuffer, layers: &Vec<Layer>)
    ensures
        final(dest)@ == composite_of(old(dest)@.width, old(dest)@.height, layers@),
{
    let ghost w = dest@.width;
    let ghost h = dest@.height;
    dest.fill(Color::transparent());
    let n = layers.len();
    let mut i: usize = 0;
    while i < n
        invariant
            i <= n,
            n == layers@.len(),
            dest@ == composite_upto(w, h, layers@, i as nat),
        decreases n - i,
    {
        let layer = &layers[i];
        if layer.visible {
            let mask: Option<&PixelBuffer> = if layer.clipped && i > 0 {
                layers[i - 1].data.buffer()
            } else {
                None
            };
            match layer.data.buffer() {
                Some(img) => {
                    blend_buffer(dest, img, layer.opacity, layer.blend, mask);
                },
                None => {},
            }
        }
        i += 1;
    }
}

/// `after` is `before`, except that the buffer of layer `idx` now holds
/// `pixels`. Nothing else of that layer and no other layer has changed.
pub open spec fn repainted(
    before: Seq<Layer>,
    after: Seq<Layer>,
    idx: int,
    pixels: Grid<Color>,
) -> bool {
    &&& after.len() == before.len()
    &&& 0 <= idx < before.len()
    &&& forall|i: int| 0 <= i < before.len() && i != idx ==> after[i] == before[i]
    &&& before[idx].data.raw().is_some()
    &&& after[idx].data.raw() matches Some(img) && img@ == pixels && after[idx]
        == before[idx].with_buffer(img)
}

/// The pixels of every layer of a stack, bottom to top; a vector layer has none.
pub open spec fn pixel_state(layers: Seq<Layer>) -> Seq<Option<Grid<Color>>> {
    Seq::new(layers.len(), |i: int| layers[i].data.pixels())
}

/// Repainting one layer changes that layer's entry of the pixel state and
/// no other.
pub proof fn lemma_repainted_state(
    before: Seq<Layer>,
    after: Seq<Layer>,
    idx: int,
    pixels: Grid<Color>,
)
    requires
        repainted(before, after, idx, pixels),
    ensures
        pixel_state(after) == pixel_state(before).update(idx, Some(pixels)),
{
    assert(pixel_state(after) =~= pixel_state(before).update(idx, Some(pixels)));
}

/// The pixels of a buffer carried over to a canvas of another size: kept
/// where the two overlap, anchored at the top-left corner, transparent
/// where the canvas has grown.
pub open spec fn carried_over(g: Grid<Color>, width: int, height: int) -> Grid<Color> {
    Grid::build(
        width,
        height,
        |x: int, y: int|
            if g.contains(x, y) {
                g.at(x, y)
            } else {
                Color::clear()
            },
    )
}

/// A layer after the canvas has changed its size: a vector layer stays,
/// any other has its pixels carried over.
pub open spec fn layer_carried_over(before: Layer, after: Layer, width: int, height: int) -> bool {
    match before.data.raw() {
        Some(old) => after.data.raw() matches Some(img) && img@ == carried_over(old@, width, height)
            && after == before.with_buffer(img),
        None => after == before,
    }
}

/// A copy of `src` on a canvas of the given size.
fn carry_over(src: &PixelBuffer, width: u32, height: u32) -> (out: PixelBuffer)
    requires
        fits(width, height),
    ensures
        out@ == carried_over(src@, width as int, height as int),
{
    let mut out = PixelBuffer::new(width, height);
    let w = if src.width() < width { src.width() } else { width };
    let h = if src.height() < height { src.height() } else { height };
    let block = src.crop(0, 0, w, h);
    let done = out.copy_from(&block, 0, 0);
    proof {
        src.lemma_view();
        out.lemma_view();
        assert(done);
        Grid::lemma_equal(out@, carried_over(src@, width as int, height as int));
    }
    out
}

/// Does the layer, if it has pixels, have exactly the canvas's size?
pub open spec fn layer_sized(layer: Layer, width: int, height: int) -> bool {
    match layer.data.pixels() {
        Some(g) => g.width == width && g.height == height,
        None => true,
    }
}

/// A canvas: an ordered stack of layers (index 0 is the bottom), the index
/// of the layer that tools act on, an optional selection mask, and a cached
/// composite with its dirty flag. Whoever changes a layer directly marks the
/// store dirty afterwards.
pub struct ImageStore {
    pub width: u32,
    pub height: u32,
    pub layers: Vec<Layer>,
    pub active_layer: usize,
    pub selection: Option<Mask>,
    pub composite: PixelBuffer,
    pub composite_dirty: bool,
}

impl Clone for ImageStore {
    /// A copy of the whole document: every layer, the selection and the
    /// cache with its flag.
    fn clone(&self) -> (copy: Self)
        ensures
            copy.same_as(self),
    {
        let n = self.layers.len();
        let mut layers: Vec<Layer> = Vec::new();
        let mut i: usize = 0;
        while i < n
            invariant
                i <= n,
                n == self.layers@.len(),
                layers@.len() == i,
                forall|j: int| 0 <= j < i ==> (#[trigger] layers@[j]).same_as(self.layers@[j]),
            decreases n - i,
        {
            layers.push(self.layers[i].clone());
            i += 1;
        }
        ImageStore {
            width: self.width,
            height: self.height,
            layers,
            active_layer: self.active_layer,
            selection: match &self.selection {
                Some(m) => Some(m.clone()),
                None => None,
            },
            composite: self.composite.clone(),
            composite_dirty: self.composite_dirty,
        }
    }
}

impl ImageStore {
    /// Do the two stores hold the same document, layer by layer and pixel
    /// by pixel, with the same cache?
    pub open spec fn same_as(&self, other: &ImageStore) -> bool {
        &&& self.width == other.width
        &&& self.height == other.height
        &&& self.active_layer == other.active_layer
        &&& self.composite_dirty == other.composite_dirty
        &&& self.composite@ == other.composite@
        &&& match (self.selection, other.selection) {
            (Some(a), Some(b)) => a@ == b@,
            (None, None) => true,
            _ => false,
        }
        &&& self.layers@.len() == other.layers@.len()
        &&& forall|i: int|
            0 <= i < self.layers@.len() ==> (#[trigger] self.layers@[i]).same_as(other.layers@[i])
    }

    /// The composite that the stack's layers give right now.
    pub open spec fn flattened(&self) -> Grid<Color> {
        composite_of(self.width as int, self.height as int, self.layers@)
    }

    /// The canvas can be allocated, and every buffer that belongs to it has
    /// its size: the cache, each raster or tone layer, and the selection.
    pub open spec fn wf(&self) -> bool {
        &&& fits(self.width, self.height)
        &&& self.composite@.width == self.width
        &&& self.composite@.height == self.height
        &&& forall|i: int|
            0 <= i < self.layers@.len() ==> layer_sized(
                #[trigger] self.layers@[i],
                self.width as int,
                self.height as int,
            )
        &&& match self.selection {
            Some(m) => m@.width == self.width && m@.height == self.height,
            None => true,
        }
    }

    /// The cache is either marked dirty or holds the stack's composite.
    pub open spec fn cache_valid(&self) -> bool {
        self.composite_dirty || self.composite@ == self.flattened()
    }

    /// Do the two stores differ at most in their layers and the dirty flag?
    pub open spec fn same_canvas(&self, other: &ImageStore) -> bool {
        &&& self.width == other.width
        &&& self.height == other.height
        &&& self.active_layer == other.active_layer
        &&& self.selection == other.selection
        &&& self.composite == other.composite
    }

    /// Do the two stores differ at most in their cache and its flag?
    pub open spec fn same_document(&self, other: &ImageStore) -> bool {
        &&& self.width == other.width
        &&& self.height == other.height
        &&& self.layers@ == other.layers@
        &&& self.active_layer == other.active_layer
        &&& self.selection == other.selection
    }

    /// What `composite` makes of a store: the document stays, the cache is
    /// no longer marked dirty, and it holds the stack's composite if it
    /// was marked dirty and what it held if it was not.
    pub open spec fn composited(&self, before: &ImageStore) -> bool {
        &&& self.same_document(before)
        &&& !self.composite_dirty
        &&& self.composite@ == if before.composite_dirty {
            before.flattened()
        } else {
            before.composite@
        }
    }

    /// Compositing is idempotent. Compositing again right away gives the
    /// same output; and so does compositing again after the unchanged
    /// stack has been marked dirty, as long as the cache was valid to
    /// begin with.
    pub proof fn lemma_composite_idempotent(
        first: ImageStore,
        once: ImageStore,
        twice: ImageStore,
        marked: ImageStore,
        again: ImageStore,
    )
        requires
            once.composited(&first),
            twice.composited(&once),
            marked.same_document(&once),
            marked.composite_dirty,
            again.composited(&marked),
        ensures
            twice.composite@ == once.composite@,
            first.cache_valid() ==> again.composite@ == once.composite@,
            once.cache_valid() ==> again.cache_valid(),
    {
    }

    /// A canvas of the given size with one opaque white raster layer,
    /// already composited.
    pub fn new(width: u32, height: u32) -> (store: ImageStore)
        requires
            fits(width, height),
        ensures
            store.wf(),
            store.width == width,
            store.height == height,
            store.layers@.len() == 1,
            store.layers@[0].data is Raster,
            store.layers@[0].data.pixels() == Some(
                Grid::filled(width as int, height as int, Color { r: 255, g: 255, b: 255, a: 255 }),
            ),
            store.layers@[0].visible && !store.layers@[0].alpha_locked && !store.layers@[0].clipped,
            store.layers@[0].opacity == crate::layers::OPAQUE,
            store.layers@[0].blend == crate::layers::BlendMode::Normal,
            store.active_layer == 0,
            store.selection.is_none(),
            !store.composite_dirty,
            store.composite@ == store.flattened(),
    {
        let mut img = PixelBuffer::new(width, height);
        img.fill(Color { r: 255, g: 255, b: 255, a: 255 });
        Self::from_buffer(img, "Layer 1".to_string())
    }

    /// A canvas with the size of `buffer` and one raster layer that holds it,
    /// already composited.
    pub fn from_buffer(buffer: PixelBuffer, name: String) -> (store: ImageStore)
        requires
            fits(buffer@.width as u32, buffer@.height as u32),
        ensures
            store.wf(),
            store.width == buffer@.width,
            store.height == buffer@.height,
            store.layers@.len() == 1,
            store.layers@[0].name == name,
            store.layers@[0].data is Raster,
            store.layers@[0].data.pixels() == Some(buffer@),
            store.layers@[0].visible && !store.layers@[0].alpha_locked && !store.layers@[0].clipped
                && !store.layers@[0].locked,
            store.layers@[0].opacity == crate::layers::OPAQUE,
            store.layers@[0].blend == crate::layers::BlendMode::Normal,
            store.active_layer == 0,
            store.selection.is_none(),
            !store.composite_dirty,
            store.composite@ == store.flattened(),
    {
        proof {
            buffer.lemma_view();
        }
        let width = buffer.width();
        let height = buffer.height();
        let layer = Layer {
            name,
            visible: true,
            locked: false,
            alpha_locked: false,
            clipped: false,
            opacity: crate::layers::OPAQUE,
            blend: crate::layers::BlendMode::Normal,
            data: LayerData::Raster(buffer),
        };
        let mut layers: Vec<Layer> = Vec::new();
        layers.push(layer);
        let mut store = ImageStore {
            width,
            height,
            layers,
            active_layer: 0,
            selection: None,
            composite: PixelBuffer::new(width, height),
            composite_dirty: true,
        };
        assert(store.layers@[0].data.pixels() == Some(buffer@));
        store.composite();
        proof {
            lemma_composite_size(width as int, height as int, store.layers@, store.layers@.len());
        }
        store
    }

    pub fn width(&self) -> (w: u32)
        ensures
            w == self.width,
    {
        self.width
    }

    pub fn height(&self) -> (h: u32)
        ensures
            h == self.height,
    {
        self.height
    }

    /// The layer that tools act on, if the index is in range.
    pub fn active_layer(&self) -> (layer: Option<&Layer>)
        ensures
            layer == if self.active_layer < self.layers@.len() {
                Some(&self.layers@[self.active_layer as int])
            } else {
                None
            },
    {
        if self.active_layer < self.layers.len() {
            Some(&self.layers[self.active_layer])
        } else {
            None
        }
    }

    /// Inserts `layer` directly above the active one, makes it the active
    /// layer and marks the composite dirty. With the active index out of
    /// range the layer goes on top.
    pub fn add_layer(&mut self, layer: Layer)
        requires
            old(self).layers@.len() < usize::MAX,
        ensures
            final(self).layers@ == old(self).layers@.insert(final(self).active_layer as int, layer),
            final(self).active_layer == if old(self).active_layer < old(self).layers@.len() {
                old(self).active_layer + 1
            } else {
                old(self).layers@.len() as int
            },
            final(self).composite_dirty,
            final(self).composite@ == old(self).composite@,
            final(self).selection == old(self).selection,
            final(self).width == old(self).width,
            final(self).height == old(self).height,
            old(self).wf() && layer_sized(
                layer,
                old(self).width as int,
                old(self).height as int,
            ) ==> final(self).wf(),
    {
        let at = if self.active_layer < self.layers.len() {
            self.active_layer + 1
        } else {
            self.layers.len()
        };
        self.layers.insert(at, layer);
        self.active_layer = at;
        self.composite_dirty = true;
    }

    /// Recomputes the cached composite if the stack is marked dirty, and
    /// clears the mark. A cache that is not marked dirty is left alone.
    pub fn composite(&mut self)
        requires
            fits(old(self).width, old(self).height),
        ensures
            final(self).composited(old(self)),
            old(self).cache_valid() ==> final(self).composite@ == old(self).flattened(),
    {
        if !self.composite_dirty {
            return ;
        }
        let mut dest = PixelBuffer::new(self.width, self.height);
        composite_layers(&mut dest, &self.layers);
        self.composite = dest;
        self.composite_dirty = false;
    }

    /// The composite of the stack, recomputed first if it is marked dirty.
    pub fn get_composite(&mut self) -> (out: &PixelBuffer)
        requires
            fits(old(self).width, old(self).height),
        ensures
            final(self).composited(old(self)),
            out@ == final(self).composite@,
            old(self).cache_valid() ==> out@ == old(self).flattened(),
    {
        if self.composite_dirty {
            self.composite();
        }
        &self.composite
    }

    /// The layer that tools act on, for changing it; nothing if the index
    /// is out of range.
    pub fn active_layer_mut(&mut self) -> (layer: Option<&mut Layer>)
        ensures
            *final(self) == (ImageStore { layers: final(self).layers, ..*old(self) }),
            match layer {
                Some(l) => {
                    &&& old(self).active_layer < old(self).layers@.len()
                    &&& *l == old(self).layers@[old(self).active_layer as int]
                    &&& final(self).layers@ == old(self).layers@.update(
                        old(self).active_layer as int,
                        *final(l),
                    )
                },
                None => old(self).active_layer >= old(self).layers@.len() && final(self).layers@
                    == old(self).layers@,
            },
    {
        if self.active_layer < self.layers.len() {
            Some(&mut self.layers[self.active_layer])
        } else {
            None
        }
    }

    /// The buffer that tools paint on, raw: that of the active layer, if the
    /// index is in range and the layer has pixels.
    pub open spec fn active_raw(&self) -> Option<PixelBuffer> {
        if self.active_layer < self.layers@.len() {
            self.layers@[self.active_layer as int].data.raw()
        } else {
            None
        }
    }

    /// The pixels that tools paint on.
    pub open spec fn active_pixels(&self) -> Option<Grid<Color>> {
        match self.active_raw() {
            Some(img) => Some(img@),
            None => None,
        }
    }

    /// The buffer of the active layer, for painting; nothing if the index is
    /// out of range or the layer is a vector layer.
    pub fn get_active_raster_buffer_mut(&mut self) -> (buf: Option<&mut PixelBuffer>)
        ensures
            *final(self) == (ImageStore { layers: final(self).layers, ..*old(self) }),
            match buf {
                Some(b) => {
                    &&& old(self).active_raw() == Some(*b)
                    &&& final(self).layers@ == old(self).layers@.update(
                        old(self).active_layer as int,
                        old(self).layers@[old(self).active_layer as int].with_buffer(*final(b)),
                    )
                },
                None => old(self).active_raw().is_none() && final(self).layers@ == old(self).layers@,
            },
    {
        if self.active_layer < self.layers.len() {
            self.layers[self.active_layer].data.buffer_mut()
        } else {
            None
        }
    }

    /// Decides `wf` at run time, for callers that have changed the store's
    /// fields themselves.
    pub fn is_well_formed(&self) -> (ok: bool)
        ensures
            ok == self.wf(),
    {
        if !crate::raster::can_allocate(self.width, self.height) {
            return false;
        }
        if self.composite.width() != self.width || self.composite.height() != self.height {
            return false;
        }
        match &self.selection {
            Some(m) => {
                if m.width() != self.width || m.height() != self.height {
                    return false;
                }
            },
            None => {},
        }
        let n = self.layers.len();
        let mut i: usize = 0;
        while i < n
            invariant
                i <= n,
                n == self.layers@.len(),
                forall|j: int|
                    0 <= j < i ==> layer_sized(
                        #[trigger] self.layers@[j],
                        self.width as int,
                        self.height as int,
                    ),
            decreases n - i,
        {
            match self.layers[i].data.buffer() {
                Some(img) => {
                    if img.width() != self.width || img.height() != self.height {
                        assert(!layer_sized(
                            self.layers@[i as int],
                            self.width as int,
                            self.height as int,
                        ));
                        return false;
                    }
                },
                None => {},
            }
            i += 1;
        }
        true
    }

    /// Gives the canvas a new size. Every raster and tone layer is
    /// reallocated with its pixels carried over from the top-left corner;
    /// the selection is dropped; the composite is reallocated and marked
    /// dirty. Commands made before may no longer fit and then do nothing.
    pub fn resize(&mut self, width: u32, height: u32)
        requires
            fits(width, height),
        ensures
            final(self).wf(),
            final(self).width == width,
            final(self).height == height,
            final(self).active_layer == old(self).active_layer,
            final(self).selection.is_none(),
            final(self).composite_dirty,
            final(self).layers@.len() == old(self).layers@.len(),
            forall|i: int|
                0 <= i < old(self).layers@.len() ==> layer_carried_over(
                    old(self).layers@[i],
                    #[trigger] final(self).layers@[i],
                    width as int,
                    height as int,
                ),
    {
        let n = self.layers.len();
        let mut i: usize = 0;
        while i < n
            invariant
                i <= n,
                n == old(self).layers@.len(),
                self.layers@.len() == n,
                fits(width, height),
                self.active_layer == old(self).active_layer,
                forall|j: int|
                    0 <= j < i ==> layer_carried_over(
                        old(self).layers@[j],
                        #[trigger] self.layers@[j],
                        width as int,
                        height as int,
                    ),
                forall|j: int| i <= j < n ==> #[trigger] self.layers@[j] == old(self).layers@[j],
            decreases n - i,
        {
            let ghost before = self.layers@;
            let moved = match self.layers[i].data.buffer() {
                Some(img) => Some(carry_over(img, width, height)),
                None => None,
            };
            match moved {
                Some(fresh) => {
                    match self.layers[i].data.buffer_mut() {
                        Some(img) => {
                            *img = fresh;
                        },
                        None => {},
                    }
                },
                None => {},
            }
            proof {
                assert forall|j: int| 0 <= j < i + 1 implies layer_carried_over(
                    old(self).layers@[j],
                    #[trigger] self.layers@[j],
                    width as int,
                    height as int,
                ) by {
                    if j < i {
                        assert(self.layers@[j] == before[j]);
                    }
                }
            }
            i += 1;
        }
        self.width = width;
        self.height = height;
        self.selection = None;
        self.composite = PixelBuffer::new(width, height);
        self.composite_dirty = true;
    }

    /// Marks the cached composite as stale.
    pub fn mark_dirty(&mut self)
        ensures
            *final(self) == (ImageStore { composite_dirty: true, ..*old(self) }),
    {
        self.composite_dirty = true;
    }
}

} // verus!
