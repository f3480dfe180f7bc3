//! The transform tool: lifts the selected pixels off the active layer into
//! a floating buffer, lets the pointer move and resize its placement, and
//! drops it back when told to.

use vstd::prelude::*;
use crate::commands::{PatchCommand, PixelState};
use crate::geometry::{is_near, limit, limited, near, Point, Rect, Region, COORD_LIMIT};
use crate::image_store::{layer_sized, lemma_repainted_state, pixel_state, repainted, ImageStore};
use crate::layers::Layer;
use crate::mask::{bounds_of, Mask};
use crate::raster::{
    can_allocate, can_resample, fits, fits_resample, nearest_resize, Color, Grid, PixelBuffer,
};
use crate::state::ToolSettings;
use crate::tools::base::{Tool, ToolInput};

verus! {

/// How close to a corner, in pixels, the pointer must be to grab it.
pub const HANDLE_REACH: i64 = 12;

/// What the pointer has hold of.
#[derive(Clone, Copy, PartialEq, Eq, Debug, Structural)]
pub enum HandleType {
    Center,
    TopLeft,
    TopRight,
    BottomLeft,
    BottomRight,
}

/// The transform tool as contracts see it.
pub struct Floating {
    pub floating: Option<Grid<Color>>,
    pub snapshot: Option<Grid<Color>>,
    pub source_rect: Option<Rect>,
    pub current_rect: Option<Rect>,
    pub is_dragging: bool,
    pub drag_start: Option<Point>,
    pub drag_offset: (i64, i64),
    pub handle_drag: Option<HandleType>,
    pub committed: bool,
    pub layer_index: usize,
}

/// The handle that a pointer at `p` grabs on the rectangle `r`: the first
/// corner within reach, in the order top-left, top-right, bottom-left,
/// bottom-right, else the centre if the pointer is on the rectangle.
pub open spec fn grabbed(r: Rect, p: Point) -> Option<HandleType> {
    if near(p, r.min_x as int, r.min_y as int, HANDLE_REACH as int) {
        Some(HandleType::TopLeft)
    } else if near(p, r.max_x as int, r.min_y as int, HANDLE_REACH as int) {
        Some(HandleType::TopRight)
    } else if near(p, r.min_x as int, r.max_y as int, HANDLE_REACH as int) {
        Some(HandleType::BottomLeft)
    } else if near(p, r.max_x as int, r.max_y as int, HANDLE_REACH as int) {
        Some(HandleType::BottomRight)
    } else if r.spec_contains(p) {
        Some(HandleType::Center)
    } else {
        None
    }
}

/// The rectangle after the held handle has followed the pointer to `p`. The
/// centre moves the rectangle and keeps its size; a corner moves alone,
/// so the rectangle may become degenerate or inverted.
pub open spec fn pulled(r: Rect, handle: Option<HandleType>, offset: (i64, i64), p: Point) -> Rect {
    match handle {
        Some(HandleType::Center) => {
            let min_x = limited(p.x - offset.0);
            let min_y = limited(p.y - offset.1);
            Rect {
                min_x: min_x as i64,
                min_y: min_y as i64,
                max_x: limited(min_x + r.spec_width()) as i64,
                max_y: limited(min_y + r.spec_height()) as i64,
            }
        },
        Some(HandleType::TopLeft) => Rect { min_x: p.x as i64, min_y: p.y as i64, ..r },
        Some(HandleType::TopRight) => Rect { max_x: p.x as i64, min_y: p.y as i64, ..r },
        Some(HandleType::BottomLeft) => Rect { min_x: p.x as i64, max_y: p.y as i64, ..r },
        Some(HandleType::BottomRight) => Rect { max_x: p.x as i64, max_y: p.y as i64, ..r },
        None => r,
    }
}

/// The floating buffer that a pick-up makes: the block `b` of the layer,
/// transparent where the mask does not select.
pub open spec fn lifted(layer: Grid<Color>, mask: Grid<u8>, b: Region) -> Grid<Color> {
    Grid::build(
        b.width as int,
        b.height as int,
        |i: int, j: int|
            if mask.at(b.x + i, b.y + j) > 0 {
                layer.at(b.x + i, b.y + j)
            } else {
                Color::clear()
            },
    )
}

/// The layer that a pick-up leaves: transparent where the mask selects
/// within the block `b`.
pub open spec fn cut(layer: Grid<Color>, mask: Grid<u8>, b: Region) -> Grid<Color> {
    Grid::build(
        layer.width,
        layer.height,
        |x: int, y: int|
            if b.covers(x, y) && mask.at(x, y) > 0 {
                Color::clear()
            } else {
                layer.at(x, y)
            },
    )
}

/// The layer after `piece` has been dropped on it with its top-left corner
/// at `(tx, ty)`: every pixel of the piece that is not transparent and
/// falls on the canvas replaces the pixel under it.
pub open spec fn dropped(target: Grid<Color>, piece: Grid<Color>, tx: int, ty: int) -> Grid<Color> {
    Grid::build(
        target.width,
        target.height,
        |x: int, y: int|
            if piece.contains(x - tx, y - ty) && piece.at(x - tx, y - ty).a > 0 {
                piece.at(x - tx, y - ty)
            } else {
                target.at(x, y)
            },
    )
}

/// Dropping the lifted block where it was lifted restores the layer
/// exactly, provided that every selected pixel that is transparent is the
/// all-zero pixel: a drop leaves transparent pixels of the piece out, so
/// the colour channels of a transparent pixel do not come back.
pub proof fn lemma_lift_then_drop_restores(layer: Grid<Color>, mask: Grid<u8>, b: Region)
    requires
        layer.wf(),
        b.within(layer.width, layer.height),
        forall|x: int, y: int|
            b.covers(x, y) && mask.at(x, y) > 0 && (#[trigger] layer.at(x, y)).a == 0 ==> layer.at(
                x,
                y,
            ) == Color::clear(),
    ensures
        dropped(cut(layer, mask, b), lifted(layer, mask, b), b.x as int, b.y as int) == layer,
{
    let out = dropped(cut(layer, mask, b), lifted(layer, mask, b), b.x as int, b.y as int);
    assert forall|x: int, y: int| out.contains(x, y) implies #[trigger] out.at(x, y) == layer.at(
        x,
        y,
    ) by {
        if b.covers(x, y) && mask.at(x, y) > 0 {
            assert(lifted(layer, mask, b).contains(x - b.x, y - b.y));
            assert(lifted(layer, mask, b).at(x - b.x, y - b.y) == layer.at(x, y));
        }
    }
    Grid::lemma_equal(out, layer);
}

/// The size, on one axis, to which the floating buffer is resampled for a
/// placement of the given extent: at least one pixel.
pub open spec fn drop_extent(extent: int) -> u32 {
    if extent < 1 {
        1u32
    } else if extent > u32::MAX {
        u32::MAX
    } else {
        extent as u32
    }
}

/// The selected pixels of a store's mask, boxed; none without a mask.
pub open spec fn selection_bounds(image: ImageStore) -> Option<Region> {
    match image.selection {
        Some(m) => bounds_of(m@),
        None => None,
    }
}

impl Floating {
    /// Can the floating buffer be dropped now? It has been confirmed, the
    /// tool holds a buffer, a placement and a snapshot, the layer it came
    /// from still has pixels, and the resampled buffer can be allocated.
    pub open spec fn can_drop(self, layers: Seq<Layer>) -> bool {
        &&& self.committed
        &&& self.floating.is_some()
        &&& self.current_rect.is_some()
        &&& self.snapshot.is_some()
        &&& self.layer_index < layers.len()
        &&& layers[self.layer_index as int].data.pixels().is_some()
        &&& fits(self.drop_width(), self.drop_height())
        &&& fits_resample(self.floating.unwrap().width as u32, self.drop_height())
    }

    pub open spec fn drop_width(self) -> u32 {
        drop_extent(self.current_rect.unwrap().spec_width())
    }

    pub open spec fn drop_height(self) -> u32 {
        drop_extent(self.current_rect.unwrap().spec_height())
    }

    /// The layer after the drop: the floating buffer, resampled to the
    /// placement's size, dropped at the placement's corner.
    pub open spec fn landing(self, target: Grid<Color>) -> Grid<Color> {
        dropped(
            target,
            nearest_resize(self.floating.unwrap(), self.drop_width(), self.drop_height()),
            self.current_rect.unwrap().min_x as int,
            self.current_rect.unwrap().min_y as int,
        )
    }

    /// The tool after the drop: idle again, the snapshot and the rectangles
    /// still in place.
    pub open spec fn landed(self) -> Floating {
        Floating { committed: false, floating: None, ..self }
    }

    /// Does a pick-up come into question? Only for an idle tool on a store
    /// whose mask selects something.
    pub open spec fn picks_up(self, image: ImageStore) -> bool {
        self.floating.is_none() && !self.committed && selection_bounds(image).is_some()
    }

    /// The tool after the pick-up part of a tick. The tool remembers the
    /// active layer; if that layer has pixels, it holds the lifted block,
    /// a snapshot of the layer as it was, and the block's rectangle as
    /// source and placement.
    pub open spec fn picked(self, image: ImageStore) -> Floating {
        if self.picks_up(image) {
            let b = selection_bounds(image).unwrap();
            match image.active_pixels() {
                Some(layer) => Floating {
                    floating: Some(lifted(layer, image.selection.unwrap()@, b)),
                    snapshot: Some(layer),
                    source_rect: Some(Rect::of(b)),
                    current_rect: Some(Rect::of(b)),
                    layer_index: image.active_layer,
                    ..self
                },
                None => Floating { layer_index: image.active_layer, ..self },
            }
        } else {
            self
        }
    }

    /// What one input sample does to the drag. Without a placement
    /// rectangle nothing happens. The first pressed sample on the image
    /// grabs a handle if there is one to grab; later ones pull it; a
    /// sample that is not pressed lets go.
    pub open spec fn dragged(self, input: ToolInput) -> Floating {
        match self.current_rect {
            None => self,
            Some(current) => if !input.is_pressed {
                Floating { is_dragging: false, handle_drag: None, ..self }
            } else {
                match input.pos {
                    None => self,
                    Some(p) => if self.is_dragging {
                        Floating {
                            current_rect: Some(pulled(current, self.handle_drag, self.drag_offset, p)),
                            ..self
                        }
                    } else {
                        let grab = grabbed(current, p);
                        let handle = if grab.is_some() {
                            grab
                        } else {
                            self.handle_drag
                        };
                        Floating {
                            handle_drag: handle,
                            drag_offset: if grab == Some(HandleType::Center) {
                                ((p.x - current.min_x) as i64, (p.y - current.min_y) as i64)
                            } else {
                                self.drag_offset
                            },
                            is_dragging: handle.is_some(),
                            drag_start: if handle.is_some() {
                                Some(p)
                            } else {
                                self.drag_start
                            },
                            ..self
                        }
                    },
                }
            },
        }
    }
}

/// Picks up, moves, resizes and drops the selected pixels.
pub struct TransformTool {
    pub floating_buffer: Option<PixelBuffer>,
    pub source_rect: Option<Rect>,
    pub current_rect: Option<Rect>,
    pub is_dragging: bool,
    pub drag_start: Option<Point>,
    pub drag_offset: (i64, i64),
    pub handle_drag: Option<HandleType>,
    pub committed: bool,
    pub original_layer_snapshot: Option<PixelBuffer>,
    pub layer_index: usize,
}

impl View for TransformTool {
    type V = Floating;

    open spec fn view(&self) -> Floating {
        Floating {
            floating: match self.floating_buffer {
                Some(b) => Some(b@),
                None => None,
            },
            snapshot: match self.original_layer_snapshot {
                Some(b) => Some(b@),
                None => None,
            },
            source_rect: self.source_rect,
            current_rect: self.current_rect,
            is_dragging: self.is_dragging,
            drag_start: self.drag_start,
            drag_offset: self.drag_offset,
            handle_drag: self.handle_drag,
            committed: self.committed,
            layer_index: self.layer_index,
        }
    }
}

impl TransformTool {
    /// The placement rectangle and the grip on it are within reach.
    pub open spec fn wf(&self) -> bool {
        &&& match self.current_rect {
            Some(r) => r.bounded(),
            None => true,
        }
        &&& -2 * COORD_LIMIT <= self.drag_offset.0 <= 2 * COORD_LIMIT
        &&& -2 * COORD_LIMIT <= self.drag_offset.1 <= 2 * COORD_LIMIT
    }

    /// The tool with nothing picked up and nothing held.
    pub open spec fn idle() -> Floating {
        Floating {
            floating: None,
            snapshot: None,
            source_rect: None,
            current_rect: None,
            is_dragging: false,
            drag_start: None,
            drag_offset: (0i64, 0i64),
            handle_drag: None,
            committed: false,
            layer_index: 0,
        }
    }

    /// An idle transform tool.
    pub fn new() -> (tool: TransformTool)
        ensures
            tool.wf(),
            tool@ == Self::idle(),
    {
        TransformTool {
            floating_buffer: None,
            source_rect: None,
            current_rect: None,
            is_dragging: false,
            drag_start: None,
            drag_offset: (0, 0),
            handle_drag: None,
            committed: false,
            original_layer_snapshot: None,
            layer_index: 0,
        }
    }

    pub fn name(&self) -> (n: &'static str)
        ensures
            n@ == "Transform"@,
    {
        "Transform"
    }

    /// Is there a floating buffer to confirm?
    pub fn is_floating(&self) -> (b: bool)
        ensures
            b == self@.floating.is_some(),
    {
        self.floating_buffer.is_some()
    }

    /// Asks for the floating buffer to be dropped at the next tick.
    /// Without a floating buffer there is nothing to ask for.
    pub fn confirm(&mut self)
        ensures
            final(self)@ == (Floating {
                committed: old(self)@.committed || old(self)@.floating.is_some(),
                ..old(self)@
            }),
            old(self).wf() ==> final(self).wf(),
    {
        if self.floating_buffer.is_some() {
            self.committed = true;
        }
    }

    fn grab(current: Rect, p: Point) -> (h: Option<HandleType>)
        requires
            current.bounded(),
        ensures
            h == grabbed(current, p),
    {
        if is_near(p, current.min_x, current.min_y, HANDLE_REACH) {
            Some(HandleType::TopLeft)
        } else if is_near(p, current.max_x, current.min_y, HANDLE_REACH) {
            Some(HandleType::TopRight)
        } else if is_near(p, current.min_x, current.max_y, HANDLE_REACH) {
            Some(HandleType::BottomLeft)
        } else if is_near(p, current.max_x, current.max_y, HANDLE_REACH) {
            Some(HandleType::BottomRight)
        } else if current.contains(p) {
            Some(HandleType::Center)
        } else {
            None
        }
    }

    fn pull(current: Rect, handle: Option<HandleType>, offset: (i64, i64), p: Point) -> (r: Rect)
        requires
            current.bounded(),
            -2 * COORD_LIMIT <= offset.0 <= 2 * COORD_LIMIT,
            -2 * COORD_LIMIT <= offset.1 <= 2 * COORD_LIMIT,
        ensures
            r == pulled(current, handle, offset, p),
            r.bounded(),
    {
        match handle {
            Some(HandleType::Center) => {
                let min_x = limit(p.x as i64 - offset.0);
                let min_y = limit(p.y as i64 - offset.1);
                Rect {
                    min_x,
                    min_y,
                    max_x: limit(min_x + (current.max_x - current.min_x)),
                    max_y: limit(min_y + (current.max_y - current.min_y)),
                }
            },
            Some(HandleType::TopLeft) => Rect {
                min_x: p.x as i64,
                min_y: p.y as i64,
                max_x: current.max_x,
                max_y: current.max_y,
            },
            Some(HandleType::TopRight) => Rect {
                min_x: current.min_x,
                min_y: p.y as i64,
                max_x: p.x as i64,
                max_y: current.max_y,
            },
            Some(HandleType::BottomLeft) => Rect {
                min_x: p.x as i64,
                min_y: current.min_y,
                max_x: current.max_x,
                max_y: p.y as i64,
            },
            Some(HandleType::BottomRight) => Rect {
                min_x: current.min_x,
                min_y: current.min_y,
                max_x: p.x as i64,
                max_y: p.y as i64,
            },
            None => current,
        }
    }

    /// Lets one input sample act on the drag.
    fn drag(&mut self, input: &ToolInput)
        requires
            old(self).wf(),
        ensures
            final(self).wf(),
            final(self)@ == old(self)@.dragged(*input),
            final(self).floating_buffer == old(self).floating_buffer,
            final(self).original_layer_snapshot == old(self).original_layer_snapshot,
    {
        match self.current_rect {
            None => {},
            Some(current) => {
                if input.is_pressed {
                    match input.pos {
                        None => {},
                        Some(p) => {
                            if !self.is_dragging {
                                let grab = Self::grab(current, p);
                                match grab {
                                    Some(HandleType::Center) => {
                                        self.handle_drag = grab;
                                        self.drag_offset = (
                                            p.x as i64 - current.min_x,
                                            p.y as i64 - current.min_y,
                                        );
                                    },
                                    Some(_) => {
                                        self.handle_drag = grab;
                                    },
                                    None => {},
                                }
                                if self.handle_drag.is_some() {
                                    self.is_dragging = true;
                                    self.drag_start = Some(p);
                                }
                            } else {
                                self.current_rect = Some(
                                    Self::pull(current, self.handle_drag, self.drag_offset, p),
                                );
                            }
                        },
                    }
                } else {
                    self.is_dragging = false;
                    self.handle_drag = None;
                }
            },
        }
    }
}

impl TransformTool {
    /// Lifts the selected pixels of the active layer into a floating
    /// buffer, as `Floating::picked` and `pick_up_result` say.
    fn pick_up_selection(&mut self, image: &mut ImageStore)
        requires
            old(self).wf(),
            old(image).wf(),
            old(self)@.floating.is_none(),
            !old(self)@.committed,
        ensures
            final(self).wf(),
            final(image).wf(),
            final(self)@ == old(self)@.picked(*old(image)),
            pick_up_result(old(self)@, *old(image), *final(image)),
    {
        let ghost before = *image;
        let found = match &image.selection {
            Some(mask) => mask.bounds(),
            None => None,
        };
        let b = match found {
            None => {
                return ;
            },
            Some(b) => b,
        };
        let idx = image.active_layer;
        self.layer_index = idx;
        if idx >= image.layers.len() {
            return ;
        }
        assert(layer_sized(before.layers@[idx as int], before.width as int, before.height as int));
        if image.layers[idx].data.buffer().is_none() {
            return ;
        }
        let mask = match &image.selection {
            Some(mask) => mask,
            None => {
                return ;
            },
        };
        match image.layers[idx].data.buffer_mut() {
            Some(layer_img) => {
                proof {
                    layer_img.lemma_view();
                }
                let snapshot = layer_img.clone();
                let buffer = lift(layer_img, mask, b);
                let rect = Rect::from_region(b);
                self.original_layer_snapshot = Some(snapshot);
                self.floating_buffer = Some(buffer);
                self.source_rect = Some(rect);
                self.current_rect = Some(rect);
            },
            None => {},
        }
        image.mark_dirty();
        proof {
            assert forall|i: int| 0 <= i < image.layers@.len() implies layer_sized(
                #[trigger] image.layers@[i],
                image.width as int,
                image.height as int,
            ) by {
                assert(layer_sized(before.layers@[i], before.width as int, before.height as int));
            }
        }
    }

    fn extent(v: i64) -> (e: u32)
        ensures
            e == drop_extent(v as int),
    {
        if v < 1 {
            1
        } else if v > u32::MAX as i64 {
            u32::MAX
        } else {
            v as u32
        }
    }

    /// Drops the floating buffer if it can be dropped, as `drop_result`
    /// says; otherwise changes nothing.
    fn drop_floating(&mut self, image: &mut ImageStore) -> (cmd: Option<PatchCommand>)
        requires
            old(self).wf(),
            old(image).wf(),
        ensures
            final(self).wf(),
            final(image).wf(),
            if old(self)@.can_drop(old(image).layers@) {
                drop_result(old(self)@, *old(image), *final(image), cmd) && final(self)@ == old(self)@.landed()
            } else {
                cmd.is_none() && *final(self) == *old(self) && *final(image) == *old(image)
            },
    {
        let ghost before = *image;
        if !self.committed {
            return None;
        }
        let current = match self.current_rect {
            Some(r) => r,
            None => {
                return None;
            },
        };
        let idx = self.layer_index;
        if idx >= image.layers.len() {
            return None;
        }
        if image.layers[idx].data.buffer().is_none() {
            return None;
        }
        let nw = Self::extent(current.max_x - current.min_x);
        let nh = Self::extent(current.max_y - current.min_y);
        let resized = match (&self.floating_buffer, &self.original_layer_snapshot) {
            (Some(buffer), Some(_)) => {
                proof {
                    buffer.lemma_view();
                }
                if !can_allocate(nw, nh) || !can_resample(buffer.width(), nh) {
                    return None;
                }
                buffer.resize_nearest(nw, nh)
            },
            _ => {
                return None;
            },
        };
        let old_patch = match &self.original_layer_snapshot {
            Some(snapshot) => snapshot.clone(),
            None => {
                return None;
            },
        };
        assert(layer_sized(before.layers@[idx as int], before.width as int, before.height as int));
        let new_patch = match image.layers[idx].data.buffer_mut() {
            Some(target) => {
                drop_onto(target, &resized, current.min_x, current.min_y);
                target.clone()
            },
            None => {
                return None;
            },
        };
        image.mark_dirty();
        self.committed = false;
        self.floating_buffer = None;
        proof {
            assert forall|i: int| 0 <= i < image.layers@.len() implies layer_sized(
                #[trigger] image.layers@[i],
                image.width as int,
                image.height as int,
            ) by {
                assert(layer_sized(before.layers@[i], before.width as int, before.height as int));
            }
        }
        Some(
            PatchCommand {
                name: "Transform".to_string(),
                layer_index: idx,
                x: 0,
                y: 0,
                old_patch,
                new_patch,
            },
        )
    }

    /// What one tick of the transform tool does.
    pub open spec fn ticked(
        pre: TransformTool,
        post: TransformTool,
        before: ImageStore,
        after: ImageStore,
        settings: ToolSettings,
        input: ToolInput,
        color: Color,
        cmd: Option<PatchCommand>,
    ) -> bool {
        &&& if pre@.can_drop(before.layers@) {
            drop_result(pre@, before, after, cmd) && post@ == pre@.landed()
        } else {
            cmd.is_none() && pick_up_result(pre@, before, after) && post@ == pre@.picked(before).dragged(input)
        }
    }

    /// One tick of the transform tool. A confirmed floating buffer that
    /// can be dropped is dropped, and the tick ends with its command.
    /// Otherwise an idle tool picks up the selection if there is one, and
    /// the input sample acts on the drag. Settings and colour play no part.
    pub fn update(
        &mut self,
        image: &mut ImageStore,
        settings: &ToolSettings,
        input: &ToolInput,
        color: Color,
    ) -> (cmd: Option<PatchCommand>)
        requires
            old(self).wf(),
            old(image).wf(),
        ensures
            final(self).wf(),
            final(image).wf(),
            Self::ticked(
                *old(self),
                *final(self),
                *old(image),
                *final(image),
                *settings,
                *input,
                color,
                cmd,
            ),
    {
        if self.committed {
            let cmd = self.drop_floating(image);
            if cmd.is_some() {
                return cmd;
            }
        }
        if self.floating_buffer.is_none() && !self.committed {
            self.pick_up_selection(image);
        }
        self.drag(input);
        None
    }

    /// The transform tool shows no preview buffer.
    pub fn get_temp_layer(&self) -> (p: Option<(&PixelBuffer, u32, u32)>)
        ensures
            p.is_none(),
    {
        None
    }
}

/// What the pick-up part of a tick does to the store: where pixels are
/// lifted, the active layer loses them and the store is marked dirty;
/// otherwise nothing changes.
pub open spec fn pick_up_result(pre: Floating, before: ImageStore, after: ImageStore) -> bool {
    &&& after.same_canvas(&before)
    &&& if pre.picks_up(before) && before.active_pixels().is_some() {
        &&& repainted(
            before.layers@,
            after.layers@,
            before.active_layer as int,
            cut(
                before.active_pixels().unwrap(),
                before.selection.unwrap()@,
                selection_bounds(before).unwrap(),
            ),
        )
        &&& after.composite_dirty
    } else {
        after.layers@ == before.layers@ && after.composite_dirty == before.composite_dirty
    }
}

/// What a drop does to the store and which command it makes: the layer
/// takes the landing, the store is marked dirty, and the command spans
/// the whole layer, from the snapshot taken at pick-up to the layer as it
/// is now.
pub open spec fn drop_result(
    pre: Floating,
    before: ImageStore,
    after: ImageStore,
    cmd: Option<PatchCommand>,
) -> bool {
    let target = before.layers@[pre.layer_index as int].data.pixels().unwrap();
    &&& after.same_canvas(&before)
    &&& repainted(before.layers@, after.layers@, pre.layer_index as int, pre.landing(target))
    &&& after.composite_dirty
    &&& cmd matches Some(c) && c.name@ == "Transform"@ && c.layer_index == pre.layer_index && c.x == 0
        && c.y == 0 && c.old_patch@ == pre.snapshot.unwrap() && c.new_patch@ == pre.landing(target)
}

/// The command that a drop makes records the step from the layer as it
/// was before the pick-up to the layer as the drop leaves it, so that one
/// undo step takes the whole transform back.
pub proof fn lemma_drop_records(
    pre: Floating,
    before: ImageStore,
    after: ImageStore,
    cmd: Option<PatchCommand>,
)
    requires
        pre.can_drop(before.layers@),
        drop_result(pre, before, after, cmd),
        pre.snapshot.unwrap().wf(),
        before.layers@[pre.layer_index as int].data.pixels().unwrap().wf(),
        before.layers@[pre.layer_index as int].data.pixels().unwrap().width
            == pre.snapshot.unwrap().width,
        before.layers@[pre.layer_index as int].data.pixels().unwrap().height
            == pre.snapshot.unwrap().height,
    ensures
        cmd.unwrap().records(
            pixel_state(before.layers@).update(pre.layer_index as int, pre.snapshot),
            pixel_state(after.layers@),
        ),
{
    let c = cmd.unwrap();
    let idx = pre.layer_index as int;
    let snapshot = pre.snapshot.unwrap();
    let target = before.layers@[idx].data.pixels().unwrap();
    let landing = pre.landing(target);
    let start: PixelState = pixel_state(before.layers@).update(idx, pre.snapshot);
    lemma_repainted_state(before.layers@, after.layers@, idx, landing);
    Grid::lemma_equal(snapshot.crop(0, 0, snapshot.width, snapshot.height), snapshot);
    Grid::lemma_equal(snapshot.paste(landing, 0, 0), landing);
    assert(pixel_state(after.layers@) =~= start.update(idx, Some(snapshot.paste(landing, 0, 0))));
}

/// Drops `piece` on `target` with its top-left corner at `(tx, ty)`.
pub fn drop_onto(target: &mut PixelBuffer, piece: &PixelBuffer, tx: i64, ty: i64)
    requires
        -COORD_LIMIT <= tx <= COORD_LIMIT,
        -COORD_LIMIT <= ty <= COORD_LIMIT,
    ensures
        final(target)@ == dropped(old(target)@, piece@, tx as int, ty as int),
{
    let ghost before = target@;
    let ghost goal = dropped(before, piece@, tx as int, ty as int);
    let w = target.width();
    let h = target.height();
    let pw = piece.width();
    let ph = piece.height();
    let left: i64 = if tx > 0 { tx } else { 0 };
    let top: i64 = if ty > 0 { ty } else { 0 };
    let right: i64 = if tx + (pw as i64) < w as i64 { tx + pw as i64 } else { w as i64 };
    let bottom: i64 = if ty + (ph as i64) < h as i64 { ty + ph as i64 } else { h as i64 };
    proof {
        target.lemma_view();
        piece.lemma_view();
    }
    if left < right && top < bottom {
        let mut y: i64 = top;
        while y < bottom
            invariant
                top <= y <= bottom,
                0 <= left < right <= w,
                0 <= top < bottom <= h,
                tx <= left,
                right <= tx + pw,
                ty <= top,
                bottom <= ty + ph,
                piece@.width == pw,
                piece@.height == ph,
                target@.width == w,
                target@.height == h,
                before.width == w,
                before.height == h,
                goal == dropped(before, piece@, tx as int, ty as int),
                forall|i: int, j: int|
                    0 <= i < w && 0 <= j < h ==> #[trigger] target@.at(i, j) == if left <= i < right
                        && top <= j < y {
                        goal.at(i, j)
                    } else {
                        before.at(i, j)
                    },
            decreases bottom - y,
        {
            let mut x: i64 = left;
            while x < right
                invariant
                    left <= x <= right,
                    top <= y < bottom,
                    0 <= left < right <= w,
                    0 <= top < bottom <= h,
                    tx <= left,
                    right <= tx + pw,
                    ty <= top,
                    bottom <= ty + ph,
                    piece@.width == pw,
                    piece@.height == ph,
                    target@.width == w,
                    target@.height == h,
                    before.width == w,
                    before.height == h,
                    goal == dropped(before, piece@, tx as int, ty as int),
                    forall|i: int, j: int|
                        0 <= i < w && 0 <= j < h ==> #[trigger] target@.at(i, j) == if left <= i
                            < right && top <= j && (j < y || (j == y && i < x)) {
                            goal.at(i, j)
                        } else {
                            before.at(i, j)
                        },
                decreases right - x,
            {
                let p = piece.pixel((x - tx) as u32, (y - ty) as u32);
                if p.a > 0 {
                    target.set_pixel(x as u32, y as u32, p);
                }
                x += 1;
            }
            y += 1;
        }
    }
    proof {
        Grid::lemma_equal(target@, goal);
    }
}

/// Lifts the pixels that `mask` selects within the block `b` off `layer`
/// into a fresh buffer of the block's size.
fn lift(layer: &mut PixelBuffer, mask: &Mask, b: Region) -> (floating: PixelBuffer)
    requires
        b.within(old(layer)@.width, old(layer)@.height),
        mask@.width == old(layer)@.width,
        mask@.height == old(layer)@.height,
        fits(old(layer)@.width as u32, old(layer)@.height as u32),
    ensures
        floating@ == lifted(old(layer)@, mask@, b),
        final(layer)@ == cut(old(layer)@, mask@, b),
{
    let ghost before = layer@;
    proof {
        layer.lemma_view();
        assert(b.width as int * b.height as int <= before.width * before.height)
            by (nonlinear_arith)
            requires
                0 <= b.width <= before.width,
                0 <= b.height <= before.height,
        ;
    }
    let mut buffer = PixelBuffer::new(b.width, b.height);
    let ghost start = buffer@;
    let ghost up = lifted(before, mask@, b);
    let ghost down = cut(before, mask@, b);
    proof {
        buffer.lemma_view();
    }
    let mut j: u32 = 0;
    while j < b.height
        invariant
            j <= b.height,
            b.within(before.width, before.height),
            mask@.width == before.width,
            mask@.height == before.height,
            layer@.width == before.width,
            layer@.height == before.height,
            buffer@.width == b.width,
            buffer@.height == b.height,
            start.width == b.width,
            start.height == b.height,
            up == lifted(before, mask@, b),
            down == cut(before, mask@, b),
            forall|x: int, y: int|
                before.contains(x, y) ==> #[trigger] layer@.at(x, y) == if y < b.y + j {
                    down.at(x, y)
                } else {
                    before.at(x, y)
                },
            forall|x: int, y: int|
                0 <= x < b.width && 0 <= y < b.height ==> #[trigger] buffer@.at(x, y) == if y < j
                    && mask@.at(b.x + x, b.y + y) > 0 {
                    up.at(x, y)
                } else {
                    start.at(x, y)
                },
        decreases b.height - j,
    {
        let mut i: u32 = 0;
        while i < b.width
            invariant
                i <= b.width,
                j < b.height,
                b.within(before.width, before.height),
                mask@.width == before.width,
                mask@.height == before.height,
                layer@.width == before.width,
                layer@.height == before.height,
                buffer@.width == b.width,
                buffer@.height == b.height,
                start.width == b.width,
                start.height == b.height,
                up == lifted(before, mask@, b),
                down == cut(before, mask@, b),
                forall|x: int, y: int|
                    before.contains(x, y) ==> #[trigger] layer@.at(x, y) == if y < b.y + j || (y
                        == b.y + j && x < b.x + i) {
                        down.at(x, y)
                    } else {
                        before.at(x, y)
                    },
                forall|x: int, y: int|
                    0 <= x < b.width && 0 <= y < b.height ==> #[trigger] buffer@.at(x, y) == if (y
                        < j || (y == j && x < i)) && mask@.at(b.x + x, b.y + y) > 0 {
                        up.at(x, y)
                    } else {
                        start.at(x, y)
                    },
            decreases b.width - i,
        {
            let cx = b.x + i;
            let cy = b.y + j;
            if mask.value(cx, cy) > 0 {
                buffer.set_pixel(i, j, layer.pixel(cx, cy));
                layer.set_pixel(cx, cy, Color::transparent());
            }
            i += 1;
        }
        j += 1;
    }
    proof {
        Grid::lemma_equal(layer@, down);
        Grid::lemma_equal(buffer@, up);
    }
    buffer
}

impl Tool for TransformTool {
    open spec fn ready(&self) -> bool {
        self.wf()
    }

    open spec fn ticks(
        pre: Self,
        post: Self,
        before: ImageStore,
        after: ImageStore,
        settings: ToolSettings,
        input: ToolInput,
        color: Color,
        cmd: Option<PatchCommand>,
    ) -> bool {
        TransformTool::ticked(pre, post, before, after, settings, input, color, cmd)
    }

    fn name(&self) -> (n: &'static str)
        ensures
            n@ == "Transform"@,
    {
        TransformTool::name(self)
    }

    fn update(
        &mut self,
        image: &mut ImageStore,
        settings: &ToolSettings,
        input: &ToolInput,
        color: Color,
    ) -> (cmd: Option<PatchCommand>) {
        TransformTool::update(self, image, settings, input, color)
    }

    fn get_temp_layer(&self) -> (p: Option<(&PixelBuffer, u32, u32)>)
        ensures
            p.is_none(),
    {
        TransformTool::get_temp_layer(self)
    }
}

} // verus!
