//! The input event that every tool takes, and the stroke tools that draw
//! freehand: brush, eraser and line.

use vstd::prelude::*;
use crate::commands::PatchCommand;
use crate::geometry::{trunc_by, trunc_div, FinePoint, Point, FINE_LIMIT};
use crate::image_store::{pixel_state, ImageStore};
use crate::raster::{Color, Grid, PixelBuffer};
use crate::state::ToolSettings;
use crate::tools::scratch::{commit_result, Scratch, Sketch, MAX_RADIUS};

verus! {

/// What the host samples once per tick: where the pointer is on the image,
/// if it is over it, and whether the button is held or has just been let go.
#[derive(Clone, Copy, Debug, PartialEq, Eq, Structural)]
pub struct ToolInput {
    pub pos: Option<Point>,
    pub is_pressed: bool,
    pub is_released: bool,
}

/// What every tool offers the host: a name, one tick per input sample,
/// and a preview buffer while it has one to show.
pub trait Tool: Sized {
    /// The tool's own invariant.
    spec fn ready(&self) -> bool;

    /// What one tick makes of the tool and the store, and which command it
    /// returns.
    spec fn ticks(
        pre: Self,
        post: Self,
        before: ImageStore,
        after: ImageStore,
        settings: ToolSettings,
        input: ToolInput,
        color: Color,
        cmd: Option<PatchCommand>,
    ) -> bool;

    fn name(&self) -> (n: &'static str);

    /// Routes one input sample to the tool. At most one command comes back.
    fn update(
        &mut self,
        image: &mut ImageStore,
        settings: &ToolSettings,
        input: &ToolInput,
        color: Color,
    ) -> (cmd: Option<PatchCommand>)
        requires
            old(self).ready(),
            old(image).wf(),
        ensures
            final(self).ready(),
            final(image).wf(),
            Self::ticks(
                *old(self),
                *final(self),
                *old(image),
                *final(image),
                *settings,
                *input,
                color,
                cmd,
            ),
    ;

    /// The buffer to overlay on the composite, with its offset.
    fn get_temp_layer(&self) -> (p: Option<(&PixelBuffer, u32, u32)>);
}

/// The stamp radius for a size setting.
pub open spec fn radius_of(size: u32) -> int {
    if size > MAX_RADIUS {
        MAX_RADIUS as int
    } else {
        size as int
    }
}

/// Computes `radius_of`.
pub fn radius(size: u32) -> (r: i64)
    ensures
        r == radius_of(size),
        0 <= r <= MAX_RADIUS,
{
    if size as i64 > MAX_RADIUS {
        MAX_RADIUS
    } else {
        size as i64
    }
}

/// The step between two stamps of the brush, in hundredths of a pixel:
/// size times spacing, and at least one pixel.
pub open spec fn brush_step(size: u32, spacing: u32) -> int {
    let s = radius_of(size) * spacing;
    if s < 100 {
        100
    } else {
        s
    }
}

/// The step of every other stroke: one pixel, in hundredths.
pub const PIXEL_STEP: u64 = 100;

/// The weight of the previous smoothed position, in hundredths.
pub open spec fn stabilization_weight(stabilization: u32) -> int {
    if stabilization > 95 {
        95
    } else {
        stabilization as int
    }
}

/// Exponential smoothing on one axis: `last * w + raw * (1 - w)`, rounded
/// toward zero, with the weight `w` in hundredths.
pub open spec fn smoothed_coord(last: int, raw: int, weight: int) -> int {
    trunc_div(last * weight + raw * (100 - weight), 100)
}

/// The smoothed position after a raw sample.
pub open spec fn smoothed(last: FinePoint, raw: FinePoint, stabilization: u32) -> FinePoint {
    let w = stabilization_weight(stabilization);
    FinePoint {
        x: smoothed_coord(last.x as int, raw.x as int, w) as i64,
        y: smoothed_coord(last.y as int, raw.y as int, w) as i64,
    }
}

fn smooth_coord(last: i64, raw: i64, weight: i64) -> (c: i64)
    requires
        -FINE_LIMIT <= last <= FINE_LIMIT,
        -FINE_LIMIT <= raw <= FINE_LIMIT,
        0 <= weight <= 95,
    ensures
        c == smoothed_coord(last as int, raw as int, weight as int),
        -FINE_LIMIT <= c <= FINE_LIMIT,
{
    assert(-(FINE_LIMIT * weight) <= last * weight <= FINE_LIMIT * weight) by (nonlinear_arith)
        requires
            -FINE_LIMIT <= last <= FINE_LIMIT,
            0 <= weight <= 95,
    ;
    assert(-(FINE_LIMIT * (100 - weight)) <= raw * (100 - weight) <= FINE_LIMIT * (100 - weight))
        by (nonlinear_arith)
        requires
            -FINE_LIMIT <= raw <= FINE_LIMIT,
            0 <= weight <= 95,
    ;
    assert(FINE_LIMIT * weight + FINE_LIMIT * (100 - weight) == FINE_LIMIT * 100)
        by (nonlinear_arith);
    let num: i64 = last * weight + raw * (100 - weight);
    let q = trunc_by(num, 100);
    assert(-FINE_LIMIT <= q <= FINE_LIMIT) by (nonlinear_arith)
        requires
            q == trunc_div(num as int, 100),
            -(FINE_LIMIT * 100) <= num <= FINE_LIMIT * 100,
    ;
    q
}

/// Computes `smoothed`.
pub fn smooth(last: FinePoint, raw: FinePoint, stabilization: u32) -> (p: FinePoint)
    requires
        last.bounded(),
        raw.bounded(),
    ensures
        p == smoothed(last, raw, stabilization),
        p.bounded(),
{
    let w: i64 = if stabilization > 95 {
        95
    } else {
        stabilization as i64
    };
    FinePoint { x: smooth_coord(last.x, raw.x, w), y: smooth_coord(last.y, raw.y, w) }
}

/// How a tick ends for a stroke tool whose sketch stands at `mid`. On
/// release the stroke is committed as `commit_result` says and the sketch
/// is released; otherwise sketch and store stay and there is no command.
pub open spec fn tick_end(
    mid: Sketch,
    after: Sketch,
    released: bool,
    before: ImageStore,
    after_store: ImageStore,
    cmd: Option<PatchCommand>,
    name: Seq<char>,
    erase: bool,
) -> bool {
    if released {
        after == mid.released() && commit_result(mid, before, after_store, cmd, name, erase)
    } else {
        after == mid && cmd.is_none() && after_store == before
    }
}

/// The freehand brush: smooths the pointer's path and strokes it with
/// filled circles, or with a texture if one is loaded.
pub struct BrushTool {
    pub texture: Option<PixelBuffer>,
    pub scratch: Scratch,
    pub last_pos: Option<FinePoint>,
    pub stabilized_pos: Option<FinePoint>,
}

impl BrushTool {
    pub open spec fn wf(&self) -> bool {
        &&& self.scratch.wf()
        &&& match self.last_pos {
            Some(p) => p.bounded(),
            None => true,
        }
        &&& match self.stabilized_pos {
            Some(p) => p.bounded(),
            None => true,
        }
    }

    /// The texture, as contracts see it.
    pub open spec fn texture_pixels(&self) -> Option<Grid<Color>> {
        match self.texture {
            Some(t) => Some(t@),
            None => None,
        }
    }

    /// Where a pressed sample at `raw` takes the brush: to the sample
    /// itself at the start of a gesture, to the smoothed position after.
    pub open spec fn aim(stabilized: Option<FinePoint>, raw: Point, stabilization: u32) -> FinePoint {
        match stabilized {
            Some(s) => smoothed(s, FinePoint::of(raw), stabilization),
            None => FinePoint::of(raw),
        }
    }

    /// The sketch after a pressed sample: the segment from the last position
    /// is stroked, or a single stamp is put down at the start of a gesture.
    pub open spec fn drawn(
        sketch: Sketch,
        tex: Option<Grid<Color>>,
        last: Option<FinePoint>,
        cur: FinePoint,
        settings: ToolSettings,
        color: Color,
    ) -> Sketch {
        let r = radius_of(settings.brush_size);
        match last {
            Some(l) => sketch.stroke(
                tex,
                l,
                cur,
                brush_step(settings.brush_size, settings.brush_spacing),
                r,
                color,
            ),
            None => sketch.stamp(tex, cur.pixel().0, cur.pixel().1, r, color),
        }
    }

    /// The sketch after the drawing part of a tick.
    pub open spec fn sketched(
        &self,
        width: u32,
        height: u32,
        settings: ToolSettings,
        input: ToolInput,
        color: Color,
    ) -> Sketch {
        let sized = self.scratch@.resized(width as int, height as int);
        if input.is_pressed && input.pos.is_some() {
            Self::drawn(
                sized,
                self.texture_pixels(),
                self.last_pos,
                Self::aim(self.stabilized_pos, input.pos.unwrap(), settings.brush_stabilization),
                settings,
                color,
            )
        } else {
            sized
        }
    }

    /// The brush's position after a tick: the aimed position after a
    /// pressed sample, unchanged while pressed off the image, none otherwise.
    pub open spec fn moved(&self, settings: ToolSettings, input: ToolInput) -> Option<FinePoint> {
        if input.is_pressed {
            match input.pos {
                Some(p) => Some(Self::aim(self.stabilized_pos, p, settings.brush_stabilization)),
                None => self.last_pos,
            }
        } else {
            None
        }
    }

    /// A brush without texture for a canvas of the given size.
    pub fn new(width: u32, height: u32) -> (tool: BrushTool)
        requires
            crate::raster::fits(width, height),
        ensures
            tool.wf(),
            tool.texture.is_none(),
            tool.scratch@ == Sketch::blank(width as int, height as int),
            tool.last_pos.is_none(),
            tool.stabilized_pos.is_none(),
    {
        BrushTool {
            texture: None,
            scratch: Scratch::new(width, height),
            last_pos: None,
            stabilized_pos: None,
        }
    }

    pub fn name(&self) -> (n: &'static str)
        ensures
            n@ == "Brush"@,
    {
        "Brush"
    }

    /// What one tick of the brush does: the pressed sample moves the brush
    /// and draws, the release commits.
    pub open spec fn ticked(
        pre: BrushTool,
        post: BrushTool,
        before: ImageStore,
        after: ImageStore,
        settings: ToolSettings,
        input: ToolInput,
        color: Color,
        cmd: Option<PatchCommand>,
    ) -> bool {
        &&& post.scratch.sized(before.width, before.height)
        &&& post.texture == pre.texture
        &&& post.last_pos == pre.moved(settings, input)
        &&& post.stabilized_pos == if input.is_pressed && input.pos.is_none() {
            pre.stabilized_pos
        } else {
            pre.moved(settings, input)
        }
        &&& tick_end(
            pre.sketched(before.width, before.height, settings, input, color),
            post.scratch@,
            input.is_released,
            before,
            after,
            cmd,
            "Brush Stroke"@,
            false,
        )
    }

    /// One tick of the brush.
    pub fn update(
        &mut self,
        image: &mut ImageStore,
        settings: &ToolSettings,
        input: &ToolInput,
        color: Color,
    ) -> (cmd: Option<PatchCommand>)
        requires
            old(self).wf(),
            old(image).wf(),
        ensures
            final(self).wf(),
            final(image).wf(),
            Self::ticked(
                *old(self),
                *final(self),
                *old(image),
                *final(image),
                *settings,
                *input,
                color,
                cmd,
            ),
            cmd matches Some(c) ==> c.records(
                pixel_state(old(image).layers@),
                pixel_state(final(image).layers@),
            ),
    {
        self.scratch.ensure_size(image.width, image.height);
        if input.is_pressed {
            match input.pos {
                Some(target) => {
                    let raw = FinePoint::from_point(target);
                    let cur = match self.stabilized_pos {
                        Some(s) => smooth(s, raw, settings.brush_stabilization),
                        None => raw,
                    };
                    let r = radius(settings.brush_size);
                    match self.last_pos {
                        Some(last) => {
                            assert(r * settings.brush_spacing <= 0x7fff_ffff * 0xffff_ffff)
                                by (nonlinear_arith)
                                requires
                                    0 <= r <= 0x7fff_ffff,
                                    0 <= settings.brush_spacing <= 0xffff_ffff,
                            ;
                            let s: u64 = (r as u64) * (settings.brush_spacing as u64);
                            let step: u64 = if s < 100 {
                                100
                            } else {
                                s
                            };
                            self.scratch.stamp_segment(
                                self.texture.as_ref(),
                                last,
                                cur,
                                step,
                                r,
                                color,
                            );
                        },
                        None => {
                            let p = cur.to_pixel();
                            self.scratch.stamp(self.texture.as_ref(), p.0, p.1, r, color);
                        },
                    }
                    self.last_pos = Some(cur);
                    self.stabilized_pos = Some(cur);
                },
                None => {},
            }
        } else {
            self.last_pos = None;
            self.stabilized_pos = None;
        }
        if input.is_released {
            self.scratch.commit(image, "Brush Stroke", false)
        } else {
            None
        }
    }

    /// The scratch buffer for the host's overlay, while a stroke is in
    /// progress.
    pub fn get_temp_layer(&self) -> (p: Option<(&PixelBuffer, u32, u32)>)
        ensures
            p == match self.scratch.dirty_rect {
                Some(_) => Some((&self.scratch.layer, 0u32, 0u32)),
                None => None,
            },
    {
        self.scratch.preview()
    }
}

/// The colour that the eraser marks its path with on the scratch buffer.
pub open spec fn eraser_ink() -> Color {
    Color { r: 255, g: 255, b: 255, a: 128 }
}

/// The eraser: strokes the pointer's path pixel by pixel and, on release,
/// clears the layer wherever the path went.
pub struct EraserTool {
    pub scratch: Scratch,
    pub last_pos: Option<Point>,
}

impl EraserTool {
    pub open spec fn wf(&self) -> bool {
        self.scratch.wf()
    }

    /// The sketch after the drawing part of a tick: the segment from the
    /// last sample is stroked, or a single circle is stamped at the start.
    pub open spec fn sketched(
        &self,
        width: u32,
        height: u32,
        settings: ToolSettings,
        input: ToolInput,
    ) -> Sketch {
        let sized = self.scratch@.resized(width as int, height as int);
        let r = radius_of(settings.eraser_size);
        if input.is_pressed && input.pos.is_some() {
            let p = input.pos.unwrap();
            match self.last_pos {
                Some(l) => sized.stroke(
                    None,
                    FinePoint::of(l),
                    FinePoint::of(p),
                    PIXEL_STEP as int,
                    r,
                    eraser_ink(),
                ),
                None => sized.stamp(None, p.x as int, p.y as int, r, eraser_ink()),
            }
        } else {
            sized
        }
    }

    /// The last sample after a tick.
    pub open spec fn moved(&self, input: ToolInput) -> Option<Point> {
        if input.is_pressed {
            match input.pos {
                Some(p) => Some(p),
                None => self.last_pos,
            }
        } else {
            None
        }
    }

    /// An eraser for a canvas of the given size.
    pub fn new(width: u32, height: u32) -> (tool: EraserTool)
        requires
            crate::raster::fits(width, height),
        ensures
            tool.wf(),
            tool.scratch@ == Sketch::blank(width as int, height as int),
            tool.last_pos.is_none(),
    {
        EraserTool { scratch: Scratch::new(width, height), last_pos: None }
    }

    pub fn name(&self) -> (n: &'static str)
        ensures
            n@ == "Eraser"@,
    {
        "Eraser"
    }

    /// What one tick of the eraser does: the pressed sample draws the path,
    /// the release erases along it.
    pub open spec fn ticked(
        pre: EraserTool,
        post: EraserTool,
        before: ImageStore,
        after: ImageStore,
        settings: ToolSettings,
        input: ToolInput,
        color: Color,
        cmd: Option<PatchCommand>,
    ) -> bool {
        &&& post.scratch.sized(before.width, before.height)
        &&& post.last_pos == pre.moved(input)
        &&& tick_end(
            pre.sketched(before.width, before.height, settings, input),
            post.scratch@,
            input.is_released,
            before,
            after,
            cmd,
            "Erase"@,
            true,
        )
    }

    /// One tick of the eraser. The draw colour plays no part.
    pub fn update(
        &mut self,
        image: &mut ImageStore,
        settings: &ToolSettings,
        input: &ToolInput,
        color: Color,
    ) -> (cmd: Option<PatchCommand>)
        requires
            old(self).wf(),
            old(image).wf(),
        ensures
            final(self).wf(),
            final(image).wf(),
            Self::ticked(
                *old(self),
                *final(self),
                *old(image),
                *final(image),
                *settings,
                *input,
                color,
                cmd,
            ),
            cmd matches Some(c) ==> c.records(
                pixel_state(old(image).layers@),
                pixel_state(final(image).layers@),
            ),
    {
        self.scratch.ensure_size(image.width, image.height);
        let ink = Color { r: 255, g: 255, b: 255, a: 128 };
        if input.is_pressed {
            match input.pos {
                Some(pos) => {
                    let r = radius(settings.eraser_size);
                    match self.last_pos {
                        Some(last) => {
                            self.scratch.stamp_segment(
                                None,
                                FinePoint::from_point(last),
                                FinePoint::from_point(pos),
                                PIXEL_STEP,
                                r,
                                ink,
                            );
                        },
                        None => {
                            self.scratch.stamp(None, pos.x as i64, pos.y as i64, r, ink);
                        },
                    }
                    self.last_pos = Some(pos);
                },
                None => {},
            }
        } else {
            self.last_pos = None;
        }
        if input.is_released {
            self.scratch.commit(image, "Erase", true)
        } else {
            None
        }
    }

    /// The scratch buffer for the host's overlay, while a stroke is in
    /// progress.
    pub fn get_temp_layer(&self) -> (p: Option<(&PixelBuffer, u32, u32)>)
        ensures
            p == match self.scratch.dirty_rect {
                Some(_) => Some((&self.scratch.layer, 0u32, 0u32)),
                None => None,
            },
    {
        self.scratch.preview()
    }
}

/// The fixed end of a rubber-band shape after a tick: the first pressed
/// sample of the gesture.
pub open spec fn band_start(start: Option<Point>, input: ToolInput) -> Option<Point> {
    if input.is_pressed && start.is_none() {
        input.pos
    } else {
        start
    }
}

/// The moving end of a rubber-band shape after a tick: the latest pressed
/// sample on the image.
pub open spec fn band_current(current: Option<Point>, input: ToolInput) -> Option<Point> {
    if input.is_pressed && input.pos.is_some() {
        input.pos
    } else {
        current
    }
}

/// How a tick ends for a rubber-band tool whose sketch stands at `mid`. On
/// release a gesture that has both ends is committed as `commit_result`
/// says; one that has not is dropped. Without release sketch and store stay.
pub open spec fn band_end(
    mid: Sketch,
    after: Sketch,
    start: Option<Point>,
    current: Option<Point>,
    released: bool,
    before: ImageStore,
    after_store: ImageStore,
    cmd: Option<PatchCommand>,
    name: Seq<char>,
) -> bool {
    if released {
        if start.is_some() && current.is_some() {
            after == mid.released() && commit_result(mid, before, after_store, cmd, name, false)
        } else {
            after == mid.erased() && cmd.is_none() && after_store == before
        }
    } else {
        after == mid && cmd.is_none() && after_store == before
    }
}

/// The straight line: redrawn from its fixed start to the pointer on every
/// sample, committed on release.
pub struct LineTool {
    pub scratch: Scratch,
    pub start_pos: Option<Point>,
    pub current_pos: Option<Point>,
}

impl LineTool {
    pub open spec fn wf(&self) -> bool {
        self.scratch.wf()
    }

    /// The sketch with the previous preview removed and the line from
    /// `start` to `end` stroked pixel by pixel.
    pub open spec fn redrawn(sketch: Sketch, start: Point, end: Point, width: u32, color: Color) -> Sketch {
        sketch.erased().stroke(
            None,
            FinePoint::of(start),
            FinePoint::of(end),
            PIXEL_STEP as int,
            radius_of(width),
            color,
        )
    }

    /// The sketch after the drawing part of a tick.
    pub open spec fn sketched(
        &self,
        width: u32,
        height: u32,
        settings: ToolSettings,
        input: ToolInput,
        color: Color,
    ) -> Sketch {
        let sized = self.scratch@.resized(width as int, height as int);
        if input.is_pressed && input.pos.is_some() {
            Self::redrawn(
                sized,
                band_start(self.start_pos, input).unwrap(),
                input.pos.unwrap(),
                settings.line_width,
                color,
            )
        } else {
            sized
        }
    }

    /// A line tool for a canvas of the given size.
    pub fn new(width: u32, height: u32) -> (tool: LineTool)
        requires
            crate::raster::fits(width, height),
        ensures
            tool.wf(),
            tool.scratch@ == Sketch::blank(width as int, height as int),
            tool.start_pos.is_none(),
            tool.current_pos.is_none(),
    {
        LineTool { scratch: Scratch::new(width, height), start_pos: None, current_pos: None }
    }

    pub fn name(&self) -> (n: &'static str)
        ensures
            n@ == "Line"@,
    {
        "Line"
    }

    fn draw_line_on_layer(&mut self, start: Point, end: Point, color: Color, width: u32)
        requires
            old(self).wf(),
        ensures
            final(self).wf(),
            final(self).scratch.layer@.width == old(self).scratch.layer@.width,
            final(self).scratch.layer@.height == old(self).scratch.layer@.height,
            final(self).scratch@ == Self::redrawn(old(self).scratch@, start, end, width, color),
            final(self).start_pos == old(self).start_pos,
            final(self).current_pos == old(self).current_pos,
    {
        self.scratch.clear_dirty();
        self.scratch.stamp_segment(
            None,
            FinePoint::from_point(start),
            FinePoint::from_point(end),
            PIXEL_STEP,
            radius(width),
            color,
        );
    }

    /// What one tick of the line tool does: the pressed sample redraws the
    /// preview, the release commits it and ends the gesture.
    pub open spec fn ticked(
        pre: LineTool,
        post: LineTool,
        before: ImageStore,
        after: ImageStore,
        settings: ToolSettings,
        input: ToolInput,
        color: Color,
        cmd: Option<PatchCommand>,
    ) -> bool {
        &&& post.scratch.sized(before.width, before.height)
        &&& post.start_pos == if input.is_released {
            None
        } else {
            band_start(pre.start_pos, input)
        }
        &&& post.current_pos == if input.is_released {
            None
        } else {
            band_current(pre.current_pos, input)
        }
        &&& band_end(
            pre.sketched(before.width, before.height, settings, input, color),
            post.scratch@,
            band_start(pre.start_pos, input),
            band_current(pre.current_pos, input),
            input.is_released,
            before,
            after,
            cmd,
            "Line"@,
        )
    }

    /// One tick of the line tool.
    pub fn update(
        &mut self,
        image: &mut ImageStore,
        settings: &ToolSettings,
        input: &ToolInput,
        color: Color,
    ) -> (cmd: Option<PatchCommand>)
        requires
            old(self).wf(),
            old(image).wf(),
        ensures
            final(self).wf(),
            final(image).wf(),
            Self::ticked(
                *old(self),
                *final(self),
                *old(image),
                *final(image),
                *settings,
                *input,
                color,
                cmd,
            ),
            cmd matches Some(c) ==> c.records(
                pixel_state(old(image).layers@),
                pixel_state(final(image).layers@),
            ),
    {
        self.scratch.ensure_size(image.width, image.height);
        if input.is_pressed {
            if self.start_pos.is_none() {
                self.start_pos = input.pos;
            }
            match input.pos {
                Some(pos) => {
                    self.current_pos = Some(pos);
                    match self.start_pos {
                        Some(start) => {
                            self.draw_line_on_layer(start, pos, color, settings.line_width);
                        },
                        None => {},
                    }
                },
                None => {},
            }
        }
        if input.is_released {
            let cmd = if self.start_pos.is_some() && self.current_pos.is_some() {
                self.scratch.commit(image, "Line", false)
            } else {
                self.scratch.clear_dirty();
                None
            };
            self.start_pos = None;
            self.current_pos = None;
            cmd
        } else {
            None
        }
    }

    /// The scratch buffer for the host's overlay, while a line is being
    /// dragged.
    pub fn get_temp_layer(&self) -> (p: Option<(&PixelBuffer, u32, u32)>)
        ensures
            p == match self.scratch.dirty_rect {
                Some(_) => Some((&self.scratch.layer, 0u32, 0u32)),
                None => None,
            },
    {
        self.scratch.preview()
    }
}

impl Tool for BrushTool {
    open spec fn ready(&self) -> bool {
        self.wf()
    }

    open spec fn ticks(
        pre: Self,
        post: Self,
        before: ImageStore,
        after: ImageStore,
        settings: ToolSettings,
        input: ToolInput,
        color: Color,
        cmd: Option<PatchCommand>,
    ) -> bool {
        BrushTool::ticked(pre, post, before, after, settings, input, color, cmd)
    }

    fn name(&self) -> (n: &'static str)
        ensures
            n@ == "Brush"@,
    {
        BrushTool::name(self)
    }

    fn update(
        &mut self,
        image: &mut ImageStore,
        settings: &ToolSettings,
        input: &ToolInput,
        color: Color,
    ) -> (cmd: Option<PatchCommand>) {
        BrushTool::update(self, image, settings, input, color)
    }

    fn get_temp_layer(&self) -> (p: Option<(&PixelBuffer, u32, u32)>)
        ensures
            p == match self.scratch.dirty_rect {
                Some(_) => Some((&self.scratch.layer, 0u32, 0u32)),
                None => None,
            },
    {
        BrushTool::get_temp_layer(self)
    }
}

impl Tool for EraserTool {
    open spec fn ready(&self) -> bool {
        self.wf()
    }

    open spec fn ticks(
        pre: Self,
        post: Self,
        before: ImageStore,
        after: ImageStore,
        settings: ToolSettings,
        input: ToolInput,
        color: Color,
        cmd: Option<PatchCommand>,
    ) -> bool {
        EraserTool::ticked(pre, post, before, after, settings, input, color, cmd)
    }

    fn name(&self) -> (n: &'static str)
        ensures
            n@ == "Eraser"@,
    {
        EraserTool::name(self)
    }

    fn update(
        &mut self,
        image: &mut ImageStore,
        settings: &ToolSettings,
        input: &ToolInput,
        color: Color,
    ) -> (cmd: Option<PatchCommand>) {
        EraserTool::update(self, image, settings, input, color)
    }

    fn get_temp_layer(&self) -> (p: Option<(&PixelBuffer, u32, u32)>)
        ensures
            p == match self.scratch.dirty_rect {
                Some(_) => Some((&self.scratch.layer, 0u32, 0u32)),
                None => None,
            },
    {
        EraserTool::get_temp_layer(self)
    }
}

impl Tool for LineTool {
    open spec fn ready(&self) -> bool {
        self.wf()
    }

    open spec fn ticks(
        pre: Self,
        post: Self,
        before: ImageStore,
        after: ImageStore,
        settings: ToolSettings,
        input: ToolInput,
        color: Color,
        cmd: Option<PatchCommand>,
    ) -> bool {
        LineTool::ticked(pre, post, before, after, settings, input, color, cmd)
    }

    fn name(&self) -> (n: &'static str)
        ensures
            n@ == "Line"@,
    {
        LineTool::name(self)
    }

    fn update(
        &mut self,
        image: &mut ImageStore,
        settings: &ToolSettings,
        input: &ToolInput,
        color: Color,
    ) -> (cmd: Option<PatchCommand>) {
        LineTool::update(self, image, settings, input, color)
    }

    fn get_temp_layer(&self) -> (p: Option<(&PixelBuffer, u32, u32)>)
        ensures
            p == match self.scratch.dirty_rect {
                Some(_) => Some((&self.scratch.layer, 0u32, 0u32)),
                None => None,
            },
    {
        LineTool::get_temp_layer(self)
    }
}

} // verus!
