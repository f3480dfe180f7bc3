//! The rectangle outline tool.

use vstd::prelude::*;
use crate::commands::PatchCommand;
use crate::geometry::{FinePoint, Point};
use crate::image_store::{pixel_state, ImageStore};
use crate::raster::{Color, PixelBuffer};
use crate::state::ToolSettings;
use crate::tools::base::{Tool, band_current, band_end, band_start, radius, radius_of, ToolInput, PIXEL_STEP};
use crate::tools::scratch::{Scratch, Sketch};

verus! {

/// The four corners of the rectangle spanned by two points, clockwise from
/// the top-left one.
pub open spec fn corners(start: Point, end: Point) -> (Point, Point, Point, Point) {
    let min_x = if start.x <= end.x { start.x } else { end.x };
    let max_x = if start.x <= end.x { end.x } else { start.x };
    let min_y = if start.y <= end.y { start.y } else { end.y };
    let max_y = if start.y <= end.y { end.y } else { start.y };
    (
        Point { x: min_x, y: min_y },
        Point { x: max_x, y: min_y },
        Point { x: max_x, y: max_y },
        Point { x: min_x, y: max_y },
    )
}

/// The rectangle outline: redrawn between its fixed corner and the pointer
/// on every sample, committed on release.
pub struct RectangleTool {
    pub scratch: Scratch,
    pub start_pos: Option<Point>,
    pub current_pos: Option<Point>,
}

impl RectangleTool {
    pub open spec fn wf(&self) -> bool {
        self.scratch.wf()
    }

    /// One edge stroked pixel by pixel.
    pub open spec fn edge(sketch: Sketch, from: Point, to: Point, width: u32, color: Color) -> Sketch {
        sketch.stroke(
            None,
            FinePoint::of(from),
            FinePoint::of(to),
            PIXEL_STEP as int,
            radius_of(width),
            color,
        )
    }

    /// The sketch with the previous preview removed and the four edges
    /// stroked: top, right, bottom, left.
    pub open spec fn redrawn(sketch: Sketch, start: Point, end: Point, width: u32, color: Color) -> Sketch {
        let c = corners(start, end);
        Self::edge(
            Self::edge(
                Self::edge(Self::edge(sketch.erased(), c.0, c.1, width, color), c.1, c.2, width, color),
                c.2,
                c.3,
                width,
                color,
            ),
            c.3,
            c.0,
            width,
            color,
        )
    }

    /// The sketch after the drawing part of a tick.
    pub open spec fn sketched(
        &self,
        width: u32,
        height: u32,
        settings: ToolSettings,
        input: ToolInput,
        color: Color,
    ) -> Sketch {
        let sized = self.scratch@.resized(width as int, height as int);
        if input.is_pressed && input.pos.is_some() {
            Self::redrawn(
                sized,
                band_start(self.start_pos, input).unwrap(),
                input.pos.unwrap(),
                settings.line_width,
                color,
            )
        } else {
            sized
        }
    }

    /// A rectangle tool for a canvas of the given size.
    pub fn new(width: u32, height: u32) -> (tool: RectangleTool)
        requires
            crate::raster::fits(width, height),
        ensures
            tool.wf(),
            tool.scratch@ == Sketch::blank(width as int, height as int),
            tool.start_pos.is_none(),
            tool.current_pos.is_none(),
    {
        RectangleTool { scratch: Scratch::new(width, height), start_pos: None, current_pos: None }
    }

    pub fn name(&self) -> (n: &'static str)
        ensures
            n@ == "Rectangle"@,
    {
        "Rectangle"
    }

    fn draw_edge(&mut self, from: Point, to: Point, color: Color, width: u32)
        requires
            old(self).wf(),
        ensures
            final(self).wf(),
            final(self).scratch.layer@.width == old(self).scratch.layer@.width,
            final(self).scratch.layer@.height == old(self).scratch.layer@.height,
            final(self).scratch@ == Self::edge(old(self).scratch@, from, to, width, color),
            final(self).start_pos == old(self).start_pos,
            final(self).current_pos == old(self).current_pos,
    {
        self.scratch.stamp_segment(
            None,
            FinePoint::from_point(from),
            FinePoint::from_point(to),
            PIXEL_STEP,
            radius(width),
            color,
        );
    }

    fn draw_rect_on_layer(&mut self, start: Point, end: Point, color: Color, width: u32)
        requires
            old(self).wf(),
        ensures
            final(self).wf(),
            final(self).scratch.layer@.width == old(self).scratch.layer@.width,
            final(self).scratch.layer@.height == old(self).scratch.layer@.height,
            final(self).scratch@ == Self::redrawn(old(self).scratch@, start, end, width, color),
            final(self).start_pos == old(self).start_pos,
            final(self).current_pos == old(self).current_pos,
    {
        self.scratch.clear_dirty();
        let min_x = if start.x <= end.x { start.x } else { end.x };
        let max_x = if start.x <= end.x { end.x } else { start.x };
        let min_y = if start.y <= end.y { start.y } else { end.y };
        let max_y = if start.y <= end.y { end.y } else { start.y };
        let tl = Point { x: min_x, y: min_y };
        let tr = Point { x: max_x, y: min_y };
        let br = Point { x: max_x, y: max_y };
        let bl = Point { x: min_x, y: max_y };
        self.draw_edge(tl, tr, color, width);
        self.draw_edge(tr, br, color, width);
        self.draw_edge(br, bl, color, width);
        self.draw_edge(bl, tl, color, width);
    }

    /// What one tick of the rectangle tool does: the pressed sample redraws
    /// the preview, the release commits it and ends the gesture.
    pub open spec fn ticked(
        pre: RectangleTool,
        post: RectangleTool,
        before: ImageStore,
        after: ImageStore,
        settings: ToolSettings,
        input: ToolInput,
        color: Color,
        cmd: Option<PatchCommand>,
    ) -> bool {
        &&& post.scratch.sized(before.width, before.height)
        &&& post.start_pos == if input.is_released {
            None
        } else {
            band_start(pre.start_pos, input)
        }
        &&& post.current_pos == if input.is_released {
            None
        } else {
            band_current(pre.current_pos, input)
        }
        &&& band_end(
            pre.sketched(before.width, before.height, settings, input, color),
            post.scratch@,
            band_start(pre.start_pos, input),
            band_current(pre.current_pos, input),
            input.is_released,
            before,
            after,
            cmd,
            "Rectangle"@,
        )
    }

    /// One tick of the rectangle tool.
    pub fn update(
        &mut self,
        image: &mut ImageStore,
        settings: &ToolSettings,
        input: &ToolInput,
        color: Color,
    ) -> (cmd: Option<PatchCommand>)
        requires
            old(self).wf(),
            old(image).wf(),
        ensures
            final(self).wf(),
            final(image).wf(),
            Self::ticked(
                *old(self),
                *final(self),
                *old(image),
                *final(image),
                *settings,
                *input,
                color,
                cmd,
            ),
            cmd matches Some(c) ==> c.records(
                pixel_state(old(image).layers@),
                pixel_state(final(image).layers@),
            ),
    {
        self.scratch.ensure_size(image.width, image.height);
        if input.is_pressed {
            if self.start_pos.is_none() {
                self.start_pos = input.pos;
            }
            match input.pos {
                Some(pos) => {
                    self.current_pos = Some(pos);
                    match self.start_pos {
                        Some(start) => {
                            self.draw_rect_on_layer(start, pos, color, settings.line_width);
                        },
                        None => {},
                    }
                },
                None => {},
            }
        }
        if input.is_released {
            let cmd = if self.start_pos.is_some() && self.current_pos.is_some() {
                self.scratch.commit(image, "Rectangle", false)
            } else {
                self.scratch.clear_dirty();
                None
            };
            self.start_pos = None;
            self.current_pos = None;
            cmd
        } else {
            None
        }
    }

    /// The scratch buffer for the host's overlay, while a rectangle is
    /// being dragged.
    pub fn get_temp_layer(&self) -> (p: Option<(&PixelBuffer, u32, u32)>)
        ensures
            p == match self.scratch.dirty_rect {
                Some(_) => Some((&self.scratch.layer, 0u32, 0u32)),
                None => None,
            },
    {
        self.scratch.preview()
    }
}

impl Tool for RectangleTool {
    open spec fn ready(&self) -> bool {
        self.wf()
    }

    open spec fn ticks(
        pre: Self,
        post: Self,
        before: ImageStore,
        after: ImageStore,
        settings: ToolSettings,
        input: ToolInput,
        color: Color,
        cmd: Option<PatchCommand>,
    ) -> bool {
        RectangleTool::ticked(pre, post, before, after, settings, input, color, cmd)
    }

    fn name(&self) -> (n: &'static str)
        ensures
            n@ == "Rectangle"@,
    {
        RectangleTool::name(self)
    }

    fn update(
        &mut self,
        image: &mut ImageStore,
        settings: &ToolSettings,
        input: &ToolInput,
        color: Color,
    ) -> (cmd: Option<PatchCommand>) {
        RectangleTool::update(self, image, settings, input, color)
    }

    fn get_temp_layer(&self) -> (p: Option<(&PixelBuffer, u32, u32)>)
        ensures
            p == match self.scratch.dirty_rect {
                Some(_) => Some((&self.scratch.layer, 0u32, 0u32)),
                None => None,
            },
    {
        RectangleTool::get_temp_layer(self)
    }
}

} // verus!
