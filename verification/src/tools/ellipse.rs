//! The ellipse outline tool. The sample points of the outline come from
//! the host, which has the trigonometry; the tool stamps them.

use vstd::prelude::*;
use crate::commands::PatchCommand;
use crate::geometry::Point;
use crate::image_store::{pixel_state, ImageStore};
use crate::raster::{Color, PixelBuffer};
use crate::state::ToolSettings;
use crate::tools::base::{Tool, band_current, band_end, band_start, radius, radius_of, ToolInput};
use crate::tools::scratch::{Scratch, Sketch};

verus! {

/// The sketch after circles have been stamped at the first `n` points of
/// an outline.
pub open spec fn outlined_upto(sketch: Sketch, points: Seq<Point>, r: int, c: Color, n: nat) -> Sketch
    decreases n,
{
    if n == 0 {
        sketch
    } else {
        let p = points[n - 1];
        outlined_upto(sketch, points, r, c, (n - 1) as nat).stamp(None, p.x as int, p.y as int, r, c)
    }
}

/// The ellipse outline: redrawn through the sample points of the current
/// outline on every sample, committed on release.
pub struct EllipseTool {
    /// The stamp radius of the outline, in pixels.
    pub width: u32,
    /// The sample points of the ellipse that the next pressed sample draws.
    pub outline: Vec<Point>,
    pub scratch: Scratch,
    pub start_pos: Option<Point>,
    pub current_pos: Option<Point>,
}

impl EllipseTool {
    pub open spec fn wf(&self) -> bool {
        self.scratch.wf()
    }

    /// The sketch with the previous preview removed and a circle stamped at
    /// every point of the outline, in order.
    pub open spec fn redrawn(sketch: Sketch, outline: Seq<Point>, width: u32, color: Color) -> Sketch {
        outlined_upto(sketch.erased(), outline, radius_of(width), color, outline.len())
    }

    /// The sketch after the drawing part of a tick.
    pub open spec fn sketched(&self, width: u32, height: u32, input: ToolInput, color: Color) -> Sketch {
        let sized = self.scratch@.resized(width as int, height as int);
        if input.is_pressed && input.pos.is_some() {
            Self::redrawn(sized, self.outline@, self.width, color)
        } else {
            sized
        }
    }

    /// An ellipse tool with an outline two pixels thick, for a canvas of
    /// the given size.
    pub fn new(width: u32, height: u32) -> (tool: EllipseTool)
        requires
            crate::raster::fits(width, height),
        ensures
            tool.wf(),
            tool.width == 2,
            tool.outline@.len() == 0,
            tool.scratch@ == Sketch::blank(width as int, height as int),
            tool.start_pos.is_none(),
            tool.current_pos.is_none(),
    {
        EllipseTool {
            width: 2,
            outline: Vec::new(),
            scratch: Scratch::new(width, height),
            start_pos: None,
            current_pos: None,
        }
    }

    pub fn name(&self) -> (n: &'static str)
        ensures
            n@ == "Ellipse"@,
    {
        "Ellipse"
    }

    /// The two points that span the ellipse which a tick with this input
    /// draws, if it draws one: the gesture's fixed corner and the pointer.
    /// The host samples the outline of that ellipse and hands it over
    /// with `set_outline` before the tick.
    pub fn span(&self, input: &ToolInput) -> (ends: Option<(Point, Point)>)
        ensures
            ends == if input.is_pressed && input.pos.is_some() {
                Some((band_start(self.start_pos, *input).unwrap(), input.pos.unwrap()))
            } else {
                None
            },
    {
        if input.is_pressed {
            match input.pos {
                Some(pos) => match self.start_pos {
                    Some(start) => Some((start, pos)),
                    None => Some((pos, pos)),
                },
                None => None,
            }
        } else {
            None
        }
    }

    /// Hands over the sample points of the outline to draw.
    pub fn set_outline(&mut self, outline: Vec<Point>)
        ensures
            *final(self) == (EllipseTool { outline, ..*old(self) }),
    {
        self.outline = outline;
    }

    fn draw_ellipse_on_layer(&mut self, color: Color)
        requires
            old(self).wf(),
        ensures
            final(self).wf(),
            final(self).scratch.layer@.width == old(self).scratch.layer@.width,
            final(self).scratch.layer@.height == old(self).scratch.layer@.height,
            final(self).scratch@ == Self::redrawn(
                old(self).scratch@,
                old(self).outline@,
                old(self).width,
                color,
            ),
            final(self).width == old(self).width,
            final(self).outline == old(self).outline,
            final(self).start_pos == old(self).start_pos,
            final(self).current_pos == old(self).current_pos,
    {
        self.scratch.clear_dirty();
        let ghost cleared = self.scratch@;
        let r = radius(self.width);
        let n = self.outline.len();
        let ghost outline = self.outline;
        let mut i: usize = 0;
        while i < n
            invariant
                i <= n,
                n == outline@.len(),
                r == radius_of(self.width),
                self.scratch.wf(),
                self.scratch.layer@.width == old(self).scratch.layer@.width,
                self.scratch.layer@.height == old(self).scratch.layer@.height,
                self.scratch@ == outlined_upto(cleared, outline@, r as int, color, i as nat),
                self.width == old(self).width,
                self.outline == outline,
                self.start_pos == old(self).start_pos,
                self.current_pos == old(self).current_pos,
            decreases n - i,
        {
            let p = self.outline[i];
            self.scratch.stamp(None, p.x as i64, p.y as i64, r, color);
            i += 1;
        }
    }

    /// What one tick of the ellipse tool does: the pressed sample redraws
    /// the preview, the release commits it and ends the gesture.
    pub open spec fn ticked(
        pre: EllipseTool,
        post: EllipseTool,
        before: ImageStore,
        after: ImageStore,
        settings: ToolSettings,
        input: ToolInput,
        color: Color,
        cmd: Option<PatchCommand>,
    ) -> bool {
        &&& post.width == pre.width
        &&& post.outline == pre.outline
        &&& post.scratch.sized(before.width, before.height)
        &&& post.start_pos == if input.is_released {
            None
        } else {
            band_start(pre.start_pos, input)
        }
        &&& post.current_pos == if input.is_released {
            None
        } else {
            band_current(pre.current_pos, input)
        }
        &&& band_end(
            pre.sketched(before.width, before.height, input, color),
            post.scratch@,
            band_start(pre.start_pos, input),
            band_current(pre.current_pos, input),
            input.is_released,
            before,
            after,
            cmd,
            "Ellipse"@,
        )
    }

    /// One tick of the ellipse tool. A pressed sample on the image redraws
    /// the preview through the outline that the tool holds. The settings
    /// play no part: the tool has its own width.
    pub fn update(
        &mut self,
        image: &mut ImageStore,
        settings: &ToolSettings,
        input: &ToolInput,
        color: Color,
    ) -> (cmd: Option<PatchCommand>)
        requires
            old(self).wf(),
            old(image).wf(),
        ensures
            final(self).wf(),
            final(image).wf(),
            Self::ticked(
                *old(self),
                *final(self),
                *old(image),
                *final(image),
                *settings,
                *input,
                color,
                cmd,
            ),
            cmd matches Some(c) ==> c.records(
                pixel_state(old(image).layers@),
                pixel_state(final(image).layers@),
            ),
    {
        self.scratch.ensure_size(image.width, image.height);
        if input.is_pressed {
            if self.start_pos.is_none() {
                self.start_pos = input.pos;
            }
            match input.pos {
                Some(pos) => {
                    self.current_pos = Some(pos);
                    if self.start_pos.is_some() {
                        self.draw_ellipse_on_layer(color);
                    }
                },
                None => {},
            }
        }
        if input.is_released {
            let cmd = if self.start_pos.is_some() && self.current_pos.is_some() {
                self.scratch.commit(image, "Ellipse", false)
            } else {
                self.scratch.clear_dirty();
                None
            };
            self.start_pos = None;
            self.current_pos = None;
            cmd
        } else {
            None
        }
    }

    /// The scratch buffer for the host's overlay, while an ellipse is
    /// being dragged.
    pub fn get_temp_layer(&self) -> (p: Option<(&PixelBuffer, u32, u32)>)
        ensures
            p == match self.scratch.dirty_rect {
                Some(_) => Some((&self.scratch.layer, 0u32, 0u32)),
                None => None,
            },
    {
        self.scratch.preview()
    }
}

impl Tool for EllipseTool {
    open spec fn ready(&self) -> bool {
        self.wf()
    }

    open spec fn ticks(
        pre: Self,
        post: Self,
        before: ImageStore,
        after: ImageStore,
        settings: ToolSettings,
        input: ToolInput,
        color: Color,
        cmd: Option<PatchCommand>,
    ) -> bool {
        EllipseTool::ticked(pre, post, before, after, settings, input, color, cmd)
    }

    fn name(&self) -> (n: &'static str)
        ensures
            n@ == "Ellipse"@,
    {
        EllipseTool::name(self)
    }

    fn update(
        &mut self,
        image: &mut ImageStore,
        settings: &ToolSettings,
        input: &ToolInput,
        color: Color,
    ) -> (cmd: Option<PatchCommand>) {
        EllipseTool::update(self, image, settings, input, color)
    }

    fn get_temp_layer(&self) -> (p: Option<(&PixelBuffer, u32, u32)>)
        ensures
            p == match self.scratch.dirty_rect {
                Some(_) => Some((&self.scratch.layer, 0u32, 0u32)),
                None => None,
            },
    {
        EllipseTool::get_temp_layer(self)
    }
}

} // verus!
