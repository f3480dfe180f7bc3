//! The selection tools: a dragged rectangle and a freehand lasso. Both end
//! a gesture by replacing the store's selection mask.

use vstd::prelude::*;
use crate::commands::PatchCommand;
use crate::geometry::Point;
use crate::image_store::ImageStore;
use crate::mask::{Mask, SELECTED};
use crate::raster::{Color, Grid, PixelBuffer};
use crate::state::ToolSettings;
use crate::tools::base::{band_start, Tool, ToolInput};

verus! {

/// A coordinate moved onto the canvas's low edge if it lies before it.
pub open spec fn at_least_zero(v: int) -> int {
    if v < 0 {
        0
    } else {
        v
    }
}

pub open spec fn lesser(a: int, b: int) -> int {
    if a <= b {
        a
    } else {
        b
    }
}

pub open spec fn greater(a: int, b: int) -> int {
    if a >= b {
        a
    } else {
        b
    }
}

/// The selection of a store, as contracts see it.
pub open spec fn selection_view(image: ImageStore) -> Option<Grid<u8>> {
    match image.selection {
        Some(m) => Some(m@),
        None => None,
    }
}

/// The mask with exactly the pixels of the block from `(left, top)` to
/// `(right, bottom)`, exclusive, selected where `keep` holds.
pub open spec fn block_mask(
    width: int,
    height: int,
    left: int,
    top: int,
    right: int,
    bottom: int,
    keep: spec_fn(int, int) -> bool,
) -> Grid<u8> {
    Grid::build(
        width,
        height,
        |x: int, y: int|
            if left <= x < right && top <= y < bottom && keep(x, y) {
                SELECTED
            } else {
                0u8
            },
    )
}

/// Does the rectangle spanned by `a` and `b`, cut off at the canvas's low
/// edges, have no width or no height?
pub open spec fn degenerate(a: Point, b: Point) -> bool {
    !(at_least_zero(greater(a.x as int, b.x as int)) > at_least_zero(lesser(a.x as int, b.x as int))
        && at_least_zero(greater(a.y as int, b.y as int)) > at_least_zero(
        lesser(a.y as int, b.y as int),
    ))
}

/// A rectangle spanned by two points that agree in one coordinate has no
/// area, so completing it clears the selection.
pub proof fn lemma_zero_area_is_degenerate(a: Point, b: Point)
    requires
        a.x == b.x || a.y == b.y,
    ensures
        degenerate(a, b),
{
}

/// The mask that selects the rectangle spanned by `a` and `b`, the larger
/// coordinates exclusive.
pub open spec fn rect_mask(width: int, height: int, a: Point, b: Point) -> Grid<u8> {
    block_mask(
        width,
        height,
        at_least_zero(lesser(a.x as int, b.x as int)),
        at_least_zero(lesser(a.y as int, b.y as int)),
        at_least_zero(greater(a.x as int, b.x as int)),
        at_least_zero(greater(a.y as int, b.y as int)),
        |x: int, y: int| true,
    )
}

fn low_clamped(v: i32) -> (c: u32)
    ensures
        c == at_least_zero(v as int),
{
    if v < 0 {
        0
    } else {
        v as u32
    }
}

/// Selects a rectangle by dragging from one corner to the other.
pub struct RectSelectionTool {
    pub start_pos: Option<Point>,
    pub current_pos: Option<Point>,
}

impl RectSelectionTool {
    /// The moving corner after a tick: whatever the latest pressed sample
    /// held, even nothing.
    pub open spec fn followed(current: Option<Point>, input: ToolInput) -> Option<Point> {
        if input.is_pressed {
            input.pos
        } else {
            current
        }
    }

    pub fn new() -> (tool: RectSelectionTool)
        ensures
            tool.start_pos.is_none(),
            tool.current_pos.is_none(),
    {
        RectSelectionTool { start_pos: None, current_pos: None }
    }

    pub fn name(&self) -> (n: &'static str)
        ensures
            n@ == "Rect Selection"@,
    {
        "Rect Selection"
    }

    /// What one tick of the rectangular selection does.
    pub open spec fn ticked(
        pre: RectSelectionTool,
        post: RectSelectionTool,
        before: ImageStore,
        after: ImageStore,
        settings: ToolSettings,
        input: ToolInput,
        color: Color,
        cmd: Option<PatchCommand>,
    ) -> bool {
        &&& cmd.is_none()
        &&& after == (ImageStore { selection: after.selection, ..before })
        &&& ({
            let start = band_start(pre.start_pos, input);
            let current = Self::followed(pre.current_pos, input);
            if input.is_released {
                &&& post.start_pos.is_none()
                &&& post.current_pos.is_none()
                &&& match (start, current) {
                    (Some(a), Some(b)) => selection_view(after) == if degenerate(a, b) {
                        None
                    } else {
                        Some(rect_mask(before.width as int, before.height as int, a, b))
                    },
                    _ => after.selection == before.selection,
                }
            } else {
                &&& post.start_pos == start
                &&& post.current_pos == current
                &&& after.selection == before.selection
            }
        })
    }

    /// Completing a rectangle without area clears the selection, whatever
    /// it was.
    pub proof fn lemma_zero_area_clears(
        pre: RectSelectionTool,
        post: RectSelectionTool,
        before: ImageStore,
        after: ImageStore,
        settings: ToolSettings,
        input: ToolInput,
        color: Color,
        cmd: Option<PatchCommand>,
    )
        requires
            Self::ticked(pre, post, before, after, settings, input, color, cmd),
            input.is_released,
            band_start(pre.start_pos, input) matches Some(a) && Self::followed(
                pre.current_pos,
                input,
            ) matches Some(b) && (a.x == b.x || a.y == b.y),
        ensures
            after.selection.is_none(),
    {
        let a = band_start(pre.start_pos, input).unwrap();
        let b = Self::followed(pre.current_pos, input).unwrap();
        lemma_zero_area_is_degenerate(a, b);
    }

    /// One tick of the rectangular selection. A release with both corners
    /// known replaces the selection: by the rectangle's mask, or by none if
    /// the rectangle is degenerate. Settings and colour play no part, and
    /// no command is made.
    pub fn update(
        &mut self,
        image: &mut ImageStore,
        settings: &ToolSettings,
        input: &ToolInput,
        color: Color,
    ) -> (cmd: Option<PatchCommand>)
        requires
            old(image).wf(),
        ensures
            final(image).wf(),
            Self::ticked(
                *old(self),
                *final(self),
                *old(image),
                *final(image),
                *settings,
                *input,
                color,
                cmd,
            ),
    {
        if input.is_pressed {
            if self.start_pos.is_none() {
                self.start_pos = input.pos;
            }
            self.current_pos = input.pos;
        }
        if input.is_released {
            match (self.start_pos, self.current_pos) {
                (Some(start), Some(end)) => {
                    let min_x = low_clamped(if start.x <= end.x { start.x } else { end.x });
                    let max_x = low_clamped(if start.x >= end.x { start.x } else { end.x });
                    let min_y = low_clamped(if start.y <= end.y { start.y } else { end.y });
                    let max_y = low_clamped(if start.y >= end.y { start.y } else { end.y });
                    if max_x > min_x && max_y > min_y {
                        image.selection = Some(
                            fill_block(image.width, image.height, min_x, min_y, max_x, max_y),
                        );
                    } else {
                        image.selection = None;
                    }
                },
                _ => {},
            }
            self.start_pos = None;
            self.current_pos = None;
        }
        None
    }

    /// Selection tools show no preview buffer.
    pub fn get_temp_layer(&self) -> (p: Option<(&PixelBuffer, u32, u32)>)
        ensures
            p.is_none(),
    {
        None
    }
}

/// A fresh mask of the given size with the block from `(left, top)` to
/// `(right, bottom)`, exclusive, selected as far as it lies on the canvas.
fn fill_block(width: u32, height: u32, left: u32, top: u32, right: u32, bottom: u32) -> (mask: Mask)
    requires
        crate::raster::fits(width, height),
    ensures
        mask@ == block_mask(
            width as int,
            height as int,
            left as int,
            top as int,
            right as int,
            bottom as int,
            |x: int, y: int| true,
        ),
{
    let mut mask = Mask::new(width, height);
    let ghost goal = block_mask(
        width as int,
        height as int,
        left as int,
        top as int,
        right as int,
        bottom as int,
        |x: int, y: int| true,
    );
    let x_end = if right < width { right } else { width };
    let y_end = if bottom < height { bottom } else { height };
    let mut y: u32 = top;
    while y < y_end
        invariant
            y_end <= height,
            x_end <= width,
            x_end == lesser(right as int, width as int),
            y_end == lesser(bottom as int, height as int),
            top <= y,
            y <= y_end || y == top,
            mask@.width == width,
            mask@.height == height,
            forall|i: int, j: int|
                0 <= i < width && 0 <= j < height ==> #[trigger] mask@.at(i, j) == if left <= i
                    < right && top <= j < y {
                    SELECTED
                } else {
                    0u8
                },
        decreases y_end - y,
    {
        let mut x: u32 = left;
        while x < x_end
            invariant
                y < y_end <= height,
                x_end <= width,
                x_end == lesser(right as int, width as int),
                top <= y,
                left <= x,
                x <= x_end || x == left,
                mask@.width == width,
                mask@.height == height,
                forall|i: int, j: int|
                    0 <= i < width && 0 <= j < height ==> #[trigger] mask@.at(i, j) == if left <= i
                        < right && top <= j && (j < y || (j == y && i < x)) {
                        SELECTED
                    } else {
                        0u8
                    },
            decreases x_end - x,
        {
            mask.set_value(x, y, SELECTED);
            x += 1;
        }
        y += 1;
    }
    proof {
        mask.lemma_view();
        Grid::lemma_equal(mask@, goal);
    }
    mask
}

/// Does the edge from `pi` to `pj` cross the ray that runs from `(x, y)`
/// to the right? The edge counts where it passes the ray's height and
/// meets it beyond `x`.
pub open spec fn crosses(pi: Point, pj: Point, x: int, y: int) -> bool {
    (pi.y > y) != (pj.y > y) && {
        let dy = pj.y - pi.y;
        let lhs = (x - pi.x) * dy;
        let rhs = (pj.x - pi.x) * (y - pi.y);
        if dy > 0 {
            lhs < rhs
        } else {
            lhs > rhs
        }
    }
}

/// The vertex before vertex `i` of a closed polygon with `n` vertices.
pub open spec fn before_vertex(i: int, n: int) -> int {
    if i == 0 {
        n - 1
    } else {
        i - 1
    }
}

/// Even-odd rule over the first `n` edges: is the number of crossings odd?
pub open spec fn inside_upto(points: Seq<Point>, x: int, y: int, n: nat) -> bool
    decreases n,
{
    if n == 0 {
        false
    } else {
        inside_upto(points, x, y, (n - 1) as nat) != crosses(
            points[n - 1],
            points[before_vertex(n - 1, points.len() as int)],
            x,
            y,
        )
    }
}

/// Does `(x, y)` lie inside the closed polygon, by the even-odd rule?
pub open spec fn inside(points: Seq<Point>, x: int, y: int) -> bool {
    inside_upto(points, x, y, points.len())
}

/// The smallest of `init` and the first `n` x-coordinates (`axis` false)
/// or y-coordinates (`axis` true).
pub open spec fn least_upto(points: Seq<Point>, axis: bool, init: int, n: nat) -> int
    decreases n,
{
    if n == 0 {
        init
    } else {
        let v = if axis { points[n - 1].y } else { points[n - 1].x };
        lesser(least_upto(points, axis, init, (n - 1) as nat), v as int)
    }
}

/// The largest of `init` and the first `n` coordinates on one axis.
pub open spec fn most_upto(points: Seq<Point>, axis: bool, init: int, n: nat) -> int
    decreases n,
{
    if n == 0 {
        init
    } else {
        let v = if axis { points[n - 1].y } else { points[n - 1].x };
        greater(most_upto(points, axis, init, (n - 1) as nat), v as int)
    }
}

/// The mask that selects the interior of the polygon: every pixel of its
/// bounding box, the largest coordinates exclusive, that lies inside.
pub open spec fn lasso_mask(width: int, height: int, points: Seq<Point>) -> Grid<u8> {
    block_mask(
        width,
        height,
        at_least_zero(least_upto(points, false, width, points.len())),
        at_least_zero(least_upto(points, true, height, points.len())),
        at_least_zero(most_upto(points, false, 0, points.len())),
        at_least_zero(most_upto(points, true, 0, points.len())),
        |x: int, y: int| inside(points, x, y),
    )
}

/// Selects the interior of a freehand polygon.
pub struct LassoSelectionTool {
    pub points: Vec<Point>,
}

impl LassoSelectionTool {
    /// The vertices after the pressed part of a tick.
    pub open spec fn traced(points: Seq<Point>, input: ToolInput) -> Seq<Point> {
        if input.is_pressed && input.pos.is_some() {
            points.push(input.pos.unwrap())
        } else {
            points
        }
    }

    pub fn new() -> (tool: LassoSelectionTool)
        ensures
            tool.points@.len() == 0,
    {
        LassoSelectionTool { points: Vec::new() }
    }

    pub fn name(&self) -> (n: &'static str)
        ensures
            n@ == "Lasso Selection"@,
    {
        "Lasso Selection"
    }

    fn crossing(pi: Point, pj: Point, x: u32, y: u32) -> (c: bool)
        ensures
            c == crosses(pi, pj, x as int, y as int),
    {
        let py = y as i64;
        if ((pi.y as i64) > py) != ((pj.y as i64) > py) {
            let dy: i128 = pj.y as i128 - pi.y as i128;
            let dx: i128 = x as i128 - pi.x as i128;
            let ex: i128 = pj.x as i128 - pi.x as i128;
            let ey: i128 = y as i128 - pi.y as i128;
            assert(-0x2_0000_0000 * 0x2_0000_0000 <= dx * dy <= 0x2_0000_0000 * 0x2_0000_0000
                && -0x2_0000_0000 * 0x2_0000_0000 <= ex * ey <= 0x2_0000_0000 * 0x2_0000_0000)
                by (nonlinear_arith)
                requires
                    -0x2_0000_0000 <= dx <= 0x2_0000_0000,
                    -0x2_0000_0000 <= dy <= 0x2_0000_0000,
                    -0x2_0000_0000 <= ex <= 0x2_0000_0000,
                    -0x2_0000_0000 <= ey <= 0x2_0000_0000,
            ;
            let lhs: i128 = dx * dy;
            let rhs: i128 = ex * ey;
            if dy > 0 {
                lhs < rhs
            } else {
                lhs > rhs
            }
        } else {
            false
        }
    }

    /// Even-odd point-in-polygon test against the recorded vertices.
    pub fn is_inside(&self, x: u32, y: u32) -> (b: bool)
        ensures
            b == inside(self.points@, x as int, y as int),
    {
        let n = self.points.len();
        let mut result = false;
        let mut i: usize = 0;
        while i < n
            invariant
                i <= n,
                n == self.points@.len(),
                result == inside_upto(self.points@, x as int, y as int, i as nat),
            decreases n - i,
        {
            let j = if i == 0 {
                n - 1
            } else {
                i - 1
            };
            if Self::crossing(self.points[i], self.points[j], x, y) {
                result = !result;
            }
            i += 1;
        }
        result
    }

    fn bounds(&self, width: u32, height: u32) -> (b: (u32, u32, u32, u32))
        ensures
            b.0 == at_least_zero(
                least_upto(self.points@, false, width as int, self.points@.len()),
            ),
            b.1 == at_least_zero(
                least_upto(self.points@, true, height as int, self.points@.len()),
            ),
            b.2 == at_least_zero(most_upto(self.points@, false, 0, self.points@.len())),
            b.3 == at_least_zero(most_upto(self.points@, true, 0, self.points@.len())),
    {
        let n = self.points.len();
        let mut min_x: i64 = width as i64;
        let mut min_y: i64 = height as i64;
        let mut max_x: i64 = 0;
        let mut max_y: i64 = 0;
        let mut i: usize = 0;
        while i < n
            invariant
                i <= n,
                n == self.points@.len(),
                min_x == least_upto(self.points@, false, width as int, i as nat),
                min_y == least_upto(self.points@, true, height as int, i as nat),
                max_x == most_upto(self.points@, false, 0, i as nat),
                max_y == most_upto(self.points@, true, 0, i as nat),
                -0x8000_0000 <= min_x <= 0xffff_ffff,
                -0x8000_0000 <= min_y <= 0xffff_ffff,
                0 <= max_x <= 0x7fff_ffff,
                0 <= max_y <= 0x7fff_ffff,
            decreases n - i,
        {
            let p = self.points[i];
            if (p.x as i64) < min_x {
                min_x = p.x as i64;
            }
            if (p.y as i64) < min_y {
                min_y = p.y as i64;
            }
            if (p.x as i64) > max_x {
                max_x = p.x as i64;
            }
            if (p.y as i64) > max_y {
                max_y = p.y as i64;
            }
            i += 1;
        }
        (
            if min_x < 0 { 0 } else { min_x as u32 },
            if min_y < 0 { 0 } else { min_y as u32 },
            max_x as u32,
            max_y as u32,
        )
    }

    fn rasterize(&self, width: u32, height: u32) -> (mask: Mask)
        requires
            crate::raster::fits(width, height),
        ensures
            mask@ == lasso_mask(width as int, height as int, self.points@),
    {
        let (left, top, right, bottom) = self.bounds(width, height);
        let mut mask = Mask::new(width, height);
        let ghost points = self.points@;
        let ghost goal = lasso_mask(width as int, height as int, points);
        let x_end = if right < width { right } else { width };
        let y_end = if bottom < height { bottom } else { height };
        let mut y: u32 = top;
        while y < y_end
            invariant
                y_end <= height,
                x_end <= width,
                x_end == lesser(right as int, width as int),
                y_end == lesser(bottom as int, height as int),
                top <= y,
            y <= y_end || y == top,
                points == self.points@,
                mask@.width == width,
                mask@.height == height,
                forall|i: int, j: int|
                    0 <= i < width && 0 <= j < height ==> #[trigger] mask@.at(i, j) == if left <= i
                        < right && top <= j < y && inside(points, i, j) {
                        SELECTED
                    } else {
                        0u8
                    },
            decreases y_end - y,
        {
            let mut x: u32 = left;
            while x < x_end
                invariant
                    y < y_end <= height,
                    x_end <= width,
                    x_end == lesser(right as int, width as int),
                    top <= y,
                    left <= x,
                x <= x_end || x == left,
                    points == self.points@,
                    mask@.width == width,
                    mask@.height == height,
                    forall|i: int, j: int|
                        0 <= i < width && 0 <= j < height ==> #[trigger] mask@.at(i, j) == if left
                            <= i < right && top <= j && (j < y || (j == y && i < x)) && inside(
                            points,
                            i,
                            j,
                        ) {
                            SELECTED
                        } else {
                            0u8
                        },
                decreases x_end - x,
            {
                if self.is_inside(x, y) {
                    mask.set_value(x, y, SELECTED);
                }
                x += 1;
            }
            y += 1;
        }
        proof {
            mask.lemma_view();
            Grid::lemma_equal(mask@, goal);
        }
        mask
    }

    /// What one tick of the lasso does.
    pub open spec fn ticked(
        pre: LassoSelectionTool,
        post: LassoSelectionTool,
        before: ImageStore,
        after: ImageStore,
        settings: ToolSettings,
        input: ToolInput,
        color: Color,
        cmd: Option<PatchCommand>,
    ) -> bool {
        &&& cmd.is_none()
        &&& after == (ImageStore { selection: after.selection, ..before })
        &&& ({
            let traced = Self::traced(pre.points@, input);
            if input.is_released && traced.len() > 0 {
                &&& post.points@.len() == 0
                &&& if traced.len() > 2 {
                    selection_view(after) == Some(
                        lasso_mask(before.width as int, before.height as int, traced),
                    )
                } else {
                    after.selection == before.selection
                }
            } else {
                &&& post.points@ == traced
                &&& after.selection == before.selection
            }
        })
    }

    /// A lasso gesture that ends with two vertices or fewer leaves the
    /// selection as it is.
    pub proof fn lemma_short_lasso_keeps_selection(
        pre: LassoSelectionTool,
        post: LassoSelectionTool,
        before: ImageStore,
        after: ImageStore,
        settings: ToolSettings,
        input: ToolInput,
        color: Color,
        cmd: Option<PatchCommand>,
    )
        requires
            Self::ticked(pre, post, before, after, settings, input, color, cmd),
            Self::traced(pre.points@, input).len() <= 2,
        ensures
            after.selection == before.selection,
            after == before,
    {
    }

    /// One tick of the lasso. Every pressed sample on the image adds a
    /// vertex. A release with three or more vertices replaces the selection
    /// by the polygon's interior; with fewer it leaves the selection as it
    /// is. Either way the vertices are forgotten. Settings and colour play
    /// no part, and no command is made.
    pub fn update(
        &mut self,
        image: &mut ImageStore,
        settings: &ToolSettings,
        input: &ToolInput,
        color: Color,
    ) -> (cmd: Option<PatchCommand>)
        requires
            old(image).wf(),
        ensures
            final(image).wf(),
            Self::ticked(
                *old(self),
                *final(self),
                *old(image),
                *final(image),
                *settings,
                *input,
                color,
                cmd,
            ),
    {
        if input.is_pressed {
            match input.pos {
                Some(pos) => {
                    self.points.push(pos);
                },
                None => {},
            }
        }
        if input.is_released && self.points.len() > 0 {
            if self.points.len() > 2 {
                image.selection = Some(self.rasterize(image.width, image.height));
            }
            self.points.clear();
        }
        None
    }

    /// Selection tools show no preview buffer.
    pub fn get_temp_layer(&self) -> (p: Option<(&PixelBuffer, u32, u32)>)
        ensures
            p.is_none(),
    {
        None
    }
}

impl Tool for RectSelectionTool {
    open spec fn ready(&self) -> bool {
        true
    }

    open spec fn ticks(
        pre: Self,
        post: Self,
        before: ImageStore,
        after: ImageStore,
        settings: ToolSettings,
        input: ToolInput,
        color: Color,
        cmd: Option<PatchCommand>,
    ) -> bool {
        RectSelectionTool::ticked(pre, post, before, after, settings, input, color, cmd)
    }

    fn name(&self) -> (n: &'static str)
        ensures
            n@ == "Rect Selection"@,
    {
        RectSelectionTool::name(self)
    }

    fn update(
        &mut self,
        image: &mut ImageStore,
        settings: &ToolSettings,
        input: &ToolInput,
        color: Color,
    ) -> (cmd: Option<PatchCommand>) {
        RectSelectionTool::update(self, image, settings, input, color)
    }

    fn get_temp_layer(&self) -> (p: Option<(&PixelBuffer, u32, u32)>)
        ensures
            p.is_none(),
    {
        RectSelectionTool::get_temp_layer(self)
    }
}

impl Tool for LassoSelectionTool {
    open spec fn ready(&self) -> bool {
        true
    }

    open spec fn ticks(
        pre: Self,
        post: Self,
        before: ImageStore,
        after: ImageStore,
        settings: ToolSettings,
        input: ToolInput,
        color: Color,
        cmd: Option<PatchCommand>,
    ) -> bool {
        LassoSelectionTool::ticked(pre, post, before, after, settings, input, color, cmd)
    }

    fn name(&self) -> (n: &'static str)
        ensures
            n@ == "Lasso Selection"@,
    {
        LassoSelectionTool::name(self)
    }

    fn update(
        &mut self,
        image: &mut ImageStore,
        settings: &ToolSettings,
        input: &ToolInput,
        color: Color,
    ) -> (cmd: Option<PatchCommand>) {
        LassoSelectionTool::update(self, image, settings, input, color)
    }

    fn get_temp_layer(&self) -> (p: Option<(&PixelBuffer, u32, u32)>)
        ensures
            p.is_none(),
    {
        LassoSelectionTool::get_temp_layer(self)
    }
}

} // verus!
