//! Tool settings and the state that one interaction tick works on.

use vstd::prelude::*;
use crate::commands::{CommandStack, PatchCommand};
use crate::image_store::ImageStore;
use crate::raster::{fits, Color, PixelBuffer};
use crate::tools::base::{BrushTool, EraserTool, LineTool, Tool, ToolInput};
use crate::tools::ellipse::EllipseTool;
use crate::tools::rect::RectangleTool;
use crate::tools::selection::{LassoSelectionTool, RectSelectionTool};
use crate::tools::scratch::Sketch;
use crate::tools::transform::TransformTool;

verus! {

/// What the stroke tools are set to. Sizes and widths are radii in whole
/// pixels. Stabilization and spacing are in hundredths: stabilization is
/// the weight of the previous smoothed position and counts up to 95,
/// spacing is the step between two stamps as a fraction of the brush size.
#[derive(Clone, Copy, Debug, PartialEq, Eq, Structural)]
pub struct ToolSettings {
    pub brush_size: u32,
    pub brush_stabilization: u32,
    pub brush_spacing: u32,
    pub eraser_size: u32,
    pub line_width: u32,
}

impl ToolSettings {
    /// The settings that a session starts with.
    pub open spec fn initial() -> ToolSettings {
        ToolSettings {
            brush_size: 5,
            brush_stabilization: 50,
            brush_spacing: 10,
            eraser_size: 10,
            line_width: 2,
        }
    }
}

impl Default for ToolSettings {
    fn default() -> (s: ToolSettings)
        ensures
            s == ToolSettings::initial(),
    {
        ToolSettings {
            brush_size: 5,
            brush_stabilization: 50,
            brush_spacing: 10,
            eraser_size: 10,
            line_width: 2,
        }
    }
}

/// The kinds of tool that the host can switch to.
#[derive(Clone, Copy, Debug, PartialEq, Eq, Structural)]
pub enum ToolKind {
    Brush,
    Eraser,
    Line,
    Rectangle,
    Ellipse,
    RectSelection,
    LassoSelection,
    Transform,
}

/// The tool that input is routed to.
pub enum ActiveTool {
    Brush(BrushTool),
    Eraser(EraserTool),
    Line(LineTool),
    Rectangle(RectangleTool),
    Ellipse(EllipseTool),
    RectSelection(RectSelectionTool),
    LassoSelection(LassoSelectionTool),
    Transform(TransformTool),
}

impl ActiveTool {
    pub open spec fn kind(&self) -> ToolKind {
        match self {
            ActiveTool::Brush(_) => ToolKind::Brush,
            ActiveTool::Eraser(_) => ToolKind::Eraser,
            ActiveTool::Line(_) => ToolKind::Line,
            ActiveTool::Rectangle(_) => ToolKind::Rectangle,
            ActiveTool::Ellipse(_) => ToolKind::Ellipse,
            ActiveTool::RectSelection(_) => ToolKind::RectSelection,
            ActiveTool::LassoSelection(_) => ToolKind::LassoSelection,
            ActiveTool::Transform(_) => ToolKind::Transform,
        }
    }

    /// The name that the host shows for the tool.
    pub open spec fn label(&self) -> Seq<char> {
        match self {
            ActiveTool::Brush(_) => "Brush"@,
            ActiveTool::Eraser(_) => "Eraser"@,
            ActiveTool::Line(_) => "Line"@,
            ActiveTool::Rectangle(_) => "Rectangle"@,
            ActiveTool::Ellipse(_) => "Ellipse"@,
            ActiveTool::RectSelection(_) => "Rect Selection"@,
            ActiveTool::LassoSelection(_) => "Lasso Selection"@,
            ActiveTool::Transform(_) => "Transform"@,
        }
    }

    /// The scratch buffer of a stroke tool that has a dirty block; nothing
    /// for any other tool.
    pub open spec fn preview(&self) -> Option<(&PixelBuffer, u32, u32)> {
        let scratch = match self {
            ActiveTool::Brush(t) => Some(t.scratch),
            ActiveTool::Eraser(t) => Some(t.scratch),
            ActiveTool::Line(t) => Some(t.scratch),
            ActiveTool::Rectangle(t) => Some(t.scratch),
            ActiveTool::Ellipse(t) => Some(t.scratch),
            _ => None,
        };
        match scratch {
            Some(s) => match s.dirty_rect {
                Some(_) => Some((&s.layer, 0u32, 0u32)),
                None => None,
            },
            None => None,
        }
    }

    /// Is this a tool as `new` makes it: nothing in progress, a blank
    /// scratch buffer of the given size where the tool has one?
    pub open spec fn fresh(&self, width: u32, height: u32) -> bool {
        let blank = Sketch::blank(width as int, height as int);
        match self {
            ActiveTool::Brush(t) => t.texture.is_none() && t.scratch@ == blank && t.last_pos.is_none()
                && t.stabilized_pos.is_none(),
            ActiveTool::Eraser(t) => t.scratch@ == blank && t.last_pos.is_none(),
            ActiveTool::Line(t) => t.scratch@ == blank && t.start_pos.is_none()
                && t.current_pos.is_none(),
            ActiveTool::Rectangle(t) => t.scratch@ == blank && t.start_pos.is_none()
                && t.current_pos.is_none(),
            ActiveTool::Ellipse(t) => t.scratch@ == blank && t.start_pos.is_none()
                && t.current_pos.is_none() && t.width == 2 && t.outline@.len() == 0,
            ActiveTool::RectSelection(t) => t.start_pos.is_none() && t.current_pos.is_none(),
            ActiveTool::LassoSelection(t) => t.points@.len() == 0,
            ActiveTool::Transform(t) => t@ == TransformTool::idle(),
        }
    }

    /// A fresh tool of the given kind for a canvas of the given size.
    /// Whatever the previous tool had in progress is not carried over.
    pub fn of_kind(kind: ToolKind, width: u32, height: u32) -> (tool: ActiveTool)
        requires
            fits(width, height),
        ensures
            tool.ready(),
            tool.kind() == kind,
            tool.fresh(width, height),
    {
        match kind {
            ToolKind::Brush => ActiveTool::Brush(BrushTool::new(width, height)),
            ToolKind::Eraser => ActiveTool::Eraser(EraserTool::new(width, height)),
            ToolKind::Line => ActiveTool::Line(LineTool::new(width, height)),
            ToolKind::Rectangle => ActiveTool::Rectangle(RectangleTool::new(width, height)),
            ToolKind::Ellipse => ActiveTool::Ellipse(EllipseTool::new(width, height)),
            ToolKind::RectSelection => ActiveTool::RectSelection(RectSelectionTool::new()),
            ToolKind::LassoSelection => ActiveTool::LassoSelection(LassoSelectionTool::new()),
            ToolKind::Transform => ActiveTool::Transform(TransformTool::new()),
        }
    }
}

impl Tool for ActiveTool {
    open spec fn ready(&self) -> bool {
        match self {
            ActiveTool::Brush(t) => t.ready(),
            ActiveTool::Eraser(t) => t.ready(),
            ActiveTool::Line(t) => t.ready(),
            ActiveTool::Rectangle(t) => t.ready(),
            ActiveTool::Ellipse(t) => t.ready(),
            ActiveTool::RectSelection(t) => t.ready(),
            ActiveTool::LassoSelection(t) => t.ready(),
            ActiveTool::Transform(t) => t.ready(),
        }
    }

    /// A tick of the active tool is a tick of the tool it holds; the kind
    /// of tool stays.
    open spec fn ticks(
        pre: Self,
        post: Self,
        before: ImageStore,
        after: ImageStore,
        settings: ToolSettings,
        input: ToolInput,
        color: Color,
        cmd: Option<PatchCommand>,
    ) -> bool {
        match (pre, post) {
            (ActiveTool::Brush(a), ActiveTool::Brush(b)) => BrushTool::ticks(
                a,
                b,
                before,
                after,
                settings,
                input,
                color,
                cmd,
            ),
            (ActiveTool::Eraser(a), ActiveTool::Eraser(b)) => EraserTool::ticks(
                a,
                b,
                before,
                after,
                settings,
                input,
                color,
                cmd,
            ),
            (ActiveTool::Line(a), ActiveTool::Line(b)) => LineTool::ticks(
                a,
                b,
                before,
                after,
                settings,
                input,
                color,
                cmd,
            ),
            (ActiveTool::Rectangle(a), ActiveTool::Rectangle(b)) => RectangleTool::ticks(
                a,
                b,
                before,
                after,
                settings,
                input,
                color,
                cmd,
            ),
            (ActiveTool::Ellipse(a), ActiveTool::Ellipse(b)) => EllipseTool::ticks(
                a,
                b,
                before,
                after,
                settings,
                input,
                color,
                cmd,
            ),
            (ActiveTool::RectSelection(a), ActiveTool::RectSelection(b)) => RectSelectionTool::ticks(
                a,
                b,
                before,
                after,
                settings,
                input,
                color,
                cmd,
            ),
            (
                ActiveTool::LassoSelection(a),
                ActiveTool::LassoSelection(b),
            ) => LassoSelectionTool::ticks(a, b, before, after, settings, input, color, cmd),
            (ActiveTool::Transform(a), ActiveTool::Transform(b)) => TransformTool::ticks(
                a,
                b,
                before,
                after,
                settings,
                input,
                color,
                cmd,
            ),
            _ => false,
        }
    }

    fn name(&self) -> (n: &'static str)
        ensures
            n@ == self.label(),
    {
        match self {
            ActiveTool::Brush(t) => t.name(),
            ActiveTool::Eraser(t) => t.name(),
            ActiveTool::Line(t) => t.name(),
            ActiveTool::Rectangle(t) => t.name(),
            ActiveTool::Ellipse(t) => t.name(),
            ActiveTool::RectSelection(t) => t.name(),
            ActiveTool::LassoSelection(t) => t.name(),
            ActiveTool::Transform(t) => t.name(),
        }
    }

    fn update(
        &mut self,
        image: &mut ImageStore,
        settings: &ToolSettings,
        input: &ToolInput,
        color: Color,
    ) -> (cmd: Option<PatchCommand>) {
        match self {
            ActiveTool::Brush(t) => t.update(image, settings, input, color),
            ActiveTool::Eraser(t) => t.update(image, settings, input, color),
            ActiveTool::Line(t) => t.update(image, settings, input, color),
            ActiveTool::Rectangle(t) => t.update(image, settings, input, color),
            ActiveTool::Ellipse(t) => t.update(image, settings, input, color),
            ActiveTool::RectSelection(t) => t.update(image, settings, input, color),
            ActiveTool::LassoSelection(t) => t.update(image, settings, input, color),
            ActiveTool::Transform(t) => t.update(image, settings, input, color),
        }
    }

    fn get_temp_layer(&self) -> (p: Option<(&PixelBuffer, u32, u32)>)
        ensures
            p == self.preview(),
    {
        match self {
            ActiveTool::Brush(t) => t.get_temp_layer(),
            ActiveTool::Eraser(t) => t.get_temp_layer(),
            ActiveTool::Line(t) => t.get_temp_layer(),
            ActiveTool::Rectangle(t) => t.get_temp_layer(),
            ActiveTool::Ellipse(t) => t.get_temp_layer(),
            ActiveTool::RectSelection(t) => t.get_temp_layer(),
            ActiveTool::LassoSelection(t) => t.get_temp_layer(),
            ActiveTool::Transform(t) => t.get_temp_layer(),
        }
    }
}

/// Everything that one interaction tick works on: the document, its undo
/// log, the active tool with its settings, and the colours.
pub struct AppState {
    pub image: ImageStore,
    pub command_stack: CommandStack,
    pub active_tool: ActiveTool,
    pub tool_settings: ToolSettings,
    pub primary_color: Color,
    pub secondary_color: Color,
    pub palette: Vec<Color>,
}

impl AppState {
    pub open spec fn wf(&self) -> bool {
        &&& self.image.wf()
        &&& self.command_stack@.wf()
        &&& self.active_tool.ready()
    }

    /// The colour that a tick draws with.
    pub open spec fn draw_color(&self, secondary: bool) -> Color {
        if secondary {
            self.secondary_color
        } else {
            self.primary_color
        }
    }

    /// A white canvas of the given size with an empty undo log, the brush
    /// as active tool, black and white as colours, and the eight-colour
    /// starting palette.
    pub fn new(width: u32, height: u32) -> (state: AppState)
        requires
            fits(width, height),
        ensures
            state.wf(),
            state.image.width == width,
            state.image.height == height,
            state.image.layers@.len() == 1,
            state.command_stack@.commands.len() == 0,
            state.command_stack@.cursor == 0,
            state.active_tool.kind() == ToolKind::Brush,
            state.active_tool.fresh(width, height),
            state.tool_settings == ToolSettings::initial(),
            state.primary_color == (Color { r: 0, g: 0, b: 0, a: 255 }),
            state.secondary_color == (Color { r: 255, g: 255, b: 255, a: 255 }),
            state.palette@ == seq![
                Color { r: 0, g: 0, b: 0, a: 255 },
                Color { r: 255, g: 255, b: 255, a: 255 },
                Color { r: 255, g: 0, b: 0, a: 255 },
                Color { r: 0, g: 255, b: 0, a: 255 },
                Color { r: 0, g: 0, b: 255, a: 255 },
                Color { r: 255, g: 255, b: 0, a: 255 },
                Color { r: 255, g: 0, b: 255, a: 255 },
                Color { r: 0, g: 255, b: 255, a: 255 },
            ],
    {
        let mut palette: Vec<Color> = Vec::new();
        palette.push(Color { r: 0, g: 0, b: 0, a: 255 });
        palette.push(Color { r: 255, g: 255, b: 255, a: 255 });
        palette.push(Color { r: 255, g: 0, b: 0, a: 255 });
        palette.push(Color { r: 0, g: 255, b: 0, a: 255 });
        palette.push(Color { r: 0, g: 0, b: 255, a: 255 });
        palette.push(Color { r: 255, g: 255, b: 0, a: 255 });
        palette.push(Color { r: 255, g: 0, b: 255, a: 255 });
        palette.push(Color { r: 0, g: 255, b: 255, a: 255 });
        proof {
            assert(palette@ =~= seq![
                Color { r: 0, g: 0, b: 0, a: 255 },
                Color { r: 255, g: 255, b: 255, a: 255 },
                Color { r: 255, g: 0, b: 0, a: 255 },
                Color { r: 0, g: 255, b: 0, a: 255 },
                Color { r: 0, g: 0, b: 255, a: 255 },
                Color { r: 255, g: 255, b: 0, a: 255 },
                Color { r: 255, g: 0, b: 255, a: 255 },
                Color { r: 0, g: 255, b: 255, a: 255 },
            ]);
        }
        AppState {
            image: ImageStore::new(width, height),
            command_stack: CommandStack::new(),
            active_tool: ActiveTool::Brush(BrushTool::new(width, height)),
            tool_settings: ToolSettings::default(),
            primary_color: Color { r: 0, g: 0, b: 0, a: 255 },
            secondary_color: Color { r: 255, g: 255, b: 255, a: 255 },
            palette,
        }
    }

    /// One interaction tick: routes the input sample to the active tool
    /// with the primary or the secondary colour, and pushes the command
    /// that comes back, if one does. Says whether one did.
    pub fn tick(&mut self, input: &ToolInput, secondary: bool) -> (pushed: bool)
        requires
            old(self).wf(),
            old(self).command_stack@.cursor < usize::MAX,
        ensures
            final(self).wf(),
            final(self).tool_settings == old(self).tool_settings,
            final(self).primary_color == old(self).primary_color,
            final(self).secondary_color == old(self).secondary_color,
            final(self).palette == old(self).palette,
            ({
                let cmd = if pushed {
                    Some(final(self).command_stack@.commands.last())
                } else {
                    None
                };
                &&& ActiveTool::ticks(
                    old(self).active_tool,
                    final(self).active_tool,
                    old(self).image,
                    final(self).image,
                    old(self).tool_settings,
                    *input,
                    old(self).draw_color(secondary),
                    cmd,
                )
                &&& final(self).command_stack@ == if pushed {
                    old(self).command_stack@.pushed(cmd.unwrap())
                } else {
                    old(self).command_stack@
                }
            }),
    {
        let color = if secondary {
            self.secondary_color
        } else {
            self.primary_color
        };
        let cmd = self.active_tool.update(&mut self.image, &self.tool_settings, input, color);
        match cmd {
            Some(c) => {
                self.command_stack.push(c);
                true
            },
            None => false,
        }
    }

    /// Steps back in the undo log.
    pub fn undo(&mut self)
        requires
            old(self).wf(),
        ensures
            final(self).wf(),
            final(self).command_stack@ == old(self).command_stack@.stepped_back(),
            old(self).command_stack@.undo_result(old(self).image, final(self).image),
            *final(self) == (AppState {
                image: final(self).image,
                command_stack: final(self).command_stack,
                ..*old(self)
            }),
    {
        self.command_stack.undo(&mut self.image);
    }

    /// Steps forward in the undo log.
    pub fn redo(&mut self)
        requires
            old(self).wf(),
        ensures
            final(self).wf(),
            final(self).command_stack@ == old(self).command_stack@.stepped_forward(),
            old(self).command_stack@.redo_result(old(self).image, final(self).image),
            *final(self) == (AppState {
                image: final(self).image,
                command_stack: final(self).command_stack,
                ..*old(self)
            }),
    {
        self.command_stack.redo(&mut self.image);
    }

    /// Switches to a fresh tool of the given kind. A gesture in progress
    /// is abandoned with the old tool.
    pub fn select_tool(&mut self, kind: ToolKind)
        requires
            old(self).wf(),
        ensures
            final(self).wf(),
            final(self).active_tool.kind() == kind,
            final(self).active_tool.fresh(old(self).image.width, old(self).image.height),
            *final(self) == (AppState { active_tool: final(self).active_tool, ..*old(self) }),
    {
        self.active_tool = ActiveTool::of_kind(kind, self.image.width, self.image.height);
    }

    /// Clears the selection.
    pub fn deselect(&mut self)
        ensures
            *final(self) == (AppState {
                image: ImageStore { selection: None, ..old(self).image },
                ..*old(self)
            }),
            old(self).wf() ==> final(self).wf(),
    {
        self.image.selection = None;
    }
}

} // verus!
