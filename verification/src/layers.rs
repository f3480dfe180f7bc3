//! The layer model: what a layer is, and how two pixels blend.

use vstd::prelude::*;
use crate::geometry::{Point, Rect};
use crate::raster::{Color, Grid, PixelBuffer};

verus! {

/// How a layer's colour mixes with what lies beneath it.
#[derive(Clone, Copy, PartialEq, Eq, Debug, Structural)]
pub enum BlendMode {
    Normal,
    Multiply,
    Add,
    Screen,
}

/// Opacity is counted in thousandths: this value is fully opaque.
pub const OPAQUE: u16 = 1000;

/// A shape on a vector layer. Shapes are kept, not yet drawn.
#[derive(Clone, Copy, Debug, PartialEq, Eq, Structural)]
pub enum VectorShape {
    Line { start: Point, end: Point, color: Color, width: u32 },
    Rectangle { rect: Rect, color: Color, width: u32, fill: bool },
    Ellipse { rect: Rect, color: Color, width: u32, fill: bool },
}

/// What a layer holds.
pub enum LayerData {
    Raster(PixelBuffer),
    Vector(Vec<VectorShape>),
    /// A raster with halftone parameters; the parameters are stored and not
    /// yet used when compositing. `frequency` counts dots per thousand
    /// pixels, `density` is in thousandths.
    Tone { buffer: PixelBuffer, frequency: u32, density: u16 },
}

impl LayerData {
    /// The pixels of a raster or tone layer; a vector layer has none.
    pub open spec fn pixels(self) -> Option<Grid<Color>> {
        match self {
            LayerData::Raster(img) => Some(img@),
            LayerData::Tone { buffer, .. } => Some(buffer@),
            LayerData::Vector(_) => None,
        }
    }

    /// Do the two hold the same kind of data with the same contents?
    pub open spec fn same_as(self, other: LayerData) -> bool {
        match (self, other) {
            (LayerData::Raster(a), LayerData::Raster(b)) => a@ == b@,
            (LayerData::Vector(a), LayerData::Vector(b)) => a@ == b@,
            (
                LayerData::Tone { buffer: a, frequency: fa, density: da },
                LayerData::Tone { buffer: b, frequency: fb, density: db },
            ) => a@ == b@ && fa == fb && da == db,
            _ => false,
        }
    }

    /// The raw buffer of a raster or tone layer.
    pub open spec fn raw(self) -> Option<PixelBuffer> {
        match self {
            LayerData::Raster(img) => Some(img),
            LayerData::Tone { buffer, .. } => Some(buffer),
            LayerData::Vector(_) => None,
        }
    }

    /// The same data with `img` in place of its buffer; vector data stays.
    pub open spec fn with_buffer(self, img: PixelBuffer) -> LayerData {
        match self {
            LayerData::Raster(_) => LayerData::Raster(img),
            LayerData::Tone { buffer, frequency, density } => LayerData::Tone {
                buffer: img,
                frequency,
                density,
            },
            LayerData::Vector(shapes) => LayerData::Vector(shapes),
        }
    }

    /// The buffer of a raster or tone layer, for changing it.
    pub fn buffer_mut(&mut self) -> (b: Option<&mut PixelBuffer>)
        ensures
            match b {
                Some(img) => old(self).raw() == Some(*img) && *final(self) == old(self).with_buffer(*final(img)),
                None => old(self).raw().is_none() && *final(self) == *old(self),
            },
    {
        match self {
            LayerData::Raster(img) => Some(img),
            LayerData::Tone { buffer, .. } => Some(buffer),
            LayerData::Vector(_) => None,
        }
    }

    /// The buffer of a raster or tone layer.
    pub fn buffer(&self) -> (b: Option<&PixelBuffer>)
        ensures
            match b {
                Some(img) => self.pixels() == Some(img@),
                None => self.pixels().is_none(),
            },
    {
        match self {
            LayerData::Raster(img) => Some(img),
            LayerData::Tone { buffer, .. } => Some(buffer),
            LayerData::Vector(_) => None,
        }
    }
}

impl Clone for LayerData {
    /// A copy with the same kind and the same contents.
    fn clone(&self) -> (copy: Self)
        ensures
            copy.same_as(*self),
    {
        match self {
            LayerData::Raster(img) => LayerData::Raster(img.clone()),
            LayerData::Vector(shapes) => {
                let copied = shapes.clone();
                assert(copied@ =~= shapes@);
                LayerData::Vector(copied)
            },
            LayerData::Tone { buffer, frequency, density } => LayerData::Tone {
                buffer: buffer.clone(),
                frequency: *frequency,
                density: *density,
            },
        }
    }
}

/// One layer of the stack. `opacity` is in thousandths; anything above
/// `OPAQUE` counts as fully opaque.
pub struct Layer {
    pub name: String,
    pub visible: bool,
    pub locked: bool,
    pub alpha_locked: bool,
    pub clipped: bool,
    pub opacity: u16,
    pub blend: BlendMode,
    pub data: LayerData,
}

impl Clone for Layer {
    /// A copy with the same name, flags, opacity, blend mode and contents.
    fn clone(&self) -> (copy: Self)
        ensures
            copy.same_as(*self),
    {
        Layer {
            name: self.name.clone(),
            visible: self.visible,
            locked: self.locked,
            alpha_locked: self.alpha_locked,
            clipped: self.clipped,
            opacity: self.opacity,
            blend: self.blend,
            data: self.data.clone(),
        }
    }
}

impl Layer {
    /// Do the two layers agree in everything but the identity of their
    /// buffers?
    pub open spec fn same_as(self, other: Layer) -> bool {
        &&& self.name@ == other.name@
        &&& self.visible == other.visible
        &&& self.locked == other.locked
        &&& self.alpha_locked == other.alpha_locked
        &&& self.clipped == other.clipped
        &&& self.opacity == other.opacity
        &&& self.blend == other.blend
        &&& self.data.same_as(other.data)
    }

    /// The same layer with `img` in place of its buffer.
    pub open spec fn with_buffer(self, img: PixelBuffer) -> Layer {
        Layer { data: self.data.with_buffer(img), ..self }
    }

    /// A visible, unlocked, fully opaque Normal layer over a transparent
    /// raster of the given size.
    pub fn new_raster(width: u32, height: u32, name: String) -> (layer: Layer)
        requires
            crate::raster::fits(width, height),
        ensures
            layer.name == name,
            layer.visible && !layer.locked && !layer.alpha_locked && !layer.clipped,
            layer.opacity == OPAQUE,
            layer.blend == BlendMode::Normal,
            layer.data is Raster,
            layer.data.pixels() == Some(
                Grid::filled(width as int, height as int, Color::clear()),
            ),
    {
        Layer {
            name,
            visible: true,
            locked: false,
            alpha_locked: false,
            clipped: false,
            opacity: OPAQUE,
            blend: BlendMode::Normal,
            data: LayerData::Raster(PixelBuffer::new(width, height)),
        }
    }

    /// A visible, unlocked, fully opaque Normal layer with no shapes.
    pub fn new_vector(name: String) -> (layer: Layer)
        ensures
            layer.name == name,
            layer.visible && !layer.locked && !layer.alpha_locked && !layer.clipped,
            layer.opacity == OPAQUE,
            layer.blend == BlendMode::Normal,
            layer.data matches LayerData::Vector(shapes) && shapes@.len() == 0,
    {
        Layer {
            name,
            visible: true,
            locked: false,
            alpha_locked: false,
            clipped: false,
            opacity: OPAQUE,
            blend: BlendMode::Normal,
            data: LayerData::Vector(Vec::new()),
        }
    }
}

} // verus!
