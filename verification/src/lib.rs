//! Editing core of a layered raster image editor: a layer stack with alpha
//! compositing, a patch-based undo log, and stroke, selection and transform
//! tools.

pub mod blend;
pub mod commands;
pub mod geometry;
pub mod image_store;
pub mod layers;
pub mod mask;
pub mod raster;
pub mod state;
pub mod tools;
