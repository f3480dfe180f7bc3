//! The tools: stroke capture, selection and transform.

pub mod base;
pub mod ellipse;
pub mod rect;
pub mod scratch;
pub mod selection;
pub mod transform;
