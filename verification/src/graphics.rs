//! Data types to represent geometry and colors for various graphics operations.

pub mod bitmap;
mod color;
mod pos;

pub use bitmap::Bitmap;
pub use color::{RGB, RGBA};
pub use pos::{
    CoordinateSystem, Fixed, ForCoprocessorWidgets, ForGlobalTranslate, ForScissor,
    GlobalTranslation, Scaled, ScissorPos, ScissorRect, Vertex2D, Vertex2F, Vertex2II, WidgetPos,
    WidgetRect,
};
