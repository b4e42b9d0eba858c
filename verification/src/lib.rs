//! A verified frame buffer bridge: a pixel buffer addressed in centered
//! coordinates, written through a checked per-pixel operation, and driven by
//! a presentation loop whose decisions are verified.

pub mod canvas;
pub mod color;
pub mod coords;
pub mod driver;
pub mod render;

pub use canvas::Canvas;
pub use canvas::OutOfRange;
pub use color::PixelFormat;
pub use color::RGBA;
pub use driver::LoopAction;
pub use driver::LoopEvent;
pub use driver::Presenter;
pub use render::FillRenderer;
pub use render::FrameRenderer;
