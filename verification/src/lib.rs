//! A decorator for sequential traversals that reports progress as each item
//! is consumed, without altering the traversal's output.
//!
//! A [`producer::Producer`] yields a sequence of items; wrapping it with
//! [`progress::Progress`] yields the identical sequence while handing one
//! rendered frame per fetch to a [`render::Renderer`].

pub mod producer;
pub mod progress;
pub mod render;

pub use producer::ExactSizeProducer;
pub use producer::Producer;
pub use producer::VecProducer;
pub use progress::Bounded;
pub use progress::IterType;
pub use progress::Progress;
pub use progress::ProgressDisplay;
pub use render::BufferRenderer;
pub use render::Renderer;
