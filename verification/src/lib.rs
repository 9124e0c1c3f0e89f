//! A windowed framebuffer: a GPU surface and a CPU-writable pixel buffer
//! that a painter fills once per frame.
//!
//! This crate holds the decisions: which driver call comes next and with
//! which arguments, what a reply means, and when a frame has failed. The
//! calls themselves are made by the embedding shell.

pub mod calls;
pub mod config;
pub mod framebuffer;
pub mod gl;
pub mod mmap;
pub mod painter;
pub mod pixel_buffer;
pub mod probe;
pub mod protocol;
pub mod setup;
pub mod shader;
pub mod texture;

pub use framebuffer::Framebuffer;
pub use mmap::MMap;
pub use painter::Painter;
pub use pixel_buffer::PixelBuffer;
pub use setup::{FramebufferConfigExt, Setup};
