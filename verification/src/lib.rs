//! Decoding of textual banner codes and compositing of banner bitmaps.

pub mod atlas;
pub mod banner;
pub mod bitmap;
pub mod codec;
pub mod color;
pub mod compositor;
pub mod error;
pub mod hex;
pub mod pattern;
pub mod render;
pub mod rounding;
pub mod service;
pub mod shade;
pub mod text;
