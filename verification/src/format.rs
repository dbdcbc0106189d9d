//! Pixel formats.
pub use crate::image::{FormatFlags, ImageFormat};
