//! A minimal image-viewer library: it models a decoded raster image, decides
//! where image bytes are read from, decodes them through a general-purpose
//! image decoder, and drives the one-shot texture cache of the display loop.

pub mod bitmap;
pub mod codec;
pub mod loader;
pub mod viewer;
