//! Random access to the pixels of a decoded raster image: the packed channel
//! buffer is addressed by coordinate, colour model and bit depth.

pub mod format;
pub mod image;
pub mod lemmas;
