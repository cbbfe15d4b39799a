//! Height-field rasters.
//!
//! An elevation image comes as a TIFF file in one of several pixel
//! encodings. This library takes what a decoder read from it, brings it into
//! one canonical form (four signed 16-bit channels per pixel), analyses it
//! with a radius-limited kernel, and encodes it again:
//!
//! * [`source`] holds what a decoder reports of an image;
//! * [`normalize`] turns that into a canonical raster;
//! * [`bias`] relates unsigned samples to signed ones;
//! * [`window`] says what the kernel computes, and [`kernel`] computes it;
//! * [`codec`] writes a raster as a TIFF file held in memory;
//! * [`pipeline`] runs the stages one after the other.
//!
//! Reading, decoding and writing the files themselves is left to the caller.

pub mod bias;
pub mod error;
pub mod raster;
pub mod source;
pub mod normalize;
pub mod codec;
pub mod window;
mod scan;
pub mod kernel;
pub mod pipeline;
