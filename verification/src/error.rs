//! The ways in which decoding or encoding a raster can fail.

use vstd::prelude::*;

verus! {

/// Why a raster could not be decoded or encoded.
#[derive(Clone, Copy, Debug, PartialEq, Eq, Structural)]
pub enum RasterError {
    /// The file is malformed, or its pixel data does not match the
    /// dimensions it declares.
    Decode,
    /// The pixels are neither gray, RGB nor RGBA, or hold floating-point
    /// colour values.
    UnsupportedColorType,
    /// The samples are not 16-bit integers, signed or unsigned.
    UnsupportedSampleFormat,
    /// The raster could not be written out in the storage format.
    Encode,
}

} // verus!
