//! What a decoder reports about an image before it is normalised: its size,
//! the colour model of its pixels, how its samples are stored, and the
//! samples themselves.
//!
//! Decoding itself is the caller's part. A TIFF decoder may stop the program
//! on a file that is damaged in the wrong place, and nothing short of
//! decoding tells which files those are; so the caller decodes, and hands
//! over what it got in the types of this module.

use vstd::prelude::*;

verus! {

/// The colour model that an image file declares for its pixels.
#[derive(Clone, Copy, Debug, PartialEq, Eq, Structural)]
pub enum ColorModel {
    Gray,
    Rgb,
    Palette,
    GrayAlpha,
    Rgba,
    Cmyk,
    CmykAlpha,
    YCbCr,
    Lab,
    Multiband,
    /// A model that this library has no name for.
    Other,
}

/// The colour model of an image together with the width of its samples.
#[derive(Clone, Copy, Debug, PartialEq, Eq, Structural)]
pub struct SourceColor {
    pub model: ColorModel,
    /// The number of bits of each sample.
    pub bit_depth: u8,
}

/// The machine type of the samples of an image. A decoder knows it before it
/// has read any pixel.
#[derive(Clone, Copy, Debug, PartialEq, Eq, Structural)]
pub enum SampleKind {
    Unsigned8,
    Unsigned16,
    Unsigned32,
    Unsigned64,
    Float16,
    Float32,
    Float64,
    Signed8,
    Signed16,
    Signed32,
    Signed64,
    /// Samples that the decoder has no machine type for.
    Other,
}

impl SampleKind {
    /// Whether the samples are floating-point numbers.
    pub open spec fn is_float(self) -> bool {
        self is Float16 || self is Float32 || self is Float64
    }
}

/// The samples of a decoded image, by their machine type.
///
/// Only 16-bit integer samples are kept: no image with other samples can be
/// normalised, so for those the type alone is recorded.
#[derive(Clone, Debug, PartialEq, Eq)]
pub enum SampleBuffer {
    Unsigned8,
    Unsigned16(Vec<u16>),
    Unsigned32,
    Unsigned64,
    Float16,
    Float32,
    Float64,
    Signed8,
    Signed16(Vec<i16>),
    Signed32,
    Signed64,
}

/// The mathematical content of a [`SampleBuffer`].
pub enum SampleData {
    Unsigned8,
    Unsigned16(Seq<u16>),
    Unsigned32,
    Unsigned64,
    Float16,
    Float32,
    Float64,
    Signed8,
    Signed16(Seq<i16>),
    Signed32,
    Signed64,
}

impl View for SampleBuffer {
    type V = SampleData;

    open spec fn view(&self) -> SampleData {
        match *self {
            SampleBuffer::Unsigned8 => SampleData::Unsigned8,
            SampleBuffer::Unsigned16(v) => SampleData::Unsigned16(v@),
            SampleBuffer::Unsigned32 => SampleData::Unsigned32,
            SampleBuffer::Unsigned64 => SampleData::Unsigned64,
            SampleBuffer::Float16 => SampleData::Float16,
            SampleBuffer::Float32 => SampleData::Float32,
            SampleBuffer::Float64 => SampleData::Float64,
            SampleBuffer::Signed8 => SampleData::Signed8,
            SampleBuffer::Signed16(v) => SampleData::Signed16(v@),
            SampleBuffer::Signed32 => SampleData::Signed32,
            SampleBuffer::Signed64 => SampleData::Signed64,
        }
    }
}

impl SampleData {
    /// The machine type of the samples.
    pub open spec fn kind(self) -> SampleKind {
        match self {
            SampleData::Unsigned8 => SampleKind::Unsigned8,
            SampleData::Unsigned16(_) => SampleKind::Unsigned16,
            SampleData::Unsigned32 => SampleKind::Unsigned32,
            SampleData::Unsigned64 => SampleKind::Unsigned64,
            SampleData::Float16 => SampleKind::Float16,
            SampleData::Float32 => SampleKind::Float32,
            SampleData::Float64 => SampleKind::Float64,
            SampleData::Signed8 => SampleKind::Signed8,
            SampleData::Signed16(_) => SampleKind::Signed16,
            SampleData::Signed32 => SampleKind::Signed32,
            SampleData::Signed64 => SampleKind::Signed64,
        }
    }
}

impl SampleBuffer {
    /// The machine type of the samples.
    pub fn kind(&self) -> (k: SampleKind)
        ensures
            k == self@.kind(),
    {
        match self {
            SampleBuffer::Unsigned8 => SampleKind::Unsigned8,
            SampleBuffer::Unsigned16(_) => SampleKind::Unsigned16,
            SampleBuffer::Unsigned32 => SampleKind::Unsigned32,
            SampleBuffer::Unsigned64 => SampleKind::Unsigned64,
            SampleBuffer::Float16 => SampleKind::Float16,
            SampleBuffer::Float32 => SampleKind::Float32,
            SampleBuffer::Float64 => SampleKind::Float64,
            SampleBuffer::Signed8 => SampleKind::Signed8,
            SampleBuffer::Signed16(_) => SampleKind::Signed16,
            SampleBuffer::Signed32 => SampleKind::Signed32,
            SampleBuffer::Signed64 => SampleKind::Signed64,
        }
    }
}

/// A decoded image as it comes from a file, before normalisation.
#[derive(Clone, Debug, PartialEq, Eq)]
pub struct SourceImage {
    pub width: u32,
    pub height: u32,
    pub color: SourceColor,
    /// The number of planes that the samples are stored in: `1` where the
    /// samples of a pixel stand side by side, more where each channel has a
    /// plane of its own.
    pub planes: usize,
    pub samples: SampleBuffer,
}

/// The mathematical content of a [`SourceImage`].
pub struct SourceImageView {
    pub width: nat,
    pub height: nat,
    pub color: SourceColor,
    pub planes: nat,
    pub samples: SampleData,
}

impl View for SourceImage {
    type V = SourceImageView;

    open spec fn view(&self) -> SourceImageView {
        SourceImageView {
            width: self.width as nat,
            height: self.height as nat,
            color: self.color,
            planes: self.planes as nat,
            samples: self.samples@,
        }
    }
}

} // verus!
