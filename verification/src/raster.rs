//! The canonical raster: four signed 16-bit channels per pixel, row-major.

use vstd::prelude::*;
use crate::kernel::{compute_tiff, compute_tiff_with_floor};
use crate::window::{analyzed_raster, effective_radius};

verus! {

/// The number of channels of every pixel of a canonical raster.
pub const CHANNELS: usize = 4;

/// The value of an opaque alpha channel.
pub const OPAQUE: i16 = 32767;

/// The position, in a row-major four-channel buffer of the given width, of
/// channel `channel` of the pixel in column `x` and row `y`.
pub open spec fn sample_index(width: int, x: int, y: int, channel: int) -> int {
    (y * width + x) * 4 + channel
}

/// Whether column `x` and row `y` name a pixel of an image of the given size.
pub open spec fn in_bounds(width: int, height: int, x: int, y: int) -> bool {
    0 <= x < width && 0 <= y < height
}

/// What a raster is, mathematically: its size and its samples.
///
/// Each pixel holds `[Elevation, AuxA, AuxB, AuxC]`, pixels are stored row by
/// row, starting with the first scanline.
pub struct RasterView {
    pub width: nat,
    pub height: nat,
    pub samples: Seq<i16>,
}

impl RasterView {
    /// A raster holds exactly four samples for each of its pixels.
    pub open spec fn wf(self) -> bool {
        self.samples.len() == self.width * self.height * 4
    }
}

/// A height-field raster in canonical form.
///
/// The size is fixed when the raster is made; the number of samples always
/// matches it.
#[derive(Debug)]
pub struct CanonicalRaster {
    width: u32,
    height: u32,
    samples: Vec<i16>,
}

impl View for CanonicalRaster {
    type V = RasterView;

    closed spec fn view(&self) -> RasterView {
        RasterView {
            width: self.width as nat,
            height: self.height as nat,
            samples: self.samples@,
        }
    }
}

/// Whether `len` samples are exactly what an image of the given size holds
/// with `channels` samples per pixel.
pub fn holds_samples(width: u32, height: u32, channels: usize, len: usize) -> (fits: bool)
    ensures
        fits <==> len == width as int * height as int * channels as int,
{
    assert(width as int * height as int <= 0xffff_ffff * 0xffff_ffff) by (nonlinear_arith)
        requires
            0 <= width <= 0xffff_ffff,
            0 <= height <= 0xffff_ffff,
    ;
    let pixels: u64 = (width as u64) * (height as u64);
    assert(pixels as int * channels as int <= 0xffff_ffff * 0xffff_ffff * 0xffff_ffff_ffff_ffff)
        by (nonlinear_arith)
        requires
            0 <= pixels <= 0xffff_ffff * 0xffff_ffff,
            0 <= channels <= 0xffff_ffff_ffff_ffff,
    ;
    let wanted: u128 = (pixels as u128) * (channels as u128);
    len as u128 == wanted
}

impl CanonicalRaster {
    #[verifier::type_invariant]
    spec fn well_formed(self) -> bool {
        self.samples@.len() == self.width as int * self.height as int * 4
    }

    /// Makes a raster of the given size from its samples, if there are
    /// exactly `width * height * 4` of them.
    pub fn new(width: u32, height: u32, samples: Vec<i16>) -> (made: Option<CanonicalRaster>)
        ensures
            made is Some <==> samples@.len() == width as int * height as int * 4,
            made matches Some(raster) ==> raster@ == (RasterView {
                width: width as nat,
                height: height as nat,
                samples: samples@,
            }),
    {
        if holds_samples(width, height, CHANNELS, samples.len()) {
            Some(CanonicalRaster::from_samples(width, height, samples))
        } else {
            None
        }
    }

    /// Makes a raster of the given size from samples that are known to
    /// match it.
    pub(crate) fn from_samples(
        width: u32,
        height: u32,
        samples: Vec<i16>,
    ) -> (raster: CanonicalRaster)
        requires
            samples@.len() == width as int * height as int * 4,
        ensures
            raster@ == (RasterView {
                width: width as nat,
                height: height as nat,
                samples: samples@,
            }),
    {
        CanonicalRaster { width, height, samples }
    }

    /// The number of pixels in a row.
    pub fn width(&self) -> (w: u32)
        ensures
            w == self@.width,
    {
        self.width
    }

    /// The number of rows.
    pub fn height(&self) -> (h: u32)
        ensures
            h == self@.height,
    {
        self.height
    }

    /// The samples, four per pixel, row by row.
    pub fn samples(&self) -> (s: &Vec<i16>)
        ensures
            s@ == self@.samples,
            self@.wf(),
    {
        proof {
            use_type_invariant(self);
        }
        &self.samples
    }

    /// Runs the radius analysis over the raster, in place, with the floor
    /// `0`.
    ///
    /// A negative radius counts as `0`. The size and the elevations stay;
    /// the three auxiliary channels of every pixel are replaced.
    pub fn analyze(&mut self, radius: i16)
        ensures
            final(self)@ == analyzed_raster(old(self)@, effective_radius(radius as int), 0),
    {
        proof {
            use_type_invariant(&*self);
        }
        compute_tiff(&mut self.samples, self.width, self.height, radius);
    }

    /// Runs the radius analysis over the raster, in place, with a floor of
    /// the caller's choice for the steepest rise.
    pub fn analyze_with_floor(&mut self, radius: i16, floor: i16)
        ensures
            final(self)@ == analyzed_raster(
                old(self)@,
                effective_radius(radius as int),
                floor as int,
            ),
    {
        proof {
            use_type_invariant(&*self);
        }
        compute_tiff_with_floor(&mut self.samples, self.width, self.height, radius, floor);
    }

    /// Gives up the raster for its samples.
    pub fn into_samples(self) -> (s: Vec<i16>)
        ensures
            s@ == self@.samples,
            self@.wf(),
    {
        proof {
            use_type_invariant(&self);
        }
        self.samples
    }
}

} // verus!
