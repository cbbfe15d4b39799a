//! Writing rasters as TIFF files held in memory.
//!
//! The TIFF format itself is handled by the `tiff` crate. What this module
//! adds is what is handed to the encoder, and what becomes of its answer.

use std::io::Cursor;
use tiff::encoder::{colortype, TiffEncoder};
use tiff::TiffError;
use vstd::prelude::*;
use crate::bias::{to_unsigned_samples, unsigned_seq};
use crate::error::RasterError;
use crate::normalize::stored;
use crate::raster::{CanonicalRaster, RasterView};
use crate::source::SampleData;

verus! {

/// The error type of the `tiff` crate. Nothing is known of its values.
#[verifier::external_type_specification]
#[verifier::external_body]
pub struct ExTiffError(TiffError);

/// Whether `file` is a file that the `tiff` encoder has written for an RGBA
/// image of the given size with the given unsigned 16-bit samples.
///
/// The bytes of such a file follow the byte order of the machine that wrote
/// it, so they are not a function of the image; this says of a file no more
/// than where it comes from.
pub uninterp spec fn is_rgba16_file(
    file: Seq<u8>,
    width: u32,
    height: u32,
    samples: Seq<u16>,
) -> bool;

/// Whether the `tiff` encoder succeeds in writing an RGBA image with unsigned
/// 16-bit samples of the given size.
///
/// The encoder writes into memory and does not compress, so nothing but the
/// size of the image decides: it refuses an image without pixels, and one so
/// large that a place in the file lies beyond what the format can address.
pub uninterp spec fn rgba16_encodable(width: u32, height: u32) -> bool;

/// Calls `tiff::encoder::TiffEncoder::new` on an empty buffer in memory and
/// then `TiffEncoder::write_image` for the colour type `RGBA16` (four
/// unsigned 16-bit samples per pixel), and hands back what was written.
///
/// Trusted: with exactly `width * height * 4` samples the encoder returns
/// and does not panic. Whether it succeeds is decided by the size alone, so
/// that has the name [`rgba16_encodable`]. What it hands back on success is
/// a file that it has written for this size and these samples, which is all
/// that [`is_rgba16_file`] means. Nothing is claimed of the bytes.
#[verifier::external_body]
fn encode_rgba16(width: u32, height: u32, samples: &[u16]) -> (r: Result<Vec<u8>, TiffError>)
    requires
        samples@.len() == width as int * height as int * 4,
    ensures
        r is Ok <==> rgba16_encodable(width, height),
        r matches Ok(file) ==> is_rgba16_file(file@, width, height, samples@),
{
    let mut file = Cursor::new(Vec::new());
    TiffEncoder::new(&mut file)?.write_image::<colortype::RGBA16>(width, height, samples)?;
    Ok(file.into_inner())
}

/// Whether `file` is a file that the encoder has written for `raster`: for
/// its width and height, in this order, and for all its samples, shifted
/// into the unsigned domain.
pub open spec fn holds_raster(file: Seq<u8>, raster: RasterView) -> bool {
    is_rgba16_file(
        file,
        raster.width as u32,
        raster.height as u32,
        unsigned_seq(raster.samples),
    )
}

/// The samples that are written out for a raster: every sample of every
/// channel, shifted into the unsigned domain.
pub fn storage_samples(raster: &CanonicalRaster) -> (out: Vec<u16>)
    ensures
        out@ == unsigned_seq(raster@.samples),
        out@.len() == raster@.width * raster@.height * 4,
        stored(raster@).samples == SampleData::Unsigned16(out@),
{
    to_unsigned_samples(raster.samples())
}

/// Turns what the encoder reports into the result of writing a raster: the
/// file's bytes as they are, and any failure of the encoder as
/// [`RasterError::Encode`].
pub fn written(outcome: Result<Vec<u8>, TiffError>) -> (r: Result<Vec<u8>, RasterError>)
    ensures
        match outcome {
            Ok(bytes) => r == Ok::<Vec<u8>, RasterError>(bytes),
            Err(_) => r == Err::<Vec<u8>, RasterError>(RasterError::Encode),
        },
{
    match outcome {
        Ok(bytes) => Ok(bytes),
        Err(_) => Err(RasterError::Encode),
    }
}

/// Encodes a raster as a TIFF file in memory: RGBA, unsigned 16-bit samples,
/// the size of the raster.
///
/// A raster without pixels cannot be written as a file. For any other, the
/// encoder is given the width and the height of the raster and the samples
/// of [`storage_samples`]. A file is handed out exactly when the encoder
/// succeeds for that size, and it is the one the encoder wrote. When it does
/// not succeed, the error is [`RasterError::Encode`] and no bytes are handed
/// out.
pub fn write_tiff(raster: &CanonicalRaster) -> (r: Result<Vec<u8>, RasterError>)
    ensures
        r is Ok <==> (raster@.width > 0 && raster@.height > 0 && rgba16_encodable(
            raster@.width as u32,
            raster@.height as u32,
        )),
        r matches Ok(file) ==> holds_raster(file@, raster@),
        r matches Err(e) ==> e == RasterError::Encode,
{
    if raster.width() == 0 || raster.height() == 0 {
        return Err(RasterError::Encode);
    }
    let samples = storage_samples(raster);
    written(encode_rgba16(raster.width(), raster.height(), samples.as_slice()))
}

} // verus!
