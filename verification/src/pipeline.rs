//! The whole pipeline in one call: normalise, analyse on request, encode on
//! request, strictly in this order.

use vstd::prelude::*;
use crate::codec::{holds_raster, rgba16_encodable, write_tiff};
use crate::error::RasterError;
use crate::normalize::{lemma_normalized_size, normalize, normalized};
use crate::raster::{CanonicalRaster, RasterView};
use crate::source::SourceImage;
use crate::window::analyzed_raster;

verus! {

/// The radius with which the pipeline runs the analysis.
pub const ANALYSIS_RADIUS: i16 = 16;

/// What one run of the pipeline hands back.
#[derive(Debug)]
pub struct Loaded {
    /// The raster, analysed if that was asked for.
    pub raster: CanonicalRaster,
    /// The raster as a file, if that was asked for.
    pub encoded: Option<Vec<u8>>,
}

/// The raster that the pipeline hands back for a normalised raster: analysed
/// with [`ANALYSIS_RADIUS`] and the floor `0` where `compute` is set, else as
/// it is.
pub open spec fn processed(raster: RasterView, compute: bool) -> RasterView {
    if compute {
        analyzed_raster(raster, ANALYSIS_RADIUS as int, 0)
    } else {
        raster
    }
}

/// Normalises a decoded image, runs the analysis if `compute` is set, and
/// encodes the result if `save` is set.
///
/// An image that is refused fails the run with the normaliser's reason, and
/// nothing is analysed or encoded. The file is written last, for the raster
/// that is handed back: where the analysis was asked for, it holds the
/// analysed raster and nothing from before. Where a file is asked for, the
/// run succeeds exactly when the image has pixels and the encoder succeeds
/// for its size; else it fails with [`RasterError::Encode`].
pub fn load_tiff(image: SourceImage, compute: bool, save: bool) -> (r: Result<
    Loaded,
    RasterError,
>)
    ensures
        match r {
            Ok(loaded) => {
                &&& normalized(image@) matches Ok(raster)
                &&& loaded.raster@ == processed(raster, compute)
                &&& loaded.encoded is Some <==> save
                &&& loaded.encoded matches Some(file) ==> holds_raster(file@, loaded.raster@)
            },
            Err(e) => {
                ||| normalized(image@) == Err::<RasterView, RasterError>(e)
                ||| save && normalized(image@) is Ok && e == RasterError::Encode
            },
        },
        normalized(image@) is Err ==> r is Err,
        normalized(image@) is Ok && !save ==> r is Ok,
        normalized(image@) is Ok && save ==> (r is Ok <==> (image@.width > 0 && image@.height > 0
            && rgba16_encodable(image@.width as u32, image@.height as u32))),
{
    proof {
        if normalized(image@) is Ok {
            lemma_normalized_size(image@, normalized(image@)->Ok_0);
        }
    }
    let mut raster = match normalize(image) {
        Ok(raster) => raster,
        Err(e) => {
            return Err(e);
        },
    };
    if compute {
        raster.analyze(ANALYSIS_RADIUS);
    }
    let encoded = if save {
        match write_tiff(&raster) {
            Ok(file) => Some(file),
            Err(e) => {
                return Err(e);
            },
        }
    } else {
        None
    };
    Ok(Loaded { raster, encoded })
}

} // verus!
