//! The format normaliser: from a decoded image in one of the accepted
//! encodings to the canonical four-channel signed raster.
//!
//! Gray and RGB pixels are widened to four channels with an opaque alpha,
//! RGBA pixels are taken as they are, and unsigned samples are shifted into
//! the signed domain. Every other encoding is refused.
//!
//! A caller that decodes a file step by step can stop early: what the
//! decoder says of the colour, the samples and the planes is judged by
//! [`readable_layout`] before any pixel is read, and where the decoder itself
//! gives up, [`decoder_failure`] names the error.

use vstd::prelude::*;
use crate::bias::{lemma_signed_seq_round_trip, signed_seq, to_signed_samples, unsigned_seq};
use crate::error::RasterError;
use crate::raster::{holds_samples, CanonicalRaster, RasterView, OPAQUE};
use crate::source::{
    ColorModel, SampleBuffer, SampleData, SampleKind, SourceColor, SourceImage, SourceImageView,
};

verus! {

/// How the samples of one pixel are laid out in an accepted source image.
#[derive(Clone, Copy, Debug, PartialEq, Eq, Structural)]
pub enum ChannelLayout {
    Gray,
    Rgb,
    Rgba,
}

impl ChannelLayout {
    /// The number of samples that one pixel takes in the source.
    pub open spec fn channels(self) -> int {
        match self {
            ChannelLayout::Gray => 1,
            ChannelLayout::Rgb => 3,
            ChannelLayout::Rgba => 4,
        }
    }

    /// The number of samples that one pixel takes in the source.
    pub fn channel_count(self) -> (n: usize)
        ensures
            n == self.channels(),
    {
        match self {
            ChannelLayout::Gray => 1,
            ChannelLayout::Rgb => 3,
            ChannelLayout::Rgba => 4,
        }
    }
}

/// The layout of an accepted colour model; `None` for a model that is not
/// accepted.
pub open spec fn layout_of(model: ColorModel) -> Option<ChannelLayout> {
    match model {
        ColorModel::Gray => Some(ChannelLayout::Gray),
        ColorModel::Rgb => Some(ChannelLayout::Rgb),
        ColorModel::Rgba => Some(ChannelLayout::Rgba),
        _ => None,
    }
}

/// The step at which a decoder gave up on a file.
#[derive(Clone, Copy, Debug, PartialEq, Eq, Structural)]
pub enum DecodeStep {
    /// Reading the header and the directory of the image.
    Header,
    /// Naming the colour type of the image.
    ColorType,
    /// Working out how the samples are stored.
    Layout,
    /// Reading the pixels.
    Pixels,
}

/// The error that stands for a decoder giving up at the given step, or
/// `None` where the trouble is with the storage and not with the file.
///
/// A failure to read that is not the file ending early is storage trouble. A
/// file that ends early is malformed, and so is one that the decoder gives
/// up on for any reason of its own; only a file for which it can name no
/// colour type has an unsupported colour type.
pub open spec fn failure_of(step: DecodeStep, io_failure: bool, ended_early: bool) -> Option<
    RasterError,
> {
    if io_failure && !ended_early {
        None
    } else if step == DecodeStep::ColorType {
        Some(RasterError::UnsupportedColorType)
    } else {
        Some(RasterError::Decode)
    }
}

/// An encoding that the normaliser accepts: gray, RGB or RGBA pixels with
/// 16-bit integer samples, signed or unsigned.
#[derive(Clone, Copy, Debug, PartialEq, Eq, Structural)]
pub struct SourceEncoding {
    pub layout: ChannelLayout,
    /// Whether the samples are signed. Unsigned samples are shifted into the
    /// signed domain.
    pub signed: bool,
}

/// The encoding of an image with the given colour and kind of samples, or
/// the reason why it is refused.
///
/// A colour model other than gray, RGB and RGBA is an unsupported colour
/// type, and so are floating-point samples whatever the model. Integer
/// samples that are not exactly 16 bits wide are an unsupported sample
/// format.
pub open spec fn encoding_of(color: SourceColor, kind: SampleKind) -> Result<
    SourceEncoding,
    RasterError,
> {
    match layout_of(color.model) {
        None => Err(RasterError::UnsupportedColorType),
        Some(layout) => if kind.is_float() {
            Err(RasterError::UnsupportedColorType)
        } else if color.bit_depth != 16 {
            Err(RasterError::UnsupportedSampleFormat)
        } else {
            match kind {
                SampleKind::Signed16 => Ok(SourceEncoding { layout, signed: true }),
                SampleKind::Unsigned16 => Ok(SourceEncoding { layout, signed: false }),
                _ => Err(RasterError::UnsupportedSampleFormat),
            }
        },
    }
}

/// What can be said of an image before any of its pixels is read: its
/// encoding, or the reason why it is refused. The encoding is judged first,
/// the colour model before the samples. Of an image in an accepted encoding
/// the samples of a pixel must stand side by side, in one plane; one that
/// stores them in several planes is malformed.
pub open spec fn layout_before_reading(color: SourceColor, kind: SampleKind, planes: nat) -> Result<
    SourceEncoding,
    RasterError,
> {
    match encoding_of(color, kind) {
        Err(e) => Err(e),
        Ok(encoding) => if planes != 1 {
            Err(RasterError::Decode)
        } else {
            Ok(encoding)
        },
    }
}

/// The samples of a 16-bit integer buffer in the signed domain: signed
/// samples as they are, unsigned ones shifted. Any other buffer has none.
pub open spec fn signed_data(samples: SampleData) -> Seq<i16> {
    match samples {
        SampleData::Signed16(s) => s,
        SampleData::Unsigned16(s) => signed_seq(s),
        _ => Seq::empty(),
    }
}

/// Sample `k` of the canonical buffer that `s` expands to.
pub open spec fn expanded_sample(layout: ChannelLayout, s: Seq<i16>, k: int) -> i16 {
    match layout {
        ChannelLayout::Rgba => s[k],
        ChannelLayout::Gray => if k % 4 == 3 {
            OPAQUE
        } else {
            s[k / 4]
        },
        ChannelLayout::Rgb => if k % 4 == 3 {
            OPAQUE
        } else {
            s[(k / 4) * 3 + k % 4]
        },
    }
}

/// The canonical buffer of `pixels` pixels that the source samples `s`
/// expand to.
pub open spec fn expanded(layout: ChannelLayout, s: Seq<i16>, pixels: int) -> Seq<i16> {
    Seq::new((pixels * 4) as nat, |k: int| expanded_sample(layout, s, k))
}

/// What normalising a decoded image gives: the canonical raster, or the
/// reason why the image is refused.
///
/// The colour model is judged first, then the samples, then the planes. An
/// image that passes all three is malformed if the number of its samples
/// does not match the size it declares, or if the canonical buffer, at eight
/// bytes per pixel, would be larger than a buffer can be.
pub open spec fn normalized(image: SourceImageView) -> Result<RasterView, RasterError> {
    match layout_before_reading(image.color, image.samples.kind(), image.planes) {
        Err(e) => Err(e),
        Ok(encoding) => {
            let s = signed_data(image.samples);
            let pixels = image.width * image.height;
            if s.len() != pixels * encoding.layout.channels() || pixels * 8 > isize::MAX {
                Err(RasterError::Decode)
            } else {
                Ok(
                    RasterView {
                        width: image.width,
                        height: image.height,
                        samples: expanded(encoding.layout, s, pixels as int),
                    },
                )
            }
        },
    }
}

/// Tells whether a colour model is accepted, and how its pixels are laid
/// out.
pub fn channel_layout(color: SourceColor) -> (r: Result<ChannelLayout, RasterError>)
    ensures
        r == match layout_of(color.model) {
            Some(layout) => Ok::<ChannelLayout, RasterError>(layout),
            None => Err(RasterError::UnsupportedColorType),
        },
{
    match color.model {
        ColorModel::Gray => Ok(ChannelLayout::Gray),
        ColorModel::Rgb => Ok(ChannelLayout::Rgb),
        ColorModel::Rgba => Ok(ChannelLayout::Rgba),
        _ => Err(RasterError::UnsupportedColorType),
    }
}

/// Tells whether an image with the given colour and kind of samples is in
/// an accepted encoding, and in which.
pub fn source_encoding(color: SourceColor, kind: SampleKind) -> (r: Result<
    SourceEncoding,
    RasterError,
>)
    ensures
        r == encoding_of(color, kind),
{
    let layout = match channel_layout(color) {
        Ok(layout) => layout,
        Err(e) => {
            return Err(e);
        },
    };
    match kind {
        SampleKind::Float16 | SampleKind::Float32 | SampleKind::Float64 => Err(
            RasterError::UnsupportedColorType,
        ),
        SampleKind::Signed16 => if color.bit_depth == 16 {
            Ok(SourceEncoding { layout, signed: true })
        } else {
            Err(RasterError::UnsupportedSampleFormat)
        },
        SampleKind::Unsigned16 => if color.bit_depth == 16 {
            Ok(SourceEncoding { layout, signed: false })
        } else {
            Err(RasterError::UnsupportedSampleFormat)
        },
        _ => Err(RasterError::UnsupportedSampleFormat),
    }
}

/// Tells, before any pixel is read, whether an image of the given colour and
/// kind of samples that is stored in the given number of planes can be
/// normalised at all.
pub fn readable_layout(color: SourceColor, kind: SampleKind, planes: usize) -> (r: Result<
    SourceEncoding,
    RasterError,
>)
    ensures
        r == layout_before_reading(color, kind, planes as nat),
{
    let encoding = match source_encoding(color, kind) {
        Ok(encoding) => encoding,
        Err(e) => {
            return Err(e);
        },
    };
    if planes != 1 {
        return Err(RasterError::Decode);
    }
    Ok(encoding)
}

/// Names the error for a decoder that gave up at the given step, or answers
/// `None` where the storage failed and the file is not to blame.
///
/// `io_failure` says that the decoder could not read on, `ended_early` that
/// this was because the file had ended.
pub fn decoder_failure(step: DecodeStep, io_failure: bool, ended_early: bool) -> (e: Option<
    RasterError,
>)
    ensures
        e == failure_of(step, io_failure, ended_early),
{
    if io_failure && !ended_early {
        return None;
    }
    match step {
        DecodeStep::ColorType => Some(RasterError::UnsupportedColorType),
        _ => Some(RasterError::Decode),
    }
}

/// Widens signed source samples to four channels per pixel.
pub fn expand(layout: ChannelLayout, samples: Vec<i16>, pixels: usize) -> (out: Vec<i16>)
    requires
        samples@.len() == pixels * layout.channels(),
        pixels * 8 <= isize::MAX,
    ensures
        out@ == expanded(layout, samples@, pixels as int),
{
    match layout {
        ChannelLayout::Rgba => {
            assert(samples@ =~= expanded(layout, samples@, pixels as int));
            samples
        },
        ChannelLayout::Gray => {
            let mut out: Vec<i16> = Vec::with_capacity(pixels * 4);
            let mut p: usize = 0;
            while p < pixels
                invariant
                    p <= pixels,
                    pixels * 8 <= isize::MAX,
                    samples@.len() == pixels,
                    out@.len() == p * 4,
                    forall|k: int|
                        0 <= k < p * 4 ==> out@[k] == expanded_sample(
                            ChannelLayout::Gray,
                            samples@,
                            k,
                        ),
                decreases pixels - p,
            {
                let v = samples[p];
                out.push(v);
                out.push(v);
                out.push(v);
                out.push(OPAQUE);
                p += 1;
            }
            assert(out@ =~= expanded(layout, samples@, pixels as int));
            out
        },
        ChannelLayout::Rgb => {
            let mut out: Vec<i16> = Vec::with_capacity(pixels * 4);
            let mut p: usize = 0;
            while p < pixels
                invariant
                    p <= pixels,
                    pixels * 8 <= isize::MAX,
                    samples@.len() == pixels * 3,
                    out@.len() == p * 4,
                    forall|k: int|
                        0 <= k < p * 4 ==> out@[k] == expanded_sample(
                            ChannelLayout::Rgb,
                            samples@,
                            k,
                        ),
                decreases pixels - p,
            {
                let base = p * 3;
                out.push(samples[base]);
                out.push(samples[base + 1]);
                out.push(samples[base + 2]);
                out.push(OPAQUE);
                p += 1;
            }
            assert(out@ =~= expanded(layout, samples@, pixels as int));
            out
        },
    }
}

/// Brings a decoded image into canonical form, or says why it is refused.
pub fn normalize(image: SourceImage) -> (r: Result<CanonicalRaster, RasterError>)
    ensures
        match r {
            Ok(raster) => normalized(image@) == Ok::<RasterView, RasterError>(raster@),
            Err(e) => normalized(image@) == Err::<RasterView, RasterError>(e),
        },
{
    let width = image.width;
    let height = image.height;
    let encoding = match readable_layout(image.color, image.samples.kind(), image.planes) {
        Ok(encoding) => encoding,
        Err(e) => {
            return Err(e);
        },
    };
    let channels = encoding.layout.channel_count();
    let count: usize = match &image.samples {
        SampleBuffer::Signed16(v) => v.len(),
        SampleBuffer::Unsigned16(v) => v.len(),
        _ => 0,
    };
    if !holds_samples(width, height, channels, count) {
        return Err(RasterError::Decode);
    }
    assert(width as int * height as int <= count) by (nonlinear_arith)
        requires
            count == width as int * height as int * encoding.layout.channels(),
            1 <= encoding.layout.channels(),
            0 <= width as int * height as int,
    ;
    let pixels: usize = count / channels;
    assert(pixels == width as int * height as int) by (nonlinear_arith)
        requires
            count == width as int * height as int * encoding.layout.channels(),
            1 <= encoding.layout.channels(),
            pixels == count as int / encoding.layout.channels(),
    ;
    if pixels > (isize::MAX as usize) / 8 {
        return Err(RasterError::Decode);
    }
    let signed: Vec<i16> = match image.samples {
        SampleBuffer::Signed16(v) => v,
        SampleBuffer::Unsigned16(v) => to_signed_samples(&v),
        _ => Vec::new(),
    };
    let out = expand(encoding.layout, signed, pixels);
    Ok(CanonicalRaster::from_samples(width, height, out))
}

/// Gray expansion: the one sample of a gray pixel fills the first three
/// channels of the canonical pixel, and the fourth is opaque.
pub proof fn lemma_gray_expansion(s: Seq<i16>, p: int)
    requires
        0 <= p < s.len(),
    ensures
        expanded(ChannelLayout::Gray, s, s.len() as int).len() == 4 * s.len(),
        expanded(ChannelLayout::Gray, s, s.len() as int)[4 * p] == s[p],
        expanded(ChannelLayout::Gray, s, s.len() as int)[4 * p + 1] == s[p],
        expanded(ChannelLayout::Gray, s, s.len() as int)[4 * p + 2] == s[p],
        expanded(ChannelLayout::Gray, s, s.len() as int)[4 * p + 3] == 32767,
{
}

/// RGB expansion: the three samples of an RGB pixel are copied unchanged into
/// the first three channels of the canonical pixel, and the fourth is opaque.
pub proof fn lemma_rgb_expansion(s: Seq<i16>, pixels: int, p: int)
    requires
        0 <= p < pixels,
        s.len() == pixels * 3,
    ensures
        expanded(ChannelLayout::Rgb, s, pixels).len() == 4 * pixels,
        expanded(ChannelLayout::Rgb, s, pixels)[4 * p] == s[3 * p],
        expanded(ChannelLayout::Rgb, s, pixels)[4 * p + 1] == s[3 * p + 1],
        expanded(ChannelLayout::Rgb, s, pixels)[4 * p + 2] == s[3 * p + 2],
        expanded(ChannelLayout::Rgb, s, pixels)[4 * p + 3] == 32767,
{
}

/// RGBA expansion: all four channels are taken as they are.
pub proof fn lemma_rgba_expansion(s: Seq<i16>, pixels: int)
    requires
        s.len() == pixels * 4,
    ensures
        expanded(ChannelLayout::Rgba, s, pixels) == s,
{
    assert(expanded(ChannelLayout::Rgba, s, pixels) =~= s);
}

/// The RGBA image with unsigned 16-bit samples, side by side, that holds
/// what `raster` holds: what is written out when a raster is stored.
pub open spec fn stored(raster: RasterView) -> SourceImageView {
    SourceImageView {
        width: raster.width,
        height: raster.height,
        color: SourceColor { model: ColorModel::Rgba, bit_depth: 16 },
        planes: 1,
        samples: SampleData::Unsigned16(unsigned_seq(raster.samples)),
    }
}

/// Round trip: normalising the stored form of a raster gives the raster
/// back, every channel of every pixel. The raster is one that fits in a
/// buffer, at two bytes per sample.
pub proof fn lemma_round_trip(raster: RasterView)
    requires
        raster.wf(),
        raster.samples.len() * 2 <= isize::MAX,
    ensures
        normalized(stored(raster)) == Ok::<RasterView, RasterError>(raster),
{
    lemma_signed_seq_round_trip(raster.samples);
    lemma_rgba_expansion(raster.samples, (raster.width * raster.height) as int);
}

/// What is refused before the pixels are read is refused by the normaliser
/// for the same reason, whatever the pixels turn out to be.
pub proof fn lemma_refused_early(image: SourceImageView)
    requires
        layout_before_reading(image.color, image.samples.kind(), image.planes) is Err,
    ensures
        normalized(image) is Err,
        normalized(image)->Err_0 == layout_before_reading(
            image.color,
            image.samples.kind(),
            image.planes,
        )->Err_0,
{
}

/// The order of refusal: an unsupported colour model is named whatever the
/// samples and the planes are, floating-point samples and samples of the
/// wrong width are named whatever the planes are, and the planes are judged
/// last.
pub proof fn lemma_refusal_order(image: SourceImageView)
    ensures
        layout_of(image.color.model) is None ==> normalized(image) == Err::<
            RasterView,
            RasterError,
        >(RasterError::UnsupportedColorType),
        layout_of(image.color.model) is Some && image.samples.kind().is_float() ==> normalized(
            image,
        ) == Err::<RasterView, RasterError>(RasterError::UnsupportedColorType),
        layout_of(image.color.model) is Some && !image.samples.kind().is_float() && (
        image.color.bit_depth != 16 || !(image.samples is Signed16 || image.samples
            is Unsigned16)) ==> normalized(image) == Err::<RasterView, RasterError>(
            RasterError::UnsupportedSampleFormat,
        ),
        encoding_of(image.color, image.samples.kind()) is Ok && image.planes != 1 ==> normalized(
            image,
        ) == Err::<RasterView, RasterError>(RasterError::Decode),
{
}

/// A normalised raster has the size that the image declares, and four
/// samples for each of its pixels.
pub proof fn lemma_normalized_size(image: SourceImageView, raster: RasterView)
    requires
        normalized(image) == Ok::<RasterView, RasterError>(raster),
    ensures
        raster.width == image.width,
        raster.height == image.height,
        raster.samples.len() == 4 * (image.width * image.height),
        raster.wf(),
        layout_of(image.color.model) matches Some(layout) && signed_data(image.samples).len()
            == image.width * image.height * layout.channels(),
{
    assert(image.width * image.height * 4 == 4 * (image.width * image.height)) by (nonlinear_arith);
}

/// Gray expansion, for every gray image that is normalised: the sample of
/// pixel `p`, taken in the signed domain, fills the first three channels of
/// the canonical pixel, and the fourth is opaque.
pub proof fn lemma_normalized_gray(image: SourceImageView, raster: RasterView, p: int)
    requires
        normalized(image) == Ok::<RasterView, RasterError>(raster),
        image.color.model == ColorModel::Gray,
        0 <= p < image.width * image.height,
    ensures
        raster.samples[4 * p] == signed_data(image.samples)[p],
        raster.samples[4 * p + 1] == signed_data(image.samples)[p],
        raster.samples[4 * p + 2] == signed_data(image.samples)[p],
        raster.samples[4 * p + 3] == 32767,
{
    lemma_normalized_size(image, raster);
    lemma_gray_expansion(signed_data(image.samples), p);
    assert(raster.samples == expanded(
        ChannelLayout::Gray,
        signed_data(image.samples),
        (image.width * image.height) as int,
    ));
}

/// RGB expansion, for every RGB image that is normalised: the three samples
/// of pixel `p`, taken in the signed domain, are copied unchanged into the
/// first three channels of the canonical pixel, and the fourth is opaque.
pub proof fn lemma_normalized_rgb(image: SourceImageView, raster: RasterView, p: int)
    requires
        normalized(image) == Ok::<RasterView, RasterError>(raster),
        image.color.model == ColorModel::Rgb,
        0 <= p < image.width * image.height,
    ensures
        raster.samples[4 * p] == signed_data(image.samples)[3 * p],
        raster.samples[4 * p + 1] == signed_data(image.samples)[3 * p + 1],
        raster.samples[4 * p + 2] == signed_data(image.samples)[3 * p + 2],
        raster.samples[4 * p + 3] == 32767,
{
    lemma_normalized_size(image, raster);
    let pixels = (image.width * image.height) as int;
    lemma_rgb_expansion(signed_data(image.samples), pixels, p);
    assert(raster.samples == expanded(ChannelLayout::Rgb, signed_data(image.samples), pixels));
}

/// The bias at work, for every RGBA image with unsigned samples that is
/// normalised: each sample comes out lowered by `32768`, over the whole
/// unsigned range, with nothing cut off at either end.
pub proof fn lemma_normalized_bias(image: SourceImageView, raster: RasterView, u: Seq<u16>, k: int)
    requires
        normalized(image) == Ok::<RasterView, RasterError>(raster),
        image.color.model == ColorModel::Rgba,
        image.samples == SampleData::Unsigned16(u),
        0 <= k < u.len(),
    ensures
        raster.samples.len() == u.len(),
        raster.samples[k] as int == u[k] as int - 32768,
{
    lemma_normalized_size(image, raster);
}

/// The bias keeps order, for every RGBA image with unsigned samples that is
/// normalised: two samples compare in the raster as they compare in the
/// image.
pub proof fn lemma_normalized_order(
    image: SourceImageView,
    raster: RasterView,
    u: Seq<u16>,
    a: int,
    b: int,
)
    requires
        normalized(image) == Ok::<RasterView, RasterError>(raster),
        image.color.model == ColorModel::Rgba,
        image.samples == SampleData::Unsigned16(u),
        0 <= a < u.len(),
        0 <= b < u.len(),
    ensures
        u[a] < u[b] <==> raster.samples[a] < raster.samples[b],
        u[a] == u[b] <==> raster.samples[a] == raster.samples[b],
{
    lemma_normalized_bias(image, raster, u, a);
    lemma_normalized_bias(image, raster, u, b);
}

} // verus!
