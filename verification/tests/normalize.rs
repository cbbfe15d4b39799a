use terrain_raster::bias::to_unsigned_samples;
use terrain_raster::error::RasterError;
use terrain_raster::normalize::{
    channel_layout, decoder_failure, expand, normalize, readable_layout, source_encoding,
    ChannelLayout, DecodeStep, SourceEncoding,
};
use terrain_raster::raster::CanonicalRaster;
use terrain_raster::source::{ColorModel, SampleBuffer, SampleKind, SourceColor, SourceImage};

fn image(
    width: u32,
    height: u32,
    model: ColorModel,
    bit_depth: u8,
    samples: SampleBuffer,
) -> SourceImage {
    SourceImage { width, height, color: SourceColor { model, bit_depth }, planes: 1, samples }
}

fn samples_of(r: Result<CanonicalRaster, RasterError>) -> Vec<i16> {
    r.expect("the image is accepted").into_samples()
}

fn error_of(r: Result<CanonicalRaster, RasterError>) -> RasterError {
    match r {
        Ok(_) => panic!("the image should be refused"),
        Err(e) => e,
    }
}

#[test]
fn gray_sample_fills_three_channels_and_alpha_is_opaque() {
    let src = image(2, 1, ColorModel::Gray, 16, SampleBuffer::Signed16(vec![1000, -5]));
    assert_eq!(samples_of(normalize(src)), vec![1000, 1000, 1000, 32767, -5, -5, -5, 32767]);
}

#[test]
fn gray_expansion_holds_for_every_sample_value() {
    let all: Vec<i16> = (i16::MIN..=i16::MAX).collect();
    let out = expand(ChannelLayout::Gray, all.clone(), all.len());
    assert_eq!(out.len(), all.len() * 4);
    for (p, v) in all.iter().enumerate() {
        assert_eq!(out[4 * p], *v);
        assert_eq!(out[4 * p + 1], *v);
        assert_eq!(out[4 * p + 2], *v);
        assert_eq!(out[4 * p + 3], 32767);
    }
}

#[test]
fn unsigned_gray_is_shifted_into_the_signed_domain() {
    let src = image(3, 1, ColorModel::Gray, 16, SampleBuffer::Unsigned16(vec![0, 33768, 65535]));
    assert_eq!(
        samples_of(normalize(src)),
        vec![
            -32768, -32768, -32768, 32767, 1000, 1000, 1000, 32767, 32767, 32767, 32767, 32767
        ]
    );
}

#[test]
fn rgb_samples_are_copied_and_alpha_is_opaque() {
    let src = image(1, 2, ColorModel::Rgb, 16, SampleBuffer::Signed16(vec![1, 2, 3, -4, -5, -6]));
    assert_eq!(samples_of(normalize(src)), vec![1, 2, 3, 32767, -4, -5, -6, 32767]);
}

#[test]
fn rgb_expansion_keeps_every_source_sample() {
    let pixels = 500usize;
    let src: Vec<i16> = (0..pixels * 3).map(|k| (k as i16).wrapping_mul(37)).collect();
    let out = expand(ChannelLayout::Rgb, src.clone(), pixels);
    assert_eq!(out.len(), pixels * 4);
    for p in 0..pixels {
        assert_eq!(out[4 * p], src[3 * p]);
        assert_eq!(out[4 * p + 1], src[3 * p + 1]);
        assert_eq!(out[4 * p + 2], src[3 * p + 2]);
        assert_eq!(out[4 * p + 3], 32767);
    }
}

#[test]
fn unsigned_rgb_is_shifted_into_the_signed_domain() {
    let src = image(1, 1, ColorModel::Rgb, 16, SampleBuffer::Unsigned16(vec![32768, 32769, 0]));
    assert_eq!(samples_of(normalize(src)), vec![0, 1, -32768, 32767]);
}

#[test]
fn rgba_samples_are_taken_as_they_are() {
    let samples = SampleBuffer::Signed16(vec![1, 2, 3, 4, 5, 6, 7, 8]);
    let src = image(1, 2, ColorModel::Rgba, 16, samples);
    let raster = normalize(src).expect("RGBA is accepted");
    assert_eq!(raster.width(), 1);
    assert_eq!(raster.height(), 2);
    assert_eq!(raster.into_samples(), vec![1, 2, 3, 4, 5, 6, 7, 8]);
    assert_eq!(expand(ChannelLayout::Rgba, vec![9, 8, 7, 6], 1), vec![9, 8, 7, 6]);
}

#[test]
fn unsigned_rgba_alpha_is_shifted_like_the_other_channels() {
    let samples = SampleBuffer::Unsigned16(vec![65535, 0, 32768, 65535]);
    let src = image(1, 1, ColorModel::Rgba, 16, samples);
    assert_eq!(samples_of(normalize(src)), vec![32767, -32768, 0, 32767]);
}

#[test]
fn normalized_raster_keeps_the_declared_size() {
    let src = image(3, 2, ColorModel::Gray, 16, SampleBuffer::Signed16(vec![0; 6]));
    let raster = normalize(src).expect("gray is accepted");
    assert_eq!(raster.width(), 3);
    assert_eq!(raster.height(), 2);
    assert_eq!(raster.samples().len(), 24);
}

#[test]
fn color_models_other_than_gray_rgb_rgba_are_refused() {
    let refused = [
        ColorModel::Palette,
        ColorModel::GrayAlpha,
        ColorModel::Cmyk,
        ColorModel::CmykAlpha,
        ColorModel::YCbCr,
        ColorModel::Lab,
        ColorModel::Multiband,
        ColorModel::Other,
    ];
    for model in refused {
        let src = image(1, 1, model, 16, SampleBuffer::Unsigned16(vec![0; 4]));
        assert_eq!(error_of(normalize(src)), RasterError::UnsupportedColorType);
        assert_eq!(
            channel_layout(SourceColor { model, bit_depth: 16 }),
            Err(RasterError::UnsupportedColorType)
        );
    }
}

#[test]
fn accepted_color_models_have_their_layout() {
    assert_eq!(
        channel_layout(SourceColor { model: ColorModel::Gray, bit_depth: 16 }),
        Ok(ChannelLayout::Gray)
    );
    assert_eq!(
        channel_layout(SourceColor { model: ColorModel::Rgb, bit_depth: 8 }),
        Ok(ChannelLayout::Rgb)
    );
    assert_eq!(
        channel_layout(SourceColor { model: ColorModel::Rgba, bit_depth: 16 }),
        Ok(ChannelLayout::Rgba)
    );
    assert_eq!(ChannelLayout::Gray.channel_count(), 1);
    assert_eq!(ChannelLayout::Rgb.channel_count(), 3);
    assert_eq!(ChannelLayout::Rgba.channel_count(), 4);
}

#[test]
fn floating_point_samples_are_an_unsupported_color_type() {
    for samples in [SampleBuffer::Float16, SampleBuffer::Float32, SampleBuffer::Float64] {
        let src = image(1, 1, ColorModel::Gray, 32, samples.clone());
        assert_eq!(error_of(normalize(src)), RasterError::UnsupportedColorType);
        let src = image(1, 1, ColorModel::Rgba, 16, samples);
        assert_eq!(error_of(normalize(src)), RasterError::UnsupportedColorType);
    }
}

#[test]
fn integer_samples_that_are_not_16_bit_are_an_unsupported_sample_format() {
    let others = [
        (SampleBuffer::Unsigned8, 8u8),
        (SampleBuffer::Unsigned32, 32),
        (SampleBuffer::Unsigned64, 64),
        (SampleBuffer::Signed8, 8),
        (SampleBuffer::Signed32, 32),
        (SampleBuffer::Signed64, 64),
    ];
    for (samples, bits) in others {
        let src = image(1, 1, ColorModel::Gray, bits, samples.clone());
        assert_eq!(error_of(normalize(src)), RasterError::UnsupportedSampleFormat);
        let src = image(1, 1, ColorModel::Rgb, 16, samples);
        assert_eq!(error_of(normalize(src)), RasterError::UnsupportedSampleFormat);
    }
}

#[test]
fn sixteen_bit_buffers_of_narrower_samples_are_an_unsupported_sample_format() {
    let src = image(1, 1, ColorModel::Gray, 12, SampleBuffer::Unsigned16(vec![5]));
    assert_eq!(error_of(normalize(src)), RasterError::UnsupportedSampleFormat);
    let src = image(1, 1, ColorModel::Gray, 9, SampleBuffer::Signed16(vec![5]));
    assert_eq!(error_of(normalize(src)), RasterError::UnsupportedSampleFormat);
}

#[test]
fn the_color_model_is_judged_before_the_samples() {
    let src = image(1, 1, ColorModel::Palette, 8, SampleBuffer::Unsigned8);
    assert_eq!(error_of(normalize(src)), RasterError::UnsupportedColorType);
    let src = image(1, 1, ColorModel::Cmyk, 16, SampleBuffer::Signed16(Vec::new()));
    assert_eq!(error_of(normalize(src)), RasterError::UnsupportedColorType);
}

#[test]
fn the_sample_format_is_judged_before_the_sample_count() {
    let src = image(5, 5, ColorModel::Gray, 8, SampleBuffer::Unsigned16(vec![1]));
    assert_eq!(error_of(normalize(src)), RasterError::UnsupportedSampleFormat);
}

#[test]
fn a_sample_count_that_does_not_match_the_size_is_a_decode_error() {
    let src = image(2, 2, ColorModel::Gray, 16, SampleBuffer::Signed16(vec![1, 2, 3]));
    assert_eq!(error_of(normalize(src)), RasterError::Decode);
    let src = image(2, 2, ColorModel::Gray, 16, SampleBuffer::Signed16(vec![1, 2, 3, 4, 5]));
    assert_eq!(error_of(normalize(src)), RasterError::Decode);
    let src = image(2, 2, ColorModel::Rgb, 16, SampleBuffer::Unsigned16(vec![0; 4]));
    assert_eq!(error_of(normalize(src)), RasterError::Decode);
    let src = image(2, 2, ColorModel::Rgba, 16, SampleBuffer::Unsigned16(vec![0; 12]));
    assert_eq!(error_of(normalize(src)), RasterError::Decode);
    let src = image(u32::MAX, u32::MAX, ColorModel::Gray, 16, SampleBuffer::Signed16(vec![0; 1]));
    assert_eq!(error_of(normalize(src)), RasterError::Decode);
}

#[test]
fn an_image_without_pixels_normalizes_to_a_raster_without_samples() {
    let src = image(0, 4, ColorModel::Rgb, 16, SampleBuffer::Unsigned16(Vec::new()));
    let raster = normalize(src).expect("nothing to refuse");
    assert_eq!(raster.width(), 0);
    assert_eq!(raster.height(), 4);
    assert!(raster.samples().is_empty());
}

#[test]
fn normalizing_the_stored_form_gives_the_raster_back() {
    let samples: Vec<i16> = (0..4 * 3 * 4).map(|k| ((k * 5461) % 65536 - 32768) as i16).collect();
    let raster = CanonicalRaster::new(4, 3, samples.clone()).expect("48 samples");
    let stored = image(
        raster.width(),
        raster.height(),
        ColorModel::Rgba,
        16,
        SampleBuffer::Unsigned16(to_unsigned_samples(raster.samples())),
    );
    let back = normalize(stored).expect("RGBA with unsigned samples is accepted");
    assert_eq!(back.width(), 4);
    assert_eq!(back.height(), 3);
    assert_eq!(back.into_samples(), samples);
}

#[test]
fn accepted_encodings_are_three_layouts_times_two_signs() {
    let models = [
        (ColorModel::Gray, ChannelLayout::Gray),
        (ColorModel::Rgb, ChannelLayout::Rgb),
        (ColorModel::Rgba, ChannelLayout::Rgba),
    ];
    for (model, layout) in models {
        let color = SourceColor { model, bit_depth: 16 };
        assert_eq!(
            source_encoding(color, SampleKind::Signed16),
            Ok(SourceEncoding { layout, signed: true })
        );
        assert_eq!(
            source_encoding(color, SampleKind::Unsigned16),
            Ok(SourceEncoding { layout, signed: false })
        );
    }
}

#[test]
fn refused_encodings_name_their_reason() {
    let gray16 = SourceColor { model: ColorModel::Gray, bit_depth: 16 };
    let gray8 = SourceColor { model: ColorModel::Gray, bit_depth: 8 };
    let gray32 = SourceColor { model: ColorModel::Gray, bit_depth: 32 };
    let palette16 = SourceColor { model: ColorModel::Palette, bit_depth: 16 };
    let color_type = Err(RasterError::UnsupportedColorType);
    let sample_format = Err(RasterError::UnsupportedSampleFormat);
    assert_eq!(source_encoding(palette16, SampleKind::Unsigned16), color_type);
    assert_eq!(source_encoding(palette16, SampleKind::Float32), color_type);
    assert_eq!(source_encoding(gray32, SampleKind::Float32), color_type);
    assert_eq!(source_encoding(gray16, SampleKind::Float16), color_type);
    assert_eq!(source_encoding(gray8, SampleKind::Unsigned8), sample_format);
    assert_eq!(source_encoding(gray32, SampleKind::Unsigned32), sample_format);
    assert_eq!(source_encoding(gray32, SampleKind::Signed32), sample_format);
    assert_eq!(source_encoding(gray8, SampleKind::Unsigned16), sample_format);
    assert_eq!(source_encoding(gray16, SampleKind::Unsigned8), sample_format);
    assert_eq!(source_encoding(gray16, SampleKind::Other), sample_format);
}

#[test]
fn buffers_know_their_kind() {
    assert_eq!(SampleBuffer::Unsigned8.kind(), SampleKind::Unsigned8);
    assert_eq!(SampleBuffer::Unsigned16(vec![1]).kind(), SampleKind::Unsigned16);
    assert_eq!(SampleBuffer::Unsigned32.kind(), SampleKind::Unsigned32);
    assert_eq!(SampleBuffer::Unsigned64.kind(), SampleKind::Unsigned64);
    assert_eq!(SampleBuffer::Float16.kind(), SampleKind::Float16);
    assert_eq!(SampleBuffer::Float32.kind(), SampleKind::Float32);
    assert_eq!(SampleBuffer::Float64.kind(), SampleKind::Float64);
    assert_eq!(SampleBuffer::Signed8.kind(), SampleKind::Signed8);
    assert_eq!(SampleBuffer::Signed16(Vec::new()).kind(), SampleKind::Signed16);
    assert_eq!(SampleBuffer::Signed32.kind(), SampleKind::Signed32);
    assert_eq!(SampleBuffer::Signed64.kind(), SampleKind::Signed64);
}

#[test]
fn samples_in_more_than_one_plane_are_malformed() {
    for planes in [0usize, 2, 3, 4, usize::MAX] {
        let mut src = image(1, 1, ColorModel::Rgb, 16, SampleBuffer::Unsigned16(vec![1, 2, 3]));
        src.planes = planes;
        assert_eq!(error_of(normalize(src)), RasterError::Decode);
        let rgb = SourceColor { model: ColorModel::Rgb, bit_depth: 16 };
        assert_eq!(readable_layout(rgb, SampleKind::Unsigned16, planes), Err(RasterError::Decode));
        assert_eq!(readable_layout(rgb, SampleKind::Signed16, planes), Err(RasterError::Decode));
    }
    let src = image(1, 1, ColorModel::Rgb, 16, SampleBuffer::Unsigned16(vec![32769, 32770, 32771]));
    assert_eq!(src.planes, 1);
    assert_eq!(samples_of(normalize(src)), vec![1, 2, 3, 32767]);
}

#[test]
fn the_color_model_and_the_samples_are_judged_before_the_planes() {
    let mut src = image(1, 1, ColorModel::Cmyk, 16, SampleBuffer::Unsigned16(vec![0; 4]));
    src.planes = 4;
    assert_eq!(error_of(normalize(src)), RasterError::UnsupportedColorType);
    // Floating-point samples in one plane and in three.
    let src = image(1, 1, ColorModel::Rgb, 32, SampleBuffer::Float32);
    assert_eq!(error_of(normalize(src)), RasterError::UnsupportedColorType);
    let mut src = image(1, 1, ColorModel::Rgb, 32, SampleBuffer::Float32);
    src.planes = 3;
    assert_eq!(error_of(normalize(src)), RasterError::UnsupportedColorType);
    // 8-bit samples in one plane and in three.
    let src = image(1, 1, ColorModel::Rgb, 8, SampleBuffer::Unsigned8);
    assert_eq!(error_of(normalize(src)), RasterError::UnsupportedSampleFormat);
    let mut src = image(1, 1, ColorModel::Rgb, 8, SampleBuffer::Unsigned8);
    src.planes = 3;
    assert_eq!(error_of(normalize(src)), RasterError::UnsupportedSampleFormat);
    // 32-bit samples, and 16-bit buffers of narrower samples, in several planes.
    let mut src = image(1, 1, ColorModel::Gray, 32, SampleBuffer::Signed32);
    src.planes = 2;
    assert_eq!(error_of(normalize(src)), RasterError::UnsupportedSampleFormat);
    let mut src = image(1, 1, ColorModel::Rgb, 12, SampleBuffer::Unsigned16(vec![1, 2, 3]));
    src.planes = 3;
    assert_eq!(error_of(normalize(src)), RasterError::UnsupportedSampleFormat);
}

#[test]
fn what_is_known_before_the_pixels_are_read() {
    let unsigned = |layout| Ok(SourceEncoding { layout, signed: false });
    let cases = [
        (ColorModel::Gray, unsigned(ChannelLayout::Gray)),
        (ColorModel::Rgb, unsigned(ChannelLayout::Rgb)),
        (ColorModel::Rgba, unsigned(ChannelLayout::Rgba)),
        (ColorModel::Palette, Err(RasterError::UnsupportedColorType)),
        (ColorModel::Cmyk, Err(RasterError::UnsupportedColorType)),
        (ColorModel::Other, Err(RasterError::UnsupportedColorType)),
    ];
    for (model, want) in cases {
        let color = SourceColor { model, bit_depth: 16 };
        assert_eq!(readable_layout(color, SampleKind::Unsigned16, 1), want);
    }
    let rgb32 = SourceColor { model: ColorModel::Rgb, bit_depth: 32 };
    let rgb8 = SourceColor { model: ColorModel::Rgb, bit_depth: 8 };
    let palette8 = SourceColor { model: ColorModel::Palette, bit_depth: 8 };
    for planes in [1usize, 3] {
        assert_eq!(
            readable_layout(rgb32, SampleKind::Float32, planes),
            Err(RasterError::UnsupportedColorType)
        );
        assert_eq!(
            readable_layout(rgb8, SampleKind::Unsigned8, planes),
            Err(RasterError::UnsupportedSampleFormat)
        );
        assert_eq!(
            readable_layout(rgb32, SampleKind::Unsigned32, planes),
            Err(RasterError::UnsupportedSampleFormat)
        );
        assert_eq!(
            readable_layout(palette8, SampleKind::Unsigned8, planes),
            Err(RasterError::UnsupportedColorType)
        );
    }
}

#[test]
fn a_decoder_that_gives_up_names_its_step() {
    let steps = [
        (DecodeStep::Header, RasterError::Decode),
        (DecodeStep::ColorType, RasterError::UnsupportedColorType),
        (DecodeStep::Layout, RasterError::Decode),
        (DecodeStep::Pixels, RasterError::Decode),
    ];
    for (step, want) in steps {
        // The decoder's own reasons, and a file that ends early.
        assert_eq!(decoder_failure(step, false, false), Some(want));
        assert_eq!(decoder_failure(step, false, true), Some(want));
        assert_eq!(decoder_failure(step, true, true), Some(want));
        // Trouble with the storage is not the file's fault.
        assert_eq!(decoder_failure(step, true, false), None);
    }
}

#[test]
fn unsigned_samples_keep_their_order_through_normalizing() {
    let u: Vec<u16> = vec![0, 65535, 32768, 32767, 1, 65534, 32768, 5];
    let src = image(2, 1, ColorModel::Rgba, 16, SampleBuffer::Unsigned16(u.clone()));
    let out = samples_of(normalize(src));
    assert_eq!(out.len(), u.len());
    for a in 0..u.len() {
        assert_eq!(out[a] as i32, u[a] as i32 - 32768);
        for b in 0..u.len() {
            assert_eq!(u[a] < u[b], out[a] < out[b]);
            assert_eq!(u[a] == u[b], out[a] == out[b]);
        }
    }
}
