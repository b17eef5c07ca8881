use zarrs_jpeg::codec::{DecodeRequest, EncodeInput, PixelFormat, Subsamp};
use zarrs_jpeg::config::{ColorSpace, Quality};
use zarrs_jpeg::{
    ColorConfig, JpegCodec, JpegCodecConfig, JpegCodecTrait, JpegDecoderTrait, JpegEncoderTrait,
    JpegShape, SamplingRatios, TurboCodec,
};

fn codec(cc: ColorConfig, quality: u8) -> JpegCodec {
    JpegCodec::try_from(JpegCodecConfig::new(Quality::try_from(quality).unwrap(), cc)).unwrap()
}

fn ratios(h: u8, v: u8) -> SamplingRatios {
    SamplingRatios::try_new(h, v).unwrap()
}

#[test]
fn supported_subsamplings() {
    for ((h, v), expected) in [
        ((1, 1), Subsamp::Sub1x1),
        ((2, 1), Subsamp::Sub2x1),
        ((1, 2), Subsamp::Sub1x2),
        ((2, 2), Subsamp::Sub2x2),
        ((1, 4), Subsamp::Sub1x4),
        ((4, 1), Subsamp::Sub4x1),
    ] {
        assert_eq!(Subsamp::try_from(ratios(h, v)).unwrap(), expected);
    }
    for (h, v) in [(3, 1), (2, 4), (4, 4), (3, 3)] {
        match Subsamp::try_from(ratios(h, v)).unwrap_err() {
            zarrs_jpeg::Error::General(m) => assert_eq!(m, "Unsupported subsampling ratios"),
            other => panic!("unexpected {other:?}"),
        }
    }
}

#[test]
fn unsupported_subsampling_rejects_codec() {
    let cfg = JpegCodecConfig::new(Quality::default(), ColorConfig::YCbCr { subsampling: ratios(3, 3) });
    assert!(JpegCodec::try_from(cfg).is_err());
    assert!(TurboCodec::try_from(cfg).is_err());
}

#[test]
fn codec_follows_configuration() {
    let c = codec(ColorConfig::RgbToYCbCr { subsampling: ratios(2, 1) }, 80);
    assert_eq!(c.decoded_components(), 3);
    assert_eq!(c.mcu_shape(), (16, 8));
    assert_eq!(c.config().quality(), 80);
    assert_eq!(c.codec().subsampling(), Subsamp::Sub2x1);
    let cfg: JpegCodecConfig = c.into();
    assert_eq!(cfg.mcu_shape(), (16, 8));

    let g = codec(ColorConfig::Grayscale, 10);
    assert_eq!(g.decoded_components(), 1);
    assert_eq!(g.mcu_shape(), (8, 8));
    assert_eq!(g.codec().subsampling(), Subsamp::Gray);
}

#[test]
fn decoded_size_check() {
    let c = codec(ColorConfig::Rgb, 90);
    let shape = JpegShape::try_new(10, 20).unwrap();
    assert!(c.check_decoded_size(shape, 600).is_ok());
    match c.check_decoded_size(shape, 599).unwrap_err() {
        zarrs_jpeg::Error::General(m) => assert_eq!(
            m,
            "Decoded data length 599 does not match expected length 600 for shape JpegShape { width: 10, height: 20 } and 3 components"
        ),
        other => panic!("unexpected {other:?}"),
    }
    let g = codec(ColorConfig::Grayscale, 90);
    assert!(g.check_decoded_size(shape, 200).is_ok());
    assert!(g.check_decoded_size(shape, 600).is_err());
}

#[test]
fn encode_settings_for_each_color_config() {
    let shape = JpegShape::try_new(4, 3).unwrap();

    let rgb = codec(ColorConfig::Rgb, 90);
    let req = rgb.codec().encode_request(36, shape).unwrap();
    assert_eq!(req.quality, 90);
    assert!(req.optimize);
    assert_eq!(req.colorspace, ColorSpace::Rgb);
    assert_eq!(req.subsamp, Subsamp::Sub1x1);
    assert_eq!(
        req.input,
        EncodeInput::Packed { width: 4, pitch: 12, height: 3, format: PixelFormat::Rgb }
    );

    let gray = codec(ColorConfig::Grayscale, 50);
    let req = gray.codec().encode_request(12, shape).unwrap();
    assert_eq!(req.colorspace, ColorSpace::Grayscale);
    assert_eq!(req.subsamp, Subsamp::Gray);
    assert_eq!(
        req.input,
        EncodeInput::Packed { width: 4, pitch: 4, height: 3, format: PixelFormat::Gray }
    );

    let ycc = codec(ColorConfig::YCbCr { subsampling: ratios(2, 2) }, 70);
    let req = ycc.codec().encode_request(36, shape).unwrap();
    assert_eq!(req.colorspace, ColorSpace::YCbCr);
    assert_eq!(req.subsamp, Subsamp::Sub2x2);
    assert_eq!(
        req.input,
        EncodeInput::Planar { width: 4, align: 1, height: 3, subsamp: Subsamp::Sub1x1 }
    );

    let to_ycc = codec(ColorConfig::RgbToYCbCr { subsampling: ratios(4, 1) }, 70);
    let req = to_ycc.codec().encode_request(36, shape).unwrap();
    assert_eq!(req.colorspace, ColorSpace::YCbCr);
    assert_eq!(req.subsamp, Subsamp::Sub4x1);
    assert_eq!(
        req.input,
        EncodeInput::Packed { width: 4, pitch: 12, height: 3, format: PixelFormat::Rgb }
    );

    assert!(to_ycc.codec().encode_request(35, shape).is_err());
}

#[test]
fn decode_settings_for_each_color_config() {
    assert_eq!(codec(ColorConfig::Rgb, 90).codec().decode_request(), DecodeRequest::Packed(PixelFormat::Rgb));
    assert_eq!(
        codec(ColorConfig::Grayscale, 90).codec().decode_request(),
        DecodeRequest::Packed(PixelFormat::Gray)
    );
    assert_eq!(
        codec(ColorConfig::YCbCr { subsampling: ratios(1, 1) }, 90).codec().decode_request(),
        DecodeRequest::Planar
    );
    assert_eq!(
        codec(ColorConfig::RgbToYCbCr { subsampling: ratios(1, 1) }, 90).codec().decode_request(),
        DecodeRequest::Packed(PixelFormat::Rgb)
    );
}

#[test]
fn decoded_image_shape() {
    let (shape, px) = TurboCodec::decoded_image(3, 2, vec![1, 2, 3, 4, 5, 6]).unwrap();
    assert_eq!(shape.width(), 3);
    assert_eq!(shape.height(), 2);
    assert_eq!(px, vec![1, 2, 3, 4, 5, 6]);
    assert!(TurboCodec::decoded_image(0, 2, vec![]).is_err());
    assert!(TurboCodec::decoded_image(70000, 2, vec![]).is_err());
}

#[test]
fn decoded_shape_check() {
    let c = codec(ColorConfig::Grayscale, 90);
    let a = JpegShape::try_new(3, 2).unwrap();
    let b = JpegShape::try_new(2, 3).unwrap();
    assert_eq!(c.check_decoded_shape((a, vec![9; 6]), a).unwrap(), vec![9; 6]);
    match c.check_decoded_shape((a, vec![9; 6]), b).unwrap_err() {
        zarrs_jpeg::Error::General(m) => assert_eq!(
            m,
            "Decoded shape JpegShape { width: 3, height: 2 } does not match expected shape JpegShape { width: 2, height: 3 }"
        ),
        other => panic!("unexpected {other:?}"),
    }
}

#[test]
fn shape_bounds() {
    let s = JpegShape::try_new(1u64, 65535u64).unwrap();
    assert_eq!((s.width(), s.height()), (1, 65535));
    for (w, h) in [(0u64, 1u64), (1, 0), (65536, 1), (1, 65536)] {
        match JpegShape::try_new(w, h).unwrap_err() {
            zarrs_jpeg::Error::General(m) => {
                assert_eq!(m, format!("Invalid JPEG shape: width={w:?}, height={h:?}"))
            }
            other => panic!("unexpected {other:?}"),
        }
    }
    let e = zarrs_jpeg::Error::unexpected_shape(s, s);
    assert!(matches!(e, zarrs_jpeg::Error::UnexpectedShape { .. }));
    assert!(matches!(zarrs_jpeg::Error::general("x"), zarrs_jpeg::Error::General(m) if m == "x"));
}
