use zarrs_jpeg::config::{ColorSpace, Quality};
use zarrs_jpeg::{ColorConfig, JpegCodecConfig, SamplingRatio, SamplingRatios, DEFAULT_QUALITY};

fn message(err: zarrs_jpeg::Error) -> String {
    match err {
        zarrs_jpeg::Error::General(m) => m,
        other => panic!("expected a general error, got {other:?}"),
    }
}

#[test]
fn quality_accepts_zero_to_hundred() {
    assert_eq!(Quality::try_from(0u8).unwrap().value(), 0);
    assert_eq!(Quality::try_from(100u8).unwrap().value(), 100);
    assert_eq!(message(Quality::try_from(101u8).unwrap_err()), "Quality must be between 0 and 100");
}

#[test]
fn quality_defaults() {
    assert_eq!(Quality::default().value(), DEFAULT_QUALITY);
    assert_eq!(Quality::default().value(), 95);
    assert_eq!(Quality::try_new(None).unwrap().value(), 95);
    assert_eq!(Quality::try_new(Some(7)).unwrap().value(), 7);
    assert!(Quality::try_new(Some(200)).is_err());
    assert_eq!(Quality::max().value(), 100);
    assert_eq!(*Quality::max(), 100);
    assert_eq!(u8::from(Quality::try_from(33u8).unwrap()), 33);
}

#[test]
fn sampling_ratio_range() {
    for v in 1..=4u8 {
        let r = SamplingRatio::try_from(v).unwrap();
        assert_eq!(r.value(), v);
        assert_eq!(u8::from(r), v);
    }
    for v in [0u8, 5, 255] {
        assert_eq!(
            message(SamplingRatio::try_from(v).unwrap_err()),
            "Subsampling ratio must be in [1, 4]"
        );
    }
    assert_eq!(SamplingRatio::default().value(), 1);
}

#[test]
fn sampling_ratios_values() {
    let r = SamplingRatios::try_new(2, 4).unwrap();
    assert_eq!(r.values(), (2, 4));
    assert!(SamplingRatios::try_new(0, 1).is_err());
    assert!(SamplingRatios::try_new(1, 5).is_err());
    assert_eq!(SamplingRatios::default().values(), (1, 1));
    let pair: (SamplingRatio, SamplingRatio) = r.into();
    assert_eq!(SamplingRatios::from(pair), r);
    assert_eq!(SamplingRatios::new(pair.0, pair.1), r);
}

#[test]
fn color_space_components() {
    assert_eq!(ColorSpace::Grayscale.components(), 1);
    assert_eq!(ColorSpace::Rgb.components(), 3);
    assert_eq!(ColorSpace::YCbCr.components(), 3);
}

#[test]
fn mcu_shapes() {
    assert_eq!(ColorConfig::Grayscale.mcu_shape(), (8, 8));
    assert_eq!(ColorConfig::Rgb.mcu_shape(), (8, 8));
    let s = SamplingRatios::try_new(2, 1).unwrap();
    assert_eq!(ColorConfig::YCbCr { subsampling: s }.mcu_shape(), (16, 8));
    let s = SamplingRatios::try_new(1, 4).unwrap();
    assert_eq!(ColorConfig::RgbToYCbCr { subsampling: s }.mcu_shape(), (8, 32));
}

#[test]
fn color_spaces_of_configs() {
    let s = SamplingRatios::default();
    assert_eq!(ColorConfig::Grayscale.color_spaces(), (ColorSpace::Grayscale, ColorSpace::Grayscale));
    assert_eq!(ColorConfig::Rgb.color_spaces(), (ColorSpace::Rgb, ColorSpace::Rgb));
    assert_eq!(ColorConfig::YCbCr { subsampling: s }.color_spaces(), (ColorSpace::YCbCr, ColorSpace::YCbCr));
    assert_eq!(
        ColorConfig::RgbToYCbCr { subsampling: s }.color_spaces(),
        (ColorSpace::Rgb, ColorSpace::YCbCr)
    );
}

#[test]
fn subsampling_only_when_mcu_is_larger() {
    let q = Quality::default();
    let trivial = SamplingRatios::default();
    let sub = SamplingRatios::try_new(2, 2).unwrap();
    for (cc, expected) in [
        (ColorConfig::Grayscale, None),
        (ColorConfig::Rgb, None),
        (ColorConfig::YCbCr { subsampling: trivial }, None),
        (ColorConfig::RgbToYCbCr { subsampling: trivial }, None),
        (ColorConfig::YCbCr { subsampling: sub }, Some(sub)),
        (ColorConfig::RgbToYCbCr { subsampling: sub }, Some(sub)),
    ] {
        let cfg = JpegCodecConfig::new(q, cc);
        assert_eq!(cfg.subsampling(), expected);
        assert_eq!(cfg.subsampling().is_none(), cfg.mcu_shape() == (8, 8));
        assert_eq!(cfg.quality(), 95);
        assert_eq!(cfg.color_config(), cc);
    }
}
