use zarrs_jpeg::config::{ColorConfigRaw, ColorSpace, ConfigRaw, Quality};
use zarrs_jpeg::{ColorConfig, JpegCodecConfig, SamplingRatios};

/// Reads the stored color fields of a JSON object into the raw configuration,
/// as the JSON field names and lower-case color space names give them.
fn color_config_raw_from_json(text: &str) -> ColorConfigRaw {
    let value: serde_json::Value = serde_json::from_str(text).expect("should deser raw type");
    let color_space = |key: &str| {
        value.get(key).map(|v| match v.as_str().expect("color space is a string") {
            "grayscale" => ColorSpace::Grayscale,
            "rgb" => ColorSpace::Rgb,
            "ycbcr" => ColorSpace::YCbCr,
            other => panic!("unknown color space {other}"),
        })
    };
    let subsampling = value["subsampling"]
        .as_array()
        .expect("subsampling is an array")
        .iter()
        .map(|pair| {
            let pair = pair.as_array().expect("ratios are a pair");
            SamplingRatios::try_new(
                pair[0].as_u64().expect("ratio is a number") as u8,
                pair[1].as_u64().expect("ratio is a number") as u8,
            )
            .expect("ratios are in range")
        })
        .collect();
    ColorConfigRaw {
        encoded_color_space: color_space("encoded_color_space"),
        decoded_color_space: color_space("decoded_color_space"),
        subsampling,
    }
}

#[test]
fn test_parse_happy() {
    for (jso, exp) in [
        (
            r#"{"decoded_color_space": "rgb", "encoded_color_space": "ycbcr", "subsampling": [[2, 2], [1, 1], [1, 1]]}"#,
            ColorConfig::RgbToYCbCr {
                subsampling: SamplingRatios::try_new(2, 2).unwrap(),
            },
        ),
        (
            r#"{"decoded_color_space": "rgb", "encoded_color_space": "rgb", "subsampling": [[1, 1], [1, 1], [1, 1]]}"#,
            ColorConfig::Rgb,
        ),
        (r#"{"subsampling": [[1, 1]]}"#, ColorConfig::Grayscale),
        (
            r#"{"encoded_color_space": "grayscale", "subsampling": [[1, 1]]}"#,
            ColorConfig::Grayscale,
        ),
        (
            r#"{"decoded_color_space": "grayscale", "subsampling": [[1, 1]]}"#,
            ColorConfig::Grayscale,
        ),
    ] {
        let raw = color_config_raw_from_json(jso);
        let cfg = ColorConfig::try_from(raw).expect("should deser parsed type");

        assert_eq!(cfg, exp);
    }
}

#[test]
/// Configurations have the correct fields, but values make them invalid.
pub fn test_parse_sad() {
    for jso in [
        r#"{"decoded_color_space": "rgb", "encoded_color_space": "ycbcr", "subsampling": [[2, 2], [1, 1]]}"#,
        r#"{"decoded_color_space": "rgb", "encoded_color_space": "ycbcr", "subsampling": [[2, 2], [1, 1], [1, 1], [1, 1]]}"#,
        r#"{"decoded_color_space": "grayscale", "encoded_color_space": "ycbcr", "subsampling": [[2, 2]]}"#,
        r#"{"decoded_color_space": "rgb", "encoded_color_space": "grayscale", "subsampling": [[2, 2]]}"#,
    ] {
        let raw = color_config_raw_from_json(jso);
        let cfg = ColorConfig::try_from(raw);

        assert!(cfg.is_err());
    }
}

fn message(err: zarrs_jpeg::Error) -> String {
    match err {
        zarrs_jpeg::Error::General(m) => m,
        other => panic!("expected a general error, got {other:?}"),
    }
}

fn ratios(h: u8, v: u8) -> SamplingRatios {
    SamplingRatios::try_new(h, v).unwrap()
}

fn raw(
    encoded: Option<ColorSpace>,
    decoded: Option<ColorSpace>,
    subsampling: Vec<SamplingRatios>,
) -> ColorConfigRaw {
    ColorConfigRaw { encoded_color_space: encoded, decoded_color_space: decoded, subsampling }
}

#[test]
fn color_config_errors_name_their_reason() {
    let one = ratios(1, 1);
    let cases = [
        (
            raw(Some(ColorSpace::YCbCr), Some(ColorSpace::Grayscale), vec![one]),
            "Encoded and decoded color spaces must have the same number of components",
        ),
        (
            raw(Some(ColorSpace::Rgb), None, vec![one, one]),
            "Subsampling must have the same number of components as the encoded color space",
        ),
        (
            raw(Some(ColorSpace::YCbCr), Some(ColorSpace::YCbCr), vec![one, ratios(2, 1), one]),
            "Only the first component can have non-trivial subsampling",
        ),
        (
            raw(None, None, vec![ratios(2, 2)]),
            "Grayscale images cannot have non-trivial subsampling",
        ),
        (
            raw(Some(ColorSpace::Rgb), Some(ColorSpace::Rgb), vec![ratios(1, 2), one, one]),
            "Images stored as RGB cannot have non-trivial subsampling",
        ),
        (
            raw(Some(ColorSpace::Rgb), Some(ColorSpace::YCbCr), vec![one, one, one]),
            "Invalid color space combination",
        ),
    ];
    for (input, expected) in cases {
        assert_eq!(message(ColorConfig::try_from(input).unwrap_err()), expected);
    }
}

#[test]
fn missing_decoded_color_space_defaults_to_rgb_for_color_data() {
    let cfg = ColorConfig::try_from(raw(
        Some(ColorSpace::YCbCr),
        None,
        vec![ratios(4, 1), ratios(1, 1), ratios(1, 1)],
    ))
    .unwrap();
    assert_eq!(cfg, ColorConfig::RgbToYCbCr { subsampling: ratios(4, 1) });
}

#[test]
fn color_config_round_trips_through_raw_form() {
    for cfg in [
        ColorConfig::Grayscale,
        ColorConfig::Rgb,
        ColorConfig::YCbCr { subsampling: ratios(2, 1) },
        ColorConfig::RgbToYCbCr { subsampling: ratios(3, 4) },
    ] {
        let stored = ColorConfigRaw::from(cfg);
        assert_eq!(ColorConfig::try_from(stored).unwrap(), cfg);
    }
}

#[test]
fn grayscale_is_stored_without_encoded_color_space() {
    let stored = ColorConfigRaw::from(ColorConfig::Grayscale);
    assert_eq!(stored.encoded_color_space, None);
    assert_eq!(stored.decoded_color_space, Some(ColorSpace::Grayscale));
    assert_eq!(stored.subsampling, vec![ratios(1, 1)]);

    let stored = ColorConfigRaw::from(ColorConfig::YCbCr { subsampling: ratios(2, 2) });
    assert_eq!(stored.encoded_color_space, Some(ColorSpace::YCbCr));
    assert_eq!(stored.decoded_color_space, Some(ColorSpace::YCbCr));
    assert_eq!(stored.subsampling, vec![ratios(2, 2), ratios(1, 1), ratios(1, 1)]);
}

#[test]
fn codec_config_round_trips_through_raw_form() {
    let cfg = JpegCodecConfig::new(
        Quality::try_from(42u8).unwrap(),
        ColorConfig::RgbToYCbCr { subsampling: ratios(2, 2) },
    );
    let stored = ConfigRaw::from(cfg);
    assert_eq!(stored.quality.value(), 42);
    let back = JpegCodecConfig::try_from(stored).unwrap();
    assert_eq!(back.quality(), 42);
    assert_eq!(back.color_config(), cfg.color_config());
}

#[test]
fn codec_config_from_raw_rejects_bad_colors() {
    let stored = ConfigRaw {
        quality: Quality::default(),
        color_config: raw(Some(ColorSpace::Rgb), Some(ColorSpace::Grayscale), vec![ratios(1, 1)]),
    };
    let err = JpegCodecConfig::try_from(stored).unwrap_err();
    assert_eq!(
        message(err),
        "Encoded and decoded color spaces must have the same number of components"
    );
}
