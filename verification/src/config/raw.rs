use vstd::prelude::*;

use super::{ColorConfig, ColorSpace, JpegCodecConfig, Quality, SamplingRatios};
use crate::errors::{outcome_matches, Error, Result};

verus! {

broadcast use SamplingRatios::lemma_ratios_eq;

/// Stored form of a codec configuration: the fields of its JSON object.
#[derive(Debug, Clone)]
pub struct ConfigRaw {
    pub quality: Quality,
    pub color_config: ColorConfigRaw,
}

/// Stored form of the color configuration: its fields in the JSON object.
#[derive(Debug, Clone)]
pub struct ColorConfigRaw {
    pub encoded_color_space: Option<ColorSpace>,
    pub decoded_color_space: Option<ColorSpace>,
    pub subsampling: Vec<SamplingRatios>,
}

pub open spec fn components_mismatch_message() -> Seq<char> {
    "Encoded and decoded color spaces must have the same number of components"@
}

pub open spec fn subsampling_length_message() -> Seq<char> {
    "Subsampling must have the same number of components as the encoded color space"@
}

pub open spec fn secondary_subsampling_message() -> Seq<char> {
    "Only the first component can have non-trivial subsampling"@
}

pub open spec fn grayscale_subsampling_message() -> Seq<char> {
    "Grayscale images cannot have non-trivial subsampling"@
}

pub open spec fn rgb_subsampling_message() -> Seq<char> {
    "Images stored as RGB cannot have non-trivial subsampling"@
}

pub open spec fn invalid_combination_message() -> Seq<char> {
    "Invalid color space combination"@
}

/// The color configuration that the stored fields describe, or the message
/// of the reason they describe none.
///
/// A missing encoded color space means grayscale; a missing decoded color
/// space means grayscale for grayscale-encoded data and RGB otherwise. There
/// is one pair of subsampling ratios per encoded component, and only the
/// first may be non-trivial.
pub open spec fn color_config_from_raw(
    encoded: Option<ColorSpace>,
    decoded: Option<ColorSpace>,
    subsampling: Seq<SamplingRatios>,
) -> core::result::Result<ColorConfig, Seq<char>> {
    let enc = match encoded {
        Some(c) => c,
        None => ColorSpace::Grayscale,
    };
    let dec = match decoded {
        Some(c) => c,
        None => if enc == ColorSpace::Grayscale {
            ColorSpace::Grayscale
        } else {
            ColorSpace::Rgb
        },
    };
    if enc.spec_components() != dec.spec_components() {
        Err(components_mismatch_message())
    } else if enc.spec_components() != subsampling.len() {
        Err(subsampling_length_message())
    } else if exists|i: int| 1 <= i < subsampling.len() && !(#[trigger] subsampling[i]).is_trivial() {
        Err(secondary_subsampling_message())
    } else {
        let first = subsampling[0];
        match (dec, enc) {
            (ColorSpace::Grayscale, ColorSpace::Grayscale) => if first.is_trivial() {
                Ok(ColorConfig::Grayscale)
            } else {
                Err(grayscale_subsampling_message())
            },
            (ColorSpace::Rgb, ColorSpace::Rgb) => if first.is_trivial() {
                Ok(ColorConfig::Rgb)
            } else {
                Err(rgb_subsampling_message())
            },
            (ColorSpace::Rgb, ColorSpace::YCbCr) => Ok(ColorConfig::RgbToYCbCr { subsampling: first }),
            (ColorSpace::YCbCr, ColorSpace::YCbCr) => Ok(ColorConfig::YCbCr { subsampling: first }),
            _ => Err(invalid_combination_message()),
        }
    }
}

/// The stored fields that a color configuration is written as.
pub open spec fn color_config_to_raw(
    c: ColorConfig,
    encoded: Option<ColorSpace>,
    decoded: Option<ColorSpace>,
    subsampling: Seq<SamplingRatios>,
) -> bool {
    match c {
        ColorConfig::Grayscale => {
            &&& encoded is None
            &&& decoded == Some(ColorSpace::Grayscale)
            &&& subsampling.len() == 1
            &&& subsampling[0].is_trivial()
        },
        ColorConfig::Rgb => {
            &&& encoded == Some(ColorSpace::Rgb)
            &&& decoded == Some(ColorSpace::Rgb)
            &&& subsampling.len() == 3
            &&& subsampling[0].is_trivial()
            &&& subsampling[1].is_trivial()
            &&& subsampling[2].is_trivial()
        },
        ColorConfig::YCbCr { subsampling: first } => {
            &&& encoded == Some(ColorSpace::YCbCr)
            &&& decoded == Some(ColorSpace::YCbCr)
            &&& subsampling.len() == 3
            &&& subsampling[0] == first
            &&& subsampling[1].is_trivial()
            &&& subsampling[2].is_trivial()
        },
        ColorConfig::RgbToYCbCr { subsampling: first } => {
            &&& encoded == Some(ColorSpace::YCbCr)
            &&& decoded == Some(ColorSpace::Rgb)
            &&& subsampling.len() == 3
            &&& subsampling[0] == first
            &&& subsampling[1].is_trivial()
            &&& subsampling[2].is_trivial()
        },
    }
}

impl TryFrom<ColorConfigRaw> for ColorConfig {
    type Error = Error;

    #[verifier::loop_isolation(false)]
    fn try_from(value: ColorConfigRaw) -> (r: Result<Self>)
        ensures
            outcome_matches(
                r,
                color_config_from_raw(
                    value.encoded_color_space,
                    value.decoded_color_space,
                    value.subsampling@,
                ),
            ),
    {
        let enc_cspace = match value.encoded_color_space {
            Some(c) => c,
            None => ColorSpace::Grayscale,
        };
        let dec_cspace = match value.decoded_color_space {
            Some(c) => c,
            None => if enc_cspace == ColorSpace::Grayscale {
                ColorSpace::Grayscale
            } else {
                ColorSpace::Rgb
            },
        };
        let enc_components = enc_cspace.components();
        if enc_components != dec_cspace.components() {
            return Err(
                Error::general("Encoded and decoded color spaces must have the same number of components"),
            );
        }
        if enc_components != value.subsampling.len() {
            return Err(
                Error::general(
                    "Subsampling must have the same number of components as the encoded color space",
                ),
            );
        }

        let trivial = SamplingRatios::default();
        let subs = &value.subsampling;
        let mut i = subs.len();
        // The ratios after the first are checked from the last one down.
        while i > 1
            invariant
                1 <= i <= subs@.len(),
                trivial.is_trivial(),
                forall|j: int| i <= j < subs@.len() ==> (#[trigger] subs@[j]).is_trivial(),
            decreases i,
        {
            i -= 1;
            if subs[i] != trivial {
                proof {
                    SamplingRatios::lemma_ratios_eq(subs@[i as int], trivial);
                    assert(!subs@[i as int].is_trivial());
                }
                return Err(Error::general("Only the first component can have non-trivial subsampling"));
            }
        }
        let subsampling = subs[0];

        match (dec_cspace, enc_cspace) {
            (ColorSpace::Grayscale, ColorSpace::Grayscale) => {
                if subsampling != trivial {
                    return Err(Error::general("Grayscale images cannot have non-trivial subsampling"));
                }
                Ok(ColorConfig::Grayscale)
            },
            (ColorSpace::Rgb, ColorSpace::Rgb) => {
                if subsampling != trivial {
                    return Err(
                        Error::general("Images stored as RGB cannot have non-trivial subsampling"),
                    );
                }
                Ok(ColorConfig::Rgb)
            },
            (ColorSpace::Rgb, ColorSpace::YCbCr) => Ok(ColorConfig::RgbToYCbCr { subsampling }),
            (ColorSpace::YCbCr, ColorSpace::YCbCr) => Ok(ColorConfig::YCbCr { subsampling }),
            _ => Err(Error::general("Invalid color space combination")),
        }
    }
}

// The error of a rejected value holds a `String`, which no spec function can
// build; `try_from` above states its outcome in its own `ensures`.
impl vstd::std_specs::convert::TryFromSpecImpl<ColorConfigRaw> for ColorConfig {
    open spec fn obeys_try_from_spec() -> bool {
        false
    }

    open spec fn try_from_spec(v: ColorConfigRaw) -> Result<Self> {
        arbitrary()
    }
}

impl From<ColorConfig> for ColorConfigRaw {
    fn from(val: ColorConfig) -> (r: Self)
        ensures
            color_config_to_raw(val, r.encoded_color_space, r.decoded_color_space, r.subsampling@),
    {
        match val {
            ColorConfig::Grayscale => ColorConfigRaw {
                encoded_color_space: None,
                decoded_color_space: Some(ColorSpace::Grayscale),
                subsampling: vec![SamplingRatios::default()],
            },
            ColorConfig::Rgb => ColorConfigRaw {
                encoded_color_space: Some(ColorSpace::Rgb),
                decoded_color_space: Some(ColorSpace::Rgb),
                subsampling: vec![
                    SamplingRatios::default(),
                    SamplingRatios::default(),
                    SamplingRatios::default(),
                ],
            },
            ColorConfig::YCbCr { subsampling } => ColorConfigRaw {
                encoded_color_space: Some(ColorSpace::YCbCr),
                decoded_color_space: Some(ColorSpace::YCbCr),
                subsampling: vec![subsampling, SamplingRatios::default(), SamplingRatios::default()],
            },
            ColorConfig::RgbToYCbCr { subsampling } => ColorConfigRaw {
                encoded_color_space: Some(ColorSpace::YCbCr),
                decoded_color_space: Some(ColorSpace::Rgb),
                subsampling: vec![subsampling, SamplingRatios::default(), SamplingRatios::default()],
            },
        }
    }
}

// A `Vec` has no spec-level constructor; `from` above states its result in its
// own `ensures`.
impl vstd::std_specs::convert::FromSpecImpl<ColorConfig> for ColorConfigRaw {
    open spec fn obeys_from_spec() -> bool {
        false
    }

    open spec fn from_spec(v: ColorConfig) -> ColorConfigRaw {
        arbitrary()
    }
}

impl TryFrom<ConfigRaw> for JpegCodecConfig {
    type Error = Error;

    fn try_from(value: ConfigRaw) -> (r: Result<Self>)
        ensures
            match r {
                Ok(c) => c.spec_quality() == value.quality && color_config_from_raw(
                    value.color_config.encoded_color_space,
                    value.color_config.decoded_color_space,
                    value.color_config.subsampling@,
                ) == Ok::<ColorConfig, Seq<char>>(c.spec_color_config()),
                Err(e) => color_config_from_raw(
                    value.color_config.encoded_color_space,
                    value.color_config.decoded_color_space,
                    value.color_config.subsampling@,
                ) matches Err(m) && e.is_general_with(m),
            },
    {
        let color_config = ColorConfig::try_from(value.color_config)?;
        Ok(JpegCodecConfig { quality: value.quality, color_config })
    }
}

// The error of a rejected value holds a `String`, which no spec function can
// build; `try_from` above states its outcome in its own `ensures`.
impl vstd::std_specs::convert::TryFromSpecImpl<ConfigRaw> for JpegCodecConfig {
    open spec fn obeys_try_from_spec() -> bool {
        false
    }

    open spec fn try_from_spec(v: ConfigRaw) -> Result<Self> {
        arbitrary()
    }
}

impl From<JpegCodecConfig> for ConfigRaw {
    fn from(value: JpegCodecConfig) -> (r: Self)
        ensures
            r.quality == value.spec_quality(),
            color_config_to_raw(
                value.spec_color_config(),
                r.color_config.encoded_color_space,
                r.color_config.decoded_color_space,
                r.color_config.subsampling@,
            ),
    {
        let color_config = ColorConfigRaw::from(value.color_config);
        ConfigRaw { quality: value.quality, color_config }
    }
}

// A `Vec` has no spec-level constructor; `from` above states its result in its
// own `ensures`.
impl vstd::std_specs::convert::FromSpecImpl<JpegCodecConfig> for ConfigRaw {
    open spec fn obeys_from_spec() -> bool {
        false
    }

    open spec fn from_spec(v: JpegCodecConfig) -> ConfigRaw {
        arbitrary()
    }
}

/// A color configuration written to its stored fields is read back unchanged.
pub proof fn lemma_color_config_round_trip(
    c: ColorConfig,
    encoded: Option<ColorSpace>,
    decoded: Option<ColorSpace>,
    subsampling: Seq<SamplingRatios>,
)
    requires
        color_config_to_raw(c, encoded, decoded, subsampling),
    ensures
        color_config_from_raw(encoded, decoded, subsampling) == Ok::<ColorConfig, Seq<char>>(c),
{
    assert(forall|i: int| 1 <= i < subsampling.len() ==> (#[trigger] subsampling[i]).is_trivial());
}

/// A codec configuration written to its stored form is read back unchanged:
/// the stored form is accepted, and what is read back equals the original.
pub proof fn lemma_config_round_trip(
    config: JpegCodecConfig,
    quality: Quality,
    encoded: Option<ColorSpace>,
    decoded: Option<ColorSpace>,
    subsampling: Seq<SamplingRatios>,
    back: JpegCodecConfig,
)
    requires
        quality == config.spec_quality(),
        color_config_to_raw(config.spec_color_config(), encoded, decoded, subsampling),
    ensures
        color_config_from_raw(encoded, decoded, subsampling) is Ok,
        back.spec_quality() == quality && color_config_from_raw(encoded, decoded, subsampling)
            == Ok::<ColorConfig, Seq<char>>(back.spec_color_config()) ==> back == config,
{
    lemma_color_config_round_trip(config.spec_color_config(), encoded, decoded, subsampling);
    JpegCodecConfig::lemma_config_eq(back, config);
}

/// Leaving out the decoded color space is the same as giving grayscale for
/// grayscale-encoded data (or data whose encoded color space is left out),
/// and RGB for RGB- or YCbCr-encoded data.
pub proof fn lemma_missing_decoded_is_default(
    encoded: Option<ColorSpace>,
    subsampling: Seq<SamplingRatios>,
)
    ensures
        color_config_from_raw(encoded, None, subsampling) == color_config_from_raw(
            encoded,
            Some(
                if encoded == Some(ColorSpace::Rgb) || encoded == Some(ColorSpace::YCbCr) {
                    ColorSpace::Rgb
                } else {
                    ColorSpace::Grayscale
                },
            ),
            subsampling,
        ),
{
}

/// A configuration read from stored fields decodes to and encodes from the
/// color spaces the fields give, a left-out encoded color space being
/// grayscale and a left-out decoded one following it as above.
pub proof fn lemma_parsed_color_spaces(
    encoded: Option<ColorSpace>,
    decoded: Option<ColorSpace>,
    subsampling: Seq<SamplingRatios>,
    c: ColorConfig,
)
    requires
        color_config_from_raw(encoded, decoded, subsampling) == Ok::<ColorConfig, Seq<char>>(c),
    ensures
        c.spec_color_spaces() == (
            match decoded {
                Some(d) => d,
                None => if encoded == Some(ColorSpace::Rgb) || encoded == Some(ColorSpace::YCbCr) {
                    ColorSpace::Rgb
                } else {
                    ColorSpace::Grayscale
                },
            },
            match encoded {
                Some(e) => e,
                None => ColorSpace::Grayscale,
            },
        ),
{
}

} // verus!
