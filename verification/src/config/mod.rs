use vstd::prelude::*;

use crate::errors::{Error, Result};

mod quality;
pub use quality::{quality_from_u8, quality_range_message, Quality};
mod raw;
pub use raw::{
    color_config_from_raw, color_config_to_raw, ColorConfigRaw, ConfigRaw, components_mismatch_message,
    invalid_combination_message, grayscale_subsampling_message, rgb_subsampling_message,
    secondary_subsampling_message, subsampling_length_message, lemma_color_config_round_trip,
    lemma_config_round_trip,
};

verus! {

/// A color space of decoded or encoded pixels.
#[derive(Debug, Clone, Copy, PartialEq, Eq, Hash, Structural)]
pub enum ColorSpace {
    Grayscale,
    Rgb,
    YCbCr,
}

impl ColorSpace {
    /// Number of components per pixel.
    pub open spec fn spec_components(self) -> usize {
        match self {
            ColorSpace::Grayscale => 1,
            ColorSpace::Rgb => 3,
            ColorSpace::YCbCr => 3,
        }
    }

    /// Number of components per pixel.
    pub fn components(&self) -> (n: usize)
        ensures
            n == self.spec_components(),
    {
        match self {
            ColorSpace::Grayscale => 1,
            ColorSpace::Rgb => 3,
            ColorSpace::YCbCr => 3,
        }
    }
}

/// Message of the error for a subsampling ratio outside `[1, 4]`.
pub open spec fn ratio_range_message() -> Seq<char> {
    "Subsampling ratio must be in [1, 4]"@
}

/// Outcome of building a subsampling ratio from a number.
pub open spec fn sampling_ratio_from_u8(value: u8) -> core::result::Result<u8, Seq<char>> {
    if 1 <= value <= 4 {
        Ok(value)
    } else {
        Err(ratio_range_message())
    }
}

/// A subsampling ratio, in `[1, 4]`.
#[derive(Debug, Clone, Copy, PartialEq, Eq, Hash, Structural)]
pub struct SamplingRatio(u8);

impl SamplingRatio {
    /// The ratio lies in `[1, 4]`.
    #[verifier::type_invariant]
    pub closed spec fn is_valid(self) -> bool {
        1 <= self.0 <= 4
    }

    /// The ratio as a number.
    pub closed spec fn spec_value(self) -> u8 {
        self.0
    }

    /// Two ratios are equal exactly when their values are.
    pub broadcast proof fn lemma_ratio_eq(a: SamplingRatio, b: SamplingRatio)
        ensures
            #![trigger a.spec_value(), b.spec_value()]
            a.spec_value() == b.spec_value() <==> a == b,
    {
    }

    /// The ratio as a number, in `[1, 4]`.
    pub fn value(&self) -> (v: u8)
        ensures
            v == self.spec_value(),
            1 <= v <= 4,
    {
        proof {
            use_type_invariant(self);
        }
        self.0
    }
}

impl Default for SamplingRatio {
    fn default() -> (r: Self)
        ensures
            r.spec_value() == 1,
    {
        SamplingRatio(1)
    }
}

impl From<SamplingRatio> for u8 {
    fn from(ratio: SamplingRatio) -> (v: u8) {
        ratio.0
    }
}

impl vstd::std_specs::convert::FromSpecImpl<SamplingRatio> for u8 {
    open spec fn obeys_from_spec() -> bool {
        true
    }

    open spec fn from_spec(v: SamplingRatio) -> u8 {
        v.spec_value()
    }
}

impl TryFrom<u8> for SamplingRatio {
    type Error = Error;

    fn try_from(value: u8) -> (r: Result<Self>)
        ensures
            match r {
                Ok(s) => sampling_ratio_from_u8(value) == Ok::<u8, Seq<char>>(s.spec_value()),
                Err(e) => sampling_ratio_from_u8(value) matches Err(m) && e.is_general_with(m),
            },
    {
        if 1 <= value && value <= 4 {
            Ok(SamplingRatio(value))
        } else {
            Err(Error::general("Subsampling ratio must be in [1, 4]"))
        }
    }
}

// The error of a rejected value holds a `String`, which no spec function can
// build; `try_from` above states its outcome in its own `ensures`.
impl vstd::std_specs::convert::TryFromSpecImpl<u8> for SamplingRatio {
    open spec fn obeys_try_from_spec() -> bool {
        false
    }

    open spec fn try_from_spec(v: u8) -> Result<Self> {
        arbitrary()
    }
}

/// Pixel subsampling ratios.
#[derive(Debug, Clone, Copy, PartialEq, Eq, Hash, Structural)]
pub struct SamplingRatios {
    pub horizontal: SamplingRatio,
    pub vertical: SamplingRatio,
}

impl SamplingRatios {
    /// The horizontal and vertical ratios as numbers.
    pub open spec fn spec_values(self) -> (u8, u8) {
        (self.horizontal.spec_value(), self.vertical.spec_value())
    }

    /// Both ratios are 1: no subsampling.
    pub open spec fn is_trivial(self) -> bool {
        self.spec_values() == (1u8, 1u8)
    }

    /// Two pairs of ratios are equal exactly when their values are.
    pub broadcast proof fn lemma_ratios_eq(a: SamplingRatios, b: SamplingRatios)
        ensures
            #![trigger a.spec_values(), b.spec_values()]
            a.spec_values() == b.spec_values() <==> a == b,
    {
        SamplingRatio::lemma_ratio_eq(a.horizontal, b.horizontal);
        SamplingRatio::lemma_ratio_eq(a.vertical, b.vertical);
    }

    pub fn new(horizontal: SamplingRatio, vertical: SamplingRatio) -> (r: Self)
        ensures
            r == (SamplingRatios { horizontal, vertical }),
    {
        Self { horizontal, vertical }
    }

    /// Builds the ratios from numbers, each of which must lie in `[1, 4]`.
    pub fn try_new(horizontal: u8, vertical: u8) -> (r: Result<Self>)
        ensures
            match r {
                Ok(s) => 1 <= horizontal <= 4 && 1 <= vertical <= 4
                    && s.spec_values() == (horizontal, vertical),
                Err(e) => !(1 <= horizontal <= 4 && 1 <= vertical <= 4)
                    && e.is_general_with(ratio_range_message()),
            },
    {
        let h = SamplingRatio::try_from(horizontal)?;
        let v = SamplingRatio::try_from(vertical)?;
        Ok(Self { horizontal: h, vertical: v })
    }

    /// The horizontal and vertical ratios as numbers, each in `[1, 4]`.
    pub fn values(&self) -> (v: (u8, u8))
        ensures
            v == self.spec_values(),
            1 <= v.0 <= 4,
            1 <= v.1 <= 4,
    {
        (self.horizontal.value(), self.vertical.value())
    }
}

impl Default for SamplingRatios {
    fn default() -> (r: Self)
        ensures
            r.is_trivial(),
    {
        Self { horizontal: SamplingRatio::default(), vertical: SamplingRatio::default() }
    }
}

impl From<SamplingRatios> for (SamplingRatio, SamplingRatio) {
    fn from(ratios: SamplingRatios) -> (r: Self) {
        (ratios.horizontal, ratios.vertical)
    }
}

impl vstd::std_specs::convert::FromSpecImpl<SamplingRatios> for (SamplingRatio, SamplingRatio) {
    open spec fn obeys_from_spec() -> bool {
        true
    }

    open spec fn from_spec(v: SamplingRatios) -> (SamplingRatio, SamplingRatio) {
        (v.horizontal, v.vertical)
    }
}

impl From<(SamplingRatio, SamplingRatio)> for SamplingRatios {
    fn from(ratios: (SamplingRatio, SamplingRatio)) -> (r: Self) {
        Self { horizontal: ratios.0, vertical: ratios.1 }
    }
}

impl vstd::std_specs::convert::FromSpecImpl<(SamplingRatio, SamplingRatio)> for SamplingRatios {
    open spec fn obeys_from_spec() -> bool {
        true
    }

    open spec fn from_spec(v: (SamplingRatio, SamplingRatio)) -> SamplingRatios {
        SamplingRatios { horizontal: v.0, vertical: v.1 }
    }
}

/// Configuration for color transforms and chroma subsampling.
///
/// Encoded and decoded data may be grayscale, RGB, or YCbCr.
/// Only YCbCr-encoded data may be subsampled.
#[derive(Debug, Clone, Copy, PartialEq, Eq, Structural)]
pub enum ColorConfig {
    Grayscale,
    Rgb,
    YCbCr {
        /// Luminance pixels per chrominance pixel.
        subsampling: SamplingRatios,
    },
    RgbToYCbCr {
        /// Luminance pixels per chrominance pixel.
        subsampling: SamplingRatios,
    },
}

impl ColorConfig {
    /// Width and height of the MCU, in pixels.
    pub open spec fn spec_mcu_shape(self) -> (u16, u16) {
        match self {
            ColorConfig::Grayscale => (8u16, 8u16),
            ColorConfig::Rgb => (8u16, 8u16),
            ColorConfig::YCbCr { subsampling } | ColorConfig::RgbToYCbCr { subsampling } => (
                (subsampling.horizontal.spec_value() * 8) as u16,
                (subsampling.vertical.spec_value() * 8) as u16,
            ),
        }
    }

    /// Decoded and encoded color spaces.
    pub open spec fn spec_color_spaces(self) -> (ColorSpace, ColorSpace) {
        match self {
            ColorConfig::Grayscale => (ColorSpace::Grayscale, ColorSpace::Grayscale),
            ColorConfig::Rgb => (ColorSpace::Rgb, ColorSpace::Rgb),
            ColorConfig::YCbCr { .. } => (ColorSpace::YCbCr, ColorSpace::YCbCr),
            ColorConfig::RgbToYCbCr { .. } => (ColorSpace::Rgb, ColorSpace::YCbCr),
        }
    }

    /// Width and height of the MCU, in pixels.
    pub fn mcu_shape(&self) -> (s: (u16, u16))
        ensures
            s == self.spec_mcu_shape(),
    {
        match self {
            ColorConfig::Grayscale => (8, 8),
            ColorConfig::Rgb => (8, 8),
            ColorConfig::YCbCr { subsampling } | ColorConfig::RgbToYCbCr { subsampling } => {
                let (h, v) = subsampling.values();
                (h as u16 * 8, v as u16 * 8)
            },
        }
    }

    /// Decoded and encoded color spaces.
    pub fn color_spaces(&self) -> (c: (ColorSpace, ColorSpace))
        ensures
            c == self.spec_color_spaces(),
    {
        match self {
            ColorConfig::Grayscale => (ColorSpace::Grayscale, ColorSpace::Grayscale),
            ColorConfig::Rgb => (ColorSpace::Rgb, ColorSpace::Rgb),
            ColorConfig::YCbCr { .. } => (ColorSpace::YCbCr, ColorSpace::YCbCr),
            ColorConfig::RgbToYCbCr { .. } => (ColorSpace::Rgb, ColorSpace::YCbCr),
        }
    }
}

/// The ratios in use when the configuration subsamples, i.e. when they are
/// not both 1.
pub open spec fn spec_subsampling(c: ColorConfig) -> Option<SamplingRatios> {
    match c {
        ColorConfig::YCbCr { subsampling } | ColorConfig::RgbToYCbCr { subsampling } => {
            if subsampling.is_trivial() {
                None
            } else {
                Some(subsampling)
            }
        },
        _ => None,
    }
}

/// Quality and color configuration of the JPEG codec.
#[derive(Debug, Clone, Copy)]
pub struct JpegCodecConfig {
    pub(crate) quality: Quality,
    pub(crate) color_config: ColorConfig,
}

impl JpegCodecConfig {
    /// The configured quality.
    pub closed spec fn spec_quality(self) -> Quality {
        self.quality
    }

    /// The configured color transform and subsampling.
    pub closed spec fn spec_color_config(self) -> ColorConfig {
        self.color_config
    }

    /// Two configurations are equal exactly when their parts are.
    pub broadcast proof fn lemma_config_eq(a: JpegCodecConfig, b: JpegCodecConfig)
        ensures
            #![trigger a.spec_quality(), b.spec_quality()]
            (a.spec_quality() == b.spec_quality() && a.spec_color_config()
                == b.spec_color_config()) <==> a == b,
    {
    }

    pub fn new(quality: Quality, color_config: ColorConfig) -> (c: Self)
        ensures
            c.spec_quality() == quality,
            c.spec_color_config() == color_config,
    {
        Self { quality, color_config }
    }

    /// Quality, guaranteed to be in `[0, 100]`.
    pub fn quality(&self) -> (q: u8)
        ensures
            q == self.spec_quality().spec_value(),
            q <= 100,
    {
        self.quality.value()
    }

    pub fn color_config(&self) -> (c: ColorConfig)
        ensures
            c == self.spec_color_config(),
    {
        self.color_config
    }

    /// Get the ratio of luminance pixels to chrominance pixels, if any subsampling is used.
    pub fn subsampling(&self) -> (r: Option<SamplingRatios>)
        ensures
            r == spec_subsampling(self.spec_color_config()),
            match self.spec_color_config() {
                ColorConfig::YCbCr { subsampling } | ColorConfig::RgbToYCbCr { subsampling } => r == (
                if subsampling.spec_values() == (1u8, 1u8) {
                    None
                } else {
                    Some(subsampling)
                }),
                _ => r is None,
            },
    {
        match self.color_config {
            ColorConfig::YCbCr { subsampling } | ColorConfig::RgbToYCbCr { subsampling } => {
                if subsampling.horizontal.value() == 1 && subsampling.vertical.value() == 1 {
                    None
                } else {
                    Some(subsampling)
                }
            },
            _ => None,
        }
    }

    /// Get the width and height in pixels of the minimum coding unit (MCU) for this configuration.
    pub fn mcu_shape(&self) -> (s: (u16, u16))
        ensures
            s == self.spec_color_config().spec_mcu_shape(),
    {
        self.color_config.mcu_shape()
    }
}

/// A configuration subsamples exactly when its MCU is larger than 8 by 8 pixels.
pub proof fn lemma_subsampling_iff_large_mcu(c: ColorConfig)
    ensures
        spec_subsampling(c) is None <==> c.spec_mcu_shape() == (8u16, 8u16),
{
    match c {
        ColorConfig::YCbCr { subsampling } | ColorConfig::RgbToYCbCr { subsampling } => {
            let h = subsampling.horizontal.spec_value();
            let v = subsampling.vertical.spec_value();
            assert(((h * 8) as u16 == 8u16) <==> h == 1) by (bit_vector);
            assert(((v * 8) as u16 == 8u16) <==> v == 1) by (bit_vector);
        },
        _ => {},
    }
}

/// A ratio turned into its number is accepted back as the same number.
pub proof fn lemma_ratio_number_round_trip(r: SamplingRatio)
    requires
        r.is_valid(),
    ensures
        sampling_ratio_from_u8(r.spec_value()) == Ok::<u8, Seq<char>>(r.spec_value()),
{
}

/// Ratios split into a pair and joined again are unchanged.
pub proof fn lemma_ratios_pair_round_trip(r: SamplingRatios)
    ensures
        <SamplingRatios as vstd::std_specs::convert::FromSpec<(SamplingRatio, SamplingRatio)>>::from_spec(
            <(SamplingRatio, SamplingRatio) as vstd::std_specs::convert::FromSpec<SamplingRatios>>::from_spec(r),
        ) == r,
{
}

/// The subsampling reported for a configuration is its own: when a YCbCr
/// configuration's ratios are not both 1, exactly those ratios are reported,
/// and the reported ratios, 8 times over, are the MCU.
pub proof fn lemma_subsampling_is_configured(c: ColorConfig)
    ensures
        match c {
            ColorConfig::YCbCr { subsampling } | ColorConfig::RgbToYCbCr { subsampling } =>
                subsampling.spec_values() != (1u8, 1u8) ==> spec_subsampling(c) == Some(subsampling),
            _ => spec_subsampling(c) is None,
        },
        spec_subsampling(c) matches Some(r) ==> c.spec_mcu_shape() == (
            (8 * r.horizontal.spec_value()) as u16,
            (8 * r.vertical.spec_value()) as u16,
        ),
{
}

} // verus!
