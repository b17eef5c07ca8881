use vstd::prelude::*;

use super::{JpegCodecTrait, JpegDecoderTrait, JpegEncoderTrait, expected_decoded_len};
use crate::config::{ColorConfig, ColorSpace, JpegCodecConfig, SamplingRatios};
use crate::errors::{
    decoded_size_message, invalid_shape_message, outcome_matches, Error, Result,
};
use crate::types::JpegShape;

verus! {

/// Chroma subsampling of encoded JPEG data, as libjpeg-turbo names it
/// (horizontal by vertical luminance pixels per chrominance pixel).
#[derive(Debug, Clone, Copy, PartialEq, Eq, Structural)]
pub enum Subsamp {
    /// 4:4:4, no subsampling.
    Sub1x1,
    /// 4:2:2.
    Sub2x1,
    /// 4:4:0.
    Sub1x2,
    /// 4:2:0.
    Sub2x2,
    /// 4:4:1.
    Sub1x4,
    /// 4:1:1.
    Sub4x1,
    /// Grayscale: luminance only.
    Gray,
}

impl Subsamp {
    /// Horizontal and vertical luminance pixels per chrominance pixel.
    pub open spec fn spec_factors(self) -> (u8, u8) {
        match self {
            Subsamp::Sub1x1 => (1, 1),
            Subsamp::Sub2x1 => (2, 1),
            Subsamp::Sub1x2 => (1, 2),
            Subsamp::Sub2x2 => (2, 2),
            Subsamp::Sub1x4 => (1, 4),
            Subsamp::Sub4x1 => (4, 1),
            Subsamp::Gray => (1, 1),
        }
    }
}

/// Layout of packed pixel data.
#[derive(Debug, Clone, Copy, PartialEq, Eq, Structural)]
pub enum PixelFormat {
    /// Three bytes per pixel: red, green, blue.
    Rgb,
    /// One byte per pixel.
    Gray,
}

/// The image handed to the JPEG compressor.
#[derive(Debug, Clone, Copy, PartialEq, Eq, Structural)]
pub enum EncodeInput {
    /// Packed pixels, `pitch` bytes per row.
    Packed { width: usize, pitch: usize, height: usize, format: PixelFormat },
    /// Planar YCbCr data with rows padded to `align` bytes and the given
    /// subsampling of the planes.
    Planar { width: usize, align: usize, height: usize, subsamp: Subsamp },
}

/// Everything the JPEG compressor is set up with to encode one image.
#[derive(Debug, Clone, Copy, PartialEq, Eq, Structural)]
pub struct EncodeRequest {
    pub quality: i32,
    pub optimize: bool,
    pub colorspace: ColorSpace,
    pub subsamp: Subsamp,
    pub input: EncodeInput,
}

impl EncodeInput {
    /// Number of bytes of pixel data the compressor reads for this image;
    /// stated for packed pixels and for unpadded planar data without
    /// subsampling, the layouts this codec hands over.
    pub open spec fn spec_buffer_len(self) -> Option<int> {
        match self {
            EncodeInput::Packed { pitch, height, .. } => Some(pitch * height),
            EncodeInput::Planar { width, align, height, subsamp } => if align == 1 && subsamp
                == Subsamp::Sub1x1 {
                Some(3 * width * height)
            } else {
                None
            },
        }
    }
}

/// How the JPEG decompressor is asked to decode an image.
#[derive(Debug, Clone, Copy, PartialEq, Eq, Structural)]
pub enum DecodeRequest {
    /// Decompress to packed pixels of the given format.
    Packed(PixelFormat),
    /// Decompress to planar YCbCr data.
    Planar,
}

pub open spec fn unsupported_subsampling_message() -> Seq<char> {
    "Unsupported subsampling ratios"@
}

/// The libjpeg-turbo subsampling for horizontal and vertical ratios.
pub open spec fn subsamp_from_ratios(values: (u8, u8)) -> core::result::Result<Subsamp, Seq<char>> {
    match values {
        (1, 1) => Ok(Subsamp::Sub1x1),
        (2, 1) => Ok(Subsamp::Sub2x1),
        (1, 2) => Ok(Subsamp::Sub1x2),
        (2, 2) => Ok(Subsamp::Sub2x2),
        (1, 4) => Ok(Subsamp::Sub1x4),
        (4, 1) => Ok(Subsamp::Sub4x1),
        _ => Err(unsupported_subsampling_message()),
    }
}

/// The libjpeg-turbo subsampling that a color configuration encodes with.
pub open spec fn turbo_subsamp(c: ColorConfig) -> core::result::Result<Subsamp, Seq<char>> {
    match c {
        ColorConfig::YCbCr { subsampling } | ColorConfig::RgbToYCbCr { subsampling } =>
            subsamp_from_ratios(subsampling.spec_values()),
        ColorConfig::Grayscale => Ok(Subsamp::Gray),
        ColorConfig::Rgb => Ok(Subsamp::Sub1x1),
    }
}

impl TryFrom<SamplingRatios> for Subsamp {
    type Error = Error;

    fn try_from(value: SamplingRatios) -> (r: Result<Self>)
        ensures
            outcome_matches(r, subsamp_from_ratios(value.spec_values())),
    {
        match value.values() {
            (1, 1) => Ok(Subsamp::Sub1x1),
            (2, 1) => Ok(Subsamp::Sub2x1),
            (1, 2) => Ok(Subsamp::Sub1x2),
            (2, 2) => Ok(Subsamp::Sub2x2),
            (1, 4) => Ok(Subsamp::Sub1x4),
            (4, 1) => Ok(Subsamp::Sub4x1),
            _ => Err(Error::general("Unsupported subsampling ratios")),
        }
    }
}

// The error of a rejected value holds a `String`, which no spec function can
// build; `try_from` above states its outcome in its own `ensures`.
impl vstd::std_specs::convert::TryFromSpecImpl<SamplingRatios> for Subsamp {
    open spec fn obeys_try_from_spec() -> bool {
        false
    }

    open spec fn try_from_spec(v: SamplingRatios) -> Result<Self> {
        arbitrary()
    }
}

/// Codec settings for libjpeg-turbo, derived from a codec configuration.
#[derive(Debug, Clone, Copy)]
pub struct TurboCodec {
    quality: i32,
    decoded_color_space: ColorSpace,
    encoded_color_space: ColorSpace,
    subsampling: Subsamp,
    mcu_shape: (u16, u16),
}

impl TurboCodec {
    pub closed spec fn spec_quality(self) -> i32 {
        self.quality
    }

    pub closed spec fn spec_decoded_color_space(self) -> ColorSpace {
        self.decoded_color_space
    }

    pub closed spec fn spec_encoded_color_space(self) -> ColorSpace {
        self.encoded_color_space
    }

    pub closed spec fn spec_subsampling(self) -> Subsamp {
        self.subsampling
    }

    pub closed spec fn spec_mcu(self) -> (u16, u16) {
        self.mcu_shape
    }

    /// The settings are those that `config` describes.
    pub open spec fn is_configured_by(self, config: JpegCodecConfig) -> bool {
        let c = config.spec_color_config();
        &&& turbo_subsamp(c) == Ok::<Subsamp, Seq<char>>(self.spec_subsampling())
        &&& self.spec_quality() == config.spec_quality().spec_value() as i32
        &&& self.spec_decoded_color_space() == c.spec_color_spaces().0
        &&& self.spec_encoded_color_space() == c.spec_color_spaces().1
        &&& self.spec_mcu() == c.spec_mcu_shape()
    }

    /// What the compressor is set up with to encode an image of the given shape.
    pub open spec fn spec_encode_request(self, shape: JpegShape) -> EncodeRequest {
        let width = shape.spec_width() as usize;
        let height = shape.spec_height() as usize;
        EncodeRequest {
            quality: self.spec_quality(),
            optimize: true,
            colorspace: self.spec_encoded_color_space(),
            subsamp: self.spec_subsampling(),
            input: match self.spec_decoded_color_space() {
                ColorSpace::Rgb => EncodeInput::Packed {
                    width,
                    pitch: (width * 3) as usize,
                    height,
                    format: PixelFormat::Rgb,
                },
                ColorSpace::Grayscale => EncodeInput::Packed {
                    width,
                    pitch: width,
                    height,
                    format: PixelFormat::Gray,
                },
                // The decoded planes themselves are not subsampled.
                ColorSpace::YCbCr => EncodeInput::Planar {
                    width,
                    align: 1,
                    height,
                    subsamp: Subsamp::Sub1x1,
                },
            },
        }
    }

    /// How the decompressor is asked to decode.
    pub open spec fn spec_decode_request(self) -> DecodeRequest {
        match self.spec_decoded_color_space() {
            ColorSpace::Rgb => DecodeRequest::Packed(PixelFormat::Rgb),
            ColorSpace::Grayscale => DecodeRequest::Packed(PixelFormat::Gray),
            ColorSpace::YCbCr => DecodeRequest::Planar,
        }
    }

    /// The subsampling of encoded data.
    pub fn subsampling(&self) -> (s: Subsamp)
        ensures
            s == self.spec_subsampling(),
    {
        self.subsampling
    }

    /// The settings of the compressor for pixel data of `data_len` bytes and
    /// the given shape; an error when the length does not fit the shape.
    pub fn encode_request(&self, data_len: usize, shape: JpegShape) -> (r: Result<EncodeRequest>)
        ensures
            r matches Ok(req) ==> req.subsamp == self.spec_subsampling() && req.colorspace
                == self.spec_encoded_color_space() && req.quality == self.spec_quality(),
            match r {
                Ok(req) => data_len == expected_decoded_len(shape, self.spec_decoded_components())
                    && req == self.spec_encode_request(shape),
                Err(e) => data_len != expected_decoded_len(shape, self.spec_decoded_components())
                    && e.is_general_with(
                    decoded_size_message(
                        data_len,
                        expected_decoded_len(shape, self.spec_decoded_components()) as u128,
                        shape.spec_width(),
                        shape.spec_height(),
                        self.spec_decoded_components(),
                    ),
                ),
            },
    {
        self.check_decoded_size(shape, data_len)?;
        let width = shape.width() as usize;
        let height = shape.height() as usize;
        let input = match self.decoded_color_space {
            ColorSpace::Rgb => EncodeInput::Packed {
                width,
                pitch: width * 3,
                height,
                format: PixelFormat::Rgb,
            },
            ColorSpace::Grayscale => EncodeInput::Packed {
                width,
                pitch: width,
                height,
                format: PixelFormat::Gray,
            },
            ColorSpace::YCbCr => EncodeInput::Planar {
                width,
                align: 1,
                height,
                subsamp: Subsamp::Sub1x1,
            },
        };
        Ok(
            EncodeRequest {
                quality: self.quality,
                optimize: true,
                colorspace: self.encoded_color_space,
                subsamp: self.subsampling,
                input,
            },
        )
    }

    /// How the decompressor is asked to decode.
    pub fn decode_request(&self) -> (d: DecodeRequest)
        ensures
            d == self.spec_decode_request(),
            d == DecodeRequest::Planar <==> self.spec_decoded_color_space() == ColorSpace::YCbCr,
            d == DecodeRequest::Packed(PixelFormat::Rgb) <==> self.spec_decoded_color_space()
                == ColorSpace::Rgb,
            d == DecodeRequest::Packed(PixelFormat::Gray) <==> self.spec_decoded_color_space()
                == ColorSpace::Grayscale,
    {
        match self.decoded_color_space {
            ColorSpace::Rgb => DecodeRequest::Packed(PixelFormat::Rgb),
            ColorSpace::Grayscale => DecodeRequest::Packed(PixelFormat::Gray),
            ColorSpace::YCbCr => DecodeRequest::Planar,
        }
    }

    /// The shape and pixels of an image that the decompressor produced with
    /// the given dimensions.
    pub fn decoded_image(width: usize, height: usize, pixels: Vec<u8>) -> (r: Result<
        (JpegShape, Vec<u8>),
    >)
        ensures
            match r {
                Ok((shape, px)) => 1 <= width <= u16::MAX && 1 <= height <= u16::MAX
                    && shape.spec_width() == width && shape.spec_height() == height && px@
                    == pixels@,
                Err(e) => !(1 <= width <= u16::MAX && 1 <= height <= u16::MAX) && e.is_general_with(
                    invalid_shape_message(width as u64, height as u64),
                ),
            },
    {
        let shape = JpegShape::try_new(width as u64, height as u64)?;
        Ok((shape, pixels))
    }
}

impl TryFrom<JpegCodecConfig> for TurboCodec {
    type Error = Error;

    fn try_from(config: JpegCodecConfig) -> (r: Result<Self>)
        ensures
            match r {
                Ok(t) => t.is_configured_by(config),
                Err(e) => turbo_subsamp(config.spec_color_config()) matches Err(m)
                    && e.is_general_with(m),
            },
    {
        let quality = config.quality() as i32;
        let mcu_shape = config.mcu_shape();
        match config.color_config() {
            ColorConfig::YCbCr { subsampling } => match Subsamp::try_from(subsampling) {
                Ok(subsampling) => Ok(
                    TurboCodec {
                        quality,
                        decoded_color_space: ColorSpace::YCbCr,
                        encoded_color_space: ColorSpace::YCbCr,
                        subsampling,
                        mcu_shape,
                    },
                ),
                Err(e) => Err(e),
            },
            ColorConfig::RgbToYCbCr { subsampling } => match Subsamp::try_from(subsampling) {
                Ok(subsampling) => Ok(
                    TurboCodec {
                        quality,
                        decoded_color_space: ColorSpace::Rgb,
                        encoded_color_space: ColorSpace::YCbCr,
                        subsampling,
                        mcu_shape,
                    },
                ),
                Err(e) => Err(e),
            },
            ColorConfig::Grayscale => Ok(
                TurboCodec {
                    quality,
                    decoded_color_space: ColorSpace::Grayscale,
                    encoded_color_space: ColorSpace::Grayscale,
                    subsampling: Subsamp::Gray,
                    mcu_shape,
                },
            ),
            ColorConfig::Rgb => Ok(
                TurboCodec {
                    quality,
                    decoded_color_space: ColorSpace::Rgb,
                    encoded_color_space: ColorSpace::Rgb,
                    subsampling: Subsamp::Sub1x1,
                    mcu_shape,
                },
            ),
        }
    }
}

// The error of a rejected value holds a `String`, which no spec function can
// build; `try_from` above states its outcome in its own `ensures`.
impl vstd::std_specs::convert::TryFromSpecImpl<JpegCodecConfig> for TurboCodec {
    open spec fn obeys_try_from_spec() -> bool {
        false
    }

    open spec fn try_from_spec(v: JpegCodecConfig) -> Result<Self> {
        arbitrary()
    }
}

impl JpegCodecTrait for TurboCodec {
    open spec fn spec_decoded_components(&self) -> usize {
        self.spec_decoded_color_space().spec_components()
    }

    open spec fn spec_mcu_shape(&self) -> (u16, u16) {
        self.spec_mcu()
    }

    fn decoded_components(&self) -> (n: usize) {
        match self.decoded_color_space {
            ColorSpace::Rgb => 3,
            ColorSpace::Grayscale => 1,
            ColorSpace::YCbCr => 3,
        }
    }

    fn mcu_shape(&self) -> (s: (u16, u16)) {
        self.mcu_shape
    }
}

impl JpegEncoderTrait for TurboCodec {

}

impl JpegDecoderTrait for TurboCodec {

}

/// The MCU of a codec built from a configuration is the MCU of the
/// libjpeg-turbo subsampling it encodes with: 8 pixels per subsampling factor.
pub proof fn lemma_mcu_is_subsampling_mcu(t: TurboCodec, config: JpegCodecConfig)
    requires
        t.is_configured_by(config),
    ensures
        t.spec_mcu() == (
            (8 * t.spec_subsampling().spec_factors().0) as u16,
            (8 * t.spec_subsampling().spec_factors().1) as u16,
        ),
{
}

/// The image handed to the compressor covers exactly the pixel data that the
/// size check accepted: every byte is read, and none beyond.
pub proof fn lemma_encode_request_covers_data(t: TurboCodec, config: JpegCodecConfig, shape: JpegShape)
    requires
        t.is_configured_by(config),
    ensures
        t.spec_encode_request(shape).input.spec_buffer_len() == Some(
            expected_decoded_len(shape, t.spec_decoded_components()),
        ),
{
    let w = shape.spec_width() as int;
    let h = shape.spec_height() as int;
    assert(w * 3 * h == w * h * 3) by (nonlinear_arith);
    assert(3 * w * h == w * h * 3) by (nonlinear_arith);
    assert(w * h * 1 == w * h);
}

/// The compressor encodes with the subsampling the configuration asks for:
/// the factors of the requested subsampling are the configured ratios (1 by 1
/// when the configuration has none), and 8 times them is the MCU the codec
/// reports.
pub proof fn lemma_encode_subsampling_is_configured(
    t: TurboCodec,
    config: JpegCodecConfig,
    shape: JpegShape,
)
    requires
        t.is_configured_by(config),
    ensures
        t.spec_encode_request(shape).subsamp == t.spec_subsampling(),
        match config.spec_color_config() {
            ColorConfig::YCbCr { subsampling } | ColorConfig::RgbToYCbCr { subsampling } =>
                t.spec_encode_request(shape).subsamp.spec_factors() == subsampling.spec_values(),
            _ => t.spec_encode_request(shape).subsamp.spec_factors() == (1u8, 1u8),
        },
        t.spec_mcu_shape() == (
            (8 * t.spec_encode_request(shape).subsamp.spec_factors().0) as u16,
            (8 * t.spec_encode_request(shape).subsamp.spec_factors().1) as u16,
        ),
{
}

/// Decoding gives the pixel layout that encoding consumes: planar YCbCr data
/// exactly when the decoded color space is YCbCr, and otherwise packed pixels
/// of the decoded color space, in the format the compressor reads.
pub proof fn lemma_decode_layout_matches_encode(
    t: TurboCodec,
    config: JpegCodecConfig,
    shape: JpegShape,
)
    requires
        t.is_configured_by(config),
    ensures
        (t.spec_decode_request() == DecodeRequest::Planar) <==> (
        config.spec_color_config().spec_color_spaces().0 == ColorSpace::YCbCr),
        match (t.spec_decode_request(), t.spec_encode_request(shape).input) {
            (DecodeRequest::Packed(f), EncodeInput::Packed { format, .. }) => f == format,
            (DecodeRequest::Planar, EncodeInput::Planar { .. }) => true,
            _ => false,
        },
{
}

/// How data is decoded depends on the decoded color space alone, whatever
/// the subsampling or quality of the encoded data.
pub proof fn lemma_decode_request_by_color_space(t1: TurboCodec, t2: TurboCodec)
    requires
        t1.spec_decoded_color_space() == t2.spec_decoded_color_space(),
    ensures
        t1.spec_decode_request() == t2.spec_decode_request(),
{
}

} // verus!
