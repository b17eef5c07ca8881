use vstd::prelude::*;

use crate::config::JpegCodecConfig;
use crate::errors::{
    decoded_size_message, format_decoded_size, format_shape_mismatch, shape_mismatch_message,
    Error, Result,
};
use crate::types::JpegShape;

mod turbo;
pub use turbo::{
    subsamp_from_ratios, turbo_subsamp, unsupported_subsampling_message, DecodeRequest,
    EncodeInput, EncodeRequest, PixelFormat, Subsamp, TurboCodec,
};

verus! {

/// Number of bytes of decoded pixel data for an image of the given shape
/// with the given number of components per pixel.
pub open spec fn expected_decoded_len(shape: JpegShape, components: usize) -> int {
    shape.spec_width() * shape.spec_height() * components
}

pub trait JpegCodecTrait: Sized + TryFrom<JpegCodecConfig> {
    /// How many components are in the decoded image.
    spec fn spec_decoded_components(&self) -> usize;

    /// Width and height in pixels of the minimum coding unit (MCU).
    spec fn spec_mcu_shape(&self) -> (u16, u16);

    /// How many components are in the decoded image (1 for grayscale, 3 for RGB or YCbCr).
    fn decoded_components(&self) -> (n: usize)
        ensures
            n == self.spec_decoded_components(),
    ;

    /// Width and height in pixels of the minimum coding unit (MCU) for this configuration.
    fn mcu_shape(&self) -> (s: (u16, u16))
        ensures
            s == self.spec_mcu_shape(),
    ;
}

pub trait JpegEncoderTrait: JpegCodecTrait {
    /// Raise an error if the bytes to encode are not the correct length for the configuration.
    ///
    /// Should be called early when encoding.
    fn check_decoded_size(&self, shape: JpegShape, data_len: usize) -> (r: Result<()>)
        ensures
            r is Ok <==> data_len == expected_decoded_len(shape, self.spec_decoded_components()),
            r matches Err(e) ==> e.is_general_with(
                decoded_size_message(
                    data_len,
                    expected_decoded_len(shape, self.spec_decoded_components()) as u128,
                    shape.spec_width(),
                    shape.spec_height(),
                    self.spec_decoded_components(),
                ),
            ),
    {
        let width = shape.width();
        let height = shape.height();
        let components = self.decoded_components();
        let w = width as u128;
        let h = height as u128;
        let c = components as u128;
        assert(w * h * c <= 0xffff_ffff_ffff_ffff_ffff_ffff_ffff_ffff) by (nonlinear_arith)
            requires
                w <= 0xffff,
                h <= 0xffff,
                c <= 0xffff_ffff_ffff_ffff,
        ;
        assert(0 <= w * h <= 0xffff * 0xffff) by (nonlinear_arith)
            requires
                0 <= w <= 0xffff,
                0 <= h <= 0xffff,
        ;
        let expected_len = w * h * c;
        if data_len as u128 != expected_len {
            return Err(
                Error::General(format_decoded_size(data_len, expected_len, width, height, components)),
            );
        }
        Ok(())
    }
}

pub trait JpegDecoderTrait: JpegCodecTrait {
    /// Check the shape of a decoded image against the expected shape, giving
    /// its pixel bytes when they agree.
    fn check_decoded_shape(&self, decoded: (JpegShape, Vec<u8>), shape: JpegShape) -> (r: Result<
        Vec<u8>,
    >)
        ensures
            match r {
                Ok(pixels) => decoded.0 == shape && pixels@ == decoded.1@,
                Err(e) => decoded.0 != shape && e.is_general_with(
                    shape_mismatch_message(
                        decoded.0.spec_width(),
                        decoded.0.spec_height(),
                        shape.spec_width(),
                        shape.spec_height(),
                    ),
                ),
            },
    {
        let (decoded_shape, decoded_bytes) = decoded;
        if decoded_shape != shape {
            return Err(
                Error::General(
                    format_shape_mismatch(
                        decoded_shape.width(),
                        decoded_shape.height(),
                        shape.width(),
                        shape.height(),
                    ),
                ),
            );
        }
        Ok(decoded_bytes)
    }
}

} // verus!
