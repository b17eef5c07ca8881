use vstd::prelude::*;

use crate::errors::{format_invalid_shape, invalid_shape_message, Error, Result};

verus! {

/// Width and height of an image, both non-zero.
#[derive(Debug, Clone, Copy, PartialEq, Eq, Structural)]
pub struct JpegShape {
    width: u16,
    height: u16,
}

impl JpegShape {
    /// Both dimensions are non-zero.
    #[verifier::type_invariant]
    pub closed spec fn is_valid(self) -> bool {
        self.width > 0 && self.height > 0
    }

    /// Width in pixels.
    pub closed spec fn spec_width(self) -> u16 {
        self.width
    }

    /// Height in pixels.
    pub closed spec fn spec_height(self) -> u16 {
        self.height
    }

    /// Two shapes are equal exactly when their widths and heights are.
    pub broadcast proof fn lemma_shape_eq(a: JpegShape, b: JpegShape)
        ensures
            #![trigger a.spec_width(), b.spec_width()]
            (a.spec_width() == b.spec_width() && a.spec_height() == b.spec_height()) <==> a == b,
    {
    }

    /// Width in pixels.
    pub fn width(&self) -> (w: u16)
        ensures
            w == self.spec_width(),
            w > 0,
    {
        proof {
            use_type_invariant(self);
        }
        self.width
    }

    /// Height in pixels.
    pub fn height(&self) -> (h: u16)
        ensures
            h == self.spec_height(),
            h > 0,
    {
        proof {
            use_type_invariant(self);
        }
        self.height
    }

    /// Builds a shape; both dimensions must lie in `[1, u16::MAX]`.
    pub fn try_new(width: u64, height: u64) -> (r: Result<Self>)
        ensures
            match r {
                Ok(s) => 1 <= width <= u16::MAX && 1 <= height <= u16::MAX
                    && s.spec_width() == width && s.spec_height() == height,
                Err(e) => !(1 <= width <= u16::MAX && 1 <= height <= u16::MAX)
                    && e.is_general_with(invalid_shape_message(width, height)),
            },
    {
        if width == 0 || width > u16::MAX as u64 || height == 0 || height > u16::MAX as u64 {
            return Err(Error::General(format_invalid_shape(width, height)));
        }
        Ok(JpegShape { width: width as u16, height: height as u16 })
    }
}

} // verus!
