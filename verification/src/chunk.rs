//! Decisions on Zarr chunks: whether a chunk's shape and data type describe
//! images this codec can encode, and whether the chunk shape fits the MCU.
use vstd::prelude::*;
use vstd::string::*;

use crate::codec::expected_decoded_len;
use crate::errors::{invalid_shape_message, Error};
use crate::types::JpegShape;

verus! {

/// Why a chunk shape does not describe an image for this codec.
#[derive(Debug)]
pub enum ChunkShapeError {
    /// The chunk has `got` dimensions where `expected` were expected.
    IncompatibleDimensionality { got: usize, expected: usize },
    /// The last chunk dimension is not the number of decoded components.
    LastDimension { expected: usize, got: u64 },
    /// Width or height is out of range for a JPEG image.
    InvalidShape(Error),
}

/// The number of chunk dimensions fits the number of decoded components:
/// two dimensions for one component, or three with the last one equal to
/// the number of components.
pub open spec fn chunk_dims_fit(shape: Seq<u64>, components: usize) -> bool {
    ||| shape.len() == 2 && components == 1
    ||| shape.len() == 3 && shape[2] == components
}

/// Width (the second dimension) and height (the first) are valid JPEG dimensions.
pub open spec fn chunk_extent_fits(shape: Seq<u64>) -> bool {
    1 <= shape[1] <= u16::MAX && 1 <= shape[0] <= u16::MAX
}

/// `n` is a multiple of `d`, as `u64::is_multiple_of` defines it (only 0 is
/// a multiple of 0).
pub open spec fn is_multiple_of(n: u64, d: u64) -> bool {
    if d == 0 {
        n == 0
    } else {
        n % d == 0
    }
}

/// `k` times `d`.
pub open spec fn scaled(k: nat, d: u64) -> int {
    k * d
}

/// For a positive divisor, `n` is a multiple of `d` exactly when it is `k`
/// times `d` for some natural `k`.
pub proof fn lemma_multiple_iff_scaled(n: u64, d: u64)
    requires
        d > 0,
    ensures
        is_multiple_of(n, d) <==> exists|k: nat| #[trigger] scaled(k, d) == n,
{
    if n % d == 0 {
        let k = (n / d) as nat;
        vstd::arithmetic::div_mod::lemma_fundamental_div_mod(n as int, d as int);
        assert(scaled(k, d) == n) by (nonlinear_arith)
            requires
                n as int == d as int * (n as int / d as int) + n as int % d as int,
                n as int % d as int == 0,
                k == n as int / d as int,
                scaled(k, d) == k * d,
        ;
    }
    assert forall|k: nat| #[trigger] scaled(k, d) == n implies n % d == 0 by {
        vstd::arithmetic::div_mod::lemma_mod_multiples_basic(k as int, d as int);
    }
}

/// The image shape of a chunk of the given shape, whose dimensions are
/// height, width and optionally components.
pub fn get_shape(shape: &[u64], decoded_components: usize) -> (r: Result<JpegShape, ChunkShapeError>)
    ensures
        match r {
            Ok(s) => chunk_dims_fit(shape@, decoded_components) && chunk_extent_fits(shape@)
                && s.spec_width() == shape@[1] && s.spec_height() == shape@[0],
            Err(ChunkShapeError::IncompatibleDimensionality { got, expected }) => {
                ||| shape@.len() == 2 && decoded_components != 1 && got == 2 && expected == 3
                ||| shape@.len() != 2 && shape@.len() != 3 && got == shape@.len() && expected == (
                if shape@.len() < 2 {
                    2usize
                } else {
                    3usize
                })
            },
            Err(ChunkShapeError::LastDimension { expected, got }) => shape@.len() == 3
                && shape@[2] != decoded_components && expected == decoded_components && got
                == shape@[2],
            Err(ChunkShapeError::InvalidShape(e)) => chunk_dims_fit(shape@, decoded_components)
                && !chunk_extent_fits(shape@) && e.is_general_with(
                invalid_shape_message(shape@[1], shape@[0]),
            ),
        },
{
    let n = shape.len();
    if n == 2 {
        if decoded_components != 1 {
            return Err(ChunkShapeError::IncompatibleDimensionality { got: 2, expected: 3 });
        }
    } else if n == 3 {
        if decoded_components as u128 != shape[2] as u128 {
            return Err(ChunkShapeError::LastDimension { expected: decoded_components, got: shape[2] });
        }
    } else {
        let expected = if n < 2 {
            2
        } else {
            3
        };
        return Err(ChunkShapeError::IncompatibleDimensionality { got: n, expected });
    }
    match JpegShape::try_new(shape[1], shape[0]) {
        Ok(s) => Ok(s),
        Err(e) => Err(ChunkShapeError::InvalidShape(e)),
    }
}

/// The chunk's width or height (its second and first dimensions) is not a
/// multiple of the MCU's width or height; a chunk with fewer than two
/// dimensions is never flagged.
pub fn is_bad_chunk_shape(shape: &[u64], mcu_shape: (u16, u16)) -> (bad: bool)
    ensures
        bad == (shape@.len() >= 2 && !(is_multiple_of(shape@[1], mcu_shape.0 as u64)
            && is_multiple_of(shape@[0], mcu_shape.1 as u64))),
        mcu_shape.0 > 0 && mcu_shape.1 > 0 ==> (bad <==> shape@.len() >= 2 && !((exists|k: nat|
            #[trigger] scaled(k, mcu_shape.0 as u64) == shape@[1]) && (exists|k: nat|
            #[trigger] scaled(k, mcu_shape.1 as u64) == shape@[0]))),
{
    proof {
        if shape@.len() >= 2 && mcu_shape.0 > 0 && mcu_shape.1 > 0 {
            lemma_multiple_iff_scaled(shape@[1], mcu_shape.0 as u64);
            lemma_multiple_iff_scaled(shape@[0], mcu_shape.1 as u64);
        }
    }
    if shape.len() < 2 {
        return false;
    }
    let w = shape[1];
    let h = shape[0];
    let mcu_w = mcu_shape.0 as u64;
    let mcu_h = mcu_shape.1 as u64;
    let w_fits = if mcu_w == 0 {
        w == 0
    } else {
        w % mcu_w == 0
    };
    let h_fits = if mcu_h == 0 {
        h == 0
    } else {
        h % mcu_h == 0
    };
    !w_fits || !h_fits
}

/// The data type, named by its Zarr V3 name, is `uint8`: the only one the
/// codec supports.
pub fn is_supported_data_type(name_v3: Option<&str>) -> (ok: bool)
    ensures
        ok == (name_v3 matches Some(n) && n@ == "uint8"@),
{
    proof {
        reveal_strlit("uint8");
    }
    match name_v3 {
        None => false,
        Some(n) => {
            if n.unicode_len() != 5 {
                return false;
            }
            let ok = n.get_char(0) == 'u' && n.get_char(1) == 'i' && n.get_char(2) == 'n'
                && n.get_char(3) == 't' && n.get_char(4) == '8';
            if ok {
                assert(n@ =~= "uint8"@);
            } else {
                assert(n@ != "uint8"@) by {
                    if n@ == "uint8"@ {
                        assert(n@[0] == 'u' && n@[1] == 'i' && n@[2] == 'n' && n@[3] == 't'
                            && n@[4] == '8');
                    }
                }
            }
            ok
        },
    }
}

/// Number of elements of a chunk of the given shape.
pub open spec fn chunk_num_elements(shape: Seq<u64>) -> int
    decreases shape.len(),
{
    if shape.len() == 0 {
        1
    } else {
        chunk_num_elements(shape.drop_last()) * shape.last()
    }
}

/// For a chunk shape that describes an image, the pixel data that the
/// encoder's size check accepts for that image is exactly one byte per chunk
/// element.
pub proof fn lemma_chunk_elements_are_pixel_bytes(
    shape: Seq<u64>,
    components: usize,
    image: JpegShape,
)
    requires
        chunk_dims_fit(shape, components),
        image.spec_width() == shape[1],
        image.spec_height() == shape[0],
    ensures
        expected_decoded_len(image, components) == chunk_num_elements(shape),
{
    let h = shape[0] as int;
    let w = shape[1] as int;
    let c = components as int;
    let s1 = shape.drop_last();
    if shape.len() == 2 {
        assert(s1.drop_last().len() == 0);
        assert(chunk_num_elements(s1.drop_last()) == 1);
        assert(s1.last() == h);
        assert(chunk_num_elements(s1) == h);
        assert(w * h * 1 == h * w) by (nonlinear_arith);
    } else {
        let s2 = s1.drop_last();
        assert(s2.drop_last().len() == 0);
        assert(chunk_num_elements(s2.drop_last()) == 1);
        assert(s2.last() == h);
        assert(chunk_num_elements(s2) == h);
        assert(s1.last() == w);
        assert(chunk_num_elements(s1) == h * w);
        assert(w * h * c == h * w * c) by (nonlinear_arith);
    }
}

} // verus!
