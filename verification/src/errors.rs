use vstd::prelude::*;

use crate::types::JpegShape;

verus! {

/// Result type of this crate.
pub type Result<T, E = Error> = core::result::Result<T, E>;

/// Errors raised while configuring the codec or checking data against it.
#[derive(Debug)]
pub enum Error {
    /// A failure described by a message.
    General(String),
    /// Decoded data did not have the expected shape.
    UnexpectedShape { expected: JpegShape, got: JpegShape },
}

impl Error {
    /// The error is a general error carrying exactly the message `msg`.
    pub open spec fn is_general_with(self, msg: Seq<char>) -> bool {
        self matches Error::General(m) && m@ == msg
    }

    /// Build a general error from a message.
    pub fn general(msg: &str) -> (e: Error)
        ensures
            e.is_general_with(msg@),
    {
        Error::General(msg.to_owned())
    }

    /// Build the error for a shape mismatch.
    pub fn unexpected_shape(expected: JpegShape, got: JpegShape) -> (e: Error)
        ensures
            e == (Error::UnexpectedShape { expected, got }),
    {
        Error::UnexpectedShape { expected, got }
    }
}

/// `r` is the executable counterpart of the specified outcome `s`: the same
/// value on success, and a general error with the specified message on failure.
pub open spec fn outcome_matches<T>(r: Result<T>, s: core::result::Result<T, Seq<char>>) -> bool {
    match (r, s) {
        (Ok(a), Ok(b)) => a == b,
        (Err(e), Err(m)) => e.is_general_with(m),
        _ => false,
    }
}

/// The character of a decimal digit.
pub open spec fn digit_char(d: nat) -> char {
    seq!['0', '1', '2', '3', '4', '5', '6', '7', '8', '9'][d as int]
}

/// The decimal digits of a number, most significant first and without
/// leading zeros: how `Display` and `Debug` print an unsigned integer.
pub open spec fn decimal(n: nat) -> Seq<char>
    decreases n,
{
    if n < 10 {
        seq![digit_char(n)]
    } else {
        decimal(n / 10).push(digit_char(n % 10))
    }
}

/// `JpegShape { width: W, height: H }`, as the shape's `Debug` prints it.
pub open spec fn shape_text(width: u16, height: u16) -> Seq<char> {
    "JpegShape { width: "@ + decimal(width as nat) + ", height: "@ + decimal(height as nat) + " }"@
}

/// The message for an invalid image shape.
pub open spec fn invalid_shape_message(width: u64, height: u64) -> Seq<char> {
    "Invalid JPEG shape: width="@ + decimal(width as nat) + ", height="@ + decimal(height as nat)
}

/// The message for pixel data of the wrong length.
pub open spec fn decoded_size_message(
    data_len: usize,
    expected_len: u128,
    width: u16,
    height: u16,
    components: usize,
) -> Seq<char> {
    "Decoded data length "@ + decimal(data_len as nat) + " does not match expected length "@
        + decimal(expected_len as nat) + " for shape "@ + shape_text(width, height) + " and "@
        + decimal(components as nat) + " components"@
}

/// The message for a decoded shape that differs from the expected one.
pub open spec fn shape_mismatch_message(
    decoded_width: u16,
    decoded_height: u16,
    expected_width: u16,
    expected_height: u16,
) -> Seq<char> {
    "Decoded shape "@ + shape_text(decoded_width, decoded_height) + " does not match expected shape "@
        + shape_text(expected_width, expected_height)
}

/// Formats the message for an invalid image shape with `std::format!`.
/// Trusted: the result is the formatted text, `invalid_shape_message`.
#[verifier::external_body]
pub(crate) fn format_invalid_shape(width: u64, height: u64) -> (m: String)
    ensures
        m@ == invalid_shape_message(width, height),
{
    format!("Invalid JPEG shape: width={width:?}, height={height:?}")
}

/// Formats the message for pixel data of the wrong length with `std::format!`.
/// Trusted: the result is the formatted text, `decoded_size_message`.
#[verifier::external_body]
pub(crate) fn format_decoded_size(
    data_len: usize,
    expected_len: u128,
    width: u16,
    height: u16,
    components: usize,
) -> (m: String)
    ensures
        m@ == decoded_size_message(data_len, expected_len, width, height, components),
{
    format!(
        "Decoded data length {} does not match expected length {} for shape JpegShape {{ width: {}, height: {} }} and {} components",
        data_len, expected_len, width, height, components
    )
}

/// Formats the message for a decoded shape that differs from the expected one
/// with `std::format!`.
/// Trusted: the result is the formatted text, `shape_mismatch_message`.
#[verifier::external_body]
pub(crate) fn format_shape_mismatch(
    decoded_width: u16,
    decoded_height: u16,
    expected_width: u16,
    expected_height: u16,
) -> (m: String)
    ensures
        m@ == shape_mismatch_message(decoded_width, decoded_height, expected_width, expected_height),
{
    format!(
        "Decoded shape JpegShape {{ width: {}, height: {} }} does not match expected shape JpegShape {{ width: {}, height: {} }}",
        decoded_width, decoded_height, expected_width, expected_height
    )
}

} // verus!
