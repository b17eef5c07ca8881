use vstd::prelude::*;

use crate::errors::{Error, Result};
use crate::DEFAULT_QUALITY;

verus! {

/// JPEG quality, guaranteed to be in `[0, 100]`.
/// Instantiate with `TryFrom<u8>`.
#[derive(Debug, Clone, Copy, Eq, PartialEq, Structural)]
pub struct Quality(u8);

/// Message of the error for a quality above 100.
pub open spec fn quality_range_message() -> Seq<char> {
    "Quality must be between 0 and 100"@
}

/// Outcome of building a quality from a number.
pub open spec fn quality_from_u8(value: u8) -> core::result::Result<u8, Seq<char>> {
    if value <= 100 {
        Ok(value)
    } else {
        Err(quality_range_message())
    }
}

impl Quality {
    /// The quality lies in `[0, 100]`.
    #[verifier::type_invariant]
    pub closed spec fn is_valid(self) -> bool {
        self.0 <= 100
    }

    /// The quality as a number.
    pub closed spec fn spec_value(self) -> u8 {
        self.0
    }

    /// Two qualities are equal exactly when their values are.
    pub broadcast proof fn lemma_quality_eq(a: Quality, b: Quality)
        ensures
            #![trigger a.spec_value(), b.spec_value()]
            a.spec_value() == b.spec_value() <==> a == b,
    {
    }

    /// The highest quality.
    pub fn max() -> (q: Self)
        ensures
            q.spec_value() == 100,
    {
        Quality(100)
    }

    /// The given quality, or the default one when none is given.
    pub fn try_new(quality: Option<u8>) -> (r: Result<Self>)
        ensures
            match quality {
                Some(v) => match r {
                    Ok(q) => quality_from_u8(v) == Ok::<u8, Seq<char>>(q.spec_value()),
                    Err(e) => quality_from_u8(v) matches Err(m) && e.is_general_with(m),
                },
                None => r matches Ok(q) && q.spec_value() == DEFAULT_QUALITY,
            },
    {
        if let Some(q) = quality {
            Self::try_from(q)
        } else {
            Ok(Quality(DEFAULT_QUALITY))
        }
    }

    /// The quality as a number, in `[0, 100]`.
    pub fn value(&self) -> (v: u8)
        ensures
            v == self.spec_value(),
            v <= 100,
    {
        proof {
            use_type_invariant(self);
        }
        self.0
    }
}

impl core::ops::Deref for Quality {
    type Target = u8;

    fn deref(&self) -> (v: &u8)
        ensures
            *v == self.spec_value(),
    {
        &self.0
    }
}

impl Default for Quality {
    fn default() -> (q: Self)
        ensures
            q.spec_value() == DEFAULT_QUALITY,
    {
        Quality(DEFAULT_QUALITY)
    }
}

impl TryFrom<u8> for Quality {
    type Error = Error;

    fn try_from(value: u8) -> (r: Result<Self>)
        ensures
            match r {
                Ok(q) => quality_from_u8(value) == Ok::<u8, Seq<char>>(q.spec_value()),
                Err(e) => quality_from_u8(value) matches Err(m) && e.is_general_with(m),
            },
    {
        if value > 100 {
            return Err(Error::general("Quality must be between 0 and 100"));
        }
        Ok(Quality(value))
    }
}

// The error of a rejected value holds a `String`, which no spec function can
// build; `try_from` above states its outcome in its own `ensures`.
impl vstd::std_specs::convert::TryFromSpecImpl<u8> for Quality {
    open spec fn obeys_try_from_spec() -> bool {
        false
    }

    open spec fn try_from_spec(v: u8) -> Result<Self> {
        arbitrary()
    }
}

impl From<Quality> for u8 {
    fn from(value: Quality) -> (v: u8) {
        value.0
    }
}

impl vstd::std_specs::convert::FromSpecImpl<Quality> for u8 {
    open spec fn obeys_from_spec() -> bool {
        true
    }

    open spec fn from_spec(v: Quality) -> u8 {
        v.spec_value()
    }
}

/// A quality turned into its number is accepted back as the same number.
pub proof fn lemma_quality_number_round_trip(q: Quality)
    requires
        q.is_valid(),
    ensures
        quality_from_u8(q.spec_value()) == Ok::<u8, Seq<char>>(q.spec_value()),
{
}

} // verus!
