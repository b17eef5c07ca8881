//! The `jpeg` codec for Zarr arrays: its configuration, the checks on pixel
//! data and chunk shapes, and the settings handed to the JPEG library.
use vstd::prelude::*;

pub mod chunk;
pub mod codec;
pub mod config;
pub mod errors;
pub mod types;

pub use codec::{JpegCodecTrait, JpegDecoderTrait, JpegEncoderTrait, TurboCodec, turbo_subsamp};
pub use config::{ColorConfig, JpegCodecConfig, SamplingRatio, SamplingRatios};
pub use errors::{Error, Result};
pub use types::JpegShape;

verus! {

/// Quality used when none is configured.
pub const DEFAULT_QUALITY: u8 = 95;

/// Codec for encoding and decoding JPEG images.
#[derive(Debug, Clone, Copy)]
pub struct JpegCodec {
    config: JpegCodecConfig,
    codec: TurboCodec,
}

impl JpegCodec {
    /// The libjpeg-turbo settings are those of the configuration.
    #[verifier::type_invariant]
    closed spec fn is_consistent(self) -> bool {
        self.codec.is_configured_by(self.config)
    }

    /// The configuration of this codec.
    pub closed spec fn spec_config(self) -> JpegCodecConfig {
        self.config
    }

    /// The libjpeg-turbo settings of this codec.
    pub closed spec fn spec_codec(self) -> TurboCodec {
        self.codec
    }

    /// Get the configuration object for this codec.
    pub fn config(&self) -> (c: &JpegCodecConfig)
        ensures
            *c == self.spec_config(),
    {
        &self.config
    }

    /// The libjpeg-turbo settings of this codec, derived from its configuration.
    pub fn codec(&self) -> (t: &TurboCodec)
        ensures
            *t == self.spec_codec(),
            t.is_configured_by(self.spec_config()),
    {
        proof {
            use_type_invariant(self);
        }
        &self.codec
    }
}

impl JpegCodecTrait for JpegCodec {
    /// The number of components of the decoded color space of the configuration.
    open spec fn spec_decoded_components(&self) -> usize {
        self.spec_config().spec_color_config().spec_color_spaces().0.spec_components()
    }

    /// The MCU shape of the configuration.
    open spec fn spec_mcu_shape(&self) -> (u16, u16) {
        self.spec_config().spec_color_config().spec_mcu_shape()
    }

    fn decoded_components(&self) -> (n: usize) {
        proof {
            use_type_invariant(self);
        }
        self.codec.decoded_components()
    }

    fn mcu_shape(&self) -> (s: (u16, u16)) {
        proof {
            use_type_invariant(self);
        }
        self.codec.mcu_shape()
    }
}

impl JpegEncoderTrait for JpegCodec {

}

impl JpegDecoderTrait for JpegCodec {

}

impl From<JpegCodec> for JpegCodecConfig {
    fn from(codec: JpegCodec) -> (c: Self)
        ensures
            c == codec.spec_config(),
    {
        codec.config
    }
}

impl vstd::std_specs::convert::FromSpecImpl<JpegCodec> for JpegCodecConfig {
    open spec fn obeys_from_spec() -> bool {
        true
    }

    open spec fn from_spec(v: JpegCodec) -> JpegCodecConfig {
        v.spec_config()
    }
}

impl TryFrom<JpegCodecConfig> for JpegCodec {
    type Error = Error;

    fn try_from(config: JpegCodecConfig) -> (r: Result<Self>)
        ensures
            match r {
                Ok(c) => c.spec_config() == config && turbo_subsamp(config.spec_color_config()) is Ok,
                Err(e) => turbo_subsamp(config.spec_color_config()) matches Err(m)
                    && e.is_general_with(m),
            },
    {
        match TurboCodec::try_from(config) {
            Ok(codec) => Ok(Self { config, codec }),
            Err(e) => Err(e),
        }
    }
}

// The error of a rejected configuration holds a `String`, which no spec function
// can build; `try_from` above states its outcome in its own `ensures`.
impl vstd::std_specs::convert::TryFromSpecImpl<JpegCodecConfig> for JpegCodec {
    open spec fn obeys_try_from_spec() -> bool {
        false
    }

    open spec fn try_from_spec(v: JpegCodecConfig) -> Result<Self> {
        arbitrary()
    }
}

/// A configuration that a codec was built from is given back by the codec.
pub proof fn lemma_codec_gives_back_config(config: JpegCodecConfig, codec: JpegCodec)
    requires
        codec.spec_config() == config,
    ensures
        <JpegCodecConfig as vstd::std_specs::convert::FromSpec<JpegCodec>>::from_spec(codec)
            == config,
{
}

} // verus!
