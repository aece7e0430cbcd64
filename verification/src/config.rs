//! Capture configuration and its validation.

use vstd::prelude::*;

use crate::errors::AecError;

verus! {

/// Output channel layout requested by the application.
///
/// `Stereo` means the canonical mono stream is duplicated into interleaved
/// left/right pairs before delivery.
#[derive(Debug, Clone, Copy, Default, PartialEq, Eq, Structural)]
pub enum Channels {
    #[default]
    Mono,
    Stereo,
}

/// Immutable configuration of a capture session.
#[derive(Debug, Clone)]
pub struct AecConfig {
    /// Target sample rate in Hz; must be positive.
    pub sample_rate: u32,
    /// Output channel layout.
    pub channels: Channels,
}

impl Default for AecConfig {
    /// 48 kHz mono, the rate most native engines run at.
    fn default() -> (c: Self)
        ensures
            c.sample_rate == 48000,
            c.channels == Channels::Mono,
    {
        AecConfig { sample_rate: 48000, channels: Channels::Mono }
    }
}

/// Checks a configuration before any native resource is acquired.
///
/// Accepts exactly the configurations with a positive sample rate; a zero
/// rate is rejected with `InvalidConfig`.
pub fn validate_config(config: &AecConfig) -> (r: Result<(), AecError>)
    ensures
        config.sample_rate > 0 ==> r is Ok,
        config.sample_rate == 0 ==> (r matches Err(AecError::InvalidConfig(m))
            && m@ == "sample_rate must be non-zero"@),
{
    if config.sample_rate == 0 {
        Err(AecError::InvalidConfig(String::from_str("sample_rate must be non-zero")))
    } else {
        Ok(())
    }
}

} // verus!
