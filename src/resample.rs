use vstd::prelude::*;

verus! {

/// The largest factor by which the band-limited converter changes the rate,
/// up or down.
pub const MAX_RATE_RATIO: u64 = 256;

/// How the shared source buffer becomes the buffer that a device plays.
#[derive(Debug, Clone, Copy, PartialEq, Eq, Structural)]
pub enum ConversionPlan {
    /// Rate and channels already match: the samples are used as they are.
    Identity,
    /// Band-limited resampling of `channels`-channel frames from `from_rate`
    /// to `to_rate` frames per second.
    Resample { from_rate: u32, to_rate: u32, channels: u16 },
}

/// Why a source cannot be converted for a device.
#[derive(Debug, Clone, Copy, PartialEq, Eq, Structural)]
pub enum ConversionError {
    /// A channel count outside one or two, or a change of channel count:
    /// channels are never mixed up or down.
    UnsupportedChannels { source: u16, target: u16 },
    /// The sample count is not a whole number of frames.
    PartialFrame,
    /// A rate of zero, or a ratio between the rates past the converter's range.
    UnsupportedRatio { source: u32, target: u32 },
}

/// Whether the converter accepts the ratio between two rates.
pub open spec fn ratio_supported(source_rate: u32, target_rate: u32) -> bool {
    &&& source_rate > 0
    &&& target_rate > 0
    &&& target_rate <= MAX_RATE_RATIO * source_rate
    &&& source_rate <= MAX_RATE_RATIO * target_rate
}

/// The plan that `plan_conversion` settles on, or the error it reports.
pub open spec fn conversion_of(
    source_rate: u32,
    source_channels: u16,
    target_rate: u32,
    target_channels: u16,
    num_samples: usize,
) -> Result<ConversionPlan, ConversionError> {
    if source_channels < 1 || source_channels > 2 || source_channels != target_channels {
        Err(ConversionError::UnsupportedChannels { source: source_channels, target: target_channels })
    } else if source_rate == target_rate {
        Ok(ConversionPlan::Identity)
    } else if (num_samples as int) % (source_channels as int) != 0 {
        Err(ConversionError::PartialFrame)
    } else if !ratio_supported(source_rate, target_rate) {
        Err(ConversionError::UnsupportedRatio { source: source_rate, target: target_rate })
    } else {
        Ok(
            ConversionPlan::Resample {
                from_rate: source_rate,
                to_rate: target_rate,
                channels: source_channels,
            },
        )
    }
}

/// Decides how `num_samples` interleaved samples at `source_rate` with
/// `source_channels` channels become samples at `target_rate` with
/// `target_channels` channels. Mono and stereo are supported, and the channel
/// count must not change; equal rates need no conversion at all.
pub fn plan_conversion(
    source_rate: u32,
    source_channels: u16,
    target_rate: u32,
    target_channels: u16,
    num_samples: usize,
) -> (r: Result<ConversionPlan, ConversionError>)
    ensures
        r == conversion_of(source_rate, source_channels, target_rate, target_channels, num_samples),
        source_rate == target_rate && source_channels == target_channels && 1 <= source_channels
            <= 2 ==> r == Ok::<ConversionPlan, ConversionError>(ConversionPlan::Identity),
{
    if source_channels < 1 || source_channels > 2 || source_channels != target_channels {
        return Err(
            ConversionError::UnsupportedChannels { source: source_channels, target: target_channels },
        );
    }
    if source_rate == target_rate {
        return Ok(ConversionPlan::Identity);
    }
    if num_samples % (source_channels as usize) != 0 {
        return Err(ConversionError::PartialFrame);
    }
    if source_rate == 0 || target_rate == 0 || target_rate as u64 > MAX_RATE_RATIO
        * source_rate as u64 || source_rate as u64 > MAX_RATE_RATIO * target_rate as u64 {
        return Err(ConversionError::UnsupportedRatio { source: source_rate, target: target_rate });
    }
    Ok(
        ConversionPlan::Resample {
            from_rate: source_rate,
            to_rate: target_rate,
            channels: source_channels,
        },
    )
}

} // verus!
