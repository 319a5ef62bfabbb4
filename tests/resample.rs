use win_core_audio::resample::{plan_conversion, ConversionError, ConversionPlan};

#[test]
fn same_rate_and_channels_is_identity() {
    assert_eq!(plan_conversion(44_100, 2, 44_100, 2, 1000), Ok(ConversionPlan::Identity));
    assert_eq!(plan_conversion(48_000, 1, 48_000, 1, 7), Ok(ConversionPlan::Identity));
    assert_eq!(plan_conversion(48_000, 2, 48_000, 2, 0), Ok(ConversionPlan::Identity));
}

#[test]
fn rate_change_resamples() {
    assert_eq!(
        plan_conversion(44_100, 2, 48_000, 2, 882),
        Ok(ConversionPlan::Resample { from_rate: 44_100, to_rate: 48_000, channels: 2 })
    );
}

#[test]
fn unsupported_channels_fail() {
    assert_eq!(
        plan_conversion(44_100, 2, 48_000, 6, 10),
        Err(ConversionError::UnsupportedChannels { source: 2, target: 6 })
    );
    assert_eq!(
        plan_conversion(44_100, 2, 44_100, 1, 10),
        Err(ConversionError::UnsupportedChannels { source: 2, target: 1 })
    );
    assert_eq!(
        plan_conversion(44_100, 3, 44_100, 3, 9),
        Err(ConversionError::UnsupportedChannels { source: 3, target: 3 })
    );
}

#[test]
fn partial_frame_and_ratio_fail() {
    assert_eq!(plan_conversion(44_100, 2, 48_000, 2, 3), Err(ConversionError::PartialFrame));
    assert_eq!(
        plan_conversion(100, 2, 25_601, 2, 4),
        Err(ConversionError::UnsupportedRatio { source: 100, target: 25_601 })
    );
    assert_eq!(
        plan_conversion(100, 2, 25_600, 2, 4),
        Ok(ConversionPlan::Resample { from_rate: 100, to_rate: 25_600, channels: 2 })
    );
    assert_eq!(
        plan_conversion(0, 2, 48_000, 2, 4),
        Err(ConversionError::UnsupportedRatio { source: 0, target: 48_000 })
    );
}
