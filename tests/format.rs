use win_core_audio::format::{
    guid_eq, Guid, KsDataFormatType, WaveFormatExtensible, WaveFormatType,
    KSDATAFORMAT_SUBTYPE_IEEE_FLOAT_DATA1, KSDATAFORMAT_SUBTYPE_PCM_DATA1, WAVE_FORMAT_EXTENSIBLE,
    WAVE_FORMAT_IEEE_FLOAT, WAVE_FORMAT_PCM,
};

fn float_guid() -> Guid {
    Guid {
        data1: 0x0000_0003,
        data2: 0x0000,
        data3: 0x0010,
        data4: [0x80, 0x00, 0x00, 0xaa, 0x00, 0x38, 0x9b, 0x71],
    }
}

fn descriptor(tag: u16, channels: u16, rate: u32, sub_format: Guid) -> WaveFormatExtensible {
    WaveFormatExtensible {
        format_tag: tag,
        channels,
        samples_per_sec: rate,
        avg_bytes_per_sec: rate * u32::from(channels) * 4,
        block_align: channels * 4,
        bits_per_sample: 32,
        sub_format,
    }
}

#[test]
fn format_tags_classify() {
    assert_eq!(WaveFormatType::try_from_tag(0x0001), Ok(WaveFormatType::Pcm));
    assert_eq!(WaveFormatType::try_from_tag(0x0003), Ok(WaveFormatType::Float));
    assert_eq!(WaveFormatType::try_from_tag(0xFFFE), Ok(WaveFormatType::Extensible));
    assert_eq!(WaveFormatType::try_from_tag(0x0002), Err(0x0002));
    assert_eq!(WaveFormatType::try_from_tag(0x0000), Err(0x0000));
}

#[test]
fn format_tags_round_trip() {
    for t in [WaveFormatType::Pcm, WaveFormatType::Float, WaveFormatType::Extensible] {
        assert_eq!(WaveFormatType::try_from_tag(t.tag()), Ok(t));
    }
    assert_eq!(WaveFormatType::Pcm.tag(), WAVE_FORMAT_PCM);
    assert_eq!(WaveFormatType::Float.tag(), WAVE_FORMAT_IEEE_FLOAT);
    assert_eq!(WaveFormatType::Extensible.tag(), WAVE_FORMAT_EXTENSIBLE);
}

#[test]
fn sub_formats_classify() {
    let pcm = Guid::ks_subtype(KSDATAFORMAT_SUBTYPE_PCM_DATA1);
    let float = Guid::ks_subtype(KSDATAFORMAT_SUBTYPE_IEEE_FLOAT_DATA1);
    assert!(matches!(KsDataFormatType::try_from_guid(pcm), Ok(KsDataFormatType::Pcm)));
    assert!(matches!(KsDataFormatType::try_from_guid(float), Ok(KsDataFormatType::Float)));
    assert!(guid_eq(&float, &float_guid()));
    let mut odd = float_guid();
    odd.data4[7] = 0x72;
    assert!(!guid_eq(&odd, &float_guid()));
    match KsDataFormatType::try_from_guid(odd) {
        Err(g) => assert!(guid_eq(&g, &odd)),
        Ok(_) => panic!("unknown identifier classified"),
    }
}

#[test]
fn extensible_descriptor_reports_sub_format() {
    let d = descriptor(WAVE_FORMAT_EXTENSIBLE, 2, 48_000, float_guid());
    assert!(d.is_wave_format_extensible());
    assert_eq!(d.wave_format_type(), Ok(WaveFormatType::Extensible));
    assert!(matches!(d.ks_data_format_type(), Some(Ok(KsDataFormatType::Float))));
    assert_eq!(d.num_channels(), 2);
    assert_eq!(d.samples_per_sec(), 48_000);
    assert!(d.check_renderable().is_ok());
}

#[test]
fn plain_descriptor_has_no_sub_format() {
    let d = descriptor(WAVE_FORMAT_IEEE_FLOAT, 2, 44_100, float_guid());
    assert!(!d.is_wave_format_extensible());
    assert!(d.ks_data_format_type().is_none());
    assert!(d.check_renderable().is_ok());
}

#[test]
fn unrenderable_descriptors_are_refused() {
    let unknown_tag = descriptor(0x0055, 2, 44_100, float_guid());
    assert_eq!(unknown_tag.wave_format_type(), Err(0x0055));
    assert!(unknown_tag.check_renderable().is_err());
    assert!(descriptor(WAVE_FORMAT_PCM, 2, 0, float_guid()).check_renderable().is_err());
    assert!(descriptor(WAVE_FORMAT_PCM, 6, 48_000, float_guid()).check_renderable().is_err());
    assert!(descriptor(WAVE_FORMAT_PCM, 0, 48_000, float_guid()).check_renderable().is_err());
    assert!(descriptor(WAVE_FORMAT_PCM, 1, 48_000, float_guid()).check_renderable().is_ok());
}
