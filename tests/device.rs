use win_core_audio::device::{
    AudioClientShareMode, DataFlow, DeviceEntry, DeviceState, MultiMediaDeviceCollection,
    StorageAccessMode,
};
use win_core_audio::error::AudioError;

fn entry(id: &str, flow: DataFlow, state: DeviceState) -> DeviceEntry {
    DeviceEntry { id: id.to_string(), flow, state }
}

fn machine() -> Vec<DeviceEntry> {
    vec![
        entry("speakers", DataFlow::Render, DeviceState::active()),
        entry("hdmi", DataFlow::Render, DeviceState::disabled()),
        entry("headset", DataFlow::Render, DeviceState::active()),
        entry("mic", DataFlow::Capture, DeviceState::active()),
        entry("usb", DataFlow::Render, DeviceState::active()),
    ]
}

#[test]
fn active_render_devices_are_enumerated() {
    let c = MultiMediaDeviceCollection::from_endpoints(machine(), DataFlow::Render, DeviceState::active());
    assert_eq!(c.get_count(), 3);
    assert_eq!(c.item(0).unwrap().id, "speakers");
    assert_eq!(c.item(1).unwrap().id, "headset");
    assert_eq!(c.item(2).unwrap().id, "usb");
}

#[test]
fn count_matches_fetchable_indices() {
    for (flow, mask) in [
        (DataFlow::Render, DeviceState::active()),
        (DataFlow::All, DeviceState::all()),
        (DataFlow::Capture, DeviceState::active()),
        (DataFlow::Capture, DeviceState::unplugged()),
    ] {
        let c = MultiMediaDeviceCollection::from_endpoints(machine(), flow, mask);
        let count = c.get_count();
        let fetched = (0..count + 4).filter(|&i| c.item(i).is_ok()).count();
        assert_eq!(fetched as u32, count);
        for i in 0..count {
            assert!(c.item(i).is_ok());
        }
    }
}

#[test]
fn all_flows_and_states_keep_every_endpoint() {
    let c = MultiMediaDeviceCollection::from_endpoints(machine(), DataFlow::All, DeviceState::all());
    assert_eq!(c.get_count(), 5);
    assert_eq!(c.item(3).unwrap().id, "mic");
}

#[test]
fn item_past_the_end_is_an_error() {
    let c = MultiMediaDeviceCollection::from_endpoints(machine(), DataFlow::Render, DeviceState::active());
    assert!(matches!(c.item(3), Err(AudioError::InvalidIndex(3))));
    let empty = MultiMediaDeviceCollection::from_endpoints(Vec::new(), DataFlow::Render, DeviceState::active());
    assert_eq!(empty.get_count(), 0);
    assert!(matches!(empty.item(0), Err(AudioError::InvalidIndex(0))));
}

#[test]
fn device_state_from_raw_values() {
    assert_eq!(DeviceState::from_raw(1).unwrap().bits(), 1);
    assert_eq!(DeviceState::from_raw(0xF).unwrap().bits(), 0xF);
    assert_eq!(DeviceState::from_raw(0x10), Err(AudioError::UnknownDeviceState(0x10)));
    assert!(DeviceState::from_bits(0x8000_0001).is_none());
    assert!(DeviceState::all().contains(DeviceState::unplugged()));
    assert!(!DeviceState::active().contains(DeviceState::disabled()));
    assert!(DeviceState::all().intersects(DeviceState::not_present()));
    assert!(!DeviceState::active().intersects(DeviceState::disabled()));
    assert_eq!(DeviceState::not_present().bits(), 4);
}

#[test]
fn raw_enumeration_values() {
    assert_eq!(DataFlow::Render.raw(), 0);
    assert_eq!(DataFlow::Capture.raw(), 1);
    assert_eq!(DataFlow::All.raw(), 2);
    assert_eq!(AudioClientShareMode::Shared.raw(), 0);
    assert_eq!(AudioClientShareMode::Exclusive.raw(), 1);
    assert_eq!(StorageAccessMode::read().bits(), 0);
    assert_eq!(StorageAccessMode::write().bits(), 1);
    assert_eq!(StorageAccessMode::read_write().bits(), 2);
    assert!(DataFlow::All.selects(DataFlow::Capture));
    assert!(!DataFlow::Render.selects(DataFlow::Capture));
}

#[test]
fn three_active_one_disabled_yield_three() {
    let all = vec![
        entry("a", DataFlow::Render, DeviceState::active()),
        entry("b", DataFlow::Render, DeviceState::active()),
        entry("c", DataFlow::Render, DeviceState::disabled()),
        entry("d", DataFlow::Render, DeviceState::active()),
    ];
    let c = MultiMediaDeviceCollection::from_endpoints(all, DataFlow::Render, DeviceState::active());
    assert_eq!(c.get_count(), 3);
    assert_eq!(c.item(2).unwrap().id, "d");
}

#[test]
fn entry_from_wide_identifier() {
    let units: Vec<u16> = "{0.0.0.00000000}.{speaker}".encode_utf16().collect();
    let e = DeviceEntry::from_wide_id(&units, DataFlow::Render, DeviceState::active());
    assert_eq!(e.id, "{0.0.0.00000000}.{speaker}");
    assert_eq!(e.flow, DataFlow::Render);
    assert_eq!(e.state, DeviceState::active());
    let empty = DeviceEntry::from_wide_id(&[], DataFlow::Capture, DeviceState::disabled());
    assert_eq!(empty.id, "");
}
