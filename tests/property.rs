use win_core_audio::property::{PropVariant, VT_EMPTY, VT_LPWSTR};

#[test]
fn wide_string_value_decodes() {
    let units: Vec<u16> = "Speakers (USB)".encode_utf16().collect();
    let v = PropVariant::from_wide_string(units);
    assert!(v.is_wide_string());
    assert_eq!(v.variant_type(), VT_LPWSTR);
    assert_eq!(v.as_wide_string().as_deref(), Some("Speakers (USB)"));
}

#[test]
fn invalid_units_are_replaced() {
    let v = PropVariant::from_wide_string(vec![0x0041, 0xD800, 0x0042]);
    assert_eq!(v.as_wide_string().as_deref(), Some("A\u{FFFD}B"));
}

#[test]
fn other_variants_are_not_strings() {
    let v = PropVariant::from_variant_type(19);
    assert!(!v.is_wide_string());
    assert_eq!(v.as_wide_string(), None);
    let mut w = PropVariant::from_wide_string(vec![0x0041]);
    w.clear();
    assert_eq!(w.variant_type(), VT_EMPTY);
    assert_eq!(w.as_wide_string(), None);
    assert_eq!(PropVariant::default().variant_type(), VT_EMPTY);
    assert_eq!(PropVariant::new().as_wide_string(), None);
}
