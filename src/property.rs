use vstd::prelude::*;

verus! {

/// Variant type of an empty property value.
pub const VT_EMPTY: u16 = 0;

/// Variant type of a property value that holds a wide (UTF-16) string.
pub const VT_LPWSTR: u16 = 31;

/// The text that lossy UTF-16 decoding gives for `units`.
pub uninterp spec fn utf16_lossy(units: Seq<u16>) -> Seq<char>;

/// Relies on `widestring::U16Str::to_string_lossy`, which decodes the units as
/// UTF-16 with each invalid unit replaced; the text depends on the units alone.
#[verifier::external_body]
pub(crate) fn decode_utf16_lossy(units: &[u16]) -> (r: String)
    ensures
        r@ == utf16_lossy(units@),
        units@.len() == 0 ==> r@.len() == 0,
{
    widestring::U16Str::from_slice(units).to_string_lossy()
}

/// A typed property value read from a device's property store. Only wide
/// strings are interpreted; any other variant is kept as its type tag.
#[derive(Debug)]
pub struct PropVariant {
    vt: u16,
    wide: Vec<u16>,
}

impl PropVariant {
    /// The variant type tag.
    pub closed spec fn spec_vt(&self) -> u16 {
        self.vt
    }

    /// The UTF-16 units held, empty unless the value is a wide string.
    pub closed spec fn spec_units(&self) -> Seq<u16> {
        self.wide@
    }

    /// An empty value.
    pub fn new() -> (r: PropVariant)
        ensures
            r.spec_vt() == VT_EMPTY,
            r.spec_units().len() == 0,
    {
        PropVariant { vt: VT_EMPTY, wide: Vec::new() }
    }

    /// A wide-string value holding `units`.
    pub fn from_wide_string(units: Vec<u16>) -> (r: PropVariant)
        ensures
            r.spec_vt() == VT_LPWSTR,
            r.spec_units() == units@,
    {
        PropVariant { vt: VT_LPWSTR, wide: units }
    }

    /// A value of variant type `vt` whose contents are not interpreted.
    pub fn from_variant_type(vt: u16) -> (r: PropVariant)
        ensures
            r.spec_vt() == vt,
            r.spec_units().len() == 0,
    {
        PropVariant { vt, wide: Vec::new() }
    }

    /// The variant type tag.
    pub fn variant_type(&self) -> (r: u16)
        ensures
            r == self.spec_vt(),
    {
        self.vt
    }

    /// Whether the value holds a wide string.
    pub fn is_wide_string(&self) -> (r: bool)
        ensures
            r == (self.spec_vt() == VT_LPWSTR),
    {
        self.vt == VT_LPWSTR
    }

    /// The wide string decoded to text, or `None` for another variant.
    pub fn as_wide_string(&self) -> (r: Option<String>)
        ensures
            r is Some <==> self.spec_vt() == VT_LPWSTR,
            r matches Some(s) ==> s@ == utf16_lossy(self.spec_units()),
    {
        if !self.is_wide_string() {
            return None;
        }
        Some(decode_utf16_lossy(self.wide.as_slice()))
    }

    /// Empties the value.
    pub fn clear(&mut self)
        ensures
            final(self).spec_vt() == VT_EMPTY,
            final(self).spec_units().len() == 0,
    {
        self.vt = VT_EMPTY;
        self.wide = Vec::new();
    }
}

impl Default for PropVariant {
    fn default() -> (r: PropVariant)
        ensures
            r.spec_vt() == VT_EMPTY,
            r.spec_units().len() == 0,
    {
        PropVariant::new()
    }
}

} // verus!
