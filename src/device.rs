use vstd::prelude::*;
use vstd::set_lib::{lemma_int_range, set_int_range};

use crate::error::AudioError;
use crate::property::{decode_utf16_lossy, utf16_lossy};

verus! {

/// The direction of audio data through an endpoint.
#[derive(Debug, Clone, Copy, PartialEq, Eq, Hash, Structural)]
pub enum DataFlow {
    Render,
    Capture,
    All,
}

impl DataFlow {
    /// The operating system's value for this flow.
    pub fn raw(self) -> (r: u32)
        ensures
            r == match self {
                DataFlow::Render => 0u32,
                DataFlow::Capture => 1u32,
                DataFlow::All => 2u32,
            },
    {
        match self {
            DataFlow::Render => 0,
            DataFlow::Capture => 1,
            DataFlow::All => 2,
        }
    }

    /// Whether an endpoint of flow `endpoint` is selected by this flow.
    pub open spec fn spec_selects(self, endpoint: DataFlow) -> bool {
        self == DataFlow::All || self == endpoint
    }

    /// Whether an endpoint of flow `endpoint` is selected by this flow.
    pub fn selects(self, endpoint: DataFlow) -> (r: bool)
        ensures
            r == self.spec_selects(endpoint),
    {
        match self {
            DataFlow::All => true,
            DataFlow::Render => endpoint == DataFlow::Render,
            DataFlow::Capture => endpoint == DataFlow::Capture,
        }
    }
}

/// Whether a session shares the device's hardware buffer with other
/// applications or owns it alone.
#[derive(Debug, Clone, Copy, PartialEq, Eq, Hash, Structural)]
pub enum AudioClientShareMode {
    Shared,
    Exclusive,
}

impl AudioClientShareMode {
    /// The operating system's value for this mode.
    pub open spec fn raw_spec(self) -> u32 {
        match self {
            AudioClientShareMode::Shared => 0u32,
            AudioClientShareMode::Exclusive => 1u32,
        }
    }

    /// The operating system's value for this mode.
    pub fn raw(self) -> (r: u32)
        ensures
            r == self.raw_spec(),
    {
        match self {
            AudioClientShareMode::Shared => 0,
            AudioClientShareMode::Exclusive => 1,
        }
    }
}

/// The endpoint is present and enabled.
pub const DEVICE_STATE_ACTIVE: u32 = 0x0000_0001;

/// The endpoint is present but disabled.
pub const DEVICE_STATE_DISABLED: u32 = 0x0000_0002;

/// The endpoint's adapter is not present.
pub const DEVICE_STATE_NOTPRESENT: u32 = 0x0000_0004;

/// The endpoint's jack is unplugged.
pub const DEVICE_STATE_UNPLUGGED: u32 = 0x0000_0008;

/// The defined device-state flags together.
pub const DEVICE_STATEMASK_ALL: u32 = 0x0000_000F;

/// A set of device lifecycle states, as a bit mask.
#[derive(Debug, Clone, Copy, PartialEq, Eq, Hash, Structural)]
pub struct DeviceState {
    bits: u32,
}

impl DeviceState {
    /// The endpoint is present and enabled.
    pub fn active() -> (r: DeviceState)
        ensures
            r.spec_bits() == DEVICE_STATE_ACTIVE,
            r.wf(),
    {
        assert(0x1u32 & !0xFu32 == 0u32) by (bit_vector);
        DeviceState { bits: DEVICE_STATE_ACTIVE }
    }

    /// The endpoint is present but disabled.
    pub fn disabled() -> (r: DeviceState)
        ensures
            r.spec_bits() == DEVICE_STATE_DISABLED,
            r.wf(),
    {
        assert(0x2u32 & !0xFu32 == 0u32) by (bit_vector);
        DeviceState { bits: DEVICE_STATE_DISABLED }
    }

    /// The endpoint's adapter is not present.
    pub fn not_present() -> (r: DeviceState)
        ensures
            r.spec_bits() == DEVICE_STATE_NOTPRESENT,
            r.wf(),
    {
        assert(0x4u32 & !0xFu32 == 0u32) by (bit_vector);
        DeviceState { bits: DEVICE_STATE_NOTPRESENT }
    }

    /// The endpoint's jack is unplugged.
    pub fn unplugged() -> (r: DeviceState)
        ensures
            r.spec_bits() == DEVICE_STATE_UNPLUGGED,
            r.wf(),
    {
        assert(0x8u32 & !0xFu32 == 0u32) by (bit_vector);
        DeviceState { bits: DEVICE_STATE_UNPLUGGED }
    }

    /// Every defined state.
    pub fn all() -> (r: DeviceState)
        ensures
            r.spec_bits() == DEVICE_STATEMASK_ALL,
            r.wf(),
    {
        assert(0xFu32 & !0xFu32 == 0u32) by (bit_vector);
        DeviceState { bits: DEVICE_STATEMASK_ALL }
    }

    /// The raw mask.
    pub closed spec fn spec_bits(self) -> u32 {
        self.bits
    }

    /// Every state value holds defined flags only.
    pub open spec fn wf(self) -> bool {
        self.spec_bits() & !DEVICE_STATEMASK_ALL == 0
    }

    /// The raw mask.
    pub fn bits(&self) -> (r: u32)
        ensures
            r == self.spec_bits(),
    {
        self.bits
    }

    /// The state with mask `bits`, or `None` when it holds an undefined flag.
    pub fn from_bits(bits: u32) -> (r: Option<DeviceState>)
        ensures
            r is Some <==> bits & !DEVICE_STATEMASK_ALL == 0,
            r matches Some(s) ==> s.spec_bits() == bits && s.wf(),
    {
        if bits & !DEVICE_STATEMASK_ALL == 0 {
            Some(DeviceState { bits })
        } else {
            None
        }
    }

    /// Reads a state value reported by the operating system; an undefined
    /// value is an error carrying it.
    pub fn from_raw(bits: u32) -> (r: Result<DeviceState, AudioError>)
        ensures
            r is Ok <==> bits & !DEVICE_STATEMASK_ALL == 0,
            r matches Ok(s) ==> s.spec_bits() == bits,
            r is Err ==> r == Err::<DeviceState, AudioError>(AudioError::UnknownDeviceState(bits)),
    {
        match DeviceState::from_bits(bits) {
            Some(s) => Ok(s),
            None => Err(AudioError::UnknownDeviceState(bits)),
        }
    }

    /// Whether every flag of `other` is in this set.
    pub fn contains(&self, other: DeviceState) -> (r: bool)
        ensures
            r == (self.spec_bits() & other.spec_bits() == other.spec_bits()),
    {
        self.bits & other.bits == other.bits
    }

    /// Whether this set and `other` share a flag.
    pub open spec fn spec_intersects(self, other: DeviceState) -> bool {
        self.spec_bits() & other.spec_bits() != 0
    }

    /// Whether this set and `other` share a flag.
    pub fn intersects(&self, other: DeviceState) -> (r: bool)
        ensures
            r == self.spec_intersects(other),
    {
        self.bits & other.bits != 0
    }
}

/// How a property store is opened.
#[derive(Debug, Clone, Copy, PartialEq, Eq, Hash, Structural)]
pub struct StorageAccessMode {
    bits: u32,
}

impl StorageAccessMode {
    /// Read access.
    pub fn read() -> (r: StorageAccessMode)
        ensures
            r.spec_bits() == 0x0000_0000u32,
    {
        StorageAccessMode { bits: 0x0000_0000 }
    }

    /// Write access.
    pub fn write() -> (r: StorageAccessMode)
        ensures
            r.spec_bits() == 0x0000_0001u32,
    {
        StorageAccessMode { bits: 0x0000_0001 }
    }

    /// Read and write access.
    pub fn read_write() -> (r: StorageAccessMode)
        ensures
            r.spec_bits() == 0x0000_0002u32,
    {
        StorageAccessMode { bits: 0x0000_0002 }
    }

    /// The raw mode.
    pub closed spec fn spec_bits(self) -> u32 {
        self.bits
    }

    /// The raw mode.
    pub fn bits(&self) -> (r: u32)
        ensures
            r == self.spec_bits(),
    {
        self.bits
    }
}

/// One audio endpoint as seen at enumeration time.
#[derive(Debug)]
pub struct DeviceEntry {
    pub id: String,
    pub flow: DataFlow,
    pub state: DeviceState,
}

impl DeviceEntry {
    /// An endpoint whose identifier the operating system gave as UTF-16
    /// units; the identifier is kept as their lossy decoding.
    pub fn from_wide_id(units: &[u16], flow: DataFlow, state: DeviceState) -> (r: DeviceEntry)
        ensures
            r.id@ == utf16_lossy(units@),
            r.flow == flow,
            r.state == state,
    {
        DeviceEntry { id: decode_utf16_lossy(units), flow, state }
    }
}

/// Whether an endpoint belongs in a collection enumerated with `flow` and
/// `mask`.
pub open spec fn endpoint_selected(e: DeviceEntry, flow: DataFlow, mask: DeviceState) -> bool {
    flow.spec_selects(e.flow) && e.state.spec_intersects(mask)
}

/// The endpoints of `all` selected by `flow` and `mask`, in their order.
pub open spec fn selected_endpoints(
    all: Seq<DeviceEntry>,
    flow: DataFlow,
    mask: DeviceState,
) -> Seq<DeviceEntry>
    decreases all.len(),
{
    if all.len() == 0 {
        Seq::empty()
    } else {
        let rest = selected_endpoints(all.drop_last(), flow, mask);
        if endpoint_selected(all.last(), flow, mask) {
            rest.push(all.last())
        } else {
            rest
        }
    }
}

proof fn lemma_selected_len(all: Seq<DeviceEntry>, flow: DataFlow, mask: DeviceState)
    ensures
        selected_endpoints(all, flow, mask).len() <= all.len(),
    decreases all.len(),
{
    if all.len() > 0 {
        lemma_selected_len(all.drop_last(), flow, mask);
    }
}

/// An ordered snapshot of the endpoints that matched an enumeration; it does
/// not follow later changes to the machine's devices.
pub struct MultiMediaDeviceCollection {
    entries: Vec<DeviceEntry>,
}

impl MultiMediaDeviceCollection {
    /// The endpoints of the snapshot, in order.
    pub closed spec fn view(&self) -> Seq<DeviceEntry> {
        self.entries@
    }

    /// The count fits the operating system's unsigned 32-bit index.
    pub open spec fn wf(&self) -> bool {
        self.view().len() <= u32::MAX
    }

    /// The device at `index`, if there is one.
    pub open spec fn spec_item(&self, index: u32) -> Option<DeviceEntry> {
        if index < self.view().len() {
            Some(self.view()[index as int])
        } else {
            None
        }
    }

    /// Takes a snapshot of the endpoints of `all` whose flow is selected by
    /// `flow` and whose state shares a flag with `mask`, keeping their order.
    pub fn from_endpoints(all: Vec<DeviceEntry>, flow: DataFlow, mask: DeviceState) -> (r: Self)
        requires
            all@.len() <= u32::MAX,
        ensures
            r.wf(),
            r.view() == selected_endpoints(all@, flow, mask),
    {
        let ghost all_seq = all@;
        let mut entries: Vec<DeviceEntry> = Vec::new();
        for e in it: all.into_iter()
            invariant
                it.seq() == all_seq,
                entries@ == selected_endpoints(all_seq.take(it.index() as int), flow, mask),
        {
            proof {
                let i = it.index() as int;
                assert(all_seq.take(i + 1).drop_last() =~= all_seq.take(i));
                assert(all_seq.take(i + 1).last() == e);
            }
            if flow.selects(e.flow) && e.state.intersects(mask) {
                entries.push(e);
            }
        }
        proof {
            assert(all_seq.take(all_seq.len() as int) =~= all_seq);
            lemma_selected_len(all_seq, flow, mask);
        }
        MultiMediaDeviceCollection { entries }
    }

    /// The number of devices in the snapshot.
    pub fn get_count(&self) -> (r: u32)
        requires
            self.wf(),
        ensures
            r == self.view().len(),
    {
        self.entries.len() as u32
    }

    /// The device at `index`; an index past the end is an error.
    pub fn item(&self, index: u32) -> (r: Result<&DeviceEntry, AudioError>)
        ensures
            r is Ok <==> self.spec_item(index) is Some,
            r matches Ok(e) ==> Some(*e) == self.spec_item(index),
            r is Err ==> r == Err::<&DeviceEntry, AudioError>(AudioError::InvalidIndex(index)),
    {
        if (index as usize) < self.entries.len() {
            Ok(&self.entries[index as usize])
        } else {
            Err(AudioError::InvalidIndex(index))
        }
    }

    /// The indices at which a device can be fetched are exactly `0` up to the
    /// count, with none missing, so there are as many of them as the count.
    pub proof fn lemma_count_matches_items(&self)
        requires
            self.wf(),
        ensures
            Set::new(|i: int| 0 <= i <= u32::MAX && self.spec_item(i as u32) is Some)
                == set_int_range(0, self.view().len() as int),
            Set::new(
                |i: int| 0 <= i <= u32::MAX && self.spec_item(i as u32) is Some,
            ).len() == self.view().len(),
    {
        let s = Set::new(|i: int| 0 <= i <= u32::MAX && self.spec_item(i as u32) is Some);
        assert(s =~= set_int_range(0, self.view().len() as int));
        lemma_int_range(0, self.view().len() as int);
    }
}

} // verus!
