use vstd::prelude::*;

use crate::error::AudioError;

verus! {

/// Format tag of integer PCM samples.
pub const WAVE_FORMAT_PCM: u16 = 0x0001;

/// Format tag of IEEE floating-point samples.
pub const WAVE_FORMAT_IEEE_FLOAT: u16 = 0x0003;

/// Format tag of the extensible descriptor, whose sub-format says the encoding.
pub const WAVE_FORMAT_EXTENSIBLE: u16 = 0xFFFE;

/// First field of the kernel-streaming sub-type identifier for PCM.
pub const KSDATAFORMAT_SUBTYPE_PCM_DATA1: u32 = 0x0000_0001;

/// First field of the kernel-streaming sub-type identifier for IEEE float.
pub const KSDATAFORMAT_SUBTYPE_IEEE_FLOAT_DATA1: u32 = 0x0000_0003;

/// A 128-bit globally unique identifier, in its four Windows fields.
#[derive(Debug, Clone, Copy)]
pub struct Guid {
    pub data1: u32,
    pub data2: u16,
    pub data3: u16,
    pub data4: [u8; 8],
}

/// The eight trailing bytes shared by the kernel-streaming audio sub-types.
pub open spec fn ks_subtype_tail() -> Seq<u8> {
    seq![0x80u8, 0x00u8, 0x00u8, 0xaau8, 0x00u8, 0x38u8, 0x9bu8, 0x71u8]
}

/// Two identifiers are the same when all four fields agree.
pub open spec fn guid_same(a: Guid, b: Guid) -> bool {
    &&& a.data1 == b.data1
    &&& a.data2 == b.data2
    &&& a.data3 == b.data3
    &&& a.data4@ == b.data4@
}

/// Whether `g` is the kernel-streaming audio sub-type with first field `data1`.
pub open spec fn is_ks_subtype(g: Guid, data1: u32) -> bool {
    &&& g.data1 == data1
    &&& g.data2 == 0x0000
    &&& g.data3 == 0x0010
    &&& g.data4@ == ks_subtype_tail()
}

impl Guid {
    /// The kernel-streaming audio sub-type whose first field is `data1`.
    pub fn ks_subtype(data1: u32) -> (g: Guid)
        ensures
            is_ks_subtype(g, data1),
    {
        let g = Guid {
            data1,
            data2: 0x0000,
            data3: 0x0010,
            data4: [0x80, 0x00, 0x00, 0xaa, 0x00, 0x38, 0x9b, 0x71],
        };
        assert(g.data4@ =~= ks_subtype_tail());
        g
    }
}

/// Compares two identifiers field by field.
pub fn guid_eq(guid1: &Guid, guid2: &Guid) -> (r: bool)
    ensures
        r == guid_same(*guid1, *guid2),
{
    if guid1.data1 != guid2.data1 || guid1.data2 != guid2.data2 || guid1.data3 != guid2.data3 {
        return false;
    }
    let mut i: usize = 0;
    while i < 8
        invariant
            i <= 8,
            forall|j: int| 0 <= j < i ==> guid1.data4@[j] == guid2.data4@[j],
        decreases 8 - i,
    {
        if guid1.data4[i] != guid2.data4[i] {
            return false;
        }
        i = i + 1;
    }
    assert(guid1.data4@ =~= guid2.data4@);
    true
}

/// The encoding family named by a descriptor's format tag.
#[derive(Debug, Clone, Copy, PartialEq, Eq, Hash, Structural)]
pub enum WaveFormatType {
    Pcm,
    Float,
    Extensible,
}

/// The format type named by `tag`, or `None` for an unrecognized tag.
pub open spec fn wave_format_type_of(tag: u16) -> Option<WaveFormatType> {
    if tag == WAVE_FORMAT_PCM {
        Some(WaveFormatType::Pcm)
    } else if tag == WAVE_FORMAT_IEEE_FLOAT {
        Some(WaveFormatType::Float)
    } else if tag == WAVE_FORMAT_EXTENSIBLE {
        Some(WaveFormatType::Extensible)
    } else {
        None
    }
}

impl WaveFormatType {
    /// The format tag that names this type.
    pub open spec fn spec_tag(self) -> u16 {
        match self {
            WaveFormatType::Pcm => WAVE_FORMAT_PCM,
            WaveFormatType::Float => WAVE_FORMAT_IEEE_FLOAT,
            WaveFormatType::Extensible => WAVE_FORMAT_EXTENSIBLE,
        }
    }

    /// Classifies a format tag; an unrecognized tag comes back as the error.
    pub fn try_from_tag(word: u16) -> (r: Result<WaveFormatType, u16>)
        ensures
            match wave_format_type_of(word) {
                Some(t) => r == Ok::<WaveFormatType, u16>(t),
                None => r == Err::<WaveFormatType, u16>(word),
            },
    {
        if word == WAVE_FORMAT_PCM {
            Ok(WaveFormatType::Pcm)
        } else if word == WAVE_FORMAT_IEEE_FLOAT {
            Ok(WaveFormatType::Float)
        } else if word == WAVE_FORMAT_EXTENSIBLE {
            Ok(WaveFormatType::Extensible)
        } else {
            Err(word)
        }
    }

    /// The format tag that names this type.
    pub fn tag(self) -> (r: u16)
        ensures
            r == self.spec_tag(),
            wave_format_type_of(r) == Some(self),
    {
        match self {
            WaveFormatType::Pcm => WAVE_FORMAT_PCM,
            WaveFormatType::Float => WAVE_FORMAT_IEEE_FLOAT,
            WaveFormatType::Extensible => WAVE_FORMAT_EXTENSIBLE,
        }
    }
}

/// The sample encoding named by an extensible descriptor's sub-format.
#[derive(Debug, Clone, Copy, PartialEq, Eq, Hash, Structural)]
pub enum KsDataFormatType {
    Pcm,
    Float,
}

/// The sub-format named by `g`, or `None` for an unrecognized identifier.
pub open spec fn ks_data_format_type_of(g: Guid) -> Option<KsDataFormatType> {
    if is_ks_subtype(g, KSDATAFORMAT_SUBTYPE_PCM_DATA1) {
        Some(KsDataFormatType::Pcm)
    } else if is_ks_subtype(g, KSDATAFORMAT_SUBTYPE_IEEE_FLOAT_DATA1) {
        Some(KsDataFormatType::Float)
    } else {
        None
    }
}

impl KsDataFormatType {
    /// Classifies a sub-format identifier against the table of known ones; an
    /// unrecognized identifier comes back as the error.
    pub fn try_from_guid(guid: Guid) -> (r: Result<KsDataFormatType, Guid>)
        ensures
            match ks_data_format_type_of(guid) {
                Some(t) => r == Ok::<KsDataFormatType, Guid>(t),
                None => r == Err::<KsDataFormatType, Guid>(guid),
            },
    {
        let pcm = Guid::ks_subtype(KSDATAFORMAT_SUBTYPE_PCM_DATA1);
        let float = Guid::ks_subtype(KSDATAFORMAT_SUBTYPE_IEEE_FLOAT_DATA1);
        if guid_eq(&guid, &pcm) {
            Ok(KsDataFormatType::Pcm)
        } else if guid_eq(&guid, &float) {
            Ok(KsDataFormatType::Float)
        } else {
            Err(guid)
        }
    }
}

/// A device's wave format descriptor, held as plain values: the header
/// fields, and the sub-format identifier, which is meaningful only when the
/// format tag is the extensible one.
#[derive(Debug, Clone, Copy)]
pub struct WaveFormatExtensible {
    pub format_tag: u16,
    pub channels: u16,
    pub samples_per_sec: u32,
    pub avg_bytes_per_sec: u32,
    pub block_align: u16,
    pub bits_per_sample: u16,
    pub sub_format: Guid,
}

impl WaveFormatExtensible {
    /// Whether this descriptor can feed the render path: a positive sample
    /// rate, one or two channels and a recognized format tag.
    pub open spec fn spec_is_renderable(self) -> bool {
        &&& self.samples_per_sec > 0
        &&& 1 <= self.channels <= 2
        &&& wave_format_type_of(self.format_tag) is Some
    }

    /// The format type, or the unrecognized tag as the error.
    pub fn wave_format_type(&self) -> (r: Result<WaveFormatType, u16>)
        ensures
            match wave_format_type_of(self.format_tag) {
                Some(t) => r == Ok::<WaveFormatType, u16>(t),
                None => r == Err::<WaveFormatType, u16>(self.format_tag),
            },
    {
        WaveFormatType::try_from_tag(self.format_tag)
    }

    /// Whether the format tag is the extensible one.
    pub fn is_wave_format_extensible(&self) -> (r: bool)
        ensures
            r == (self.format_tag == WAVE_FORMAT_EXTENSIBLE),
    {
        match self.wave_format_type() {
            Ok(WaveFormatType::Extensible) => true,
            _ => false,
        }
    }

    /// The sub-format, present only for an extensible descriptor.
    pub fn ks_data_format_type(&self) -> (r: Option<Result<KsDataFormatType, Guid>>)
        ensures
            self.format_tag != WAVE_FORMAT_EXTENSIBLE ==> r is None,
            self.format_tag == WAVE_FORMAT_EXTENSIBLE ==> match ks_data_format_type_of(
                self.sub_format,
            ) {
                Some(t) => r == Some(Ok::<KsDataFormatType, Guid>(t)),
                None => r == Some(Err::<KsDataFormatType, Guid>(self.sub_format)),
            },
    {
        if !self.is_wave_format_extensible() {
            return None;
        }
        Some(KsDataFormatType::try_from_guid(self.sub_format))
    }

    /// The number of interleaved channels.
    pub fn num_channels(&self) -> (r: u16)
        ensures
            r == self.channels,
    {
        self.channels
    }

    /// The number of frames per second.
    pub fn samples_per_sec(&self) -> (r: u32)
        ensures
            r == self.samples_per_sec,
    {
        self.samples_per_sec
    }

    /// Checks that the descriptor can feed the render path; a device whose
    /// mix format has no frames per second, more than two channels or an
    /// unrecognized tag is refused rather than rendered to by default.
    pub fn check_renderable(&self) -> (r: Result<(), AudioError>)
        ensures
            r is Ok <==> self.spec_is_renderable(),
            r is Err ==> r == Err::<(), AudioError>(AudioError::UnsupportedFormat),
    {
        if self.samples_per_sec == 0 || self.channels == 0 || self.channels > 2 {
            return Err(AudioError::UnsupportedFormat);
        }
        match self.wave_format_type() {
            Ok(_) => Ok(()),
            Err(_) => Err(AudioError::UnsupportedFormat),
        }
    }
}

} // verus!
