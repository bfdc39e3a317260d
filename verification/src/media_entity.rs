//! Entities: the processing and I/O nodes of the device graph.

use crate::error::Error;
use crate::media_entity_desc::MediaEntityDesc;
use crate::media_entity_desc::MediaEntityDescView;
use crate::text::c_str_text;
use crate::text::decode_c_str;
use crate::version::Version;
use vstd::array::array_as_slice;
use vstd::prelude::*;
use vstd::std_specs::convert::FromSpecImpl;
use vstd::std_specs::convert::TryFromSpecImpl;

verus! {

/// What an entity does.
#[derive(Debug, Copy, Clone, PartialEq, Eq, PartialOrd, Ord, Structural)]
pub enum MediaEntityFunctions {
    /// Unknown entity: the driver did not initialise it properly.
    Unknown,
    /// Unknown sub-device: the driver did not initialise it properly.
    V4L2SubdevUnknown,
    /// Data streaming input or output.
    IoV4L,
    /// VBI streaming input or output.
    IoVBI,
    /// Software defined radio streaming input or output.
    IoSWRadio,
    /// Digital TV streaming input or output.
    IoDTV,
    /// Digital TV demodulator.
    DTVDemod,
    /// MPEG transport stream demultiplexer.
    TSDemux,
    /// Digital TV conditional access module.
    DTVCondAccess,
    /// Digital TV network decapsulation.
    DTVNetDecap,
    /// Camera video sensor.
    CAMSensor,
    /// Flash controller.
    Flash,
    /// Lens controller.
    Lens,
    /// Analog video decoder.
    ATVDecoder,
    /// Tuner for digital TV, analog TV or radio.
    Tuner,
    /// IF-PLL video decoder.
    IFVIDDecoder,
    /// IF-PLL sound decoder.
    IFAUDDecoder,
    /// Audio capture.
    AudioCapture,
    /// Audio playback.
    AudioPlayback,
    /// Audio mixer.
    AudioMixer,
    /// Video composer.
    ProcVideoComposer,
    /// Video pixel formatter.
    ProcVideoPixelFormatter,
    /// Video pixel encoding converter.
    ProcVideoPixelEncConv,
    /// Video look-up table.
    ProcVideoLUT,
    /// Video scaler.
    ProcVideoScaler,
    /// Video statistics computation.
    ProcVideoStatistics,
    /// Video encoder.
    ProcVideoEncoder,
    /// Video decoder.
    ProcVideoDecoder,
    /// Video multiplexer.
    VIDMux,
    /// Video interface bridge.
    VIDIFBridge,
    /// Digital video decoder.
    DVDecoder,
    /// Digital video encoder.
    DVEncoder,
}

impl MediaEntityFunctions {
    /// The number that the kernel gives the function.
    pub open spec fn spec_code(self) -> u32 {
        match self {
            MediaEntityFunctions::Unknown => 0x0000_0000,
            MediaEntityFunctions::V4L2SubdevUnknown => 0x0002_0000,
            MediaEntityFunctions::IoV4L => 0x0001_0001,
            MediaEntityFunctions::IoVBI => 0x0000_1002,
            MediaEntityFunctions::IoSWRadio => 0x0000_1003,
            MediaEntityFunctions::IoDTV => 0x0000_1001,
            MediaEntityFunctions::DTVDemod => 0x0000_0001,
            MediaEntityFunctions::TSDemux => 0x0000_0002,
            MediaEntityFunctions::DTVCondAccess => 0x0000_0003,
            MediaEntityFunctions::DTVNetDecap => 0x0000_0004,
            MediaEntityFunctions::CAMSensor => 0x0002_0001,
            MediaEntityFunctions::Flash => 0x0002_0002,
            MediaEntityFunctions::Lens => 0x0002_0003,
            MediaEntityFunctions::ATVDecoder => 0x0002_0004,
            MediaEntityFunctions::Tuner => 0x0002_0005,
            MediaEntityFunctions::IFVIDDecoder => 0x0000_2001,
            MediaEntityFunctions::IFAUDDecoder => 0x0000_2002,
            MediaEntityFunctions::AudioCapture => 0x0000_3001,
            MediaEntityFunctions::AudioPlayback => 0x0000_3002,
            MediaEntityFunctions::AudioMixer => 0x0000_3003,
            MediaEntityFunctions::ProcVideoComposer => 0x0000_4001,
            MediaEntityFunctions::ProcVideoPixelFormatter => 0x0000_4002,
            MediaEntityFunctions::ProcVideoPixelEncConv => 0x0000_4003,
            MediaEntityFunctions::ProcVideoLUT => 0x0000_4004,
            MediaEntityFunctions::ProcVideoScaler => 0x0000_4005,
            MediaEntityFunctions::ProcVideoStatistics => 0x0000_4006,
            MediaEntityFunctions::ProcVideoEncoder => 0x0000_4007,
            MediaEntityFunctions::ProcVideoDecoder => 0x0000_4008,
            MediaEntityFunctions::VIDMux => 0x0000_5001,
            MediaEntityFunctions::VIDIFBridge => 0x0000_5002,
            MediaEntityFunctions::DVDecoder => 0x0000_6001,
            MediaEntityFunctions::DVEncoder => 0x0000_6002,
        }
    }

    /// The function with the number `v`, or the error that names `v` where
    /// no function has that number.
    pub open spec fn decoded(v: u32) -> Result<MediaEntityFunctions, Error> {
        if v == 0x0000_0000 {
            Ok(MediaEntityFunctions::Unknown)
        } else if v == 0x0002_0000 {
            Ok(MediaEntityFunctions::V4L2SubdevUnknown)
        } else if v == 0x0001_0001 {
            Ok(MediaEntityFunctions::IoV4L)
        } else if v == 0x0000_1002 {
            Ok(MediaEntityFunctions::IoVBI)
        } else if v == 0x0000_1003 {
            Ok(MediaEntityFunctions::IoSWRadio)
        } else if v == 0x0000_1001 {
            Ok(MediaEntityFunctions::IoDTV)
        } else if v == 0x0000_0001 {
            Ok(MediaEntityFunctions::DTVDemod)
        } else if v == 0x0000_0002 {
            Ok(MediaEntityFunctions::TSDemux)
        } else if v == 0x0000_0003 {
            Ok(MediaEntityFunctions::DTVCondAccess)
        } else if v == 0x0000_0004 {
            Ok(MediaEntityFunctions::DTVNetDecap)
        } else if v == 0x0002_0001 {
            Ok(MediaEntityFunctions::CAMSensor)
        } else if v == 0x0002_0002 {
            Ok(MediaEntityFunctions::Flash)
        } else if v == 0x0002_0003 {
            Ok(MediaEntityFunctions::Lens)
        } else if v == 0x0002_0004 {
            Ok(MediaEntityFunctions::ATVDecoder)
        } else if v == 0x0002_0005 {
            Ok(MediaEntityFunctions::Tuner)
        } else if v == 0x0000_2001 {
            Ok(MediaEntityFunctions::IFVIDDecoder)
        } else if v == 0x0000_2002 {
            Ok(MediaEntityFunctions::IFAUDDecoder)
        } else if v == 0x0000_3001 {
            Ok(MediaEntityFunctions::AudioCapture)
        } else if v == 0x0000_3002 {
            Ok(MediaEntityFunctions::AudioPlayback)
        } else if v == 0x0000_3003 {
            Ok(MediaEntityFunctions::AudioMixer)
        } else if v == 0x0000_4001 {
            Ok(MediaEntityFunctions::ProcVideoComposer)
        } else if v == 0x0000_4002 {
            Ok(MediaEntityFunctions::ProcVideoPixelFormatter)
        } else if v == 0x0000_4003 {
            Ok(MediaEntityFunctions::ProcVideoPixelEncConv)
        } else if v == 0x0000_4004 {
            Ok(MediaEntityFunctions::ProcVideoLUT)
        } else if v == 0x0000_4005 {
            Ok(MediaEntityFunctions::ProcVideoScaler)
        } else if v == 0x0000_4006 {
            Ok(MediaEntityFunctions::ProcVideoStatistics)
        } else if v == 0x0000_4007 {
            Ok(MediaEntityFunctions::ProcVideoEncoder)
        } else if v == 0x0000_4008 {
            Ok(MediaEntityFunctions::ProcVideoDecoder)
        } else if v == 0x0000_5001 {
            Ok(MediaEntityFunctions::VIDMux)
        } else if v == 0x0000_5002 {
            Ok(MediaEntityFunctions::VIDIFBridge)
        } else if v == 0x0000_6001 {
            Ok(MediaEntityFunctions::DVDecoder)
        } else if v == 0x0000_6002 {
            Ok(MediaEntityFunctions::DVEncoder)
        } else {
            Err(Error::EntityFunctionsParseError { from: v })
        }
    }

    /// The number that the kernel gives the function.
    #[verifier::when_used_as_spec(spec_code)]
    pub fn code(self) -> (v: u32)
        ensures
            v == self.spec_code(),
    {
        match self {
            MediaEntityFunctions::Unknown => 0x0000_0000,
            MediaEntityFunctions::V4L2SubdevUnknown => 0x0002_0000,
            MediaEntityFunctions::IoV4L => 0x0001_0001,
            MediaEntityFunctions::IoVBI => 0x0000_1002,
            MediaEntityFunctions::IoSWRadio => 0x0000_1003,
            MediaEntityFunctions::IoDTV => 0x0000_1001,
            MediaEntityFunctions::DTVDemod => 0x0000_0001,
            MediaEntityFunctions::TSDemux => 0x0000_0002,
            MediaEntityFunctions::DTVCondAccess => 0x0000_0003,
            MediaEntityFunctions::DTVNetDecap => 0x0000_0004,
            MediaEntityFunctions::CAMSensor => 0x0002_0001,
            MediaEntityFunctions::Flash => 0x0002_0002,
            MediaEntityFunctions::Lens => 0x0002_0003,
            MediaEntityFunctions::ATVDecoder => 0x0002_0004,
            MediaEntityFunctions::Tuner => 0x0002_0005,
            MediaEntityFunctions::IFVIDDecoder => 0x0000_2001,
            MediaEntityFunctions::IFAUDDecoder => 0x0000_2002,
            MediaEntityFunctions::AudioCapture => 0x0000_3001,
            MediaEntityFunctions::AudioPlayback => 0x0000_3002,
            MediaEntityFunctions::AudioMixer => 0x0000_3003,
            MediaEntityFunctions::ProcVideoComposer => 0x0000_4001,
            MediaEntityFunctions::ProcVideoPixelFormatter => 0x0000_4002,
            MediaEntityFunctions::ProcVideoPixelEncConv => 0x0000_4003,
            MediaEntityFunctions::ProcVideoLUT => 0x0000_4004,
            MediaEntityFunctions::ProcVideoScaler => 0x0000_4005,
            MediaEntityFunctions::ProcVideoStatistics => 0x0000_4006,
            MediaEntityFunctions::ProcVideoEncoder => 0x0000_4007,
            MediaEntityFunctions::ProcVideoDecoder => 0x0000_4008,
            MediaEntityFunctions::VIDMux => 0x0000_5001,
            MediaEntityFunctions::VIDIFBridge => 0x0000_5002,
            MediaEntityFunctions::DVDecoder => 0x0000_6001,
            MediaEntityFunctions::DVEncoder => 0x0000_6002,
        }
    }
}

/// Decoding the number of a function gives that function.
pub proof fn lemma_entity_function_round_trip(f: MediaEntityFunctions)
    ensures
        MediaEntityFunctions::decoded(f.spec_code()) == Ok::<MediaEntityFunctions, Error>(f),
{
}

/// A number decodes to the one function that has it, and is refused, by
/// name, where no function has it.
pub proof fn lemma_entity_function_decoded(v: u32)
    ensures
        match MediaEntityFunctions::decoded(v) {
            Ok(f) => f.spec_code() == v,
            Err(e) => e == (Error::EntityFunctionsParseError { from: v }),
        },
{
}

impl TryFrom<u32> for MediaEntityFunctions {
    type Error = Error;

    /// Decodes the number of an entity function. A number that no function
    /// has is refused with `EntityFunctionsParseError`, which names it.
    fn try_from(v: u32) -> (r: Result<Self, Error>)
        ensures
            r == MediaEntityFunctions::decoded(v),
    {
        let r = match v {
            0x0000_0000 => Ok(MediaEntityFunctions::Unknown),
            0x0002_0000 => Ok(MediaEntityFunctions::V4L2SubdevUnknown),
            0x0001_0001 => Ok(MediaEntityFunctions::IoV4L),
            0x0000_1002 => Ok(MediaEntityFunctions::IoVBI),
            0x0000_1003 => Ok(MediaEntityFunctions::IoSWRadio),
            0x0000_1001 => Ok(MediaEntityFunctions::IoDTV),
            0x0000_0001 => Ok(MediaEntityFunctions::DTVDemod),
            0x0000_0002 => Ok(MediaEntityFunctions::TSDemux),
            0x0000_0003 => Ok(MediaEntityFunctions::DTVCondAccess),
            0x0000_0004 => Ok(MediaEntityFunctions::DTVNetDecap),
            0x0002_0001 => Ok(MediaEntityFunctions::CAMSensor),
            0x0002_0002 => Ok(MediaEntityFunctions::Flash),
            0x0002_0003 => Ok(MediaEntityFunctions::Lens),
            0x0002_0004 => Ok(MediaEntityFunctions::ATVDecoder),
            0x0002_0005 => Ok(MediaEntityFunctions::Tuner),
            0x0000_2001 => Ok(MediaEntityFunctions::IFVIDDecoder),
            0x0000_2002 => Ok(MediaEntityFunctions::IFAUDDecoder),
            0x0000_3001 => Ok(MediaEntityFunctions::AudioCapture),
            0x0000_3002 => Ok(MediaEntityFunctions::AudioPlayback),
            0x0000_3003 => Ok(MediaEntityFunctions::AudioMixer),
            0x0000_4001 => Ok(MediaEntityFunctions::ProcVideoComposer),
            0x0000_4002 => Ok(MediaEntityFunctions::ProcVideoPixelFormatter),
            0x0000_4003 => Ok(MediaEntityFunctions::ProcVideoPixelEncConv),
            0x0000_4004 => Ok(MediaEntityFunctions::ProcVideoLUT),
            0x0000_4005 => Ok(MediaEntityFunctions::ProcVideoScaler),
            0x0000_4006 => Ok(MediaEntityFunctions::ProcVideoStatistics),
            0x0000_4007 => Ok(MediaEntityFunctions::ProcVideoEncoder),
            0x0000_4008 => Ok(MediaEntityFunctions::ProcVideoDecoder),
            0x0000_5001 => Ok(MediaEntityFunctions::VIDMux),
            0x0000_5002 => Ok(MediaEntityFunctions::VIDIFBridge),
            0x0000_6001 => Ok(MediaEntityFunctions::DVDecoder),
            0x0000_6002 => Ok(MediaEntityFunctions::DVEncoder),
            other => Err(Error::EntityFunctionsParseError { from: other }),
        };
        r
    }
}

impl TryFromSpecImpl<u32> for MediaEntityFunctions {
    open spec fn obeys_try_from_spec() -> bool {
        true
    }

    open spec fn try_from_spec(v: u32) -> Result<Self, Error> {
        MediaEntityFunctions::decoded(v)
    }
}

/// Flag of an entity that is the default of its type.
pub const MEDIA_ENT_FL_DEFAULT: u32 = 0x1;

/// Flag of an entity that stands for a connector.
pub const MEDIA_ENT_FL_CONNECTOR: u32 = 0x2;

/// Every flag that an entity can have.
pub const MEDIA_ENT_FL_ALL: u32 = 0x3;

/// Flag on an entity id that asks for the next entity.
pub const MEDIA_ENT_ID_FLAG_NEXT: u32 = 0x8000_0000;

/// The flags of an entity: a set of bits, none of them unknown.
#[derive(Debug, Copy, Clone, PartialEq, Eq, PartialOrd, Ord, Structural)]
pub struct MediaEntityFlags {
    bits: u32,
}

impl View for MediaEntityFlags {
    type V = u32;

    closed spec fn view(&self) -> u32 {
        self.bits
    }
}

impl MediaEntityFlags {
    /// Whether `bits` holds entity flags and nothing else.
    pub open spec fn known(bits: u32) -> bool {
        bits & !MEDIA_ENT_FL_ALL == 0
    }

    #[verifier::type_invariant]
    closed spec fn well_formed(self) -> bool {
        Self::known(self.bits)
    }

    /// Flags are the same where their bits are.
    pub proof fn lemma_same_bits(a: Self, b: Self)
        ensures
            a@ == b@ <==> a == b,
    {
    }

    /// No flag.
    pub fn empty() -> (f: Self)
        ensures
            f@ == 0,
    {
        assert(0u32 & !0x3u32 == 0) by (bit_vector);
        Self { bits: 0 }
    }

    /// Every flag.
    pub fn all() -> (f: Self)
        ensures
            f@ == MEDIA_ENT_FL_ALL,
    {
        assert(0x3u32 & !0x3u32 == 0) by (bit_vector);
        Self { bits: MEDIA_ENT_FL_ALL }
    }

    /// The flag of the default entity of a type: the default audio, VBI or
    /// video device, the default camera sensor.
    pub fn default_entity() -> (f: Self)
        ensures
            f@ == MEDIA_ENT_FL_DEFAULT,
    {
        assert(0x1u32 & !0x3u32 == 0) by (bit_vector);
        Self { bits: MEDIA_ENT_FL_DEFAULT }
    }

    /// The flag of an entity that stands for a connector.
    pub fn connector() -> (f: Self)
        ensures
            f@ == MEDIA_ENT_FL_CONNECTOR,
    {
        assert(0x2u32 & !0x3u32 == 0) by (bit_vector);
        Self { bits: MEDIA_ENT_FL_CONNECTOR }
    }

    /// The flags with the bits `bits`, unless a bit of them is no flag.
    pub fn from_bits(bits: u32) -> (f: Option<Self>)
        ensures
            Self::known(bits) ==> f is Some && f.unwrap()@ == bits,
            !Self::known(bits) ==> f is None,
    {
        if bits & !MEDIA_ENT_FL_ALL == 0 {
            Some(Self { bits })
        } else {
            None
        }
    }

    /// The bits of the flags.
    pub fn bits(&self) -> (bits: u32)
        ensures
            bits == self@,
            Self::known(bits),
    {
        proof {
            use_type_invariant(self);
        }
        self.bits
    }

    /// Whether every flag of `other` is among these.
    pub fn contains(&self, other: Self) -> (b: bool)
        ensures
            b == (self@ & other@ == other@),
    {
        self.bits & other.bits == other.bits
    }

    /// The flags of both.
    pub fn union(self, other: Self) -> (f: Self)
        ensures
            f@ == self@ | other@,
    {
        proof {
            use_type_invariant(self);
            use_type_invariant(other);
        }
        let a = self.bits;
        let b = other.bits;
        assert((a | b) & !0x3u32 == 0) by (bit_vector)
            requires
                a & !0x3u32 == 0,
                b & !0x3u32 == 0,
        ;
        Self { bits: a | b }
    }

    /// The flags that `v` holds, or the error that names `v` where a bit of
    /// it is no entity flag.
    pub closed spec fn decoded(v: u32) -> Result<MediaEntityFlags, Error> {
        if Self::known(v) {
            Ok(MediaEntityFlags { bits: v })
        } else {
            Err(Error::EntityFlagsParseError { from: v })
        }
    }

    /// A value decodes to the flags with its bits, and is refused, by name,
    /// where a bit of it is no entity flag.
    pub proof fn lemma_decoded(v: u32)
        ensures
            Self::known(v) ==> Self::decoded(v) is Ok && Self::decoded(v).unwrap()@ == v,
            !Self::known(v) ==> Self::decoded(v) == Err::<Self, Error>(
                Error::EntityFlagsParseError { from: v },
            ),
    {
    }
}

impl TryFrom<u32> for MediaEntityFlags {
    type Error = Error;

    /// Decodes entity flags. A value with a bit that is no entity flag is
    /// refused with `EntityFlagsParseError`, which names the value.
    fn try_from(v: u32) -> (r: Result<Self, Error>)
        ensures
            r == MediaEntityFlags::decoded(v),
    {
        match MediaEntityFlags::from_bits(v) {
            Some(f) => Ok(f),
            None => Err(Error::EntityFlagsParseError { from: v }),
        }
    }
}

impl TryFromSpecImpl<u32> for MediaEntityFlags {
    open spec fn obeys_try_from_spec() -> bool {
        true
    }

    open spec fn try_from_spec(v: u32) -> Result<Self, Error> {
        MediaEntityFlags::decoded(v)
    }
}

/// The id of an entity. An id means something on one device and in one run
/// only.
#[derive(Debug, Copy, Clone, PartialEq, Eq, PartialOrd, Ord, Structural)]
pub struct EntityId(pub u32);

impl From<u32> for EntityId {
    fn from(id: u32) -> (r: Self) {
        EntityId(id)
    }
}

impl FromSpecImpl<u32> for EntityId {
    open spec fn obeys_from_spec() -> bool {
        true
    }

    open spec fn from_spec(id: u32) -> Self {
        EntityId(id)
    }
}

impl From<EntityId> for u32 {
    fn from(id: EntityId) -> (r: u32) {
        id.0
    }
}

impl FromSpecImpl<EntityId> for u32 {
    open spec fn obeys_from_spec() -> bool {
        true
    }

    open spec fn from_spec(id: EntityId) -> u32 {
        id.0
    }
}

impl EntityId {
    /// Whether the id carries the flag that asks for the next entity.
    pub open spec fn spec_has_next_flag(self) -> bool {
        self.0 >= MEDIA_ENT_ID_FLAG_NEXT
    }

    /// The id with the flag that asks for the next entity.
    pub open spec fn spec_with_next_flag(self) -> EntityId {
        if self.0 >= MEDIA_ENT_ID_FLAG_NEXT {
            self
        } else {
            EntityId((self.0 + MEDIA_ENT_ID_FLAG_NEXT) as u32)
        }
    }

    /// The id without the flag that asks for the next entity.
    pub open spec fn spec_without_next_flag(self) -> EntityId {
        if self.0 >= MEDIA_ENT_ID_FLAG_NEXT {
            EntityId((self.0 - MEDIA_ENT_ID_FLAG_NEXT) as u32)
        } else {
            self
        }
    }

    /// Whether the id carries the flag that asks for the next entity.
    #[verifier::when_used_as_spec(spec_has_next_flag)]
    pub fn has_next_flag(self) -> (b: bool)
        ensures
            b == self.spec_has_next_flag(),
    {
        let id = self.0;
        assert((id & 0x8000_0000u32 != 0) == (id >= 0x8000_0000u32)) by (bit_vector);
        self.0 & MEDIA_ENT_ID_FLAG_NEXT != 0
    }

    /// Sets the flag that asks the kernel for the first entity with a larger
    /// id.
    #[verifier::when_used_as_spec(spec_with_next_flag)]
    pub fn with_next_flag(self) -> (id: EntityId)
        ensures
            id == self.spec_with_next_flag(),
    {
        let raw = self.0;
        assert(raw | 0x8000_0000u32 == if raw >= 0x8000_0000u32 {
            raw
        } else {
            (raw + 0x8000_0000u32) as u32
        }) by (bit_vector);
        EntityId(self.0 | MEDIA_ENT_ID_FLAG_NEXT)
    }

    /// Clears the flag that asks for the next entity, which leaves the id
    /// proper.
    #[verifier::when_used_as_spec(spec_without_next_flag)]
    pub fn without_next_flag(self) -> (id: EntityId)
        ensures
            id == self.spec_without_next_flag(),
    {
        let raw = self.0;
        assert(raw & !0x8000_0000u32 == if raw >= 0x8000_0000u32 {
            (raw - 0x8000_0000u32) as u32
        } else {
            raw
        }) by (bit_vector);
        EntityId(self.0 & !MEDIA_ENT_ID_FLAG_NEXT)
    }
}

/// Setting the flag and clearing it again gives the id proper.
pub proof fn lemma_next_flag_round_trip(id: EntityId)
    ensures
        id.with_next_flag().without_next_flag() == id.without_next_flag(),
        id.with_next_flag().has_next_flag(),
        !id.without_next_flag().has_next_flag(),
        !id.has_next_flag() ==> id.with_next_flag().without_next_flag() == id,
{
}

/// An entity as the kernel lays it out in a topology.
#[derive(Debug, Copy, Clone, PartialEq, Eq)]
pub struct RawEntity {
    pub id: u32,
    pub name: [u8; 64],
    pub function: u32,
    pub flags: u32,
}

/// An entity of the device graph.
#[derive(Debug, Clone, PartialEq, Eq, PartialOrd, Ord)]
pub struct MediaEntity {
    id: EntityId,
    name: String,
    function: MediaEntityFunctions,
    flags: Option<MediaEntityFlags>,
}

/// What an entity holds, the name as the sequence of its characters.
pub struct MediaEntityView {
    pub id: EntityId,
    pub name: Seq<char>,
    pub function: MediaEntityFunctions,
    /// Present exactly where the kernel reports entity flags.
    pub flags: Option<MediaEntityFlags>,
}

impl View for MediaEntity {
    type V = MediaEntityView;

    closed spec fn view(&self) -> MediaEntityView {
        MediaEntityView {
            id: self.id,
            name: self.name@,
            function: self.function,
            flags: self.flags,
        }
    }
}

/// The first packed version at which the kernel reports the flags of an
/// entity and the index of a pad: 4.19.0.
pub const MEDIA_V2_FIELDS_SINCE: u32 = 0x0004_1300;

impl MediaEntity {
    /// Whether a kernel of the version `version` reports entity flags.
    pub open spec fn spec_has_flags(version: Version) -> bool {
        version.packed() >= MEDIA_V2_FIELDS_SINCE
    }

    /// The entity that the record `raw` stands for on a kernel of the
    /// version `version`, or the error of the first field that does not
    /// decode: the function, then, where the kernel reports them, the flags.
    pub open spec fn decoded(version: Version, raw: RawEntity) -> Result<MediaEntityView, Error> {
        match MediaEntityFunctions::decoded(raw.function) {
            Err(e) => Err(e),
            Ok(function) => if Self::spec_has_flags(version) {
                match MediaEntityFlags::decoded(raw.flags) {
                    Err(e) => Err(e),
                    Ok(flags) => Ok(
                        MediaEntityView {
                            id: EntityId(raw.id),
                            name: c_str_text(raw.name@),
                            function,
                            flags: Some(flags),
                        },
                    ),
                }
            } else {
                Ok(
                    MediaEntityView {
                        id: EntityId(raw.id),
                        name: c_str_text(raw.name@),
                        function,
                        flags: None,
                    },
                )
            },
        }
    }

    pub fn new(
        id: EntityId,
        name: &str,
        function: MediaEntityFunctions,
        flags: Option<MediaEntityFlags>,
    ) -> (e: Self)
        ensures
            e@ == (MediaEntityView { id, name: name@, function, flags }),
    {
        Self { id, name: name.to_owned(), function, flags }
    }

    /// Whether a kernel of the version `version` reports entity flags.
    #[verifier::when_used_as_spec(spec_has_flags)]
    pub fn has_flags(version: Version) -> (b: bool)
        ensures
            b == Self::spec_has_flags(version),
    {
        version.code() >= MEDIA_V2_FIELDS_SINCE
    }

    pub fn id(&self) -> (id: EntityId)
        ensures
            id == self@.id,
    {
        self.id
    }

    pub fn name(&self) -> (name: &str)
        ensures
            name@ == self@.name,
    {
        self.name.as_str()
    }

    pub fn function(&self) -> (function: MediaEntityFunctions)
        ensures
            function == self@.function,
    {
        self.function
    }

    pub fn flags(&self) -> (flags: Option<MediaEntityFlags>)
        ensures
            flags == self@.flags,
    {
        self.flags
    }

    /// Decodes one entity of a topology. The flags are decoded only where
    /// the kernel reports them; otherwise they are absent, whatever the
    /// record holds.
    pub fn from_raw_entity(version: Version, entity: &RawEntity) -> (r: Result<Self, Error>)
        ensures
            match r {
                Ok(e) => Self::decoded(version, *entity) == Ok::<MediaEntityView, Error>(e@),
                Err(e) => Self::decoded(version, *entity) == Err::<MediaEntityView, Error>(e),
            },
    {
        let function = match MediaEntityFunctions::try_from(entity.function) {
            Ok(function) => function,
            Err(e) => {
                return Err(e);
            },
        };
        let flags = if Self::has_flags(version) {
            match MediaEntityFlags::try_from(entity.flags) {
                Ok(flags) => Some(flags),
                Err(e) => {
                    return Err(e);
                },
            }
        } else {
            None
        };
        let name = decode_c_str(array_as_slice(&entity.name));
        Ok(Self { id: EntityId(entity.id), name, function, flags })
    }

    /// The entity that the descriptor `desc` describes on a kernel of the
    /// version `version`: the flags are kept only where the kernel reports
    /// them for the entities of a topology.
    pub open spec fn described(version: Version, desc: MediaEntityDescView) -> MediaEntityView {
        MediaEntityView {
            id: desc.id,
            name: desc.name,
            function: desc.type_,
            flags: if Self::spec_has_flags(version) {
                Some(desc.flags)
            } else {
                None
            },
        }
    }

    /// The entity that an entity descriptor describes.
    pub fn from_desc(version: Version, desc: MediaEntityDesc) -> (e: Self)
        ensures
            e@ == Self::described(version, desc@),
    {
        let flags = if Self::has_flags(version) {
            Some(desc.flags)
        } else {
            None
        };
        Self { id: desc.id, name: desc.name, function: desc.type_, flags }
    }
}

/// An entity has flags exactly where the kernel reports them.
pub proof fn lemma_entity_flags_follow_the_version(version: Version, raw: RawEntity)
    requires
        MediaEntity::decoded(version, raw) is Ok,
    ensures
        MediaEntity::decoded(version, raw).unwrap().flags is Some <==> MediaEntity::has_flags(
            version,
        ),
{
}

impl std::ops::BitOr for EntityId {
    type Output = EntityId;

    /// The id with the bits of both, as for setting the flag that asks for
    /// the next entity.
    fn bitor(self, rhs: EntityId) -> (id: EntityId)
        ensures
            id.0 == self.0 | rhs.0,
    {
        EntityId(self.0 | rhs.0)
    }
}

impl vstd::std_specs::ops::BitOrSpecImpl for EntityId {
    open spec fn obeys_bitor_spec() -> bool {
        true
    }

    open spec fn bitor_req(self, rhs: EntityId) -> bool {
        true
    }

    open spec fn bitor_spec(self, rhs: EntityId) -> EntityId {
        EntityId(self.0 | rhs.0)
    }
}

impl std::ops::BitAnd for EntityId {
    type Output = EntityId;

    /// The id with the bits common to both, as for clearing the flag that
    /// asks for the next entity.
    fn bitand(self, rhs: EntityId) -> (id: EntityId)
        ensures
            id.0 == self.0 & rhs.0,
    {
        EntityId(self.0 & rhs.0)
    }
}

impl vstd::std_specs::ops::BitAndSpecImpl for EntityId {
    open spec fn obeys_bitand_spec() -> bool {
        true
    }

    open spec fn bitand_req(self, rhs: EntityId) -> bool {
        true
    }

    open spec fn bitand_spec(self, rhs: EntityId) -> EntityId {
        EntityId(self.0 & rhs.0)
    }
}

} // verus!
