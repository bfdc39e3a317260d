//! Pads: the connection points of an entity.

use crate::error::Error;
use crate::media_entity::EntityId;
use crate::media_entity::MEDIA_V2_FIELDS_SINCE;
use crate::text::decimal;
use crate::text::format_decimal;
use crate::version::Version;
use vstd::prelude::*;
use vstd::std_specs::convert::FromSpecImpl;
use vstd::std_specs::convert::TryFromSpecImpl;

verus! {

/// The id of a pad.
#[derive(Debug, Copy, Clone, PartialEq, Eq, PartialOrd, Ord, Structural)]
pub struct PadId(pub u32);

impl PadId {
    /// The id in decimal.
    pub fn to_string(&self) -> (s: String)
        ensures
            s@ == decimal(self.0 as nat),
    {
        format_decimal(self.0 as u64)
    }
}

impl From<u32> for PadId {
    fn from(id: u32) -> (r: Self) {
        PadId(id)
    }
}

impl FromSpecImpl<u32> for PadId {
    open spec fn obeys_from_spec() -> bool {
        true
    }

    open spec fn from_spec(id: u32) -> Self {
        PadId(id)
    }
}

impl From<PadId> for u32 {
    fn from(id: PadId) -> (r: u32) {
        id.0
    }
}

impl FromSpecImpl<PadId> for u32 {
    open spec fn obeys_from_spec() -> bool {
        true
    }

    open spec fn from_spec(id: PadId) -> u32 {
        id.0
    }
}

/// Flag of an input pad.
pub const MEDIA_PAD_FL_SINK: u32 = 0x1;

/// Flag of an output pad.
pub const MEDIA_PAD_FL_SOURCE: u32 = 0x2;

/// Flag of a pad that needs an enabled link for the entity to stream.
pub const MEDIA_PAD_FL_MUST_CONNECT: u32 = 0x4;

/// The direction of a pad, and whether it has to be connected.
#[derive(Debug, Copy, Clone, PartialEq, Eq, PartialOrd, Ord, Structural)]
pub enum MediaPadFlags {
    /// Input pad: it sinks data and is the target of links.
    Sink,
    /// Output pad: it sources data and is the origin of links.
    Source,
    /// Input pad of which one link at least must be enabled for the entity
    /// to stream.
    SinkMustConnect,
    /// Output pad of which one link at least must be enabled for the entity
    /// to stream.
    SourceMustConnect,
}

impl MediaPadFlags {
    /// The bits that stand for the flags.
    pub open spec fn spec_bits(self) -> u32 {
        match self {
            MediaPadFlags::Sink => 0x1,
            MediaPadFlags::Source => 0x2,
            MediaPadFlags::SinkMustConnect => 0x5,
            MediaPadFlags::SourceMustConnect => 0x6,
        }
    }

    /// The flags that `v` stands for, or the error that names `v` where it
    /// is none of the four combinations.
    pub open spec fn decoded(v: u32) -> Result<MediaPadFlags, Error> {
        if v == 0x1 {
            Ok(MediaPadFlags::Sink)
        } else if v == 0x2 {
            Ok(MediaPadFlags::Source)
        } else if v == 0x5 {
            Ok(MediaPadFlags::SinkMustConnect)
        } else if v == 0x6 {
            Ok(MediaPadFlags::SourceMustConnect)
        } else {
            Err(Error::PadFlagsParseError { from: v })
        }
    }
}

/// Decoding the bits of pad flags gives those flags.
pub proof fn lemma_pad_flags_round_trip(f: MediaPadFlags)
    ensures
        MediaPadFlags::decoded(f.spec_bits()) == Ok::<MediaPadFlags, Error>(f),
{
}

/// A value decodes to the flags that it stands for bit by bit, and is
/// refused, by name, where it is none of the four combinations: no bit is
/// dropped on the way.
pub proof fn lemma_pad_flags_decoded(v: u32)
    ensures
        match MediaPadFlags::decoded(v) {
            Ok(f) => f.spec_bits() == v,
            Err(e) => e == (Error::PadFlagsParseError { from: v }),
        },
{
}

impl TryFrom<u32> for MediaPadFlags {
    type Error = Error;

    /// Decodes pad flags. A pad is a sink or a source, not both, and may
    /// have to be connected; any other value is refused with
    /// `PadFlagsParseError`, which names it.
    fn try_from(v: u32) -> (r: Result<Self, Error>)
        ensures
            r == MediaPadFlags::decoded(v),
    {
        if v == MEDIA_PAD_FL_SINK {
            Ok(MediaPadFlags::Sink)
        } else if v == MEDIA_PAD_FL_SOURCE {
            Ok(MediaPadFlags::Source)
        } else if v == 0x5 {
            Ok(MediaPadFlags::SinkMustConnect)
        } else if v == 0x6 {
            Ok(MediaPadFlags::SourceMustConnect)
        } else {
            Err(Error::PadFlagsParseError { from: v })
        }
    }
}

impl TryFromSpecImpl<u32> for MediaPadFlags {
    open spec fn obeys_try_from_spec() -> bool {
        true
    }

    open spec fn try_from_spec(v: u32) -> Result<Self, Error> {
        MediaPadFlags::decoded(v)
    }
}

impl From<MediaPadFlags> for u32 {
    /// The bits that stand for the flags.
    fn from(flags: MediaPadFlags) -> (v: u32) {
        assert(0x1u32 | 0x4u32 == 0x5u32 && 0x2u32 | 0x4u32 == 0x6u32) by (bit_vector);
        match flags {
            MediaPadFlags::Sink => MEDIA_PAD_FL_SINK,
            MediaPadFlags::Source => MEDIA_PAD_FL_SOURCE,
            MediaPadFlags::SinkMustConnect => MEDIA_PAD_FL_SINK | MEDIA_PAD_FL_MUST_CONNECT,
            MediaPadFlags::SourceMustConnect => MEDIA_PAD_FL_SOURCE | MEDIA_PAD_FL_MUST_CONNECT,
        }
    }
}

impl FromSpecImpl<MediaPadFlags> for u32 {
    open spec fn obeys_from_spec() -> bool {
        true
    }

    open spec fn from_spec(flags: MediaPadFlags) -> u32 {
        flags.spec_bits()
    }
}

/// A pad as the kernel lays it out in a topology.
#[derive(Debug, Copy, Clone, PartialEq, Eq)]
pub struct RawPad {
    pub id: u32,
    pub entity_id: u32,
    pub flags: u32,
    pub index: u32,
}

/// A pad of the device graph.
#[derive(Debug, Copy, Clone, PartialEq, Eq, PartialOrd, Ord, Structural)]
pub struct MediaPad {
    /// The id of the pad.
    pub id: PadId,
    /// The id of the entity that the pad belongs to.
    pub entity_id: EntityId,
    pub flags: MediaPadFlags,
    /// The index of the pad, from 0. Present exactly where the kernel
    /// reports it.
    pub index: Option<usize>,
}

impl MediaPad {
    /// Whether a kernel of the version `media_version` reports pad indices.
    pub open spec fn spec_has_index(media_version: Version) -> bool {
        media_version.packed() >= MEDIA_V2_FIELDS_SINCE
    }

    /// The pad that the record `raw` stands for on a kernel of the version
    /// `version`, or the error that names its flags where they do not
    /// decode.
    pub open spec fn decoded(version: Version, raw: RawPad) -> Result<MediaPad, Error> {
        match MediaPadFlags::decoded(raw.flags) {
            Err(e) => Err(e),
            Ok(flags) => Ok(
                MediaPad {
                    id: PadId(raw.id),
                    entity_id: EntityId(raw.entity_id),
                    flags,
                    index: if Self::spec_has_index(version) {
                        Some(raw.index as usize)
                    } else {
                        None
                    },
                },
            ),
        }
    }

    /// Whether a kernel of the version `media_version` reports pad indices.
    #[verifier::when_used_as_spec(spec_has_index)]
    pub fn has_index(media_version: Version) -> (b: bool)
        ensures
            b == Self::spec_has_index(media_version),
    {
        media_version.code() >= MEDIA_V2_FIELDS_SINCE
    }

    /// Decodes one pad of a topology. The index is kept only where the
    /// kernel reports it; otherwise it is absent, whatever the record holds.
    pub fn from(version: Version, pad: &RawPad) -> (r: Result<Self, Error>)
        ensures
            r == Self::decoded(version, *pad),
    {
        match MediaPadFlags::try_from(pad.flags) {
            Err(e) => Err(e),
            Ok(flags) => Ok(
                Self {
                    id: PadId(pad.id),
                    entity_id: EntityId(pad.entity_id),
                    flags,
                    index: if Self::has_index(version) {
                        Some(pad.index as usize)
                    } else {
                        None
                    },
                },
            ),
        }
    }
}

/// A pad has an index exactly where the kernel reports it.
pub proof fn lemma_pad_index_follows_the_version(version: Version, raw: RawPad)
    requires
        MediaPad::decoded(version, raw) is Ok,
    ensures
        MediaPad::decoded(version, raw).unwrap().index is Some <==> MediaPad::has_index(version),
{
}

} // verus!
