//! Links: the connections of the device graph.

use crate::error::Error;
use crate::media_entity::EntityId;
use crate::media_interface::InterfaceId;
use crate::media_pad::PadId;
use std::marker::PhantomData;
use vstd::prelude::*;
use vstd::std_specs::convert::FromSpecImpl;
use vstd::std_specs::convert::TryFromSpecImpl;

verus! {

/// The id of a link.
#[derive(Debug, Copy, Clone, PartialEq, Eq, PartialOrd, Ord, Structural)]
pub struct LinkId(pub u32);

impl From<u32> for LinkId {
    fn from(id: u32) -> (r: Self) {
        LinkId(id)
    }
}

impl FromSpecImpl<u32> for LinkId {
    open spec fn obeys_from_spec() -> bool {
        true
    }

    open spec fn from_spec(id: u32) -> Self {
        LinkId(id)
    }
}

impl From<LinkId> for u32 {
    fn from(id: LinkId) -> (r: u32) {
        id.0
    }
}

impl FromSpecImpl<LinkId> for u32 {
    open spec fn obeys_from_spec() -> bool {
        true
    }

    open spec fn from_spec(id: LinkId) -> u32 {
        id.0
    }
}

/// Flag of a link that is enabled.
pub const MEDIA_LNK_FL_ENABLED: u32 = 0x1;

/// Flag of a link whose enabled state cannot change.
pub const MEDIA_LNK_FL_IMMUTABLE: u32 = 0x2;

/// Flag of a link whose enabled state can change while streaming.
pub const MEDIA_LNK_FL_DYNAMIC: u32 = 0x4;

/// Every flag that a link can have.
pub const MEDIA_LNK_FL_ALL: u32 = 0x7;

/// The bits of the flags of a link that hold its type.
pub const MEDIA_LNK_FL_LINK_TYPE: u32 = 0xf000_0000;

/// Type of a link between two pads.
pub const MEDIA_LNK_FL_DATA_LINK: u32 = 0x0000_0000;

/// Type of a link between an interface and an entity.
pub const MEDIA_LNK_FL_INTERFACE_LINK: u32 = 0x1000_0000;

/// Type of a link that stands for a physical relationship.
pub const MEDIA_LNK_FL_ANCILLARY_LINK: u32 = 0x2000_0000;

/// The type that the raw flags `flags` of a link give it.
pub open spec fn link_type_bits(flags: u32) -> u32 {
    flags & MEDIA_LNK_FL_LINK_TYPE
}

/// The raw flags `flags` of a link without its type.
pub open spec fn link_flag_bits(flags: u32) -> u32 {
    flags & !MEDIA_LNK_FL_LINK_TYPE
}

/// The flags of a link: a set of bits, none of them unknown and none of them
/// of the type of the link.
#[derive(Debug, Copy, Clone, PartialEq, Eq, PartialOrd, Ord, Structural)]
pub struct MediaLinkFlags {
    bits: u32,
}

impl View for MediaLinkFlags {
    type V = u32;

    closed spec fn view(&self) -> u32 {
        self.bits
    }
}

impl MediaLinkFlags {
    /// Whether `bits` holds link flags and nothing else.
    pub open spec fn known(bits: u32) -> bool {
        bits & !MEDIA_LNK_FL_ALL == 0
    }

    #[verifier::type_invariant]
    closed spec fn well_formed(self) -> bool {
        Self::known(self.bits)
    }

    /// The flags that the raw flags `v` of a link hold beside its type, or
    /// the error that names `v` where a bit of them is no link flag.
    pub closed spec fn decoded(v: u32) -> Result<MediaLinkFlags, Error> {
        if Self::known(link_flag_bits(v)) {
            Ok(MediaLinkFlags { bits: link_flag_bits(v) })
        } else {
            Err(Error::LinkFlagsParseError { from: v })
        }
    }

    /// Raw flags decode to the flags with their bits, the type left out, and
    /// are refused, by name, where a bit beside the type is no link flag.
    pub proof fn lemma_decoded(v: u32)
        ensures
            Self::known(link_flag_bits(v)) ==> Self::decoded(v) is Ok && Self::decoded(
                v,
            ).unwrap()@ == link_flag_bits(v),
            !Self::known(link_flag_bits(v)) ==> Self::decoded(v) == Err::<Self, Error>(
                Error::LinkFlagsParseError { from: v },
            ),
    {
    }

    /// Flags are the same where their bits are.
    pub proof fn lemma_same_bits(a: Self, b: Self)
        ensures
            a@ == b@ <==> a == b,
    {
    }

    /// No flag.
    pub fn empty() -> (f: Self)
        ensures
            f@ == 0,
    {
        assert(0u32 & !0x7u32 == 0) by (bit_vector);
        Self { bits: 0 }
    }

    /// Every flag.
    pub fn all() -> (f: Self)
        ensures
            f@ == MEDIA_LNK_FL_ALL,
    {
        assert(0x7u32 & !0x7u32 == 0) by (bit_vector);
        Self { bits: MEDIA_LNK_FL_ALL }
    }

    /// The flag of a link that is enabled and can carry media data. Of the
    /// links that lead to one sink pad, one at most is enabled at a time.
    pub fn enabled() -> (f: Self)
        ensures
            f@ == MEDIA_LNK_FL_ENABLED,
    {
        assert(0x1u32 & !0x7u32 == 0) by (bit_vector);
        Self { bits: MEDIA_LNK_FL_ENABLED }
    }

    /// The flag of a link whose enabled state cannot be changed at run time.
    /// Such a link is always enabled.
    pub fn immutable() -> (f: Self)
        ensures
            f@ == MEDIA_LNK_FL_IMMUTABLE,
    {
        assert(0x2u32 & !0x7u32 == 0) by (bit_vector);
        Self { bits: MEDIA_LNK_FL_IMMUTABLE }
    }

    /// The flag of a link whose enabled state can be changed while
    /// streaming. Drivers set it; applications only read it.
    pub fn dynamic() -> (f: Self)
        ensures
            f@ == MEDIA_LNK_FL_DYNAMIC,
    {
        assert(0x4u32 & !0x7u32 == 0) by (bit_vector);
        Self { bits: MEDIA_LNK_FL_DYNAMIC }
    }

    /// The flags with the bits `bits`, unless a bit of them is no flag.
    pub fn from_bits(bits: u32) -> (f: Option<Self>)
        ensures
            Self::known(bits) ==> f is Some && f.unwrap()@ == bits,
            !Self::known(bits) ==> f is None,
    {
        if bits & !MEDIA_LNK_FL_ALL == 0 {
            Some(Self { bits })
        } else {
            None
        }
    }

    /// The bits of the flags. None of them belongs to the type of a link.
    pub fn bits(&self) -> (bits: u32)
        ensures
            bits == self@,
            Self::known(bits),
            link_type_bits(bits) == 0,
    {
        proof {
            use_type_invariant(self);
        }
        let bits = self.bits;
        assert(bits & 0xf000_0000u32 == 0) by (bit_vector)
            requires
                bits & !0x7u32 == 0,
        ;
        bits
    }

    /// Whether every flag of `other` is among these.
    pub fn contains(&self, other: Self) -> (b: bool)
        ensures
            b == (self@ & other@ == other@),
    {
        self.bits & other.bits == other.bits
    }

    /// The flags of both.
    pub fn union(self, other: Self) -> (f: Self)
        ensures
            f@ == self@ | other@,
    {
        proof {
            use_type_invariant(self);
            use_type_invariant(other);
        }
        let a = self.bits;
        let b = other.bits;
        assert((a | b) & !0x7u32 == 0) by (bit_vector)
            requires
                a & !0x7u32 == 0,
                b & !0x7u32 == 0,
        ;
        Self { bits: a | b }
    }
}

impl TryFrom<u32> for MediaLinkFlags {
    type Error = Error;

    /// Decodes the flags of a link from its raw flags, which hold the type
    /// of the link too. A bit beside the type that is no link flag is
    /// refused with `LinkFlagsParseError`, which names the raw flags.
    fn try_from(v: u32) -> (r: Result<Self, Error>)
        ensures
            r == MediaLinkFlags::decoded(v),
    {
        match MediaLinkFlags::from_bits(v & !MEDIA_LNK_FL_LINK_TYPE) {
            Some(f) => Ok(f),
            None => Err(Error::LinkFlagsParseError { from: v }),
        }
    }
}

impl TryFromSpecImpl<u32> for MediaLinkFlags {
    open spec fn obeys_try_from_spec() -> bool {
        true
    }

    open spec fn try_from_spec(v: u32) -> Result<Self, Error> {
        MediaLinkFlags::decoded(v)
    }
}

/// The id of an end of an ancillary link: that of a pad, or that of a `T`.
/// The kernel does not say which.
#[derive(Debug, PartialEq, Eq, PartialOrd, Ord)]
pub struct PadIdOr<T>(pub u32, pub PhantomData<T>);

impl<T> Clone for PadIdOr<T> {
    fn clone(&self) -> (r: Self)
        ensures
            r == *self,
    {
        PadIdOr(self.0, PhantomData)
    }
}

impl<T> PadIdOr<T> {
    pub fn new(id: u32) -> (r: Self)
        ensures
            r == PadIdOr::<T>(id, PhantomData),
    {
        PadIdOr(id, PhantomData)
    }

    /// The id, as the kernel gave it.
    pub fn id(&self) -> (id: u32)
        ensures
            id == self.0,
    {
        self.0
    }
}

/// What a link connects.
#[derive(Debug, Clone, PartialEq, Eq, PartialOrd, Ord)]
#[allow(inconsistent_fields)]
pub enum LinkType {
    /// From pad to pad.
    DataLink { source_id: PadId, sink_id: PadId },
    /// From an interface to an entity.
    InterfaceLink { source_id: InterfaceId, sink_id: EntityId },
    /// A physical relationship between two entities. Such a link may or may
    /// not be immutable.
    AncillaryLink { source_id: PadIdOr<InterfaceId>, sink_id: PadIdOr<EntityId> },
}

/// A link as the kernel lays it out in a topology.
#[derive(Debug, Copy, Clone, PartialEq, Eq)]
pub struct RawLink {
    pub id: u32,
    pub source_id: u32,
    pub sink_id: u32,
    pub flags: u32,
}

/// A link of the device graph.
#[derive(Debug, Clone, PartialEq, Eq, PartialOrd, Ord)]
pub struct MediaLink {
    /// The id of the link.
    pub id: LinkId,
    pub type_: LinkType,
    /// The flags of the link, its type left out.
    pub flags: MediaLinkFlags,
}

impl LinkType {
    /// What the link of the record `raw` connects, or the error that names
    /// its raw flags where they hold no known type.
    pub open spec fn decoded(raw: RawLink) -> Result<LinkType, Error> {
        if link_type_bits(raw.flags) == MEDIA_LNK_FL_DATA_LINK {
            Ok(LinkType::DataLink { source_id: PadId(raw.source_id), sink_id: PadId(raw.sink_id) })
        } else if link_type_bits(raw.flags) == MEDIA_LNK_FL_INTERFACE_LINK {
            Ok(
                LinkType::InterfaceLink {
                    source_id: InterfaceId(raw.source_id),
                    sink_id: EntityId(raw.sink_id),
                },
            )
        } else if link_type_bits(raw.flags) == MEDIA_LNK_FL_ANCILLARY_LINK {
            Ok(
                LinkType::AncillaryLink {
                    source_id: PadIdOr(raw.source_id, PhantomData),
                    sink_id: PadIdOr(raw.sink_id, PhantomData),
                },
            )
        } else {
            Err(Error::LinkFlagsParseError { from: raw.flags })
        }
    }

    /// Decodes what a link connects: the type first, then the two ends as
    /// that type has them.
    pub fn from_raw(link: &RawLink) -> (r: Result<Self, Error>)
        ensures
            r == Self::decoded(*link),
    {
        let kind = link.flags & MEDIA_LNK_FL_LINK_TYPE;
        if kind == MEDIA_LNK_FL_DATA_LINK {
            Ok(LinkType::DataLink { source_id: PadId(link.source_id), sink_id: PadId(link.sink_id) })
        } else if kind == MEDIA_LNK_FL_INTERFACE_LINK {
            Ok(
                LinkType::InterfaceLink {
                    source_id: InterfaceId(link.source_id),
                    sink_id: EntityId(link.sink_id),
                },
            )
        } else if kind == MEDIA_LNK_FL_ANCILLARY_LINK {
            Ok(
                LinkType::AncillaryLink {
                    source_id: PadIdOr::new(link.source_id),
                    sink_id: PadIdOr::new(link.sink_id),
                },
            )
        } else {
            Err(Error::LinkFlagsParseError { from: link.flags })
        }
    }
}

impl MediaLink {
    /// The link that the record `raw` stands for, or the error that names
    /// its raw flags where they hold no known type or an unknown flag.
    pub open spec fn decoded(raw: RawLink) -> Result<MediaLink, Error> {
        match LinkType::decoded(raw) {
            Err(e) => Err(e),
            Ok(type_) => match MediaLinkFlags::decoded(raw.flags) {
                Err(e) => Err(e),
                Ok(flags) => Ok(MediaLink { id: LinkId(raw.id), type_, flags }),
            },
        }
    }

    pub fn new(id: LinkId, type_: LinkType, flags: MediaLinkFlags) -> (l: Self)
        ensures
            l == (MediaLink { id, type_, flags }),
    {
        Self { id, type_, flags }
    }

    pub fn id(&self) -> (id: LinkId)
        ensures
            id == self.id,
    {
        self.id
    }

    /// Decodes one link of a topology.
    pub fn from_raw(link: &RawLink) -> (r: Result<Self, Error>)
        ensures
            r == Self::decoded(*link),
    {
        let type_ = match LinkType::from_raw(link) {
            Ok(type_) => type_,
            Err(e) => {
                return Err(e);
            },
        };
        match MediaLinkFlags::try_from(link.flags) {
            Err(e) => Err(e),
            Ok(flags) => Ok(Self { id: LinkId(link.id), type_, flags }),
        }
    }
}

/// A link decodes exactly where its raw flags hold one of the three types
/// and no unknown flag; every failure names the raw flags.
pub proof fn lemma_link_decoded(raw: RawLink)
    ensures
        MediaLink::decoded(raw) is Ok <==> (link_type_bits(raw.flags) == MEDIA_LNK_FL_DATA_LINK
            || link_type_bits(raw.flags) == MEDIA_LNK_FL_INTERFACE_LINK || link_type_bits(
            raw.flags,
        ) == MEDIA_LNK_FL_ANCILLARY_LINK) && MediaLinkFlags::known(link_flag_bits(raw.flags)),
        MediaLink::decoded(raw) is Err ==> MediaLink::decoded(raw) == Err::<MediaLink, Error>(
            Error::LinkFlagsParseError { from: raw.flags },
        ),
{
}

} // verus!
