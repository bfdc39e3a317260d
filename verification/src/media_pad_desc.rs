//! Pad descriptors: a pad named by its entity and its index.

use crate::error::Error;
use crate::media_entity::EntityId;
use crate::media_pad::MediaPadFlags;
use vstd::prelude::*;

verus! {

/// A pad descriptor as the kernel lays it out.
#[derive(Debug, Copy, Clone, PartialEq, Eq)]
pub struct RawPadDesc {
    pub entity: u32,
    pub index: u16,
    pub flags: u32,
}

impl RawPadDesc {
    /// Whether the record holds no pad: the entity id 0 is never valid, and
    /// is what the kernel leaves in a record that it did not fill.
    pub open spec fn spec_is_absent(&self) -> bool {
        self.entity == 0
    }

    /// Whether the record holds no pad.
    #[verifier::when_used_as_spec(spec_is_absent)]
    pub fn is_absent(&self) -> (b: bool)
        ensures
            b == self.spec_is_absent(),
    {
        self.entity == 0
    }
}

/// A pad, named by the entity it belongs to and its index there.
#[derive(Debug, Copy, Clone, PartialEq, Eq, PartialOrd, Ord, Structural)]
pub struct MediaPadDesc {
    pub entity: EntityId,
    pub index: usize,
    pub flags: MediaPadFlags,
}

impl MediaPadDesc {
    /// The pad descriptor that the record `raw` stands for, or the error
    /// that names its flags where they do not decode.
    pub open spec fn decoded(raw: RawPadDesc) -> Result<MediaPadDesc, Error> {
        match MediaPadFlags::decoded(raw.flags) {
            Err(e) => Err(e),
            Ok(flags) => Ok(
                MediaPadDesc { entity: EntityId(raw.entity), index: raw.index as usize, flags },
            ),
        }
    }

    /// The record that stands for the pad descriptor. The kernel has 16
    /// bits for the index: a larger one loses its high bits.
    pub open spec fn encoded(self) -> RawPadDesc {
        RawPadDesc {
            entity: self.entity.0,
            index: (self.index % 0x1_0000) as u16,
            flags: self.flags.spec_bits(),
        }
    }

    pub fn new(entity: EntityId, index: usize, flags: MediaPadFlags) -> (d: Self)
        ensures
            d == (MediaPadDesc { entity, index, flags }),
    {
        Self { entity, index, flags }
    }

    /// The id of the entity that the pad belongs to.
    pub fn id(&self) -> (id: EntityId)
        ensures
            id == self.entity,
    {
        self.entity
    }

    /// The index of the pad.
    pub fn index(&self) -> (index: usize)
        ensures
            index == self.index,
    {
        self.index
    }

    /// The flags of the pad.
    pub fn flags(&self) -> (flags: MediaPadFlags)
        ensures
            flags == self.flags,
    {
        self.flags
    }

    /// Decodes a pad descriptor.
    pub fn from_raw(desc: &RawPadDesc) -> (r: Result<Self, Error>)
        ensures
            r == Self::decoded(*desc),
    {
        match MediaPadFlags::try_from(desc.flags) {
            Err(e) => Err(e),
            Ok(flags) => Ok(
                Self { entity: EntityId(desc.entity), index: desc.index as usize, flags },
            ),
        }
    }

    /// Encodes the pad descriptor for the kernel.
    pub fn to_raw(&self) -> (raw: RawPadDesc)
        ensures
            raw == self.encoded(),
    {
        let index = self.index;
        assert(index & 0xffff == index % 0x1_0000) by (bit_vector);
        RawPadDesc {
            entity: self.entity.0,
            index: (index & 0xffff) as u16,
            flags: u32::from(self.flags),
        }
    }
}

/// A pad descriptor with an index of at most 16 bits comes back unchanged
/// from encoding and decoding.
pub proof fn lemma_pad_desc_round_trip(d: MediaPadDesc)
    requires
        d.index < 0x1_0000,
    ensures
        MediaPadDesc::decoded(d.encoded()) == Ok::<MediaPadDesc, Error>(d),
{
}

} // verus!
