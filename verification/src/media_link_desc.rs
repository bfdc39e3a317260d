//! Link descriptors: a link named by the pads at its two ends.

use crate::error::Error;
use crate::media_link::link_type_bits;
use crate::media_link::MediaLinkFlags;
use crate::media_link::MEDIA_LNK_FL_ANCILLARY_LINK;
use crate::media_link::MEDIA_LNK_FL_DATA_LINK;
use crate::media_link::MEDIA_LNK_FL_LINK_TYPE;
use crate::media_pad_desc::MediaPadDesc;
use crate::media_pad_desc::RawPadDesc;
use vstd::prelude::*;

verus! {

/// A link descriptor as the kernel lays it out.
#[derive(Debug, Copy, Clone, PartialEq, Eq)]
pub struct RawLinkDesc {
    pub source: RawPadDesc,
    pub sink: RawPadDesc,
    pub flags: u32,
}

impl RawLinkDesc {
    /// Whether the record holds no link: the entity id 0 is never valid,
    /// and is what the kernel leaves in a record that it did not fill.
    pub open spec fn spec_is_absent(&self) -> bool {
        self.source.entity == 0 || self.sink.entity == 0
    }

    /// Whether the record holds no link.
    #[verifier::when_used_as_spec(spec_is_absent)]
    pub fn is_absent(&self) -> (b: bool)
        ensures
            b == self.spec_is_absent(),
    {
        self.source.entity == 0 || self.sink.entity == 0
    }
}

/// A link, named by the pad it starts from and the pad it leads to.
#[derive(Debug, Copy, Clone, PartialEq, Eq, PartialOrd, Ord, Structural)]
pub struct MediaLinkDesc {
    pub source: MediaPadDesc,
    pub sink: MediaPadDesc,
    pub flags: MediaLinkFlags,
}

impl MediaLinkDesc {
    /// The link descriptor that the record `raw` stands for. A descriptor is
    /// a data link or an ancillary link: any other type is refused with the
    /// error that names the raw flags. Then the source, the sink and the
    /// flags are decoded, and the first that fails decides the error.
    pub open spec fn decoded(raw: RawLinkDesc) -> Result<MediaLinkDesc, Error> {
        if link_type_bits(raw.flags) != MEDIA_LNK_FL_DATA_LINK && link_type_bits(raw.flags)
            != MEDIA_LNK_FL_ANCILLARY_LINK {
            Err(Error::LinkFlagsParseError { from: raw.flags })
        } else {
            match MediaPadDesc::decoded(raw.source) {
                Err(e) => Err(e),
                Ok(source) => match MediaPadDesc::decoded(raw.sink) {
                    Err(e) => Err(e),
                    Ok(sink) => match MediaLinkFlags::decoded(raw.flags) {
                        Err(e) => Err(e),
                        Ok(flags) => Ok(MediaLinkDesc { source, sink, flags }),
                    },
                },
            }
        }
    }

    /// The record that asks the kernel to give this link the flags `flags`:
    /// the two ends as they are, and the bits of `flags`.
    pub open spec fn spec_setup_query(self, flags: MediaLinkFlags) -> RawLinkDesc {
        RawLinkDesc { source: self.source.encoded(), sink: self.sink.encoded(), flags: flags@ }
    }

    pub fn new(source: MediaPadDesc, sink: MediaPadDesc, flags: MediaLinkFlags) -> (d: Self)
        ensures
            d == (MediaLinkDesc { source, sink, flags }),
    {
        Self { source, sink, flags }
    }

    /// The pad at the origin of the link.
    pub fn source(&self) -> (source: &MediaPadDesc)
        ensures
            *source == self.source,
    {
        &self.source
    }

    /// The pad at the target of the link.
    pub fn sink(&self) -> (sink: &MediaPadDesc)
        ensures
            *sink == self.sink,
    {
        &self.sink
    }

    /// The flags of the link.
    pub fn flags(&self) -> (flags: MediaLinkFlags)
        ensures
            flags == self.flags,
    {
        self.flags
    }

    /// Decodes a link descriptor.
    pub fn from_raw(desc: &RawLinkDesc) -> (r: Result<Self, Error>)
        ensures
            r == Self::decoded(*desc),
    {
        let kind = desc.flags & MEDIA_LNK_FL_LINK_TYPE;
        if kind != MEDIA_LNK_FL_DATA_LINK && kind != MEDIA_LNK_FL_ANCILLARY_LINK {
            return Err(Error::LinkFlagsParseError { from: desc.flags });
        }
        let source = match MediaPadDesc::from_raw(&desc.source) {
            Ok(source) => source,
            Err(e) => {
                return Err(e);
            },
        };
        let sink = match MediaPadDesc::from_raw(&desc.sink) {
            Ok(sink) => sink,
            Err(e) => {
                return Err(e);
            },
        };
        match MediaLinkFlags::try_from(desc.flags) {
            Err(e) => Err(e),
            Ok(flags) => Ok(Self { source, sink, flags }),
        }
    }

    /// Encodes the link descriptor for the kernel, as a data link.
    pub fn to_raw(&self) -> (raw: RawLinkDesc)
        ensures
            raw == self.spec_setup_query(self.flags),
    {
        RawLinkDesc {
            source: self.source.to_raw(),
            sink: self.sink.to_raw(),
            flags: self.flags.bits(),
        }
    }

    /// The record to hand to the control call that sets up a link, in order
    /// to give this link the flags `flags`.
    pub fn setup_query(&self, flags: MediaLinkFlags) -> (raw: RawLinkDesc)
        ensures
            raw == self.spec_setup_query(flags),
    {
        RawLinkDesc {
            source: self.source.to_raw(),
            sink: self.sink.to_raw(),
            flags: flags.bits(),
        }
    }

    /// Takes over what the kernel answered to the control call that sets up
    /// a link. Where the answer does not decode, the descriptor stays as it
    /// was.
    pub fn setup(&mut self, reply: &RawLinkDesc) -> (r: Result<(), Error>)
        ensures
            match Self::decoded(*reply) {
                Ok(d) => r is Ok && *final(self) == d,
                Err(e) => r == Err::<(), Error>(e) && *final(self) == *old(self),
            },
    {
        match Self::from_raw(reply) {
            Ok(d) => {
                *self = d;
                Ok(())
            },
            Err(e) => Err(e),
        }
    }
}

} // verus!
