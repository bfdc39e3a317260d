//! Interfaces: the handles, such as character devices, through which user
//! space reaches an entity.

use crate::error::Error;
use crate::media_interface_type::MediaInterfaceType;
use crate::media_intf_devnode::MediaIntfDevnode;
use crate::text::decimal;
use crate::text::format_decimal;
use vstd::prelude::*;
use vstd::std_specs::convert::FromSpecImpl;

verus! {

/// The id of an interface.
#[derive(Debug, Copy, Clone, PartialEq, Eq, PartialOrd, Ord, Structural)]
pub struct InterfaceId(pub u32);

impl InterfaceId {
    /// The id in decimal.
    pub fn to_string(&self) -> (s: String)
        ensures
            s@ == decimal(self.0 as nat),
    {
        format_decimal(self.0 as u64)
    }
}

impl From<u32> for InterfaceId {
    fn from(id: u32) -> (r: Self) {
        InterfaceId(id)
    }
}

impl FromSpecImpl<u32> for InterfaceId {
    open spec fn obeys_from_spec() -> bool {
        true
    }

    open spec fn from_spec(id: u32) -> Self {
        InterfaceId(id)
    }
}

impl From<InterfaceId> for u32 {
    fn from(id: InterfaceId) -> (r: u32) {
        id.0
    }
}

impl FromSpecImpl<InterfaceId> for u32 {
    open spec fn obeys_from_spec() -> bool {
        true
    }

    open spec fn from_spec(id: InterfaceId) -> u32 {
        id.0
    }
}

/// An interface as the kernel lays it out in a topology. `raw` is the
/// payload, whose meaning depends on `intf_type`.
#[derive(Debug, Copy, Clone, PartialEq, Eq)]
pub struct RawInterface {
    pub id: u32,
    pub intf_type: u32,
    pub flags: u32,
    pub raw: [u32; 16],
}

/// An interface of the device graph.
#[derive(Debug, Copy, Clone, PartialEq, Eq, PartialOrd, Ord, Structural)]
pub struct MediaInterface {
    pub id: InterfaceId,
    pub type_: MediaInterfaceType,
    pub devnode: MediaIntfDevnode,
}

impl MediaInterface {
    /// The interface that the record `raw` stands for, or the error that
    /// names its type where that is unknown. The payload is read as a device
    /// node, which every known type is, and only once the type is known.
    pub open spec fn decoded(raw: RawInterface) -> Result<MediaInterface, Error> {
        match MediaInterfaceType::decoded(raw.intf_type) {
            Err(e) => Err(e),
            Ok(type_) => Ok(
                MediaInterface {
                    id: InterfaceId(raw.id),
                    type_,
                    devnode: MediaIntfDevnode { major: raw.raw@[0], minor: raw.raw@[1] },
                },
            ),
        }
    }

    pub fn new(id: InterfaceId, type_: MediaInterfaceType, devnode: MediaIntfDevnode) -> (i: Self)
        ensures
            i == (MediaInterface { id, type_, devnode }),
    {
        Self { id, type_, devnode }
    }

    /// The id of the interface.
    pub fn id(&self) -> (id: InterfaceId)
        ensures
            id == self.id,
    {
        self.id
    }

    /// The type of the interface.
    pub fn type_(&self) -> (t: MediaInterfaceType)
        ensures
            t == self.type_,
    {
        self.type_
    }

    /// The device node of the interface.
    pub fn devnode(&self) -> (d: MediaIntfDevnode)
        ensures
            d == self.devnode,
    {
        self.devnode
    }

    /// The path under which sysfs lists the character device of the
    /// interface.
    pub fn path(&self) -> (p: String)
        ensures
            p@ == self.devnode.spec_path(),
    {
        self.devnode.path()
    }

    /// Decodes one interface of a topology.
    pub fn from_raw(intf: &RawInterface) -> (r: Result<Self, Error>)
        ensures
            r == Self::decoded(*intf),
    {
        match MediaInterfaceType::try_from(intf.intf_type) {
            Err(e) => Err(e),
            Ok(type_) => Ok(
                Self {
                    id: InterfaceId(intf.id),
                    type_,
                    devnode: MediaIntfDevnode::from_raw(intf.raw[0], intf.raw[1]),
                },
            ),
        }
    }
}

} // verus!
