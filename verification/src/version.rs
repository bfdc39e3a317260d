//! Kernel version numbers in the packed form the media API reports them in.

use crate::text::decimal;
use crate::text::format_decimal;
use vstd::prelude::*;
use vstd::std_specs::convert::FromSpecImpl;
use vstd::string::StringExecFns;

verus! {

/// A kernel version: the three components that the kernel packs into one
/// integer, `major` in bits 16 to 23, `minor` in bits 8 to 15 and `patch` in
/// the low eight bits.
#[derive(Debug, Copy, Clone, PartialEq, Eq, PartialOrd, Ord, Structural)]
pub struct Version {
    pub major: u8,
    pub minor: u8,
    pub patch: u8,
}

impl Version {
    pub fn new(major: u8, minor: u8, patch: u8) -> (v: Self)
        ensures
            v == (Version { major, minor, patch }),
    {
        Self { major, minor, patch }
    }

    /// The packed integer of this version.
    pub open spec fn packed(self) -> u32 {
        (self.major * 0x1_0000 + self.minor * 0x100 + self.patch) as u32
    }

    /// The version whose three components are the three low bytes of `code`;
    /// anything above bit 23 is ignored.
    pub open spec fn unpacked(code: u32) -> Version {
        Version {
            major: ((code / 0x1_0000) % 0x100) as u8,
            minor: ((code / 0x100) % 0x100) as u8,
            patch: (code % 0x100) as u8,
        }
    }

    /// The text of a version, `major.minor.patch` in decimal.
    pub open spec fn text(self) -> Seq<char> {
        decimal(self.major as nat) + seq!['.'] + decimal(self.minor as nat) + seq!['.'] + decimal(
            self.patch as nat,
        )
    }

    /// Packs the version into the kernel's integer form.
    pub fn code(self) -> (code: u32)
        ensures
            code == self.packed(),
            code < 0x100_0000,
    {
        let major = self.major as u32;
        let minor = self.minor as u32;
        let patch = self.patch as u32;
        assert((major << 16) | (minor << 8) | patch == major * 0x1_0000 + minor * 0x100 + patch)
            by (bit_vector)
            requires
                major < 0x100,
                minor < 0x100,
                patch < 0x100,
        ;
        (major << 16) | (minor << 8) | patch
    }

    /// Formats the version as `major.minor.patch`, each part in decimal.
    pub fn to_string(&self) -> (s: String)
        ensures
            s@ == self.text(),
    {
        proof {
            reveal_strlit(".");
        }
        let s = format_decimal(self.major as u64);
        let s = s.concat(".");
        let s = s.concat(format_decimal(self.minor as u64).as_str());
        let s = s.concat(".");
        let s = s.concat(format_decimal(self.patch as u64).as_str());
        assert(s@ =~= self.text());
        s
    }
}

impl From<u32> for Version {
    /// Unpacks the three low bytes of `ver`.
    fn from(ver: u32) -> (v: Self) {
        let major = ((ver & (0xFF << 16)) >> 16) as u8;
        let minor = ((ver & (0xFF << 8)) >> 8) as u8;
        let patch = (ver & 0xFF) as u8;
        assert((ver & (0xFFu32 << 16)) >> 16 == (ver / 0x1_0000) % 0x100) by (bit_vector);
        assert((ver & (0xFFu32 << 8)) >> 8 == (ver / 0x100) % 0x100) by (bit_vector);
        assert(ver & 0xFF == ver % 0x100) by (bit_vector);
        Self { major, minor, patch }
    }
}

impl FromSpecImpl<u32> for Version {
    open spec fn obeys_from_spec() -> bool {
        true
    }

    open spec fn from_spec(ver: u32) -> Self {
        Version::unpacked(ver)
    }
}

impl From<Version> for u32 {
    fn from(version: Version) -> (code: u32) {
        version.code()
    }
}

impl FromSpecImpl<Version> for u32 {
    open spec fn obeys_from_spec() -> bool {
        true
    }

    open spec fn from_spec(version: Version) -> u32 {
        version.packed()
    }
}

/// Packing a version and unpacking the result gives the version back.
pub proof fn lemma_unpack_pack(v: Version)
    ensures
        Version::unpacked(v.packed()) == v,
{
    let major = v.major as u32;
    let minor = v.minor as u32;
    let patch = v.patch as u32;
    let code = v.packed();
    assert(code % 0x100 == patch && (code / 0x100) % 0x100 == minor && (code / 0x1_0000) % 0x100
        == major) by (bit_vector)
        requires
            code == major * 0x1_0000 + minor * 0x100 + patch,
            major < 0x100,
            minor < 0x100,
            patch < 0x100,
    ;
}

/// Unpacking an integer of at most 24 bits and packing the result gives the
/// integer back.
pub proof fn lemma_pack_unpack(code: u32)
    requires
        code < 0x100_0000,
    ensures
        Version::unpacked(code).packed() == code,
{
    assert(((code / 0x1_0000) % 0x100) * 0x1_0000 + ((code / 0x100) % 0x100) * 0x100 + code
        % 0x100 == code) by (bit_vector)
        requires
            code < 0x100_0000,
    ;
}

} // verus!
