//! The device node behind an interface.

use crate::text::decimal;
use crate::text::format_decimal;
use vstd::prelude::*;
use vstd::string::StringExecFns;

verus! {

/// The major and minor number of a device node.
#[derive(Debug, Clone, Copy, PartialEq, Eq, PartialOrd, Ord, Structural)]
pub struct MediaIntfDevnode {
    pub major: u32,
    pub minor: u32,
}

impl MediaIntfDevnode {
    /// The path under which sysfs lists the character device:
    /// `/sys/dev/char/` and then `major:minor` in decimal.
    pub open spec fn spec_path(self) -> Seq<char> {
        "/sys/dev/char/"@ + decimal(self.major as nat) + ":"@ + decimal(self.minor as nat)
    }

    /// The device node whose numbers are the first two words of the payload
    /// of an interface record.
    pub fn from_raw(major: u32, minor: u32) -> (d: Self)
        ensures
            d == (MediaIntfDevnode { major, minor }),
    {
        MediaIntfDevnode { major, minor }
    }

    /// The path under which sysfs lists the character device.
    pub fn path(&self) -> (p: String)
        ensures
            p@ == self.spec_path(),
    {
        let p = String::from_str("/sys/dev/char/");
        let p = p.concat(format_decimal(self.major as u64).as_str());
        let p = p.concat(":");
        let p = p.concat(format_decimal(self.minor as u64).as_str());
        assert(p@ =~= self.spec_path());
        p
    }
}

} // verus!
