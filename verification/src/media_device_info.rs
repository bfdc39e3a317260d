//! What a media device says of itself.

use crate::text::c_str_text;
use crate::text::decode_c_str;
use crate::text::format_upper_hex2;
use crate::text::upper_hex2;
use crate::version::Version;
use vstd::array::array_as_slice;
use vstd::prelude::*;
use vstd::string::StringExecFns;

verus! {

/// The device information as the kernel lays it out.
#[derive(Debug, Copy, Clone, PartialEq, Eq)]
pub struct RawDeviceInfo {
    pub driver: [u8; 16],
    pub model: [u8; 32],
    pub serial: [u8; 40],
    pub bus_info: [u8; 32],
    pub media_version: u32,
    pub hw_revision: u32,
    pub driver_version: u32,
}

/// The information on a media device.
#[derive(Debug, Clone, PartialEq, Eq, PartialOrd, Ord)]
pub struct MediaDeviceInfo {
    pub driver: String,
    pub model: String,
    pub serial: String,
    pub bus_info: String,
    pub media_version: Version,
    pub hw_revision: u32,
    pub driver_version: Version,
}

/// What a `MediaDeviceInfo` holds, each text as the sequence of its
/// characters.
pub struct MediaDeviceInfoView {
    pub driver: Seq<char>,
    pub model: Seq<char>,
    pub serial: Seq<char>,
    pub bus_info: Seq<char>,
    pub media_version: Version,
    pub hw_revision: u32,
    pub driver_version: Version,
}

impl View for MediaDeviceInfo {
    type V = MediaDeviceInfoView;

    open spec fn view(&self) -> MediaDeviceInfoView {
        MediaDeviceInfoView {
            driver: self.driver@,
            model: self.model@,
            serial: self.serial@,
            bus_info: self.bus_info@,
            media_version: self.media_version,
            hw_revision: self.hw_revision,
            driver_version: self.driver_version,
        }
    }
}

impl MediaDeviceInfoView {
    /// The one-line description of the device information.
    pub open spec fn description(self) -> Seq<char> {
        "MediaDeviceInfo { driver: \""@ + self.driver + "\", model: \""@ + self.model
            + "\", serial: \""@ + self.serial + "\", bus_info: \""@ + self.bus_info
            + "\", media_version: "@ + self.media_version.text() + ", hw_revision: 0x"@
            + upper_hex2(self.hw_revision as nat) + ", driver_version: "@
            + self.driver_version.text() + " }"@
    }
}

impl MediaDeviceInfo {
    /// The device information that the record `raw` stands for: each text
    /// up to its first NUL byte, each version unpacked.
    pub open spec fn decoded(raw: RawDeviceInfo) -> MediaDeviceInfoView {
        MediaDeviceInfoView {
            driver: c_str_text(raw.driver@),
            model: c_str_text(raw.model@),
            serial: c_str_text(raw.serial@),
            bus_info: c_str_text(raw.bus_info@),
            media_version: Version::unpacked(raw.media_version),
            hw_revision: raw.hw_revision,
            driver_version: Version::unpacked(raw.driver_version),
        }
    }

    /// Decodes the device information.
    pub fn from_raw(info: &RawDeviceInfo) -> (r: Self)
        ensures
            r@ == Self::decoded(*info),
    {
        let driver = decode_c_str(array_as_slice(&info.driver));
        let model = decode_c_str(array_as_slice(&info.model));
        let serial = decode_c_str(array_as_slice(&info.serial));
        let bus_info = decode_c_str(array_as_slice(&info.bus_info));
        Self {
            driver,
            model,
            serial,
            bus_info,
            media_version: Version::from(info.media_version),
            hw_revision: info.hw_revision,
            driver_version: Version::from(info.driver_version),
        }
    }

    pub fn driver(&self) -> (s: &str)
        ensures
            s@ == self@.driver,
    {
        self.driver.as_str()
    }

    pub fn model(&self) -> (s: &str)
        ensures
            s@ == self@.model,
    {
        self.model.as_str()
    }

    pub fn serial(&self) -> (s: &str)
        ensures
            s@ == self@.serial,
    {
        self.serial.as_str()
    }

    pub fn bus_info(&self) -> (s: &str)
        ensures
            s@ == self@.bus_info,
    {
        self.bus_info.as_str()
    }

    pub fn media_version(&self) -> (v: Version)
        ensures
            v == self@.media_version,
    {
        self.media_version
    }

    pub fn hw_revision(&self) -> (r: u32)
        ensures
            r == self@.hw_revision,
    {
        self.hw_revision
    }

    pub fn driver_version(&self) -> (v: Version)
        ensures
            v == self@.driver_version,
    {
        self.driver_version
    }

    /// Describes the device information in one line: the texts in quotes,
    /// the versions as `major.minor.patch`, the hardware revision in
    /// hexadecimal.
    pub fn describe(&self) -> (s: String)
        ensures
            s@ == self@.description(),
    {
        let s = String::from_str("MediaDeviceInfo { driver: \"");
        let s = s.concat(self.driver.as_str());
        let s = s.concat("\", model: \"");
        let s = s.concat(self.model.as_str());
        let s = s.concat("\", serial: \"");
        let s = s.concat(self.serial.as_str());
        let s = s.concat("\", bus_info: \"");
        let s = s.concat(self.bus_info.as_str());
        let s = s.concat("\", media_version: ");
        let s = s.concat(self.media_version.to_string().as_str());
        let s = s.concat(", hw_revision: 0x");
        let s = s.concat(format_upper_hex2(self.hw_revision as u64).as_str());
        let s = s.concat(", driver_version: ");
        let s = s.concat(self.driver_version.to_string().as_str());
        let s = s.concat(" }");
        s
    }
}

} // verus!
