//! The kinds of interface that a device graph can expose.

use crate::error::Error;
use vstd::prelude::*;
use vstd::std_specs::convert::FromSpecImpl;
use vstd::std_specs::convert::TryFromSpecImpl;

verus! {

/// The kind of an interface. Each is a device node.
#[derive(Debug, Copy, Clone, PartialEq, Eq, PartialOrd, Ord, Structural)]
pub enum MediaInterfaceType {
    /// Digital TV frontend, typically `/dev/dvb/adapter?/frontend?`.
    DigitalTVFrontEnd,
    /// Digital TV demux, typically `/dev/dvb/adapter?/demux?`.
    DigitalTVDemux,
    /// Digital TV DVR, typically `/dev/dvb/adapter?/dvr?`.
    DigitalTVDVR,
    /// Digital TV conditional access, typically `/dev/dvb/adapter?/ca?`.
    DigitalTVConditionalAccess,
    /// Digital TV network control, typically `/dev/dvb/adapter?/net?`.
    DigitalTVNetworkControl,
    /// Video, typically `/dev/video?`.
    V4LVideo,
    /// VBI, typically `/dev/vbi?`.
    V4LVBI,
    /// Radio, typically `/dev/radio?`.
    V4LRadio,
    /// Sub-device, typically `/dev/v4l-subdev?`.
    V4LSubdev,
    /// Software defined radio, typically `/dev/swradio?`.
    V4LSoftwareDefinedRadio,
    /// Touch device, typically `/dev/v4l-touch?`.
    V4LTouchDevice,
    /// ALSA PCM capture, typically `/dev/snd/pcmC?D?c`.
    ALSAPCMCapture,
    /// ALSA PCM playback, typically `/dev/snd/pcmC?D?p`.
    ALSAPCMPlayback,
    /// ALSA control, typically `/dev/snd/controlC?`.
    ALSAControl,
    /// ALSA compress, typically `/dev/snd/compr?`.
    ALSACompress,
    /// ALSA raw MIDI, typically `/dev/snd/midi?`.
    ALSARawMIDI,
    /// ALSA hardware dependent, typically `/dev/snd/hwC?D?`.
    ALSAHardwareDependent,
    /// ALSA sequencer, typically `/dev/snd/seq`.
    ALSASequencer,
    /// ALSA timer, typically `/dev/snd/timer`.
    ALSATimer,
}

impl MediaInterfaceType {
    /// The number that the kernel gives the interface type.
    pub open spec fn spec_code(self) -> u32 {
        match self {
            MediaInterfaceType::DigitalTVFrontEnd => 0x100,
            MediaInterfaceType::DigitalTVDemux => 0x101,
            MediaInterfaceType::DigitalTVDVR => 0x102,
            MediaInterfaceType::DigitalTVConditionalAccess => 0x103,
            MediaInterfaceType::DigitalTVNetworkControl => 0x104,
            MediaInterfaceType::V4LVideo => 0x200,
            MediaInterfaceType::V4LVBI => 0x201,
            MediaInterfaceType::V4LRadio => 0x202,
            MediaInterfaceType::V4LSubdev => 0x203,
            MediaInterfaceType::V4LSoftwareDefinedRadio => 0x204,
            MediaInterfaceType::V4LTouchDevice => 0x205,
            MediaInterfaceType::ALSAPCMCapture => 0x300,
            MediaInterfaceType::ALSAPCMPlayback => 0x301,
            MediaInterfaceType::ALSAControl => 0x302,
            MediaInterfaceType::ALSACompress => 0x303,
            MediaInterfaceType::ALSARawMIDI => 0x304,
            MediaInterfaceType::ALSAHardwareDependent => 0x305,
            MediaInterfaceType::ALSASequencer => 0x306,
            MediaInterfaceType::ALSATimer => 0x307,
        }
    }

    /// The interface type with the number `v`, or the error that names `v`
    /// where no interface type has that number.
    pub open spec fn decoded(v: u32) -> Result<MediaInterfaceType, Error> {
        if v == 0x100 {
            Ok(MediaInterfaceType::DigitalTVFrontEnd)
        } else if v == 0x101 {
            Ok(MediaInterfaceType::DigitalTVDemux)
        } else if v == 0x102 {
            Ok(MediaInterfaceType::DigitalTVDVR)
        } else if v == 0x103 {
            Ok(MediaInterfaceType::DigitalTVConditionalAccess)
        } else if v == 0x104 {
            Ok(MediaInterfaceType::DigitalTVNetworkControl)
        } else if v == 0x200 {
            Ok(MediaInterfaceType::V4LVideo)
        } else if v == 0x201 {
            Ok(MediaInterfaceType::V4LVBI)
        } else if v == 0x202 {
            Ok(MediaInterfaceType::V4LRadio)
        } else if v == 0x203 {
            Ok(MediaInterfaceType::V4LSubdev)
        } else if v == 0x204 {
            Ok(MediaInterfaceType::V4LSoftwareDefinedRadio)
        } else if v == 0x205 {
            Ok(MediaInterfaceType::V4LTouchDevice)
        } else if v == 0x300 {
            Ok(MediaInterfaceType::ALSAPCMCapture)
        } else if v == 0x301 {
            Ok(MediaInterfaceType::ALSAPCMPlayback)
        } else if v == 0x302 {
            Ok(MediaInterfaceType::ALSAControl)
        } else if v == 0x303 {
            Ok(MediaInterfaceType::ALSACompress)
        } else if v == 0x304 {
            Ok(MediaInterfaceType::ALSARawMIDI)
        } else if v == 0x305 {
            Ok(MediaInterfaceType::ALSAHardwareDependent)
        } else if v == 0x306 {
            Ok(MediaInterfaceType::ALSASequencer)
        } else if v == 0x307 {
            Ok(MediaInterfaceType::ALSATimer)
        } else {
            Err(Error::InterfaceTypeParseError { from: v })
        }
    }
}

/// Decoding the number of an interface type gives that type.
pub proof fn lemma_interface_type_round_trip(t: MediaInterfaceType)
    ensures
        MediaInterfaceType::decoded(t.spec_code()) == Ok::<MediaInterfaceType, Error>(t),
{
}

/// A number decodes to the one interface type that has it, and is refused,
/// by name, where no interface type has it.
pub proof fn lemma_interface_type_decoded(v: u32)
    ensures
        match MediaInterfaceType::decoded(v) {
            Ok(t) => t.spec_code() == v,
            Err(e) => e == (Error::InterfaceTypeParseError { from: v }),
        },
{
}

impl From<MediaInterfaceType> for u32 {
    /// The number that the kernel gives the interface type.
    fn from(t: MediaInterfaceType) -> (v: u32) {
        match t {
            MediaInterfaceType::DigitalTVFrontEnd => 0x100,
            MediaInterfaceType::DigitalTVDemux => 0x101,
            MediaInterfaceType::DigitalTVDVR => 0x102,
            MediaInterfaceType::DigitalTVConditionalAccess => 0x103,
            MediaInterfaceType::DigitalTVNetworkControl => 0x104,
            MediaInterfaceType::V4LVideo => 0x200,
            MediaInterfaceType::V4LVBI => 0x201,
            MediaInterfaceType::V4LRadio => 0x202,
            MediaInterfaceType::V4LSubdev => 0x203,
            MediaInterfaceType::V4LSoftwareDefinedRadio => 0x204,
            MediaInterfaceType::V4LTouchDevice => 0x205,
            MediaInterfaceType::ALSAPCMCapture => 0x300,
            MediaInterfaceType::ALSAPCMPlayback => 0x301,
            MediaInterfaceType::ALSAControl => 0x302,
            MediaInterfaceType::ALSACompress => 0x303,
            MediaInterfaceType::ALSARawMIDI => 0x304,
            MediaInterfaceType::ALSAHardwareDependent => 0x305,
            MediaInterfaceType::ALSASequencer => 0x306,
            MediaInterfaceType::ALSATimer => 0x307,
        }
    }
}

impl FromSpecImpl<MediaInterfaceType> for u32 {
    open spec fn obeys_from_spec() -> bool {
        true
    }

    open spec fn from_spec(t: MediaInterfaceType) -> u32 {
        t.spec_code()
    }
}

impl TryFrom<u32> for MediaInterfaceType {
    type Error = Error;

    /// Decodes the number of an interface type. A number that no interface
    /// type has is refused with `InterfaceTypeParseError`, which names it.
    fn try_from(v: u32) -> (r: Result<Self, Error>)
        ensures
            r == MediaInterfaceType::decoded(v),
    {
        match v {
            0x100 => Ok(MediaInterfaceType::DigitalTVFrontEnd),
            0x101 => Ok(MediaInterfaceType::DigitalTVDemux),
            0x102 => Ok(MediaInterfaceType::DigitalTVDVR),
            0x103 => Ok(MediaInterfaceType::DigitalTVConditionalAccess),
            0x104 => Ok(MediaInterfaceType::DigitalTVNetworkControl),
            0x200 => Ok(MediaInterfaceType::V4LVideo),
            0x201 => Ok(MediaInterfaceType::V4LVBI),
            0x202 => Ok(MediaInterfaceType::V4LRadio),
            0x203 => Ok(MediaInterfaceType::V4LSubdev),
            0x204 => Ok(MediaInterfaceType::V4LSoftwareDefinedRadio),
            0x205 => Ok(MediaInterfaceType::V4LTouchDevice),
            0x300 => Ok(MediaInterfaceType::ALSAPCMCapture),
            0x301 => Ok(MediaInterfaceType::ALSAPCMPlayback),
            0x302 => Ok(MediaInterfaceType::ALSAControl),
            0x303 => Ok(MediaInterfaceType::ALSACompress),
            0x304 => Ok(MediaInterfaceType::ALSARawMIDI),
            0x305 => Ok(MediaInterfaceType::ALSAHardwareDependent),
            0x306 => Ok(MediaInterfaceType::ALSASequencer),
            0x307 => Ok(MediaInterfaceType::ALSATimer),
            _ => Err(Error::InterfaceTypeParseError { from: v }),
        }
    }
}

impl TryFromSpecImpl<u32> for MediaInterfaceType {
    open spec fn obeys_try_from_spec() -> bool {
        true
    }

    open spec fn try_from_spec(v: u32) -> Result<Self, Error> {
        MediaInterfaceType::decoded(v)
    }
}

} // verus!
