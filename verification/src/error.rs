//! Failures of control calls and of decoding, and the rules that sort a raw
//! error number into a kind of failure.

use crate::text::format_decimal;
use crate::text::format_signed_decimal;
use crate::text::format_upper_hex2;
use crate::text::decimal;
use crate::text::signed_decimal;
use crate::text::upper_hex2;
use vstd::prelude::*;
use vstd::string::StringExecFns;

verus! {

/// No such file or directory.
pub const ENOENT: i32 = 2;

/// Input/output error.
pub const EIO: i32 = 5;

/// Cannot allocate memory.
pub const ENOMEM: i32 = 12;

/// Device or resource busy.
pub const EBUSY: i32 = 16;

/// Invalid argument.
pub const EINVAL: i32 = 22;

/// Inappropriate ioctl for device.
pub const ENOTTY: i32 = 25;

// The numbers of the control calls are those of 64-bit Linux. A number
// holds the size of the record that the call takes, and the record of
// `MEDIA_IOC_ENUM_LINKS` holds two pointers: on a 32-bit kernel that call has
// another number, and is not among those told apart here.

/// Control call that reads the device information.
pub const MEDIA_IOC_DEVICE_INFO: u64 = 0xC100_7C00;

/// Control call that looks up one entity descriptor.
pub const MEDIA_IOC_ENUM_ENTITIES: u64 = 0xC100_7C01;

/// Control call that lists the pads and links of one entity, by its number
/// on 64-bit Linux: the record that it takes holds two pointers, and the
/// number holds the size of the record.
pub const MEDIA_IOC_ENUM_LINKS: u64 = 0xC028_7C02;

/// Control call that changes the flags of one link.
pub const MEDIA_IOC_SETUP_LINK: u64 = 0xC034_7C03;

/// Control call that reads the topology.
pub const MEDIA_IOC_G_TOPOLOGY: u64 = 0xC048_7C04;

/// Control call that allocates a request.
pub const MEDIA_IOC_REQUEST_ALLOC: u64 = 0x8004_7C05;

/// Control call, on a request, that queues it.
pub const MEDIA_REQUEST_IOC_QUEUE: u64 = 0x7C80;

/// Control call, on a request, that makes it ready for use again.
pub const MEDIA_REQUEST_IOC_REINIT: u64 = 0x7C81;

/// The control calls whose failures are told apart, each known by its
/// number on 64-bit Linux.
#[derive(Debug, Copy, Clone, PartialEq, Eq, Structural)]
pub enum Operation {
    DeviceInfo,
    EnumEntities,
    EnumLinks,
    SetupLink,
    GetTopology,
    RequestAlloc,
    RequestQueue,
    RequestReinit,
}

impl Operation {
    /// The number by which the kernel knows the control call.
    pub open spec fn spec_code(self) -> u64 {
        match self {
            Operation::DeviceInfo => MEDIA_IOC_DEVICE_INFO,
            Operation::EnumEntities => MEDIA_IOC_ENUM_ENTITIES,
            Operation::EnumLinks => MEDIA_IOC_ENUM_LINKS,
            Operation::SetupLink => MEDIA_IOC_SETUP_LINK,
            Operation::GetTopology => MEDIA_IOC_G_TOPOLOGY,
            Operation::RequestAlloc => MEDIA_IOC_REQUEST_ALLOC,
            Operation::RequestQueue => MEDIA_REQUEST_IOC_QUEUE,
            Operation::RequestReinit => MEDIA_REQUEST_IOC_REINIT,
        }
    }

    /// The number by which the kernel knows the control call.
    #[verifier::when_used_as_spec(spec_code)]
    pub fn code(self) -> (api: u64)
        ensures
            api == self.spec_code(),
    {
        match self {
            Operation::DeviceInfo => MEDIA_IOC_DEVICE_INFO,
            Operation::EnumEntities => MEDIA_IOC_ENUM_ENTITIES,
            Operation::EnumLinks => MEDIA_IOC_ENUM_LINKS,
            Operation::SetupLink => MEDIA_IOC_SETUP_LINK,
            Operation::GetTopology => MEDIA_IOC_G_TOPOLOGY,
            Operation::RequestAlloc => MEDIA_IOC_REQUEST_ALLOC,
            Operation::RequestQueue => MEDIA_REQUEST_IOC_QUEUE,
            Operation::RequestReinit => MEDIA_REQUEST_IOC_REINIT,
        }
    }

    /// The control call with the number `api`, if it is one of those told
    /// apart here.
    pub fn from_code(api: u64) -> (op: Option<Operation>)
        ensures
            match op {
                Some(o) => o.code() == api,
                None => forall|o: Operation| o.code() != api,
            },
    {
        if api == MEDIA_IOC_DEVICE_INFO {
            Some(Operation::DeviceInfo)
        } else if api == MEDIA_IOC_ENUM_ENTITIES {
            Some(Operation::EnumEntities)
        } else if api == MEDIA_IOC_ENUM_LINKS {
            Some(Operation::EnumLinks)
        } else if api == MEDIA_IOC_SETUP_LINK {
            Some(Operation::SetupLink)
        } else if api == MEDIA_IOC_G_TOPOLOGY {
            Some(Operation::GetTopology)
        } else if api == MEDIA_IOC_REQUEST_ALLOC {
            Some(Operation::RequestAlloc)
        } else if api == MEDIA_REQUEST_IOC_QUEUE {
            Some(Operation::RequestQueue)
        } else if api == MEDIA_REQUEST_IOC_REINIT {
            Some(Operation::RequestReinit)
        } else {
            None
        }
    }
}

/// What a failed control call means.
#[derive(Debug, Copy, Clone, PartialEq, Eq, Structural)]
pub enum FailureKind {
    /// The device is busy; something else has to change before a retry.
    DeviceBusy,
    /// The device does not know the control call.
    UnsupportedOperation,
    /// The request is queued already.
    RequestAlreadyQueued,
    /// The request holds no buffers, or lacks configuration.
    RequestMissingBuffers,
    /// The kernel could not allocate what the request needs.
    OutOfMemory,
    /// The request holds invalid data.
    RequestInvalidData,
    /// The hardware is in a bad state.
    HardwareBadState,
    /// Any other failure, with the error number as it came.
    GenericControlFailure { raw_code: i32 },
}

/// The kind of failure that the error number `code` stands for after the
/// control call `op`, by the table of the media API:
///
/// - allocating a request fails in one way, `GenericControlFailure`;
/// - making a request ready again fails in one way, `DeviceBusy`: the
///   request is still queued;
/// - queueing a request tells five error numbers apart, `EBUSY` being
///   `RequestAlreadyQueued`;
/// - after every other call `EBUSY` is `DeviceBusy`;
/// - `ENOTTY` is `UnsupportedOperation` wherever a call can meet it;
/// - every other error number is `GenericControlFailure`, with the number.
pub open spec fn failure_of(op: Operation, code: i32) -> FailureKind {
    match op {
        Operation::RequestAlloc => FailureKind::GenericControlFailure { raw_code: code },
        Operation::RequestReinit => FailureKind::DeviceBusy,
        Operation::RequestQueue => if code == EBUSY {
            FailureKind::RequestAlreadyQueued
        } else if code == ENOENT {
            FailureKind::RequestMissingBuffers
        } else if code == ENOMEM {
            FailureKind::OutOfMemory
        } else if code == EINVAL {
            FailureKind::RequestInvalidData
        } else if code == EIO {
            FailureKind::HardwareBadState
        } else if code == ENOTTY {
            FailureKind::UnsupportedOperation
        } else {
            FailureKind::GenericControlFailure { raw_code: code }
        },
        _ => if code == EBUSY {
            FailureKind::DeviceBusy
        } else if code == ENOTTY {
            FailureKind::UnsupportedOperation
        } else {
            FailureKind::GenericControlFailure { raw_code: code }
        },
    }
}

/// The kind of failure that `code` stands for after the control call
/// numbered `api`. A call that is not one of `Operation` gives
/// `GenericControlFailure` whatever the error number.
pub open spec fn classified(api: u64, code: i32) -> FailureKind {
    if exists|op: Operation| op.code() == api {
        failure_of(choose|op: Operation| op.code() == api, code)
    } else {
        FailureKind::GenericControlFailure { raw_code: code }
    }
}

/// Sorts the error number of a failed control call into a kind of failure.
pub fn classify(api: u64, code: i32) -> (kind: FailureKind)
    ensures
        kind == classified(api, code),
        forall|op: Operation| op.code() == api ==> kind == failure_of(op, code),
        (forall|op: Operation| op.code() != api) ==> kind == (FailureKind::GenericControlFailure {
            raw_code: code,
        }),
{
    match Operation::from_code(api) {
        Some(op) => {
            proof {
                lemma_operation_codes_differ();
            }
            Operation::classify(op, code)
        },
        None => FailureKind::GenericControlFailure { raw_code: code },
    }
}

/// No two control calls share a number.
pub proof fn lemma_operation_codes_differ()
    ensures
        forall|a: Operation, b: Operation| a.code() == b.code() ==> a == b,
{
}

/// Every error number maps to one kind of failure: after a control call that
/// is told apart, the kind that the table gives; after any other, whatever
/// the number, `GenericControlFailure` with the number.
pub proof fn lemma_classified(op: Operation, code: i32)
    ensures
        classified(op.code(), code) == failure_of(op, code),
        forall|api: u64|
            (forall|o: Operation| o.code() != api) ==> #[trigger] classified(api, code) == (
            FailureKind::GenericControlFailure { raw_code: code }),
{
    lemma_operation_codes_differ();
}

/// An error number that the table of a control call does not name is
/// reported as it came.
pub proof fn lemma_unmodeled_code(op: Operation, code: i32)
    requires
        op != Operation::RequestReinit,
        code != EBUSY,
        code != ENOTTY,
        code != ENOENT,
        code != ENOMEM,
        code != EINVAL,
        code != EIO,
    ensures
        failure_of(op, code) == (FailureKind::GenericControlFailure { raw_code: code }),
{
}

impl Operation {
    /// Sorts the error number of a failure of this control call.
    pub fn classify(self, code: i32) -> (kind: FailureKind)
        ensures
            kind == failure_of(self, code),
    {
        match self {
            Operation::RequestAlloc => FailureKind::GenericControlFailure { raw_code: code },
            Operation::RequestReinit => FailureKind::DeviceBusy,
            Operation::RequestQueue => {
                if code == EBUSY {
                    FailureKind::RequestAlreadyQueued
                } else if code == ENOENT {
                    FailureKind::RequestMissingBuffers
                } else if code == ENOMEM {
                    FailureKind::OutOfMemory
                } else if code == EINVAL {
                    FailureKind::RequestInvalidData
                } else if code == EIO {
                    FailureKind::HardwareBadState
                } else if code == ENOTTY {
                    FailureKind::UnsupportedOperation
                } else {
                    FailureKind::GenericControlFailure { raw_code: code }
                }
            },
            _ => {
                if code == EBUSY {
                    FailureKind::DeviceBusy
                } else if code == ENOTTY {
                    FailureKind::UnsupportedOperation
                } else {
                    FailureKind::GenericControlFailure { raw_code: code }
                }
            },
        }
    }
}

/// A failure of this library.
#[derive(Debug, Clone, PartialEq, Eq)]
pub enum Error {
    /// A file could not be read or written; `code` is the error number of
    /// the operating system, where it gave one.
    Io { path: String, code: Option<i32> },
    /// The file does not exist.
    FileNotFound { path: String, code: Option<i32> },
    /// A control call failed for a reason that has no variant of its own.
    Ioctl { fd: i32, code: i32, api: u64 },
    /// The file descriptor does not support the control call.
    NotSupportedIoctl { fd: i32, code: i32, api: u64 },
    /// The device is busy. The call must not be repeated before something
    /// else has changed, such as a stream having been stopped.
    DeviceIsBusy { fd: i32, code: i32, api: u64 },
    /// The request was queued already, or buffers were queued directly
    /// before a request was used.
    RequestIsAlreadyQueued { fd: i32, code: i32, api: u64 },
    /// The request holds no buffers, or lacks required configuration.
    RequestNotContainBuffers { fd: i32, code: i32, api: u64 },
    /// The kernel ran out of memory for the request.
    OutOfMemory { fd: i32, code: i32, api: u64 },
    /// The request holds invalid data.
    RequestHasInvalidData { fd: i32, code: i32, api: u64 },
    /// The hardware is in a bad state and has to be reset by stopping the
    /// stream.
    HardwareBadState { fd: i32, code: i32, api: u64 },
    /// The topology changed between the two control calls that read it.
    TopologyChanged { before: u64, after: u64 },
    /// `from` is no interface type.
    InterfaceTypeParseError { from: u32 },
    /// `from` is no entity function.
    EntityFunctionsParseError { from: u32 },
    /// `from` holds bits that are no entity flags.
    EntityFlagsParseError { from: u32 },
    /// `from` is no combination of pad flags.
    PadFlagsParseError { from: u32 },
    /// `from` holds bits that are no link flags, or no known link type.
    LinkFlagsParseError { from: u32 },
}

/// The error that reports a failure of kind `kind`, for the control call
/// numbered `api` on the file descriptor `fd`, which failed with `code`.
pub open spec fn control_failure(kind: FailureKind, fd: i32, code: i32, api: u64) -> Error {
    match kind {
        FailureKind::DeviceBusy => Error::DeviceIsBusy { fd, code, api },
        FailureKind::UnsupportedOperation => Error::NotSupportedIoctl { fd, code, api },
        FailureKind::RequestAlreadyQueued => Error::RequestIsAlreadyQueued { fd, code, api },
        FailureKind::RequestMissingBuffers => Error::RequestNotContainBuffers { fd, code, api },
        FailureKind::OutOfMemory => Error::OutOfMemory { fd, code, api },
        FailureKind::RequestInvalidData => Error::RequestHasInvalidData { fd, code, api },
        FailureKind::HardwareBadState => Error::HardwareBadState { fd, code, api },
        FailureKind::GenericControlFailure { .. } => Error::Ioctl { fd, code, api },
    }
}

/// The tail that every message about a control call ends with: the file
/// descriptor, the number of the call in hexadecimal, and the error number.
pub open spec fn control_tail(fd: i32, code: i32, api: u64) -> Seq<char> {
    " "@ + signed_decimal(fd as int) + ": 0x"@ + upper_hex2(api as nat) + ": "@ + signed_decimal(
        code as int,
    )
}

impl Error {
    /// The kind of failure that the error reports, if it reports a failed
    /// control call.
    pub open spec fn spec_kind(self) -> Option<FailureKind> {
        match self {
            Error::Ioctl { code, .. } => Some(FailureKind::GenericControlFailure { raw_code: code }),
            Error::NotSupportedIoctl { .. } => Some(FailureKind::UnsupportedOperation),
            Error::DeviceIsBusy { .. } => Some(FailureKind::DeviceBusy),
            Error::RequestIsAlreadyQueued { .. } => Some(FailureKind::RequestAlreadyQueued),
            Error::RequestNotContainBuffers { .. } => Some(FailureKind::RequestMissingBuffers),
            Error::OutOfMemory { .. } => Some(FailureKind::OutOfMemory),
            Error::RequestHasInvalidData { .. } => Some(FailureKind::RequestInvalidData),
            Error::HardwareBadState { .. } => Some(FailureKind::HardwareBadState),
            _ => None,
        }
    }

    /// The message of the error.
    pub open spec fn message(self) -> Seq<char> {
        match self {
            Error::Io { path, .. } => "io error: "@ + path@,
            Error::FileNotFound { path, .. } => "file not found: "@ + path@,
            Error::Ioctl { fd, code, api } => "generic ioctl error"@ + control_tail(fd, code, api),
            Error::NotSupportedIoctl { fd, code, api } => {
                "the ioctl is not supported by the file descriptor"@ + control_tail(fd, code, api)
            },
            Error::DeviceIsBusy { fd, code, api } => "the device is busy"@ + control_tail(
                fd,
                code,
                api,
            ),
            Error::RequestIsAlreadyQueued { fd, code, api } => "the request is already queued"@
                + control_tail(fd, code, api),
            Error::RequestNotContainBuffers { fd, code, api } => {
                "the request did not contain any buffers"@ + control_tail(fd, code, api)
            },
            Error::OutOfMemory { fd, code, api } => {
                "Out of memory when allocating internal data structures for this request."@
                    + control_tail(fd, code, api)
            },
            Error::RequestHasInvalidData { fd, code, api } => "The request has invalid data."@
                + control_tail(fd, code, api),
            Error::HardwareBadState { fd, code, api } => {
                "The hardware is in a bad state. To recover, the application needs to stop streaming to reset the hardware state and then try to restart streaming."@
                    + control_tail(fd, code, api)
            },
            Error::TopologyChanged { before, after } => {
                "the topology changed while it was read: version "@ + decimal(before as nat)
                    + " became "@ + decimal(after as nat)
            },
            Error::InterfaceTypeParseError { from } => "interface type parse error: "@ + decimal(
                from as nat,
            ),
            Error::EntityFunctionsParseError { from } => "entity functions parse error: "@
                + decimal(from as nat),
            Error::EntityFlagsParseError { from } => "entity flags parse error: "@ + decimal(
                from as nat,
            ),
            Error::PadFlagsParseError { from } => "pad flags parse error: "@ + decimal(from as nat),
            Error::LinkFlagsParseError { from } => "link flags parse error: "@ + decimal(
                from as nat,
            ),
        }
    }

    /// Makes the error for a control call that failed: `fd` is the file
    /// descriptor it was made on, `code` the error number it failed with and
    /// `api` the number of the call. The variant follows from `classify`.
    pub fn ioctl_error(fd: i32, code: i32, api: u64) -> (e: Error)
        ensures
            e == control_failure(classified(api, code), fd, code, api),
            e.spec_kind() == Some(classified(api, code)),
    {
        match classify(api, code) {
            FailureKind::DeviceBusy => Error::DeviceIsBusy { fd, code, api },
            FailureKind::UnsupportedOperation => Error::NotSupportedIoctl { fd, code, api },
            FailureKind::RequestAlreadyQueued => Error::RequestIsAlreadyQueued { fd, code, api },
            FailureKind::RequestMissingBuffers => Error::RequestNotContainBuffers { fd, code, api },
            FailureKind::OutOfMemory => Error::OutOfMemory { fd, code, api },
            FailureKind::RequestInvalidData => Error::RequestHasInvalidData { fd, code, api },
            FailureKind::HardwareBadState => Error::HardwareBadState { fd, code, api },
            FailureKind::GenericControlFailure { .. } => Error::Ioctl { fd, code, api },
        }
    }

    /// The kind of failure that the error reports, if it reports a failed
    /// control call.
    pub fn kind(&self) -> (k: Option<FailureKind>)
        ensures
            k == self.spec_kind(),
    {
        match self {
            Error::Ioctl { code, .. } => Some(FailureKind::GenericControlFailure { raw_code: *code }),
            Error::NotSupportedIoctl { .. } => Some(FailureKind::UnsupportedOperation),
            Error::DeviceIsBusy { .. } => Some(FailureKind::DeviceBusy),
            Error::RequestIsAlreadyQueued { .. } => Some(FailureKind::RequestAlreadyQueued),
            Error::RequestNotContainBuffers { .. } => Some(FailureKind::RequestMissingBuffers),
            Error::OutOfMemory { .. } => Some(FailureKind::OutOfMemory),
            Error::RequestHasInvalidData { .. } => Some(FailureKind::RequestInvalidData),
            Error::HardwareBadState { .. } => Some(FailureKind::HardwareBadState),
            _ => None,
        }
    }

    /// Writes the message of the error.
    pub fn to_string(&self) -> (s: String)
        ensures
            s@ == self.message(),
    {
        match self {
            Error::Io { path, .. } => String::from_str("io error: ").concat(path.as_str()),
            Error::FileNotFound { path, .. } => String::from_str("file not found: ").concat(
                path.as_str(),
            ),
            Error::Ioctl { fd, code, api } => control_message(
                "generic ioctl error",
                *fd,
                *code,
                *api,
            ),
            Error::NotSupportedIoctl { fd, code, api } => control_message(
                "the ioctl is not supported by the file descriptor",
                *fd,
                *code,
                *api,
            ),
            Error::DeviceIsBusy { fd, code, api } => control_message(
                "the device is busy",
                *fd,
                *code,
                *api,
            ),
            Error::RequestIsAlreadyQueued { fd, code, api } => control_message(
                "the request is already queued",
                *fd,
                *code,
                *api,
            ),
            Error::RequestNotContainBuffers { fd, code, api } => control_message(
                "the request did not contain any buffers",
                *fd,
                *code,
                *api,
            ),
            Error::OutOfMemory { fd, code, api } => control_message(
                "Out of memory when allocating internal data structures for this request.",
                *fd,
                *code,
                *api,
            ),
            Error::RequestHasInvalidData { fd, code, api } => control_message(
                "The request has invalid data.",
                *fd,
                *code,
                *api,
            ),
            Error::HardwareBadState { fd, code, api } => control_message(
                "The hardware is in a bad state. To recover, the application needs to stop streaming to reset the hardware state and then try to restart streaming.",
                *fd,
                *code,
                *api,
            ),
            Error::TopologyChanged { before, after } => {
                let s = String::from_str("the topology changed while it was read: version ");
                let s = s.concat(format_decimal(*before).as_str());
                let s = s.concat(" became ");
                s.concat(format_decimal(*after).as_str())
            },
            Error::InterfaceTypeParseError { from } => parse_message(
                "interface type parse error: ",
                *from,
            ),
            Error::EntityFunctionsParseError { from } => parse_message(
                "entity functions parse error: ",
                *from,
            ),
            Error::EntityFlagsParseError { from } => parse_message(
                "entity flags parse error: ",
                *from,
            ),
            Error::PadFlagsParseError { from } => parse_message("pad flags parse error: ", *from),
            Error::LinkFlagsParseError { from } => parse_message(
                "link flags parse error: ",
                *from,
            ),
        }
    }
}

/// Writes the message about a control call: what happened, then where.
fn control_message(what: &str, fd: i32, code: i32, api: u64) -> (s: String)
    ensures
        s@ == what@ + control_tail(fd, code, api),
{
    let s = String::from_str(what);
    let s = s.concat(" ");
    let s = s.concat(format_signed_decimal(fd).as_str());
    let s = s.concat(": 0x");
    let s = s.concat(format_upper_hex2(api).as_str());
    let s = s.concat(": ");
    let s = s.concat(format_signed_decimal(code).as_str());
    assert(s@ =~= what@ + control_tail(fd, code, api));
    s
}

/// Writes the message about a value that could not be decoded.
fn parse_message(what: &str, from: u32) -> (s: String)
    ensures
        s@ == what@ + decimal(from as nat),
{
    String::from_str(what).concat(format_decimal(from as u64).as_str())
}

/// Makes the error for a file operation on `path` that failed: a file that
/// does not exist is told apart from every other failure. `not_found` says
/// whether the operating system reported the file as missing, `code` is its
/// error number, where it gave one.
pub fn trap_io_error(not_found: bool, code: Option<i32>, path: String) -> (e: Error)
    ensures
        not_found ==> e == (Error::FileNotFound { path, code }),
        !not_found ==> e == (Error::Io { path, code }),
{
    if not_found {
        Error::FileNotFound { path, code }
    } else {
        Error::Io { path, code }
    }
}

} // verus!
