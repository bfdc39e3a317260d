use linux_media::error::{
    EBUSY, EINVAL, EIO, ENOENT, ENOMEM, ENOTTY, MEDIA_IOC_DEVICE_INFO, MEDIA_IOC_ENUM_ENTITIES,
    MEDIA_IOC_ENUM_LINKS, MEDIA_IOC_G_TOPOLOGY, MEDIA_IOC_REQUEST_ALLOC, MEDIA_IOC_SETUP_LINK,
    MEDIA_REQUEST_IOC_QUEUE, MEDIA_REQUEST_IOC_REINIT,
};
use linux_media::{classify, trap_io_error, Error, FailureKind, Operation};

#[test]
fn enotty_is_not_supported() {
    let err = Error::NotSupportedIoctl { fd: 0, code: libc::ENOTTY, api: 0 };
    assert!(matches!(err, Error::NotSupportedIoctl { code: libc::ENOTTY, .. }));
}

#[test]
fn error_numbers_are_those_of_the_platform() {
    assert_eq!(EBUSY, libc::EBUSY);
    assert_eq!(ENOTTY, libc::ENOTTY);
    assert_eq!(ENOENT, libc::ENOENT);
    assert_eq!(ENOMEM, libc::ENOMEM);
    assert_eq!(EINVAL, libc::EINVAL);
    assert_eq!(EIO, libc::EIO);
}

#[test]
fn control_call_numbers_are_those_of_the_media_api() {
    assert_eq!(MEDIA_IOC_DEVICE_INFO, 0xC100_7C00);
    assert_eq!(MEDIA_IOC_ENUM_ENTITIES, 0xC100_7C01);
    assert_eq!(MEDIA_IOC_ENUM_LINKS, 0xC028_7C02);
    assert_eq!(MEDIA_IOC_SETUP_LINK, 0xC034_7C03);
    assert_eq!(MEDIA_IOC_G_TOPOLOGY, 0xC048_7C04);
    assert_eq!(MEDIA_IOC_REQUEST_ALLOC, 0x8004_7C05);
    assert_eq!(MEDIA_REQUEST_IOC_QUEUE, 0x7C80);
    assert_eq!(MEDIA_REQUEST_IOC_REINIT, 0x7C81);
}

#[test]
fn operations_round_trip_through_their_numbers() {
    for op in [
        Operation::DeviceInfo,
        Operation::EnumEntities,
        Operation::EnumLinks,
        Operation::SetupLink,
        Operation::GetTopology,
        Operation::RequestAlloc,
        Operation::RequestQueue,
        Operation::RequestReinit,
    ] {
        assert_eq!(Operation::from_code(op.code()), Some(op));
    }
    assert_eq!(Operation::from_code(0), None);
    assert_eq!(Operation::from_code(0x7C82), None);
}

#[test]
fn busy_means_device_busy_on_a_query_and_already_queued_on_a_queue() {
    assert_eq!(classify(MEDIA_IOC_G_TOPOLOGY, libc::EBUSY), FailureKind::DeviceBusy);
    assert_eq!(classify(MEDIA_REQUEST_IOC_QUEUE, libc::EBUSY), FailureKind::RequestAlreadyQueued);
}

#[test]
fn queue_failures_are_told_apart() {
    let q = MEDIA_REQUEST_IOC_QUEUE;
    assert_eq!(classify(q, libc::ENOENT), FailureKind::RequestMissingBuffers);
    assert_eq!(classify(q, libc::ENOMEM), FailureKind::OutOfMemory);
    assert_eq!(classify(q, libc::EINVAL), FailureKind::RequestInvalidData);
    assert_eq!(classify(q, libc::EIO), FailureKind::HardwareBadState);
    assert_eq!(classify(q, libc::ENOTTY), FailureKind::UnsupportedOperation);
    assert_eq!(classify(q, libc::EPERM), FailureKind::GenericControlFailure { raw_code: libc::EPERM });
}

#[test]
fn query_failures_are_told_apart() {
    for api in [
        MEDIA_IOC_DEVICE_INFO,
        MEDIA_IOC_ENUM_ENTITIES,
        MEDIA_IOC_ENUM_LINKS,
        MEDIA_IOC_SETUP_LINK,
        MEDIA_IOC_G_TOPOLOGY,
    ] {
        assert_eq!(classify(api, libc::EBUSY), FailureKind::DeviceBusy);
        assert_eq!(classify(api, libc::ENOTTY), FailureKind::UnsupportedOperation);
        assert_eq!(classify(api, libc::EINVAL), FailureKind::GenericControlFailure { raw_code: libc::EINVAL });
        assert_eq!(classify(api, libc::ENOENT), FailureKind::GenericControlFailure { raw_code: libc::ENOENT });
    }
}

#[test]
fn allocation_fails_with_the_generic_kind_only() {
    for code in [libc::EBUSY, libc::ENOTTY, libc::ENOMEM, libc::EINVAL, 0, -1] {
        assert_eq!(
            classify(MEDIA_IOC_REQUEST_ALLOC, code),
            FailureKind::GenericControlFailure { raw_code: code }
        );
    }
}

#[test]
fn reinit_fails_with_device_busy_only() {
    for code in [libc::EBUSY, libc::ENOTTY, libc::EINVAL, 9999] {
        assert_eq!(classify(MEDIA_REQUEST_IOC_REINIT, code), FailureKind::DeviceBusy);
    }
}

#[test]
fn unknown_control_calls_give_the_generic_kind() {
    for code in [libc::EBUSY, libc::ENOTTY, libc::EIO, 12345] {
        assert_eq!(classify(0xdead_beef, code), FailureKind::GenericControlFailure { raw_code: code });
    }
}

#[test]
fn classify_by_operation_agrees_with_classify_by_number() {
    for op in [
        Operation::DeviceInfo,
        Operation::EnumEntities,
        Operation::EnumLinks,
        Operation::SetupLink,
        Operation::GetTopology,
        Operation::RequestAlloc,
        Operation::RequestQueue,
        Operation::RequestReinit,
    ] {
        for code in [0, 1, ENOENT, EIO, ENOMEM, EBUSY, EINVAL, ENOTTY, 4096, -5] {
            assert_eq!(op.classify(code), classify(op.code(), code));
        }
    }
}

#[test]
fn ioctl_error_carries_fd_code_and_api() {
    assert_eq!(
        Error::ioctl_error(3, libc::EBUSY, MEDIA_IOC_G_TOPOLOGY),
        Error::DeviceIsBusy { fd: 3, code: 16, api: MEDIA_IOC_G_TOPOLOGY }
    );
    assert_eq!(
        Error::ioctl_error(3, libc::ENOTTY, MEDIA_IOC_DEVICE_INFO),
        Error::NotSupportedIoctl { fd: 3, code: 25, api: MEDIA_IOC_DEVICE_INFO }
    );
    assert_eq!(
        Error::ioctl_error(4, libc::EINVAL, MEDIA_IOC_ENUM_ENTITIES),
        Error::Ioctl { fd: 4, code: 22, api: MEDIA_IOC_ENUM_ENTITIES }
    );
    assert_eq!(
        Error::ioctl_error(5, libc::ENOENT, MEDIA_REQUEST_IOC_QUEUE),
        Error::RequestNotContainBuffers { fd: 5, code: 2, api: 0x7C80 }
    );
    assert_eq!(
        Error::ioctl_error(5, libc::ENOMEM, MEDIA_REQUEST_IOC_QUEUE),
        Error::OutOfMemory { fd: 5, code: 12, api: 0x7C80 }
    );
    assert_eq!(
        Error::ioctl_error(5, libc::EINVAL, MEDIA_REQUEST_IOC_QUEUE),
        Error::RequestHasInvalidData { fd: 5, code: 22, api: 0x7C80 }
    );
    assert_eq!(
        Error::ioctl_error(5, libc::EIO, MEDIA_REQUEST_IOC_QUEUE),
        Error::HardwareBadState { fd: 5, code: 5, api: 0x7C80 }
    );
    assert_eq!(
        Error::ioctl_error(5, libc::EBUSY, MEDIA_REQUEST_IOC_QUEUE),
        Error::RequestIsAlreadyQueued { fd: 5, code: 16, api: 0x7C80 }
    );
}

#[test]
fn kind_of_an_error() {
    assert_eq!(Error::ioctl_error(3, libc::EBUSY, MEDIA_IOC_G_TOPOLOGY).kind(), Some(FailureKind::DeviceBusy));
    assert_eq!(
        Error::ioctl_error(3, 77, MEDIA_IOC_G_TOPOLOGY).kind(),
        Some(FailureKind::GenericControlFailure { raw_code: 77 })
    );
    assert_eq!(Error::PadFlagsParseError { from: 3 }.kind(), None);
    assert_eq!(Error::TopologyChanged { before: 1, after: 2 }.kind(), None);
}

#[test]
fn messages_of_control_failures() {
    assert_eq!(
        Error::DeviceIsBusy { fd: 3, code: 16, api: 0xC048_7C04 }.to_string(),
        "the device is busy 3: 0xC0487C04: 16"
    );
    assert_eq!(
        Error::Ioctl { fd: 3, code: 22, api: 0x7C80 }.to_string(),
        "generic ioctl error 3: 0x7C80: 22"
    );
    assert_eq!(
        Error::NotSupportedIoctl { fd: -1, code: 25, api: 5 }.to_string(),
        "the ioctl is not supported by the file descriptor -1: 0x05: 25"
    );
    assert_eq!(
        Error::RequestIsAlreadyQueued { fd: 7, code: 16, api: 0x7C80 }.to_string(),
        "the request is already queued 7: 0x7C80: 16"
    );
    assert_eq!(
        Error::RequestNotContainBuffers { fd: 7, code: 2, api: 0x7C80 }.to_string(),
        "the request did not contain any buffers 7: 0x7C80: 2"
    );
    assert_eq!(
        Error::OutOfMemory { fd: 7, code: 12, api: 0x7C80 }.to_string(),
        "Out of memory when allocating internal data structures for this request. 7: 0x7C80: 12"
    );
    assert_eq!(
        Error::RequestHasInvalidData { fd: 7, code: 22, api: 0x7C80 }.to_string(),
        "The request has invalid data. 7: 0x7C80: 22"
    );
    assert_eq!(
        Error::HardwareBadState { fd: 7, code: 5, api: 0 }.to_string(),
        "The hardware is in a bad state. To recover, the application needs to stop streaming to reset the hardware state and then try to restart streaming. 7: 0x00: 5"
    );
}

#[test]
fn messages_of_decode_failures() {
    assert_eq!(Error::InterfaceTypeParseError { from: 7 }.to_string(), "interface type parse error: 7");
    assert_eq!(
        Error::EntityFunctionsParseError { from: 4294967295 }.to_string(),
        "entity functions parse error: 4294967295"
    );
    assert_eq!(Error::EntityFlagsParseError { from: 4 }.to_string(), "entity flags parse error: 4");
    assert_eq!(Error::PadFlagsParseError { from: 0 }.to_string(), "pad flags parse error: 0");
    assert_eq!(
        Error::LinkFlagsParseError { from: 0x3000_0000 }.to_string(),
        "link flags parse error: 805306368"
    );
    assert_eq!(
        Error::TopologyChanged { before: 41, after: 42 }.to_string(),
        "the topology changed while it was read: version 41 became 42"
    );
}

#[test]
fn a_missing_file_is_told_apart() {
    let e = trap_io_error(true, Some(libc::ENOENT), String::from("/dev/media9"));
    assert_eq!(e, Error::FileNotFound { path: String::from("/dev/media9"), code: Some(2) });
    assert_eq!(e.to_string(), "file not found: /dev/media9");
    let e = trap_io_error(false, Some(libc::EACCES), String::from("/dev/media0"));
    assert_eq!(e, Error::Io { path: String::from("/dev/media0"), code: Some(libc::EACCES) });
    assert_eq!(e.to_string(), "io error: /dev/media0");
    let e = trap_io_error(false, None, String::new());
    assert_eq!(e, Error::Io { path: String::new(), code: None });
}
