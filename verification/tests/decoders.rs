use linux_media::media_entity::MEDIA_ENT_ID_FLAG_NEXT;
use linux_media::{
    EntityId, Error, InterfaceId, LinkId, LinkType, MediaDeviceInfo, MediaEntity, MediaEntityDesc,
    MediaEntityFlags, MediaEntityFunctions, MediaInterface, MediaInterfaceType, MediaIntfDevnode,
    MediaLink, MediaLinkDesc, MediaLinkFlags, MediaLinksEnum, MediaPad, MediaPadDesc,
    MediaPadFlags, PadId, PadIdOr, RawDeviceInfo, RawEntity, RawEntityDesc, RawInterface, RawLink,
    RawLinkDesc, RawPad, RawPadDesc, Version,
};

fn name64(s: &str) -> [u8; 64] {
    let mut buf = [0u8; 64];
    buf[..s.len()].copy_from_slice(s.as_bytes());
    buf
}

fn name32(s: &str) -> [u8; 32] {
    let mut buf = [0u8; 32];
    buf[..s.len()].copy_from_slice(s.as_bytes());
    buf
}

const OLD: Version = Version { major: 4, minor: 18, patch: 255 };
const NEW: Version = Version { major: 4, minor: 19, patch: 0 };

const FUNCTIONS: [(u32, MediaEntityFunctions); 32] = [
    (0x0000_0000, MediaEntityFunctions::Unknown),
    (0x0002_0000, MediaEntityFunctions::V4L2SubdevUnknown),
    (0x0001_0001, MediaEntityFunctions::IoV4L),
    (0x0000_1002, MediaEntityFunctions::IoVBI),
    (0x0000_1003, MediaEntityFunctions::IoSWRadio),
    (0x0000_1001, MediaEntityFunctions::IoDTV),
    (0x0000_0001, MediaEntityFunctions::DTVDemod),
    (0x0000_0002, MediaEntityFunctions::TSDemux),
    (0x0000_0003, MediaEntityFunctions::DTVCondAccess),
    (0x0000_0004, MediaEntityFunctions::DTVNetDecap),
    (0x0002_0001, MediaEntityFunctions::CAMSensor),
    (0x0002_0002, MediaEntityFunctions::Flash),
    (0x0002_0003, MediaEntityFunctions::Lens),
    (0x0002_0004, MediaEntityFunctions::ATVDecoder),
    (0x0002_0005, MediaEntityFunctions::Tuner),
    (0x0000_2001, MediaEntityFunctions::IFVIDDecoder),
    (0x0000_2002, MediaEntityFunctions::IFAUDDecoder),
    (0x0000_3001, MediaEntityFunctions::AudioCapture),
    (0x0000_3002, MediaEntityFunctions::AudioPlayback),
    (0x0000_3003, MediaEntityFunctions::AudioMixer),
    (0x0000_4001, MediaEntityFunctions::ProcVideoComposer),
    (0x0000_4002, MediaEntityFunctions::ProcVideoPixelFormatter),
    (0x0000_4003, MediaEntityFunctions::ProcVideoPixelEncConv),
    (0x0000_4004, MediaEntityFunctions::ProcVideoLUT),
    (0x0000_4005, MediaEntityFunctions::ProcVideoScaler),
    (0x0000_4006, MediaEntityFunctions::ProcVideoStatistics),
    (0x0000_4007, MediaEntityFunctions::ProcVideoEncoder),
    (0x0000_4008, MediaEntityFunctions::ProcVideoDecoder),
    (0x0000_5001, MediaEntityFunctions::VIDMux),
    (0x0000_5002, MediaEntityFunctions::VIDIFBridge),
    (0x0000_6001, MediaEntityFunctions::DVDecoder),
    (0x0000_6002, MediaEntityFunctions::DVEncoder),
];

#[test]
fn entity_functions_decode_by_the_table() {
    for (code, function) in FUNCTIONS {
        assert_eq!(MediaEntityFunctions::try_from(code), Ok(function));
        assert_eq!(function.code(), code);
    }
}

#[test]
fn unknown_entity_functions_are_refused_by_name() {
    for code in [5u32, 0x1_0000, 0x4009, 0x2_0006, 0xffff_ffff] {
        assert_eq!(
            MediaEntityFunctions::try_from(code),
            Err(Error::EntityFunctionsParseError { from: code })
        );
    }
}

#[test]
fn entity_functions_decode_through_try_into() {
    let f: Result<MediaEntityFunctions, Error> = 0x0002_0001u32.try_into();
    assert_eq!(f, Ok(MediaEntityFunctions::CAMSensor));
}

#[test]
fn entity_flags_are_sets_of_known_bits() {
    assert_eq!(MediaEntityFlags::try_from(0).map(|f| f.bits()), Ok(0));
    assert_eq!(MediaEntityFlags::try_from(1), Ok(MediaEntityFlags::default_entity()));
    assert_eq!(MediaEntityFlags::try_from(2), Ok(MediaEntityFlags::connector()));
    assert_eq!(MediaEntityFlags::try_from(3), Ok(MediaEntityFlags::all()));
    assert_eq!(MediaEntityFlags::try_from(4), Err(Error::EntityFlagsParseError { from: 4 }));
    assert_eq!(
        MediaEntityFlags::try_from(0x8000_0001),
        Err(Error::EntityFlagsParseError { from: 0x8000_0001 })
    );
    assert_eq!(MediaEntityFlags::from_bits(5), None);
    assert_eq!(MediaEntityFlags::empty().bits(), 0);
    let both = MediaEntityFlags::default_entity().union(MediaEntityFlags::connector());
    assert_eq!(both, MediaEntityFlags::all());
    assert!(both.contains(MediaEntityFlags::connector()));
    assert!(!MediaEntityFlags::connector().contains(MediaEntityFlags::default_entity()));
    assert!(MediaEntityFlags::connector().contains(MediaEntityFlags::empty()));
}

#[test]
fn the_next_flag_is_bit_31() {
    assert_eq!(MEDIA_ENT_ID_FLAG_NEXT, 1u32 << 31);
    let id = EntityId::from(10);
    assert!(!id.has_next_flag());
    assert_eq!(id.with_next_flag(), EntityId(0x8000_000a));
    assert!(id.with_next_flag().has_next_flag());
    assert_eq!(id.with_next_flag().without_next_flag(), id);
    assert_eq!(id.without_next_flag(), id);
    assert_eq!(id.with_next_flag().with_next_flag(), id.with_next_flag());
    assert_eq!(EntityId(0).with_next_flag(), EntityId(0x8000_0000));
    assert_eq!(u32::from(EntityId(0xffff_ffff).without_next_flag()), 0x7fff_ffff);
}

#[test]
fn entity_ids_combine_bit_by_bit() {
    let next = EntityId::from(MEDIA_ENT_ID_FLAG_NEXT);
    assert_eq!(EntityId(10) | next, EntityId(10).with_next_flag());
    assert_eq!((EntityId(10) | next) & EntityId(!MEDIA_ENT_ID_FLAG_NEXT), EntityId(10));
    assert_eq!(EntityId(0b1100) & EntityId(0b1010), EntityId(0b1000));
    assert_eq!(EntityId(0b1100) | EntityId(0b1010), EntityId(0b1110));
}

#[test]
fn entity_flags_appear_with_version_4_19() {
    assert!(!MediaEntity::has_flags(OLD));
    assert!(MediaEntity::has_flags(NEW));
    assert!(MediaEntity::has_flags(Version::new(6, 1, 0)));
    assert!(!MediaEntity::has_flags(Version::new(0, 255, 255)));
    assert!(!MediaPad::has_index(OLD));
    assert!(MediaPad::has_index(NEW));
    assert!(MediaPad::has_index(Version::new(5, 0, 0)));
    assert!(!MediaPad::has_index(Version::new(4, 18, 0)));
}

#[test]
fn an_entity_decodes_with_flags_on_a_new_kernel() {
    let raw = RawEntity { id: 10, name: name64("sensor"), function: 0x0002_0001, flags: 1 };
    let e = MediaEntity::from_raw_entity(NEW, &raw).unwrap();
    assert_eq!(e.id(), EntityId(10));
    assert_eq!(e.name(), "sensor");
    assert_eq!(e.function(), MediaEntityFunctions::CAMSensor);
    assert_eq!(e.flags(), Some(MediaEntityFlags::default_entity()));
    assert_eq!(
        e,
        MediaEntity::new(
            EntityId(10),
            "sensor",
            MediaEntityFunctions::CAMSensor,
            Some(MediaEntityFlags::default_entity())
        )
    );
}

#[test]
fn an_entity_has_no_flags_on_an_old_kernel() {
    let raw = RawEntity { id: 10, name: name64("sensor"), function: 0x0002_0001, flags: 0xffff };
    let e = MediaEntity::from_raw_entity(OLD, &raw).unwrap();
    assert_eq!(e.flags(), None);
    assert_eq!(e.name(), "sensor");
}

#[test]
fn an_entity_with_unknown_fields_is_refused() {
    let raw = RawEntity { id: 10, name: name64("x"), function: 0x9999, flags: 0xffff };
    assert_eq!(
        MediaEntity::from_raw_entity(NEW, &raw),
        Err(Error::EntityFunctionsParseError { from: 0x9999 })
    );
    let raw = RawEntity { id: 10, name: name64("x"), function: 1, flags: 0x10 };
    assert_eq!(MediaEntity::from_raw_entity(NEW, &raw), Err(Error::EntityFlagsParseError { from: 0x10 }));
}

#[test]
fn an_entity_name_fills_its_buffer_or_stops_at_nul() {
    let raw = RawEntity { id: 1, name: [b'a'; 64], function: 0, flags: 0 };
    assert_eq!(MediaEntity::from_raw_entity(NEW, &raw).unwrap().name().len(), 64);
    let mut name = name64("ab");
    name[3] = b'z';
    let raw = RawEntity { id: 1, name, function: 0, flags: 0 };
    assert_eq!(MediaEntity::from_raw_entity(NEW, &raw).unwrap().name(), "ab");
}

fn raw_desc(id: u32, name: &str) -> RawEntityDesc {
    RawEntityDesc {
        id,
        name: name32(name),
        type_: 0x0001_0001,
        revision: 0,
        flags: 2,
        group_id: 0,
        pads: 3,
        links: 4,
    }
}

#[test]
fn an_entity_descriptor_decodes() {
    let d = MediaEntityDesc::from_raw(&raw_desc(20, "video0")).unwrap();
    assert_eq!(d.id(), EntityId(20));
    assert_eq!(d.name(), "video0");
    assert_eq!(d.type_(), MediaEntityFunctions::IoV4L);
    assert_eq!(d.flags(), MediaEntityFlags::connector());
    assert_eq!(d.pads(), 3);
    assert_eq!(d.links(), 4);
    let q = MediaLinksEnum::query(&d);
    assert_eq!((q.entity, q.pads, q.links), (EntityId(20), 3, 4));
}

#[test]
fn an_entity_descriptor_with_unknown_fields_is_refused() {
    let mut raw = raw_desc(20, "video0");
    raw.type_ = 0x77;
    raw.flags = 0x40;
    assert_eq!(MediaEntityDesc::from_raw(&raw), Err(Error::EntityFunctionsParseError { from: 0x77 }));
    raw.type_ = 0x0001_0001;
    assert_eq!(MediaEntityDesc::from_raw(&raw), Err(Error::EntityFlagsParseError { from: 0x40 }));
}

#[test]
fn an_entity_of_a_descriptor_keeps_flags_by_version() {
    let d = MediaEntityDesc::from_raw(&raw_desc(20, "video0")).unwrap();
    let e = MediaEntity::from_desc(NEW, d.clone());
    assert_eq!(
        e,
        MediaEntity::new(
            EntityId(20),
            "video0",
            MediaEntityFunctions::IoV4L,
            Some(MediaEntityFlags::connector())
        )
    );
    let e = MediaEntity::from_desc(OLD, d);
    assert_eq!(e, MediaEntity::new(EntityId(20), "video0", MediaEntityFunctions::IoV4L, None));
}

const INTERFACE_TYPES: [(u32, MediaInterfaceType); 19] = [
    (0x100, MediaInterfaceType::DigitalTVFrontEnd),
    (0x101, MediaInterfaceType::DigitalTVDemux),
    (0x102, MediaInterfaceType::DigitalTVDVR),
    (0x103, MediaInterfaceType::DigitalTVConditionalAccess),
    (0x104, MediaInterfaceType::DigitalTVNetworkControl),
    (0x200, MediaInterfaceType::V4LVideo),
    (0x201, MediaInterfaceType::V4LVBI),
    (0x202, MediaInterfaceType::V4LRadio),
    (0x203, MediaInterfaceType::V4LSubdev),
    (0x204, MediaInterfaceType::V4LSoftwareDefinedRadio),
    (0x205, MediaInterfaceType::V4LTouchDevice),
    (0x300, MediaInterfaceType::ALSAPCMCapture),
    (0x301, MediaInterfaceType::ALSAPCMPlayback),
    (0x302, MediaInterfaceType::ALSAControl),
    (0x303, MediaInterfaceType::ALSACompress),
    (0x304, MediaInterfaceType::ALSARawMIDI),
    (0x305, MediaInterfaceType::ALSAHardwareDependent),
    (0x306, MediaInterfaceType::ALSASequencer),
    (0x307, MediaInterfaceType::ALSATimer),
];

#[test]
fn interface_types_round_trip_by_the_table() {
    for (code, t) in INTERFACE_TYPES {
        assert_eq!(MediaInterfaceType::try_from(code), Ok(t));
        assert_eq!(u32::from(t), code);
        let back: u32 = t.into();
        assert_eq!(back, code);
    }
}

#[test]
fn unknown_interface_types_are_refused_by_name() {
    for code in [0u32, 0xff, 0x105, 0x206, 0x308, 0x400, 0xffff_ffff] {
        assert_eq!(MediaInterfaceType::try_from(code), Err(Error::InterfaceTypeParseError { from: code }));
    }
}

fn raw_interface(id: u32, intf_type: u32, major: u32, minor: u32) -> RawInterface {
    let mut raw = [0u32; 16];
    raw[0] = major;
    raw[1] = minor;
    raw[2] = 0xdead;
    RawInterface { id, intf_type, flags: 0, raw }
}

#[test]
fn an_interface_decodes_to_a_device_node() {
    let i = MediaInterface::from_raw(&raw_interface(0x0300_0002, 0x200, 81, 3)).unwrap();
    assert_eq!(i.id(), InterfaceId(0x0300_0002));
    assert_eq!(i.type_(), MediaInterfaceType::V4LVideo);
    assert_eq!(i.devnode(), MediaIntfDevnode { major: 81, minor: 3 });
    assert_eq!(i.path(), "/sys/dev/char/81:3");
    assert_eq!(
        i,
        MediaInterface::new(
            InterfaceId(0x0300_0002),
            MediaInterfaceType::V4LVideo,
            MediaIntfDevnode { major: 81, minor: 3 }
        )
    );
}

#[test]
fn an_interface_of_unknown_type_is_refused() {
    assert_eq!(
        MediaInterface::from_raw(&raw_interface(1, 0x999, 81, 3)),
        Err(Error::InterfaceTypeParseError { from: 0x999 })
    );
}

#[test]
fn a_device_node_path_is_major_colon_minor() {
    assert_eq!(MediaIntfDevnode { major: 0, minor: 0 }.path(), "/sys/dev/char/0:0");
    assert_eq!(
        MediaIntfDevnode { major: 4294967295, minor: 10 }.path(),
        "/sys/dev/char/4294967295:10"
    );
    assert_eq!(MediaIntfDevnode::from_raw(116, 7).path(), "/sys/dev/char/116:7");
}

#[test]
fn pad_flags_are_one_of_four_combinations() {
    assert_eq!(MediaPadFlags::try_from(1), Ok(MediaPadFlags::Sink));
    assert_eq!(MediaPadFlags::try_from(2), Ok(MediaPadFlags::Source));
    assert_eq!(MediaPadFlags::try_from(5), Ok(MediaPadFlags::SinkMustConnect));
    assert_eq!(MediaPadFlags::try_from(6), Ok(MediaPadFlags::SourceMustConnect));
    for v in [0u32, 3, 4, 7, 8, 9, 0x101, 0x8000_0001, 0xffff_ffff] {
        assert_eq!(MediaPadFlags::try_from(v), Err(Error::PadFlagsParseError { from: v }));
    }
}

#[test]
fn pad_flags_encode_to_their_bits() {
    assert_eq!(u32::from(MediaPadFlags::Sink), 1);
    assert_eq!(u32::from(MediaPadFlags::Source), 2);
    assert_eq!(u32::from(MediaPadFlags::SinkMustConnect), 5);
    assert_eq!(u32::from(MediaPadFlags::SourceMustConnect), 6);
    for f in [
        MediaPadFlags::Sink,
        MediaPadFlags::Source,
        MediaPadFlags::SinkMustConnect,
        MediaPadFlags::SourceMustConnect,
    ] {
        assert_eq!(MediaPadFlags::try_from(u32::from(f)), Ok(f));
    }
}

#[test]
fn a_pad_has_an_index_on_a_new_kernel_only() {
    let raw = RawPad { id: 0x0100_0005, entity_id: 10, flags: 2, index: 1 };
    assert_eq!(
        MediaPad::from(NEW, &raw),
        Ok(MediaPad {
            id: PadId(0x0100_0005),
            entity_id: EntityId(10),
            flags: MediaPadFlags::Source,
            index: Some(1)
        })
    );
    assert_eq!(
        MediaPad::from(OLD, &raw),
        Ok(MediaPad {
            id: PadId(0x0100_0005),
            entity_id: EntityId(10),
            flags: MediaPadFlags::Source,
            index: None
        })
    );
    let bad = RawPad { id: 1, entity_id: 10, flags: 0, index: 1 };
    assert_eq!(MediaPad::from(NEW, &bad), Err(Error::PadFlagsParseError { from: 0 }));
}

#[test]
fn link_flags_leave_the_type_out() {
    assert_eq!(MediaLinkFlags::try_from(0x1).map(|f| f.bits()), Ok(1));
    assert_eq!(MediaLinkFlags::try_from(0x1000_0003).map(|f| f.bits()), Ok(3));
    assert_eq!(MediaLinkFlags::try_from(0xf000_0007).map(|f| f.bits()), Ok(7));
    assert_eq!(MediaLinkFlags::try_from(0x8), Err(Error::LinkFlagsParseError { from: 0x8 }));
    assert_eq!(
        MediaLinkFlags::try_from(0x2000_0010),
        Err(Error::LinkFlagsParseError { from: 0x2000_0010 })
    );
    assert_eq!(MediaLinkFlags::enabled().bits(), 1);
    assert_eq!(MediaLinkFlags::immutable().bits(), 2);
    assert_eq!(MediaLinkFlags::dynamic().bits(), 4);
    assert_eq!(MediaLinkFlags::all().bits(), 7);
    assert_eq!(MediaLinkFlags::empty().bits(), 0);
    assert_eq!(MediaLinkFlags::from_bits(8), None);
    assert_eq!(MediaLinkFlags::from_bits(0x1000_0000), None);
    let f = MediaLinkFlags::enabled().union(MediaLinkFlags::immutable());
    assert_eq!(f.bits(), 3);
    assert!(f.contains(MediaLinkFlags::enabled()));
    assert!(!f.contains(MediaLinkFlags::dynamic()));
}

#[test]
fn a_link_is_decoded_by_its_type() {
    let data = RawLink { id: 0x0200_0001, source_id: 5, sink_id: 6, flags: 0x3 };
    assert_eq!(
        MediaLink::from_raw(&data),
        Ok(MediaLink::new(
            LinkId(0x0200_0001),
            LinkType::DataLink { source_id: PadId(5), sink_id: PadId(6) },
            MediaLinkFlags::from_bits(3).unwrap()
        ))
    );
    let intf = RawLink { id: 2, source_id: 7, sink_id: 10, flags: 0x1000_0001 };
    let l = MediaLink::from_raw(&intf).unwrap();
    assert_eq!(l.id(), LinkId(2));
    assert_eq!(l.type_, LinkType::InterfaceLink { source_id: InterfaceId(7), sink_id: EntityId(10) });
    assert_eq!(l.flags, MediaLinkFlags::enabled());
    let anc = RawLink { id: 3, source_id: 8, sink_id: 9, flags: 0x2000_0000 };
    let l = MediaLink::from_raw(&anc).unwrap();
    assert_eq!(
        l.type_,
        LinkType::AncillaryLink { source_id: PadIdOr::new(8), sink_id: PadIdOr::new(9) }
    );
    assert_eq!(l.flags, MediaLinkFlags::empty());
    match l.type_ {
        LinkType::AncillaryLink { source_id, sink_id } => {
            assert_eq!((source_id.id(), sink_id.id()), (8, 9));
        }
        _ => panic!("an ancillary link was expected"),
    }
}

#[test]
fn a_link_of_unknown_type_is_refused_with_its_raw_flags() {
    for flags in [0x3000_0000u32, 0x3000_0001, 0x4000_0000, 0x8000_0000, 0xf000_0007] {
        let raw = RawLink { id: 1, source_id: 2, sink_id: 3, flags };
        assert_eq!(MediaLink::from_raw(&raw), Err(Error::LinkFlagsParseError { from: flags }));
        assert_eq!(LinkType::from_raw(&raw), Err(Error::LinkFlagsParseError { from: flags }));
    }
}

#[test]
fn a_link_with_unknown_flags_is_refused_with_its_raw_flags() {
    let raw = RawLink { id: 1, source_id: 2, sink_id: 3, flags: 0x1000_0008 };
    assert_eq!(MediaLink::from_raw(&raw), Err(Error::LinkFlagsParseError { from: 0x1000_0008 }));
}

fn pad_desc(entity: u32, index: u16, flags: u32) -> RawPadDesc {
    RawPadDesc { entity, index, flags }
}

#[test]
fn a_pad_descriptor_round_trips() {
    let raw = pad_desc(10, 2, 6);
    let d = MediaPadDesc::from_raw(&raw).unwrap();
    assert_eq!(d, MediaPadDesc::new(EntityId(10), 2, MediaPadFlags::SourceMustConnect));
    assert_eq!((d.id(), d.index(), d.flags()), (EntityId(10), 2, MediaPadFlags::SourceMustConnect));
    assert_eq!(d.to_raw(), raw);
    assert_eq!(MediaPadDesc::from_raw(&pad_desc(10, 2, 8)), Err(Error::PadFlagsParseError { from: 8 }));
}

#[test]
fn a_pad_index_loses_what_does_not_fit_16_bits() {
    let d = MediaPadDesc::new(EntityId(1), 0x1_0005, MediaPadFlags::Sink);
    assert_eq!(d.to_raw(), pad_desc(1, 5, 1));
    let d = MediaPadDesc::new(EntityId(1), 0xffff, MediaPadFlags::Sink);
    assert_eq!(d.to_raw(), pad_desc(1, 0xffff, 1));
}

#[test]
fn a_link_descriptor_is_a_data_or_an_ancillary_link() {
    let raw = RawLinkDesc { source: pad_desc(10, 0, 2), sink: pad_desc(20, 1, 1), flags: 0x1 };
    let d = MediaLinkDesc::from_raw(&raw).unwrap();
    assert_eq!(
        d,
        MediaLinkDesc::new(
            MediaPadDesc::new(EntityId(10), 0, MediaPadFlags::Source),
            MediaPadDesc::new(EntityId(20), 1, MediaPadFlags::Sink),
            MediaLinkFlags::enabled()
        )
    );
    assert_eq!(d.source().id(), EntityId(10));
    assert_eq!(d.sink().index(), 1);
    assert_eq!(d.flags(), MediaLinkFlags::enabled());
    assert_eq!(d.to_raw(), raw);
    let anc = RawLinkDesc { flags: 0x2000_0002, ..raw };
    assert_eq!(MediaLinkDesc::from_raw(&anc).unwrap().flags(), MediaLinkFlags::immutable());
    let intf = RawLinkDesc { flags: 0x1000_0001, ..raw };
    assert_eq!(MediaLinkDesc::from_raw(&intf), Err(Error::LinkFlagsParseError { from: 0x1000_0001 }));
    let unknown = RawLinkDesc { flags: 0x5000_0000, ..raw };
    assert_eq!(MediaLinkDesc::from_raw(&unknown), Err(Error::LinkFlagsParseError { from: 0x5000_0000 }));
}

#[test]
fn a_link_descriptor_fails_on_its_first_bad_field() {
    let raw = RawLinkDesc { source: pad_desc(10, 0, 9), sink: pad_desc(20, 1, 0), flags: 0x10 };
    assert_eq!(MediaLinkDesc::from_raw(&raw), Err(Error::PadFlagsParseError { from: 9 }));
    let raw = RawLinkDesc { source: pad_desc(10, 0, 2), sink: pad_desc(20, 1, 0), flags: 0x10 };
    assert_eq!(MediaLinkDesc::from_raw(&raw), Err(Error::PadFlagsParseError { from: 0 }));
    let raw = RawLinkDesc { source: pad_desc(10, 0, 2), sink: pad_desc(20, 1, 1), flags: 0x10 };
    assert_eq!(MediaLinkDesc::from_raw(&raw), Err(Error::LinkFlagsParseError { from: 0x10 }));
}

#[test]
fn setting_up_a_link_sends_the_new_flags_and_takes_the_answer() {
    let raw = RawLinkDesc { source: pad_desc(10, 0, 2), sink: pad_desc(20, 1, 1), flags: 0x0 };
    let mut d = MediaLinkDesc::from_raw(&raw).unwrap();
    let query = d.setup_query(MediaLinkFlags::enabled());
    assert_eq!(query, RawLinkDesc { flags: 1, ..raw });
    assert_eq!(d.setup(&query), Ok(()));
    assert_eq!(d.flags(), MediaLinkFlags::enabled());
    let before = d;
    let bad = RawLinkDesc { flags: 0x40, ..raw };
    assert_eq!(d.setup(&bad), Err(Error::LinkFlagsParseError { from: 0x40 }));
    assert_eq!(d, before);
}

#[test]
fn the_pads_and_links_of_an_entity_decode() {
    let pads = [pad_desc(10, 0, 1), pad_desc(10, 1, 2)];
    let links = [RawLinkDesc { source: pad_desc(10, 1, 2), sink: pad_desc(20, 0, 1), flags: 3 }];
    let l = MediaLinksEnum::new(EntityId(10), &pads, &links).unwrap();
    assert_eq!(l.entity(), EntityId(10));
    assert_eq!(
        l.pads(),
        &[
            MediaPadDesc::new(EntityId(10), 0, MediaPadFlags::Sink),
            MediaPadDesc::new(EntityId(10), 1, MediaPadFlags::Source)
        ]
    );
    assert_eq!(l.links().len(), 1);
    assert_eq!(l.links()[0].sink().id(), EntityId(20));
}

#[test]
fn records_that_the_kernel_left_empty_are_passed_over() {
    let zero = pad_desc(0, 0, 0);
    let pads = [pad_desc(10, 0, 1), zero, pad_desc(10, 1, 2), zero];
    let empty_link = RawLinkDesc { source: zero, sink: zero, flags: 0 };
    let half_link = RawLinkDesc { source: pad_desc(10, 1, 2), sink: zero, flags: 0 };
    let links = [
        empty_link,
        RawLinkDesc { source: pad_desc(10, 1, 2), sink: pad_desc(20, 0, 1), flags: 1 },
        half_link,
    ];
    let l = MediaLinksEnum::new(EntityId(10), &pads, &links).unwrap();
    assert_eq!(l.pads().len(), 2);
    assert_eq!(l.pads()[1].index(), 1);
    assert_eq!(l.links().len(), 1);
    let none = MediaLinksEnum::new(EntityId(10), &[zero, zero], &[empty_link]).unwrap();
    assert!(none.pads().is_empty());
    assert!(none.links().is_empty());
    let nothing = MediaLinksEnum::new(EntityId(10), &[], &[]).unwrap();
    assert!(nothing.pads().is_empty() && nothing.links().is_empty());
    assert!(zero.is_absent() && empty_link.is_absent() && half_link.is_absent());
    assert!(!pad_desc(1, 0, 0).is_absent());
}

#[test]
fn listing_fails_on_the_first_record_that_does_not_decode() {
    let pads = [pad_desc(10, 0, 1), pad_desc(10, 1, 3), pad_desc(10, 2, 0)];
    let links = [RawLinkDesc { source: pad_desc(10, 1, 2), sink: pad_desc(20, 0, 1), flags: 0x3000_0000 }];
    assert_eq!(
        MediaLinksEnum::new(EntityId(10), &pads, &links),
        Err(Error::PadFlagsParseError { from: 3 })
    );
    let pads = [pad_desc(10, 0, 1)];
    assert_eq!(
        MediaLinksEnum::new(EntityId(10), &pads, &links),
        Err(Error::LinkFlagsParseError { from: 0x3000_0000 })
    );
}

fn text<const N: usize>(s: &str) -> [u8; N] {
    let mut buf = [0u8; N];
    buf[..s.len()].copy_from_slice(s.as_bytes());
    buf
}

#[test]
fn device_information_decodes() {
    let raw = RawDeviceInfo {
        driver: text("uvcvideo"),
        model: text("HD Webcam"),
        serial: text(""),
        bus_info: text("usb-0000:00:14.0-1"),
        media_version: 0x0006_0100,
        hw_revision: 0x0a,
        driver_version: 0x0006_0100,
    };
    let info = MediaDeviceInfo::from_raw(&raw);
    assert_eq!(info.driver(), "uvcvideo");
    assert_eq!(info.model(), "HD Webcam");
    assert_eq!(info.serial(), "");
    assert_eq!(info.bus_info(), "usb-0000:00:14.0-1");
    assert_eq!(info.media_version(), Version::new(6, 1, 0));
    assert_eq!(info.hw_revision(), 10);
    assert_eq!(info.driver_version(), Version::new(6, 1, 0));
    assert_eq!(
        info.describe(),
        "MediaDeviceInfo { driver: \"uvcvideo\", model: \"HD Webcam\", serial: \"\", bus_info: \"usb-0000:00:14.0-1\", media_version: 6.1.0, hw_revision: 0x0A, driver_version: 6.1.0 }"
    );
}

#[test]
fn device_information_texts_fill_their_buffers() {
    let raw = RawDeviceInfo {
        driver: [b'd'; 16],
        model: [b'm'; 32],
        serial: [b's'; 40],
        bus_info: [0xff; 32],
        media_version: 0,
        hw_revision: 0x1234,
        driver_version: 0xffff_ffff,
    };
    let info = MediaDeviceInfo::from_raw(&raw);
    assert_eq!(info.driver().len(), 16);
    assert_eq!(info.model().len(), 32);
    assert_eq!(info.serial().len(), 40);
    assert_eq!(info.bus_info().chars().count(), 32);
    assert!(info.bus_info().chars().all(|c| c == '\u{FFFD}'));
    assert_eq!(info.driver_version(), Version::new(255, 255, 255));
}
