use linux_media::error::MEDIA_IOC_ENUM_ENTITIES;
use linux_media::{
    EntityId, Error, InterfaceId, MediaEntityFlags, MediaEntityFunctions, MediaEntityIter, PadId,
    RawEntityDesc, Version,
};

const FD: i32 = 3;

fn desc(id: u32, name: &str) -> RawEntityDesc {
    let mut buf = [0u8; 32];
    buf[..name.len()].copy_from_slice(name.as_bytes());
    RawEntityDesc { id, name: buf, type_: 0x0002_0001, revision: 0, flags: 1, group_id: 0, pads: 1, links: 0 }
}

/// Answers the lookup of an entity as the kernel does on a graph that does
/// not change.
fn lookup(entities: &[RawEntityDesc], query: EntityId) -> Result<RawEntityDesc, i32> {
    let found = if query.has_next_flag() {
        let after = query.without_next_flag().0;
        entities.iter().filter(|e| e.id > after).min_by_key(|e| e.id)
    } else {
        entities.iter().find(|e| e.id == query.0)
    };
    found.copied().ok_or(libc::EINVAL)
}

fn walk(entities: &[RawEntityDesc], start: u32) -> (Vec<u32>, u32) {
    let mut cursor = MediaEntityIter::new(FD, Version::new(6, 0, 0), EntityId(start));
    let mut ids = Vec::new();
    let mut calls = 0;
    while let Some(query) = cursor.request() {
        assert!(query.has_next_flag());
        calls += 1;
        assert!(calls < 1000, "the walk does not end");
        match cursor.advance(lookup(entities, query)).unwrap() {
            Some(entity) => ids.push(entity.id().0),
            None => {}
        }
    }
    (ids, calls)
}

#[test]
fn a_cursor_gives_the_entities_in_the_order_of_their_ids() {
    let entities = [desc(30, "c"), desc(10, "a"), desc(20, "b")];
    let (ids, calls) = walk(&entities, 0);
    assert_eq!(ids, vec![10, 20, 30]);
    assert_eq!(calls, 4);
}

#[test]
fn a_cursor_starts_after_the_id_it_is_given() {
    let entities = [desc(10, "a"), desc(20, "b"), desc(30, "c")];
    assert_eq!(walk(&entities, 10).0, vec![20, 30]);
    assert_eq!(walk(&entities, 15).0, vec![20, 30]);
    assert_eq!(walk(&entities, 30).0, Vec::<u32>::new());
    assert_eq!(walk(&[], 0), (vec![], 1));
}

#[test]
fn the_ids_of_a_walk_increase_strictly() {
    let entities: Vec<RawEntityDesc> = [7u32, 3, 900, 42, 1, 0x00ff_ffff, 8].iter().map(|id| desc(*id, "e")).collect();
    let (ids, calls) = walk(&entities, 0);
    assert_eq!(ids.len(), entities.len());
    assert!(ids.windows(2).all(|w| w[0] < w[1]));
    assert_eq!(calls as usize, entities.len() + 1);
}

#[test]
fn the_first_request_asks_for_what_follows_the_start() {
    let cursor = MediaEntityIter::new(FD, Version::new(6, 0, 0), EntityId(0));
    assert_eq!(cursor.request(), Some(EntityId(0x8000_0000)));
    let cursor = MediaEntityIter::new(FD, Version::new(6, 0, 0), EntityId(20));
    assert_eq!(cursor.request(), Some(EntityId(0x8000_0014)));
}

#[test]
fn a_step_gives_the_entity_of_the_descriptor() {
    let mut cursor = MediaEntityIter::new(FD, Version::new(4, 19, 0), EntityId(0));
    let e = cursor.advance(Ok(desc(10, "sensor"))).unwrap().unwrap();
    assert_eq!(e.id(), EntityId(10));
    assert_eq!(e.name(), "sensor");
    assert_eq!(e.function(), MediaEntityFunctions::CAMSensor);
    assert_eq!(e.flags(), Some(MediaEntityFlags::default_entity()));
    assert_eq!(cursor.request(), Some(EntityId(10).with_next_flag()));
    let mut old = MediaEntityIter::new(FD, Version::new(4, 18, 0), EntityId(0));
    let e = old.advance(Ok(desc(10, "sensor"))).unwrap().unwrap();
    assert_eq!(e.flags(), None);
}

#[test]
fn a_lookup_that_finds_nothing_is_the_end_and_no_error() {
    let mut cursor = MediaEntityIter::new(FD, Version::new(6, 0, 0), EntityId(0));
    assert!(!cursor.is_finished());
    assert_eq!(cursor.advance(Err(libc::EINVAL)), Ok(None));
    assert!(cursor.is_finished());
    assert_eq!(cursor.request(), None);
}

#[test]
fn a_busy_device_is_reported_and_not_taken_for_the_end() {
    let mut cursor = MediaEntityIter::new(FD, Version::new(6, 0, 0), EntityId(0));
    assert_eq!(cursor.advance(Ok(desc(10, "a"))).unwrap().unwrap().id(), EntityId(10));
    assert_eq!(
        cursor.advance(Err(libc::EBUSY)),
        Err(Error::DeviceIsBusy { fd: FD, code: libc::EBUSY, api: MEDIA_IOC_ENUM_ENTITIES })
    );
    assert_eq!(cursor.id(), EntityId(10));
}

#[test]
fn every_failure_but_the_end_is_reported_by_its_kind() {
    let api = MEDIA_IOC_ENUM_ENTITIES;
    for (code, expected) in [
        (libc::ENOTTY, Error::NotSupportedIoctl { fd: FD, code: libc::ENOTTY, api }),
        (libc::EIO, Error::Ioctl { fd: FD, code: libc::EIO, api }),
        (libc::ENOMEM, Error::Ioctl { fd: FD, code: libc::ENOMEM, api }),
        (libc::EBADF, Error::Ioctl { fd: FD, code: libc::EBADF, api }),
        (0, Error::Ioctl { fd: FD, code: 0, api }),
    ] {
        let mut cursor = MediaEntityIter::new(FD, Version::new(6, 0, 0), EntityId(7));
        assert_eq!(cursor.advance(Err(code)), Err(expected));
    }
}

#[test]
fn an_error_ends_the_walk() {
    let mut cursor = MediaEntityIter::new(FD, Version::new(6, 0, 0), EntityId(5));
    assert!(cursor.advance(Err(libc::EBUSY)).is_err());
    assert!(cursor.is_finished());
    assert_eq!(cursor.request(), None);
    assert_eq!(cursor.advance(Ok(desc(10, "a"))), Ok(None));
    assert_eq!(cursor.advance(Err(libc::EBUSY)), Ok(None));
    assert_eq!(cursor.id(), EntityId(5));
}

#[test]
fn a_walk_is_taken_up_again_with_a_new_cursor() {
    let entities = [desc(10, "a"), desc(20, "b"), desc(30, "c")];
    let mut cursor = MediaEntityIter::new(FD, Version::new(6, 0, 0), EntityId(0));
    let query = cursor.request().unwrap();
    assert_eq!(cursor.advance(lookup(&entities, query)).unwrap().unwrap().id(), EntityId(10));
    assert!(cursor.advance(Err(libc::EBUSY)).is_err());
    assert_eq!(walk(&entities, cursor.id().0).0, vec![20, 30]);
}

#[test]
fn a_cursor_at_its_end_stays_there() {
    let mut cursor = MediaEntityIter::new(FD, Version::new(6, 0, 0), EntityId(0));
    assert_eq!(cursor.advance(Err(libc::EINVAL)), Ok(None));
    assert_eq!(cursor.advance(Ok(desc(10, "a"))), Ok(None));
    assert_eq!(cursor.request(), None);
    assert_eq!(cursor.advance(Err(libc::EBUSY)), Ok(None));
    assert_eq!(cursor.request(), None);
    assert_eq!(cursor.id(), EntityId(0));
}

#[test]
fn a_descriptor_that_does_not_decode_is_an_error_and_ends_the_walk() {
    let mut cursor = MediaEntityIter::new(FD, Version::new(6, 0, 0), EntityId(5));
    let mut bad = desc(10, "a");
    bad.type_ = 0xbad;
    assert_eq!(cursor.advance(Ok(bad)), Err(Error::EntityFunctionsParseError { from: 0xbad }));
    assert_eq!(cursor.request(), None);
    assert_eq!(cursor.id(), EntityId(5));
    let mut cursor = MediaEntityIter::new(FD, Version::new(6, 0, 0), EntityId(5));
    bad.type_ = 1;
    bad.flags = 0x80;
    assert_eq!(cursor.advance(Ok(bad)), Err(Error::EntityFlagsParseError { from: 0x80 }));
    assert!(cursor.is_finished());
}

#[test]
fn a_walk_over_a_bad_descriptor_gives_what_came_before() {
    let mut entities = [desc(10, "a"), desc(20, "b"), desc(30, "c")];
    entities[1].type_ = 0xbad;
    let mut cursor = MediaEntityIter::new(FD, Version::new(6, 0, 0), EntityId(0));
    let mut ids = Vec::new();
    let mut errors = Vec::new();
    let mut calls = 0;
    while let Some(query) = cursor.request() {
        calls += 1;
        assert!(calls < 10, "the walk does not end");
        match cursor.advance(lookup(&entities, query)) {
            Ok(Some(entity)) => ids.push(entity.id().0),
            Ok(None) => {}
            Err(e) => errors.push(e),
        }
    }
    assert_eq!(ids, vec![10]);
    assert_eq!(errors, vec![Error::EntityFunctionsParseError { from: 0xbad }]);
    assert_eq!(calls, 2);
}

#[test]
fn a_walk_gives_no_more_entities_than_the_device_holds() {
    for n in 0u32..6 {
        let entities: Vec<RawEntityDesc> = (1..=n).map(|i| desc(i * 3, "e")).collect();
        let (ids, calls) = walk(&entities, 0);
        assert_eq!(ids.len() as u32, n);
        assert_eq!(calls, n + 1);
    }
}

#[test]
fn pad_and_interface_ids_are_written_in_decimal() {
    assert_eq!(PadId(0).to_string(), "0");
    assert_eq!(PadId(0x0100_0005).to_string(), "16777221");
    assert_eq!(InterfaceId(4294967295).to_string(), "4294967295");
    assert_eq!(InterfaceId(50331650).to_string(), "50331650");
}
