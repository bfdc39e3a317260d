//! Entity descriptors, and the cursor that walks the entities of a device
//! one control call at a time.

use crate::error::control_failure;
use crate::error::failure_of;
use crate::error::lemma_classified;
use crate::error::Error;
use crate::error::Operation;
use crate::error::EBUSY;
use crate::error::EINVAL;
use crate::error::MEDIA_IOC_ENUM_ENTITIES;
use crate::media_entity::EntityId;
use crate::media_entity::MediaEntity;
use crate::media_entity::MediaEntityFlags;
use crate::media_entity::MediaEntityFunctions;
use crate::media_entity::MediaEntityView;
use crate::media_entity::MEDIA_ENT_ID_FLAG_NEXT;
use crate::text::c_str_text;
use crate::text::decode_c_str;
use crate::version::Version;
use vstd::array::array_as_slice;
use vstd::prelude::*;
use vstd::seq_lib::seq_to_set_is_finite;
use vstd::set_lib::lemma_len_subset;

verus! {

/// An entity descriptor as the kernel lays it out.
#[derive(Debug, Copy, Clone, PartialEq, Eq)]
pub struct RawEntityDesc {
    pub id: u32,
    pub name: [u8; 32],
    pub type_: u32,
    pub revision: u32,
    pub flags: u32,
    pub group_id: u32,
    pub pads: u16,
    pub links: u16,
}

/// The summary of one entity: what it is, and how many pads and outbound
/// links it has.
#[derive(Debug, Clone, PartialEq, Eq, PartialOrd, Ord)]
pub struct MediaEntityDesc {
    /// The id of the entity.
    pub id: EntityId,
    /// The name of the entity, unique within the topology.
    pub name: String,
    /// What the entity does.
    pub type_: MediaEntityFunctions,
    /// The flags of the entity.
    pub flags: MediaEntityFlags,
    /// Number of pads.
    pub pads: usize,
    /// Number of outbound links; inbound links are not counted.
    pub links: usize,
}

/// What an entity descriptor holds, the name as the sequence of its
/// characters.
pub struct MediaEntityDescView {
    pub id: EntityId,
    pub name: Seq<char>,
    pub type_: MediaEntityFunctions,
    pub flags: MediaEntityFlags,
    pub pads: usize,
    pub links: usize,
}

impl View for MediaEntityDesc {
    type V = MediaEntityDescView;

    open spec fn view(&self) -> MediaEntityDescView {
        MediaEntityDescView {
            id: self.id,
            name: self.name@,
            type_: self.type_,
            flags: self.flags,
            pads: self.pads,
            links: self.links,
        }
    }
}

impl MediaEntityDesc {
    /// The descriptor that the record `raw` stands for, or the error of the
    /// first field that does not decode: the type, then the flags.
    pub open spec fn decoded(raw: RawEntityDesc) -> Result<MediaEntityDescView, Error> {
        match MediaEntityFunctions::decoded(raw.type_) {
            Err(e) => Err(e),
            Ok(type_) => match MediaEntityFlags::decoded(raw.flags) {
                Err(e) => Err(e),
                Ok(flags) => Ok(
                    MediaEntityDescView {
                        id: EntityId(raw.id),
                        name: c_str_text(raw.name@),
                        type_,
                        flags,
                        pads: raw.pads as usize,
                        links: raw.links as usize,
                    },
                ),
            },
        }
    }

    /// Decodes an entity descriptor.
    pub fn from_raw(desc: &RawEntityDesc) -> (r: Result<Self, Error>)
        ensures
            match r {
                Ok(d) => Self::decoded(*desc) == Ok::<MediaEntityDescView, Error>(d@),
                Err(e) => Self::decoded(*desc) == Err::<MediaEntityDescView, Error>(e),
            },
    {
        let type_ = match MediaEntityFunctions::try_from(desc.type_) {
            Ok(function) => function,
            Err(e) => {
                return Err(e);
            },
        };
        let flags = match MediaEntityFlags::try_from(desc.flags) {
            Ok(flags) => flags,
            Err(e) => {
                return Err(e);
            },
        };
        let name = decode_c_str(array_as_slice(&desc.name));
        Ok(
            Self {
                id: EntityId(desc.id),
                name,
                type_,
                flags,
                pads: desc.pads as usize,
                links: desc.links as usize,
            },
        )
    }

    pub fn id(&self) -> (id: EntityId)
        ensures
            id == self.id,
    {
        self.id
    }

    pub fn name(&self) -> (name: &str)
        ensures
            name@ == self.name@,
    {
        self.name.as_str()
    }

    pub fn type_(&self) -> (function: MediaEntityFunctions)
        ensures
            function == self.type_,
    {
        self.type_
    }

    pub fn flags(&self) -> (flags: MediaEntityFlags)
        ensures
            flags == self.flags,
    {
        self.flags
    }

    pub fn pads(&self) -> (pads: usize)
        ensures
            pads == self.pads,
    {
        self.pads
    }

    pub fn links(&self) -> (links: usize)
        ensures
            links == self.links,
    {
        self.links
    }
}

/// Walks the entities of a device in the order of their ids, one control
/// call at a time. The cursor says which id to look up; the caller makes the
/// control call and hands back what the kernel answered. A cursor only moves
/// forward. It comes to its end when the kernel says that no entity is left,
/// and also with the first error; once there, it stays there. To go on after
/// an error, make a new cursor after `id`.
#[derive(Debug, Clone, PartialEq, Eq)]
pub struct MediaEntityIter {
    fd: i32,
    media_version: Version,
    id: EntityId,
    finished: bool,
}

/// The state of a cursor.
pub struct MediaEntityIterView {
    /// The file descriptor of the device, for the errors to name.
    pub fd: i32,
    pub media_version: Version,
    /// The id of the last entity seen, or the id that the walk started
    /// after.
    pub id: EntityId,
    /// Whether the walk has come to its end.
    pub finished: bool,
}

impl View for MediaEntityIter {
    type V = MediaEntityIterView;

    closed spec fn view(&self) -> MediaEntityIterView {
        MediaEntityIterView {
            fd: self.fd,
            media_version: self.media_version,
            id: self.id,
            finished: self.finished,
        }
    }
}

/// What a step of a cursor gives: an entity, the end, or an error.
pub open spec fn step_view(r: Result<Option<MediaEntity>, Error>) -> Result<
    Option<MediaEntityView>,
    Error,
> {
    match r {
        Ok(Some(e)) => Ok(Some(e@)),
        Ok(None) => Ok(None),
        Err(e) => Err(e),
    }
}

impl MediaEntityIterView {
    /// The id to look up next: that of the last entity seen, with the flag
    /// that asks for the first entity with a larger id. At the end there is
    /// nothing to look up.
    pub open spec fn request(self) -> Option<EntityId> {
        if self.finished {
            None
        } else {
            Some(self.id.with_next_flag())
        }
    }

    /// The error of a lookup that failed with `code`, where that is not the
    /// way of the kernel to say that no entity is left.
    pub open spec fn failure(self, code: i32) -> Error {
        control_failure(
            failure_of(Operation::EnumEntities, code),
            self.fd,
            code,
            MEDIA_IOC_ENUM_ENTITIES,
        )
    }

    /// What the step gives on the answer `reply`. A lookup that failed with
    /// `EINVAL` found no entity: that is the end, and no error. A lookup
    /// that failed otherwise is reported as the error that its error number
    /// stands for. A descriptor gives its entity, or the error of the field
    /// that does not decode. At the end a step gives nothing, whatever it is
    /// handed.
    pub open spec fn yielded(self, reply: Result<RawEntityDesc, i32>) -> Result<
        Option<MediaEntityView>,
        Error,
    > {
        if self.finished {
            Ok(None)
        } else {
            match reply {
                Err(code) => if code == EINVAL {
                    Ok(None)
                } else {
                    Err(self.failure(code))
                },
                Ok(raw) => match MediaEntityDesc::decoded(raw) {
                    Err(e) => Err(e),
                    Ok(desc) => Ok(Some(MediaEntity::described(self.media_version, desc))),
                },
            }
        }
    }

    /// The state after the kernel answered `reply` to the lookup: a
    /// descriptor that decodes moves the cursor to its id; everything else,
    /// a failed lookup of any kind or a descriptor that does not decode,
    /// brings the cursor to its end and leaves its id as it was.
    pub open spec fn advanced(self, reply: Result<RawEntityDesc, i32>) -> MediaEntityIterView {
        if self.finished {
            self
        } else {
            match reply {
                Err(_) => MediaEntityIterView { finished: true, ..self },
                Ok(raw) => match MediaEntityDesc::decoded(raw) {
                    Err(_) => MediaEntityIterView { finished: true, ..self },
                    Ok(desc) => MediaEntityIterView { id: desc.id, ..self },
                },
            }
        }
    }
}

impl MediaEntityIter {
    /// A cursor over the entities whose id is larger than `id`, on the
    /// device with the file descriptor `fd` and a kernel of the version
    /// `media_version`. No entity has the id 0: a cursor made with it walks
    /// all entities.
    pub fn new(fd: i32, media_version: Version, id: EntityId) -> (c: Self)
        ensures
            c@ == (MediaEntityIterView { fd, media_version, id, finished: false }),
    {
        Self { fd, media_version, id, finished: false }
    }

    /// The id of the last entity seen, or the id that the walk started
    /// after.
    pub fn id(&self) -> (id: EntityId)
        ensures
            id == self@.id,
    {
        self.id
    }

    /// Whether the walk has come to its end.
    pub fn is_finished(&self) -> (finished: bool)
        ensures
            finished == self@.finished,
    {
        self.finished
    }

    /// The id to hand to the control call that looks up an entity, or
    /// nothing where the cursor has reached its end.
    pub fn request(&self) -> (q: Option<EntityId>)
        ensures
            q == self@.request(),
    {
        if self.finished {
            None
        } else {
            Some(self.id.with_next_flag())
        }
    }

    /// Takes the answer of the kernel to the lookup of `request`: the
    /// descriptor it filled in, or the error number it failed with. The
    /// error number `EINVAL` says that no entity is left, which ends the
    /// walk and is no error. Every other failure is an error, and so is a
    /// descriptor that does not decode; either ends the walk too.
    pub fn advance(&mut self, reply: Result<RawEntityDesc, i32>) -> (r: Result<
        Option<MediaEntity>,
        Error,
    >)
        ensures
            final(self)@ == old(self)@.advanced(reply),
            step_view(r) == old(self)@.yielded(reply),
    {
        if self.finished {
            return Ok(None);
        }
        match reply {
            Err(code) => {
                self.finished = true;
                if code == EINVAL {
                    Ok(None)
                } else {
                    proof {
                        lemma_classified(Operation::EnumEntities, code);
                    }
                    Err(Error::ioctl_error(self.fd, code, MEDIA_IOC_ENUM_ENTITIES))
                }
            },
            Ok(raw) => match MediaEntityDesc::from_raw(&raw) {
                Err(e) => {
                    self.finished = true;
                    Err(e)
                },
                Ok(desc) => {
                    self.id = desc.id;
                    Ok(Some(MediaEntity::from_desc(self.media_version, desc)))
                },
            },
        }
    }
}

/// A step that gives no entity brings the cursor to its end, and a step
/// that gives one leaves it on the id of that entity.
pub proof fn lemma_step_ends_or_moves(cursor: MediaEntityIterView, reply: Result<RawEntityDesc, i32>)
    ensures
        match cursor.yielded(reply) {
            Ok(Some(entity)) => !cursor.advanced(reply).finished && cursor.advanced(reply).id
                == entity.id,
            _ => cursor.advanced(reply).finished && cursor.advanced(reply).id == cursor.id,
        },
{
}

/// A failed lookup is the end and no error exactly where the error number
/// is `EINVAL`; every other error number is reported, as `DeviceIsBusy` for
/// `EBUSY`.
pub proof fn lemma_failed_lookup(cursor: MediaEntityIterView, code: i32)
    requires
        !cursor.finished,
    ensures
        code == EINVAL ==> cursor.yielded(Err(code)) == Ok::<Option<MediaEntityView>, Error>(None),
        code != EINVAL ==> cursor.yielded(Err(code)) == Err::<Option<MediaEntityView>, Error>(
            cursor.failure(code),
        ),
        code == EBUSY ==> cursor.failure(code) == (Error::DeviceIsBusy {
            fd: cursor.fd,
            code,
            api: MEDIA_IOC_ENUM_ENTITIES,
        }),
{
}

/// A cursor that has reached its end stays there, whatever it is handed,
/// and asks for no lookup.
pub proof fn lemma_finished_stays(cursor: MediaEntityIterView, reply: Result<RawEntityDesc, i32>)
    requires
        cursor.finished,
    ensures
        cursor.advanced(reply) == cursor,
        cursor.yielded(reply) == Ok::<Option<MediaEntityView>, Error>(None),
        cursor.request() is None,
{
}

/// Whether `device` answers lookups as a device does whose graph does not
/// change: asked for the entity after an id, it gives one with a larger id,
/// and no id it gives has the flag bit set.
pub open spec fn answers_in_order(device: spec_fn(EntityId) -> Result<RawEntityDesc, i32>) -> bool {
    forall|q: EntityId|
        q.has_next_flag() ==> match #[trigger] device(q) {
            Ok(raw) => q.without_next_flag().0 < raw.id < MEDIA_ENT_ID_FLAG_NEXT,
            Err(_) => true,
        }
}

/// Whether every descriptor that `device` gives is one of `entities`: the
/// device holds these entities and no others.
pub open spec fn answers_from(
    device: spec_fn(EntityId) -> Result<RawEntityDesc, i32>,
    entities: Seq<RawEntityDesc>,
) -> bool {
    forall|q: EntityId|
        match #[trigger] device(q) {
            Ok(raw) => entities.contains(raw),
            Err(_) => true,
        }
}

/// The ids of the entities that the records `entities` describe.
pub open spec fn entity_ids(entities: Seq<RawEntityDesc>) -> Seq<EntityId> {
    entities.map_values(|raw: RawEntityDesc| EntityId(raw.id))
}

/// The ids of the entities that a cursor in the state `cursor` gives, step
/// by step, when the device answers each lookup by `device`, up to the end of
/// the walk.
pub open spec fn walk(
    device: spec_fn(EntityId) -> Result<RawEntityDesc, i32>,
    cursor: MediaEntityIterView,
) -> Seq<EntityId>
    decreases MEDIA_ENT_ID_FLAG_NEXT - cursor.id.0,
    when answers_in_order(device) && cursor.id.0 < MEDIA_ENT_ID_FLAG_NEXT
{
    match cursor.request() {
        None => Seq::empty(),
        Some(q) => match cursor.yielded(device(q)) {
            Ok(Some(entity)) => seq![entity.id] + walk(device, cursor.advanced(device(q))),
            _ => Seq::empty(),
        },
    }
}

/// Against a device whose graph does not change, a cursor gives entities
/// with strictly increasing ids, each larger than the id it started after.
pub proof fn lemma_walk_increases(
    device: spec_fn(EntityId) -> Result<RawEntityDesc, i32>,
    cursor: MediaEntityIterView,
)
    requires
        answers_in_order(device),
        cursor.id.0 < MEDIA_ENT_ID_FLAG_NEXT,
    ensures
        forall|i: int|
            0 <= i < walk(device, cursor).len() ==> cursor.id.0 < (#[trigger] walk(
                device,
                cursor,
            )[i]).0 < MEDIA_ENT_ID_FLAG_NEXT,
        forall|i: int, j: int|
            0 <= i < j < walk(device, cursor).len() ==> (#[trigger] walk(device, cursor)[i]).0 < (
            #[trigger] walk(device, cursor)[j]).0,
    decreases MEDIA_ENT_ID_FLAG_NEXT - cursor.id.0,
{
    match cursor.request() {
        None => {},
        Some(q) => {
            assert(q.has_next_flag());
            assert(q.without_next_flag() == cursor.id);
            match cursor.yielded(device(q)) {
                Ok(Some(entity)) => {
                    let next = cursor.advanced(device(q));
                    assert(next.id == entity.id);
                    lemma_walk_increases(device, next);
                    let rest = walk(device, next);
                    let all = walk(device, cursor);
                    assert(all =~= seq![entity.id] + rest);
                    assert forall|i: int| 0 <= i < all.len() implies cursor.id.0 < (
                    #[trigger] all[i]).0 < MEDIA_ENT_ID_FLAG_NEXT by {
                        if i > 0 {
                            assert(all[i] == rest[i - 1]);
                        }
                    }
                    assert forall|i: int, j: int| 0 <= i < j < all.len() implies (
                    #[trigger] all[i]).0 < (#[trigger] all[j]).0 by {
                        assert(all[j] == rest[j - 1]);
                        if i > 0 {
                            assert(all[i] == rest[i - 1]);
                        }
                    }
                },
                _ => {},
            }
        },
    }
}

/// Every entity that a walk gives is one that the device holds.
pub proof fn lemma_walk_stays_within(
    device: spec_fn(EntityId) -> Result<RawEntityDesc, i32>,
    entities: Seq<RawEntityDesc>,
    cursor: MediaEntityIterView,
)
    requires
        answers_in_order(device),
        answers_from(device, entities),
        cursor.id.0 < MEDIA_ENT_ID_FLAG_NEXT,
    ensures
        forall|i: int|
            0 <= i < walk(device, cursor).len() ==> entity_ids(entities).contains(
                #[trigger] walk(device, cursor)[i],
            ),
    decreases MEDIA_ENT_ID_FLAG_NEXT - cursor.id.0,
{
    match cursor.request() {
        None => {},
        Some(q) => {
            assert(q.has_next_flag());
            assert(q.without_next_flag() == cursor.id);
            match cursor.yielded(device(q)) {
                Ok(Some(entity)) => {
                    let raw = device(q)->Ok_0;
                    let next = cursor.advanced(device(q));
                    assert(next.id == entity.id);
                    lemma_walk_stays_within(device, entities, next);
                    let rest = walk(device, next);
                    let all = walk(device, cursor);
                    assert(all =~= seq![entity.id] + rest);
                    assert(entities.contains(raw));
                    let at = choose|at: int| 0 <= at < entities.len() && entities[at] == raw;
                    assert(entity_ids(entities)[at] == entity.id);
                    assert forall|i: int| 0 <= i < all.len() implies entity_ids(entities).contains(
                        #[trigger] all[i],
                    ) by {
                        if i > 0 {
                            assert(all[i] == rest[i - 1]);
                        }
                    }
                },
                _ => {},
            }
        },
    }
}

/// Against a device that holds `entities` and whose graph does not change,
/// a walk comes to its end: it gives no more entities than the device
/// holds, so that among that many steps and one more, one gives no entity
/// and leaves the cursor at its end.
pub proof fn lemma_walk_is_bounded(
    device: spec_fn(EntityId) -> Result<RawEntityDesc, i32>,
    entities: Seq<RawEntityDesc>,
    cursor: MediaEntityIterView,
)
    requires
        answers_in_order(device),
        answers_from(device, entities),
        cursor.id.0 < MEDIA_ENT_ID_FLAG_NEXT,
    ensures
        walk(device, cursor).len() <= entities.len(),
{
    let ids = walk(device, cursor);
    let held = entity_ids(entities);
    lemma_walk_increases(device, cursor);
    lemma_walk_stays_within(device, entities, cursor);
    assert(ids.no_duplicates()) by {
        assert forall|i: int, j: int|
            0 <= i < ids.len() && 0 <= j < ids.len() && i != j implies ids[i] != ids[j] by {
            if i < j {
                assert(ids[i].0 < ids[j].0);
            } else {
                assert(ids[j].0 < ids[i].0);
            }
        }
    }
    ids.unique_seq_to_set();
    held.lemma_cardinality_of_set();
    seq_to_set_is_finite(held);
    assert(ids.to_set().subset_of(held.to_set())) by {
        assert forall|id: EntityId| ids.to_set().contains(id) implies held.to_set().contains(
            id,
        ) by {
            let i = choose|i: int| 0 <= i < ids.len() && ids[i] == id;
            assert(held.contains(ids[i]));
        }
    }
    lemma_len_subset(ids.to_set(), held.to_set());
}

} // verus!
