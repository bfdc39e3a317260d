//! Reading the topology of a device: which parts to ask for, what to ask the
//! kernel in each of the two control calls, and what to make of its answers.

use crate::decode::collect;
use crate::decode::lemma_collect_ok;
use crate::decode::lemma_collect_prefix_err;
use crate::decode::lemma_collect_step;
use crate::error::Error;
use crate::media_device_info::MediaDeviceInfo;
use crate::media_entity::MediaEntity;
use crate::media_entity::MediaEntityView;
use crate::media_entity::RawEntity;
use crate::media_interface::MediaInterface;
use crate::media_interface::RawInterface;
use crate::media_link::MediaLink;
use crate::media_link::RawLink;
use crate::media_pad::MediaPad;
use crate::media_pad::RawPad;
use crate::media_topology::entity_views;
use crate::media_topology::MediaTopology;
use crate::media_topology::MediaTopologyView;
use crate::version::Version;
use vstd::prelude::*;

verus! {

/// What the first control call tells: the generation of the graph and how
/// many nodes of each kind it has.
#[derive(Debug, Copy, Clone, PartialEq, Eq, Structural)]
pub struct TopologySizes {
    pub version: u64,
    pub num_entities: u32,
    pub num_interfaces: u32,
    pub num_pads: u32,
    pub num_links: u32,
}

/// What a control call asks for: of each kind, the number of records that
/// the buffer handed to the kernel has room for. A kind with 0 gets no
/// buffer, and the kernel passes it over.
#[derive(Debug, Copy, Clone, PartialEq, Eq, Structural)]
pub struct TopologyQuery {
    pub num_entities: u32,
    pub num_interfaces: u32,
    pub num_pads: u32,
    pub num_links: u32,
}

/// What the second control call brings: the generation of the graph, and
/// the buffers as the kernel filled them.
#[derive(Debug, Clone, PartialEq, Eq)]
pub struct RawTopology {
    pub topology_version: u64,
    pub entities: Vec<RawEntity>,
    pub interfaces: Vec<RawInterface>,
    pub pads: Vec<RawPad>,
    pub links: Vec<RawLink>,
}

/// Chooses which parts of the topology to read, and reads them.
#[derive(Debug, Clone, Copy, PartialEq, Eq, PartialOrd, Ord, Structural)]
pub struct MediaTopologyBuilder {
    pub entities: bool,
    pub interfaces: bool,
    pub links: bool,
    pub pads: bool,
}

/// The outcomes of decoding the entity records one by one.
pub open spec fn entity_outcomes(version: Version, raws: Seq<RawEntity>) -> Seq<
    Result<MediaEntityView, Error>,
> {
    raws.map_values(|raw: RawEntity| MediaEntity::decoded(version, raw))
}

/// The outcomes of decoding the interface records one by one.
pub open spec fn interface_outcomes(raws: Seq<RawInterface>) -> Seq<Result<MediaInterface, Error>> {
    raws.map_values(|raw: RawInterface| MediaInterface::decoded(raw))
}

/// The outcomes of decoding the pad records one by one.
pub open spec fn pad_outcomes(version: Version, raws: Seq<RawPad>) -> Seq<Result<MediaPad, Error>> {
    raws.map_values(|raw: RawPad| MediaPad::decoded(version, raw))
}

/// The outcomes of decoding the link records one by one.
pub open spec fn link_outcomes(raws: Seq<RawLink>) -> Seq<Result<MediaLink, Error>> {
    raws.map_values(|raw: RawLink| MediaLink::decoded(raw))
}

/// One part of a snapshot: absent where it was not asked for, whatever the
/// buffer holds; else what the buffer decodes to.
pub open spec fn part<T>(wanted: bool, decoded: Result<Seq<T>, Error>) -> Result<
    Option<Seq<T>>,
    Error,
> {
    if !wanted {
        Ok(None)
    } else {
        match decoded {
            Ok(items) => Ok(Some(items)),
            Err(e) => Err(e),
        }
    }
}

/// Decodes the entities of a topology.
pub fn decode_entities(version: Version, raws: &Vec<RawEntity>) -> (r: Result<
    Vec<MediaEntity>,
    Error,
>)
    ensures
        match r {
            Ok(entities) => collect(entity_outcomes(version, raws@)) == Ok::<
                Seq<MediaEntityView>,
                Error,
            >(entity_views(entities@)),
            Err(e) => collect(entity_outcomes(version, raws@)) == Err::<
                Seq<MediaEntityView>,
                Error,
            >(e),
        },
{
    let ghost outcomes = entity_outcomes(version, raws@);
    let mut entities: Vec<MediaEntity> = Vec::new();
    let mut i: usize = 0;
    assert(entity_views(entities@) =~= Seq::empty());
    while i < raws.len()
        invariant
            i <= raws.len(),
            outcomes == entity_outcomes(version, raws@),
            collect(outcomes.take(i as int)) == Ok::<Seq<MediaEntityView>, Error>(
                entity_views(entities@),
            ),
        decreases raws.len() - i,
    {
        proof {
            lemma_collect_step(outcomes, i as int);
        }
        match MediaEntity::from_raw_entity(version, &raws[i]) {
            Ok(entity) => {
                assert(entity_views(entities@.push(entity)) =~= entity_views(entities@).push(
                    entity@,
                ));
                entities.push(entity);
            },
            Err(e) => {
                proof {
                    lemma_collect_prefix_err(outcomes, i + 1);
                }
                return Err(e);
            },
        }
        i = i + 1;
    }
    assert(outcomes.take(i as int) =~= outcomes);
    Ok(entities)
}

/// Decodes the interfaces of a topology.
pub fn decode_interfaces(raws: &Vec<RawInterface>) -> (r: Result<Vec<MediaInterface>, Error>)
    ensures
        match r {
            Ok(interfaces) => collect(interface_outcomes(raws@)) == Ok::<
                Seq<MediaInterface>,
                Error,
            >(interfaces@),
            Err(e) => collect(interface_outcomes(raws@)) == Err::<Seq<MediaInterface>, Error>(e),
        },
{
    let ghost outcomes = interface_outcomes(raws@);
    let mut interfaces: Vec<MediaInterface> = Vec::new();
    let mut i: usize = 0;
    while i < raws.len()
        invariant
            i <= raws.len(),
            outcomes == interface_outcomes(raws@),
            collect(outcomes.take(i as int)) == Ok::<Seq<MediaInterface>, Error>(interfaces@),
        decreases raws.len() - i,
    {
        proof {
            lemma_collect_step(outcomes, i as int);
        }
        match MediaInterface::from_raw(&raws[i]) {
            Ok(interface) => {
                interfaces.push(interface);
            },
            Err(e) => {
                proof {
                    lemma_collect_prefix_err(outcomes, i + 1);
                }
                return Err(e);
            },
        }
        i = i + 1;
    }
    assert(outcomes.take(i as int) =~= outcomes);
    Ok(interfaces)
}

/// Decodes the pads of a topology.
pub fn decode_pads(version: Version, raws: &Vec<RawPad>) -> (r: Result<Vec<MediaPad>, Error>)
    ensures
        match r {
            Ok(pads) => collect(pad_outcomes(version, raws@)) == Ok::<Seq<MediaPad>, Error>(pads@),
            Err(e) => collect(pad_outcomes(version, raws@)) == Err::<Seq<MediaPad>, Error>(e),
        },
{
    let ghost outcomes = pad_outcomes(version, raws@);
    let mut pads: Vec<MediaPad> = Vec::new();
    let mut i: usize = 0;
    while i < raws.len()
        invariant
            i <= raws.len(),
            outcomes == pad_outcomes(version, raws@),
            collect(outcomes.take(i as int)) == Ok::<Seq<MediaPad>, Error>(pads@),
        decreases raws.len() - i,
    {
        proof {
            lemma_collect_step(outcomes, i as int);
        }
        match MediaPad::from(version, &raws[i]) {
            Ok(pad) => {
                pads.push(pad);
            },
            Err(e) => {
                proof {
                    lemma_collect_prefix_err(outcomes, i + 1);
                }
                return Err(e);
            },
        }
        i = i + 1;
    }
    assert(outcomes.take(i as int) =~= outcomes);
    Ok(pads)
}

/// Decodes the links of a topology.
pub fn decode_links(raws: &Vec<RawLink>) -> (r: Result<Vec<MediaLink>, Error>)
    ensures
        match r {
            Ok(links) => collect(link_outcomes(raws@)) == Ok::<Seq<MediaLink>, Error>(links@),
            Err(e) => collect(link_outcomes(raws@)) == Err::<Seq<MediaLink>, Error>(e),
        },
{
    let ghost outcomes = link_outcomes(raws@);
    let mut links: Vec<MediaLink> = Vec::new();
    let mut i: usize = 0;
    while i < raws.len()
        invariant
            i <= raws.len(),
            outcomes == link_outcomes(raws@),
            collect(outcomes.take(i as int)) == Ok::<Seq<MediaLink>, Error>(links@),
        decreases raws.len() - i,
    {
        proof {
            lemma_collect_step(outcomes, i as int);
        }
        match MediaLink::from_raw(&raws[i]) {
            Ok(link) => {
                links.push(link);
            },
            Err(e) => {
                proof {
                    lemma_collect_prefix_err(outcomes, i + 1);
                }
                return Err(e);
            },
        }
        i = i + 1;
    }
    assert(outcomes.take(i as int) =~= outcomes);
    Ok(links)
}

impl MediaTopologyBuilder {
    /// What the first control call asks for: nothing but the sizes.
    pub open spec fn spec_sizing_query() -> TopologyQuery {
        TopologyQuery { num_entities: 0, num_interfaces: 0, num_pads: 0, num_links: 0 }
    }

    /// What the second control call asks for: of each kind that is wanted,
    /// as many records as the first call counted; of the others, none.
    pub open spec fn spec_populate_query(self, sizes: TopologySizes) -> TopologyQuery {
        TopologyQuery {
            num_entities: if self.entities {
                sizes.num_entities
            } else {
                0
            },
            num_interfaces: if self.interfaces {
                sizes.num_interfaces
            } else {
                0
            },
            num_pads: if self.pads {
                sizes.num_pads
            } else {
                0
            },
            num_links: if self.links {
                sizes.num_links
            } else {
                0
            },
        }
    }

    /// The snapshot that the answers of the two control calls amount to on a
    /// kernel of the version `version`. A generation that changed between
    /// the calls gives `TopologyChanged`. Else every wanted buffer has to
    /// decode, entities first, then interfaces, pads and links, and the first
    /// record that does not decides the error.
    pub open spec fn built(
        self,
        version: Version,
        sizes: TopologySizes,
        raw: RawTopology,
    ) -> Result<MediaTopologyView, Error> {
        if raw.topology_version != sizes.version {
            Err(Error::TopologyChanged { before: sizes.version, after: raw.topology_version })
        } else {
            match part(self.entities, collect(entity_outcomes(version, raw.entities@))) {
                Err(e) => Err(e),
                Ok(entities) => match part(
                    self.interfaces,
                    collect(interface_outcomes(raw.interfaces@)),
                ) {
                    Err(e) => Err(e),
                    Ok(interfaces) => match part(
                        self.pads,
                        collect(pad_outcomes(version, raw.pads@)),
                    ) {
                        Err(e) => Err(e),
                        Ok(pads) => match part(self.links, collect(link_outcomes(raw.links@))) {
                            Err(e) => Err(e),
                            Ok(links) => Ok(
                                MediaTopologyView {
                                    path: None,
                                    version: raw.topology_version,
                                    entities,
                                    interfaces,
                                    pads,
                                    links,
                                },
                            ),
                        },
                    },
                },
            }
        }
    }

    /// A builder that asks for nothing yet.
    pub fn new() -> (b: Self)
        ensures
            !b.entities,
            !b.interfaces,
            !b.links,
            !b.pads,
    {
        Self { entities: false, interfaces: false, links: false, pads: false }
    }

    /// Asks for the entities.
    pub fn get_entity(&mut self) -> (b: &mut Self)
        ensures
            *b == (MediaTopologyBuilder { entities: true, ..*old(self) }),
            *final(self) == *final(b),
    {
        self.entities = true;
        self
    }

    /// Asks for the interfaces.
    pub fn get_interface(&mut self) -> (b: &mut Self)
        ensures
            *b == (MediaTopologyBuilder { interfaces: true, ..*old(self) }),
            *final(self) == *final(b),
    {
        self.interfaces = true;
        self
    }

    /// Asks for the links.
    pub fn get_link(&mut self) -> (b: &mut Self)
        ensures
            *b == (MediaTopologyBuilder { links: true, ..*old(self) }),
            *final(self) == *final(b),
    {
        self.links = true;
        self
    }

    /// Asks for the pads.
    pub fn get_pad(&mut self) -> (b: &mut Self)
        ensures
            *b == (MediaTopologyBuilder { pads: true, ..*old(self) }),
            *final(self) == *final(b),
    {
        self.pads = true;
        self
    }

    /// What to ask in the first control call, which finds out the sizes.
    pub fn sizing_query() -> (q: TopologyQuery)
        ensures
            q == Self::spec_sizing_query(),
    {
        TopologyQuery { num_entities: 0, num_interfaces: 0, num_pads: 0, num_links: 0 }
    }

    /// What to ask in the second control call, once the first has told the
    /// sizes.
    pub fn populate_query(&self, sizes: &TopologySizes) -> (q: TopologyQuery)
        ensures
            q == self.spec_populate_query(*sizes),
    {
        TopologyQuery {
            num_entities: if self.entities {
                sizes.num_entities
            } else {
                0
            },
            num_interfaces: if self.interfaces {
                sizes.num_interfaces
            } else {
                0
            },
            num_pads: if self.pads {
                sizes.num_pads
            } else {
                0
            },
            num_links: if self.links {
                sizes.num_links
            } else {
                0
            },
        }
    }

    /// Makes the snapshot of what the two control calls answered: `sizes`
    /// the first, `raw` the second. `info` is the information on the device
    /// that was asked, whose version decides which fields the records hold.
    pub fn build(self, info: &MediaDeviceInfo, sizes: &TopologySizes, raw: &RawTopology) -> (r:
        Result<MediaTopology, Error>)
        ensures
            match r {
                Ok(t) => self.built(info.media_version, *sizes, *raw) == Ok::<
                    MediaTopologyView,
                    Error,
                >(t@),
                Err(e) => self.built(info.media_version, *sizes, *raw) == Err::<
                    MediaTopologyView,
                    Error,
                >(e),
            },
    {
        if raw.topology_version != sizes.version {
            return Err(
                Error::TopologyChanged { before: sizes.version, after: raw.topology_version },
            );
        }
        let version = info.media_version();
        let entities = if self.entities {
            match decode_entities(version, &raw.entities) {
                Ok(entities) => Some(entities),
                Err(e) => {
                    return Err(e);
                },
            }
        } else {
            None
        };
        let interfaces = if self.interfaces {
            match decode_interfaces(&raw.interfaces) {
                Ok(interfaces) => Some(interfaces),
                Err(e) => {
                    return Err(e);
                },
            }
        } else {
            None
        };
        let pads = if self.pads {
            match decode_pads(version, &raw.pads) {
                Ok(pads) => Some(pads),
                Err(e) => {
                    return Err(e);
                },
            }
        } else {
            None
        };
        let links = if self.links {
            match decode_links(&raw.links) {
                Ok(links) => Some(links),
                Err(e) => {
                    return Err(e);
                },
            }
        } else {
            None
        };
        Ok(MediaTopology::new(None, raw.topology_version, entities, interfaces, pads, links))
    }
}

/// A generation that changed between the two control calls gives the error
/// that says so, whatever the buffers hold: never a snapshot.
pub proof fn lemma_changed_topology_is_refused(
    builder: MediaTopologyBuilder,
    version: Version,
    sizes: TopologySizes,
    raw: RawTopology,
)
    requires
        raw.topology_version != sizes.version,
    ensures
        builder.built(version, sizes, raw) == Err::<MediaTopologyView, Error>(
            Error::TopologyChanged { before: sizes.version, after: raw.topology_version },
        ),
{
}

/// In a snapshot, a part that was not asked for is absent, and a part that
/// was asked for is present, and empty where its buffer holds no record. The
/// second control call asks for no record of a part that was not asked for.
pub proof fn lemma_parts_follow_the_builder(
    builder: MediaTopologyBuilder,
    version: Version,
    sizes: TopologySizes,
    raw: RawTopology,
)
    requires
        builder.built(version, sizes, raw) is Ok,
    ensures
        builder.built(version, sizes, raw).unwrap().entities is Some <==> builder.entities,
        builder.built(version, sizes, raw).unwrap().interfaces is Some <==> builder.interfaces,
        builder.built(version, sizes, raw).unwrap().pads is Some <==> builder.pads,
        builder.built(version, sizes, raw).unwrap().links is Some <==> builder.links,
        builder.entities && raw.entities@.len() == 0 ==> builder.built(
            version,
            sizes,
            raw,
        ).unwrap().entities == Some(Seq::<MediaEntityView>::empty()),
        builder.interfaces && raw.interfaces@.len() == 0 ==> builder.built(
            version,
            sizes,
            raw,
        ).unwrap().interfaces == Some(Seq::<MediaInterface>::empty()),
        builder.pads && raw.pads@.len() == 0 ==> builder.built(version, sizes, raw).unwrap().pads
            == Some(Seq::<MediaPad>::empty()),
        builder.links && raw.links@.len() == 0 ==> builder.built(
            version,
            sizes,
            raw,
        ).unwrap().links == Some(Seq::<MediaLink>::empty()),
        !builder.entities ==> builder.spec_populate_query(sizes).num_entities == 0,
        !builder.interfaces ==> builder.spec_populate_query(sizes).num_interfaces == 0,
        !builder.pads ==> builder.spec_populate_query(sizes).num_pads == 0,
        !builder.links ==> builder.spec_populate_query(sizes).num_links == 0,
{
    if builder.entities && raw.entities@.len() == 0 {
        assert(collect(entity_outcomes(version, raw.entities@)).unwrap() =~= Seq::empty());
    }
    if builder.interfaces && raw.interfaces@.len() == 0 {
        assert(collect(interface_outcomes(raw.interfaces@)).unwrap() =~= Seq::empty());
    }
    if builder.pads && raw.pads@.len() == 0 {
        assert(collect(pad_outcomes(version, raw.pads@)).unwrap() =~= Seq::empty());
    }
    if builder.links && raw.links@.len() == 0 {
        assert(collect(link_outcomes(raw.links@)).unwrap() =~= Seq::empty());
    }
}

/// The buffer of a part that was not asked for is never looked at: two
/// answers that differ only in such buffers give the same result.
pub proof fn lemma_unwanted_buffers_are_ignored(
    builder: MediaTopologyBuilder,
    version: Version,
    sizes: TopologySizes,
    raw: RawTopology,
    other: RawTopology,
)
    requires
        raw.topology_version == other.topology_version,
        builder.entities ==> raw.entities@ == other.entities@,
        builder.interfaces ==> raw.interfaces@ == other.interfaces@,
        builder.pads ==> raw.pads@ == other.pads@,
        builder.links ==> raw.links@ == other.links@,
    ensures
        builder.built(version, sizes, raw) == builder.built(version, sizes, other),
{
}

/// A snapshot is owed exactly where the generation stayed the same and every
/// record of every part that was asked for decodes.
pub proof fn lemma_built_ok(
    builder: MediaTopologyBuilder,
    version: Version,
    sizes: TopologySizes,
    raw: RawTopology,
)
    ensures
        builder.built(version, sizes, raw) is Ok <==> {
            &&& raw.topology_version == sizes.version
            &&& builder.entities ==> collect(entity_outcomes(version, raw.entities@)) is Ok
            &&& builder.interfaces ==> collect(interface_outcomes(raw.interfaces@)) is Ok
            &&& builder.pads ==> collect(pad_outcomes(version, raw.pads@)) is Ok
            &&& builder.links ==> collect(link_outcomes(raw.links@)) is Ok
        },
{
}

/// Where the generation stayed the same and every part that was asked for
/// and has records decodes, there is a snapshot, and in it a part that was
/// asked for and has no record is present and empty.
pub proof fn lemma_empty_part_is_present(
    builder: MediaTopologyBuilder,
    version: Version,
    sizes: TopologySizes,
    raw: RawTopology,
)
    requires
        raw.topology_version == sizes.version,
        builder.entities && raw.entities@.len() > 0 ==> collect(
            entity_outcomes(version, raw.entities@),
        ) is Ok,
        builder.interfaces && raw.interfaces@.len() > 0 ==> collect(
            interface_outcomes(raw.interfaces@),
        ) is Ok,
        builder.pads && raw.pads@.len() > 0 ==> collect(pad_outcomes(version, raw.pads@)) is Ok,
        builder.links && raw.links@.len() > 0 ==> collect(link_outcomes(raw.links@)) is Ok,
    ensures
        builder.built(version, sizes, raw) is Ok,
        builder.entities && raw.entities@.len() == 0 ==> builder.built(
            version,
            sizes,
            raw,
        ).unwrap().entities == Some(Seq::<MediaEntityView>::empty()),
        builder.interfaces && raw.interfaces@.len() == 0 ==> builder.built(
            version,
            sizes,
            raw,
        ).unwrap().interfaces == Some(Seq::<MediaInterface>::empty()),
        builder.pads && raw.pads@.len() == 0 ==> builder.built(version, sizes, raw).unwrap().pads
            == Some(Seq::<MediaPad>::empty()),
        builder.links && raw.links@.len() == 0 ==> builder.built(
            version,
            sizes,
            raw,
        ).unwrap().links == Some(Seq::<MediaLink>::empty()),
{
    lemma_built_ok(builder, version, sizes, raw);
    lemma_parts_follow_the_builder(builder, version, sizes, raw);
}

/// Whether no two of `items` have the same id.
pub open spec fn distinct_ids<T>(items: Seq<T>, id: spec_fn(T) -> u32) -> bool {
    forall|i: int, j: int|
        0 <= i < j < items.len() ==> id(#[trigger] items[i]) != id(#[trigger] items[j])
}

/// The ids of a snapshot are those of the records: where no two records of a
/// part that was asked for have the same id, no two nodes of that part of
/// the snapshot have.
pub proof fn lemma_ids_stay_distinct(
    builder: MediaTopologyBuilder,
    version: Version,
    sizes: TopologySizes,
    raw: RawTopology,
)
    requires
        builder.built(version, sizes, raw) is Ok,
    ensures
        builder.entities && distinct_ids(raw.entities@, |r: RawEntity| r.id) ==> distinct_ids(
            builder.built(version, sizes, raw).unwrap().entities.unwrap(),
            |e: MediaEntityView| e.id.0,
        ),
        builder.interfaces && distinct_ids(raw.interfaces@, |r: RawInterface| r.id)
            ==> distinct_ids(
            builder.built(version, sizes, raw).unwrap().interfaces.unwrap(),
            |i: MediaInterface| i.id.0,
        ),
        builder.pads && distinct_ids(raw.pads@, |r: RawPad| r.id) ==> distinct_ids(
            builder.built(version, sizes, raw).unwrap().pads.unwrap(),
            |p: MediaPad| p.id.0,
        ),
        builder.links && distinct_ids(raw.links@, |r: RawLink| r.id) ==> distinct_ids(
            builder.built(version, sizes, raw).unwrap().links.unwrap(),
            |l: MediaLink| l.id.0,
        ),
{
    let snapshot = builder.built(version, sizes, raw).unwrap();
    if builder.entities {
        let outcomes = entity_outcomes(version, raw.entities@);
        lemma_collect_ok(outcomes);
        let nodes = snapshot.entities.unwrap();
        assert forall|i: int| 0 <= i < nodes.len() implies (#[trigger] nodes[i]).id.0
            == raw.entities@[i].id by {
            assert(outcomes[i] == Ok::<MediaEntityView, Error>(nodes[i]));
        }
    }
    if builder.interfaces {
        let outcomes = interface_outcomes(raw.interfaces@);
        lemma_collect_ok(outcomes);
        let nodes = snapshot.interfaces.unwrap();
        assert forall|i: int| 0 <= i < nodes.len() implies (#[trigger] nodes[i]).id.0
            == raw.interfaces@[i].id by {
            assert(outcomes[i] == Ok::<MediaInterface, Error>(nodes[i]));
        }
    }
    if builder.pads {
        let outcomes = pad_outcomes(version, raw.pads@);
        lemma_collect_ok(outcomes);
        let nodes = snapshot.pads.unwrap();
        assert forall|i: int| 0 <= i < nodes.len() implies (#[trigger] nodes[i]).id.0
            == raw.pads@[i].id by {
            assert(outcomes[i] == Ok::<MediaPad, Error>(nodes[i]));
        }
    }
    if builder.links {
        let outcomes = link_outcomes(raw.links@);
        lemma_collect_ok(outcomes);
        let nodes = snapshot.links.unwrap();
        assert forall|i: int| 0 <= i < nodes.len() implies (#[trigger] nodes[i]).id.0
            == raw.links@[i].id by {
            assert(outcomes[i] == Ok::<MediaLink, Error>(nodes[i]));
        }
    }
}

} // verus!
