//! The pads and outbound links of one entity, as one control call lists
//! them.

use crate::decode::collect;
use crate::error::Error;
use crate::media_entity::EntityId;
use crate::media_entity_desc::MediaEntityDesc;
use crate::media_link_desc::MediaLinkDesc;
use crate::media_link_desc::RawLinkDesc;
use crate::media_pad_desc::MediaPadDesc;
use crate::media_pad_desc::RawPadDesc;
use vstd::prelude::*;

verus! {

/// What to ask the kernel for in order to list the pads and links of an
/// entity: its id, and the number of records to make room for.
#[derive(Debug, Copy, Clone, PartialEq, Eq, Structural)]
pub struct LinksQuery {
    pub entity: EntityId,
    pub pads: usize,
    pub links: usize,
}

/// The pads and the outbound links of one entity.
#[derive(Debug, Clone, PartialEq, Eq)]
pub struct MediaLinksEnum {
    entity: EntityId,
    pads: Vec<MediaPadDesc>,
    links: Vec<MediaLinkDesc>,
}

/// What a `MediaLinksEnum` holds.
pub struct MediaLinksEnumView {
    pub entity: EntityId,
    pub pads: Seq<MediaPadDesc>,
    pub links: Seq<MediaLinkDesc>,
}

impl View for MediaLinksEnum {
    type V = MediaLinksEnumView;

    closed spec fn view(&self) -> MediaLinksEnumView {
        MediaLinksEnumView { entity: self.entity, pads: self.pads@, links: self.links@ }
    }
}

/// The outcomes of decoding the pad records that hold a pad, in order. A
/// record that holds none, as the kernel leaves them behind where an entity
/// lost pads after they were counted, is passed over.
pub open spec fn pad_outcomes(raws: Seq<RawPadDesc>) -> Seq<Result<MediaPadDesc, Error>> {
    raws.filter(|raw: RawPadDesc| !raw.spec_is_absent()).map_values(
        |raw: RawPadDesc| MediaPadDesc::decoded(raw),
    )
}

/// The outcomes of decoding the link records that hold a link, in order. A
/// record that holds none is passed over.
pub open spec fn link_outcomes(raws: Seq<RawLinkDesc>) -> Seq<Result<MediaLinkDesc, Error>> {
    raws.filter(|raw: RawLinkDesc| !raw.spec_is_absent()).map_values(
        |raw: RawLinkDesc| MediaLinkDesc::decoded(raw),
    )
}

/// What one more pad record adds to the outcomes.
pub proof fn lemma_pad_outcomes_step(raws: Seq<RawPadDesc>, n: int)
    requires
        0 <= n < raws.len(),
    ensures
        pad_outcomes(raws.take(n + 1)) == if raws[n].spec_is_absent() {
            pad_outcomes(raws.take(n))
        } else {
            pad_outcomes(raws.take(n)).push(MediaPadDesc::decoded(raws[n]))
        },
{
    reveal(Seq::filter);
    assert(raws.take(n + 1).drop_last() =~= raws.take(n));
    assert(pad_outcomes(raws.take(n + 1)) =~= if raws[n].spec_is_absent() {
        pad_outcomes(raws.take(n))
    } else {
        pad_outcomes(raws.take(n)).push(MediaPadDesc::decoded(raws[n]))
    });
}

/// What one more link record adds to the outcomes.
pub proof fn lemma_link_outcomes_step(raws: Seq<RawLinkDesc>, n: int)
    requires
        0 <= n < raws.len(),
    ensures
        link_outcomes(raws.take(n + 1)) == if raws[n].spec_is_absent() {
            link_outcomes(raws.take(n))
        } else {
            link_outcomes(raws.take(n)).push(MediaLinkDesc::decoded(raws[n]))
        },
{
    reveal(Seq::filter);
    assert(raws.take(n + 1).drop_last() =~= raws.take(n));
    assert(link_outcomes(raws.take(n + 1)) =~= if raws[n].spec_is_absent() {
        link_outcomes(raws.take(n))
    } else {
        link_outcomes(raws.take(n)).push(MediaLinkDesc::decoded(raws[n]))
    });
}

/// A failure among the first `n` pad records is the failure of the buffer.
proof fn lemma_pad_outcomes_err(raws: Seq<RawPadDesc>, n: int)
    requires
        0 <= n <= raws.len(),
        collect(pad_outcomes(raws.take(n))) is Err,
    ensures
        collect(pad_outcomes(raws)) == collect(pad_outcomes(raws.take(n))),
    decreases raws.len() - n,
{
    if n < raws.len() {
        lemma_pad_outcomes_step(raws, n);
        if !raws[n].spec_is_absent() {
            let next = pad_outcomes(raws.take(n + 1));
            assert(next.drop_last() =~= pad_outcomes(raws.take(n)));
        }
        lemma_pad_outcomes_err(raws, n + 1);
    } else {
        assert(raws.take(n) =~= raws);
    }
}

/// A failure among the first `n` link records is the failure of the buffer.
proof fn lemma_link_outcomes_err(raws: Seq<RawLinkDesc>, n: int)
    requires
        0 <= n <= raws.len(),
        collect(link_outcomes(raws.take(n))) is Err,
    ensures
        collect(link_outcomes(raws)) == collect(link_outcomes(raws.take(n))),
    decreases raws.len() - n,
{
    if n < raws.len() {
        lemma_link_outcomes_step(raws, n);
        if !raws[n].spec_is_absent() {
            let next = link_outcomes(raws.take(n + 1));
            assert(next.drop_last() =~= link_outcomes(raws.take(n)));
        }
        lemma_link_outcomes_err(raws, n + 1);
    } else {
        assert(raws.take(n) =~= raws);
    }
}

/// Decodes the pad records of an entity.
pub fn decode_pad_descs(raws: &[RawPadDesc]) -> (r: Result<Vec<MediaPadDesc>, Error>)
    ensures
        match r {
            Ok(pads) => collect(pad_outcomes(raws@)) == Ok::<Seq<MediaPadDesc>, Error>(pads@),
            Err(e) => collect(pad_outcomes(raws@)) == Err::<Seq<MediaPadDesc>, Error>(e),
        },
{
    let mut pads: Vec<MediaPadDesc> = Vec::new();
    let mut i: usize = 0;
    assert(pad_outcomes(raws@.take(0)) =~= Seq::empty()) by {
        reveal(Seq::filter);
    }
    while i < raws.len()
        invariant
            i <= raws.len(),
            collect(pad_outcomes(raws@.take(i as int))) == Ok::<Seq<MediaPadDesc>, Error>(pads@),
        decreases raws.len() - i,
    {
        proof {
            lemma_pad_outcomes_step(raws@, i as int);
        }
        if !raws[i].is_absent() {
            let ghost next = pad_outcomes(raws@.take(i + 1));
            assert(next.drop_last() =~= pad_outcomes(raws@.take(i as int)));
            match MediaPadDesc::from_raw(&raws[i]) {
                Ok(pad) => {
                    pads.push(pad);
                },
                Err(e) => {
                    proof {
                        lemma_pad_outcomes_err(raws@, i + 1);
                    }
                    return Err(e);
                },
            }
        }
        i = i + 1;
    }
    assert(raws@.take(i as int) =~= raws@);
    Ok(pads)
}

/// Decodes the link records of an entity.
pub fn decode_link_descs(raws: &[RawLinkDesc]) -> (r: Result<Vec<MediaLinkDesc>, Error>)
    ensures
        match r {
            Ok(links) => collect(link_outcomes(raws@)) == Ok::<Seq<MediaLinkDesc>, Error>(links@),
            Err(e) => collect(link_outcomes(raws@)) == Err::<Seq<MediaLinkDesc>, Error>(e),
        },
{
    let mut links: Vec<MediaLinkDesc> = Vec::new();
    let mut i: usize = 0;
    assert(link_outcomes(raws@.take(0)) =~= Seq::empty()) by {
        reveal(Seq::filter);
    }
    while i < raws.len()
        invariant
            i <= raws.len(),
            collect(link_outcomes(raws@.take(i as int))) == Ok::<Seq<MediaLinkDesc>, Error>(
                links@,
            ),
        decreases raws.len() - i,
    {
        proof {
            lemma_link_outcomes_step(raws@, i as int);
        }
        if !raws[i].is_absent() {
            let ghost next = link_outcomes(raws@.take(i + 1));
            assert(next.drop_last() =~= link_outcomes(raws@.take(i as int)));
            match MediaLinkDesc::from_raw(&raws[i]) {
                Ok(link) => {
                    links.push(link);
                },
                Err(e) => {
                    proof {
                        lemma_link_outcomes_err(raws@, i + 1);
                    }
                    return Err(e);
                },
            }
        }
        i = i + 1;
    }
    assert(raws@.take(i as int) =~= raws@);
    Ok(links)
}

impl MediaLinksEnum {
    /// The pads and links that the two buffers hold for the entity `entity`:
    /// every record that holds something has to decode, pads first, and the
    /// first that does not decides the error.
    pub open spec fn decoded(
        entity: EntityId,
        pads: Seq<RawPadDesc>,
        links: Seq<RawLinkDesc>,
    ) -> Result<MediaLinksEnumView, Error> {
        match collect(pad_outcomes(pads)) {
            Err(e) => Err(e),
            Ok(pads) => match collect(link_outcomes(links)) {
                Err(e) => Err(e),
                Ok(links) => Ok(MediaLinksEnumView { entity, pads, links }),
            },
        }
    }

    /// What to ask the kernel for, once the descriptor of the entity has
    /// told how many pads and links it has.
    pub fn query(desc: &MediaEntityDesc) -> (q: LinksQuery)
        ensures
            q == (LinksQuery { entity: desc.id, pads: desc.pads, links: desc.links }),
    {
        LinksQuery { entity: desc.id, pads: desc.pads, links: desc.links }
    }

    /// Decodes what the kernel listed for the entity `entity`.
    pub fn new(entity: EntityId, pads: &[RawPadDesc], links: &[RawLinkDesc]) -> (r: Result<
        Self,
        Error,
    >)
        ensures
            match r {
                Ok(l) => Self::decoded(entity, pads@, links@) == Ok::<MediaLinksEnumView, Error>(
                    l@,
                ),
                Err(e) => Self::decoded(entity, pads@, links@) == Err::<MediaLinksEnumView, Error>(
                    e,
                ),
            },
    {
        let pads = match decode_pad_descs(pads) {
            Ok(pads) => pads,
            Err(e) => {
                return Err(e);
            },
        };
        let links = match decode_link_descs(links) {
            Ok(links) => links,
            Err(e) => {
                return Err(e);
            },
        };
        Ok(Self { entity, pads, links })
    }

    /// The id of the entity.
    pub fn entity(&self) -> (entity: EntityId)
        ensures
            entity == self@.entity,
    {
        self.entity
    }

    /// The pads of the entity.
    pub fn pads(&self) -> (pads: &[MediaPadDesc])
        ensures
            pads@ == self@.pads,
    {
        self.pads.as_slice()
    }

    /// The outbound links of the entity.
    pub fn links(&self) -> (links: &[MediaLinkDesc])
        ensures
            links@ == self@.links,
    {
        self.links.as_slice()
    }
}

} // verus!
