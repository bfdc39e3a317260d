//! A snapshot of the device graph.

use crate::media_entity::MediaEntity;
use crate::media_entity::MediaEntityView;
use crate::media_interface::MediaInterface;
use crate::media_link::MediaLink;
use crate::media_pad::MediaPad;
use vstd::prelude::*;

verus! {

/// What a sequence of entities holds, each name as the sequence of its
/// characters.
pub open spec fn entity_views(entities: Seq<MediaEntity>) -> Seq<MediaEntityView> {
    entities.map_values(|e: MediaEntity| e@)
}

/// A snapshot of the graph of a media device: its generation, and those of
/// its entities, interfaces, pads and links that were asked for. What was
/// not asked for is absent, which is not the same as empty.
#[derive(Debug, Clone, PartialEq, Eq, PartialOrd, Ord)]
pub struct MediaTopology {
    /// The path of the device file, where the snapshot was read from a path.
    path: Option<String>,
    version: u64,
    entities: Option<Vec<MediaEntity>>,
    interfaces: Option<Vec<MediaInterface>>,
    pads: Option<Vec<MediaPad>>,
    links: Option<Vec<MediaLink>>,
}

/// What a snapshot holds.
pub struct MediaTopologyView {
    pub path: Option<Seq<char>>,
    /// The generation of the graph: the kernel counts every change of it.
    pub version: u64,
    pub entities: Option<Seq<MediaEntityView>>,
    pub interfaces: Option<Seq<MediaInterface>>,
    pub pads: Option<Seq<MediaPad>>,
    pub links: Option<Seq<MediaLink>>,
}

impl View for MediaTopology {
    type V = MediaTopologyView;

    closed spec fn view(&self) -> MediaTopologyView {
        MediaTopologyView {
            path: match self.path {
                Some(p) => Some(p@),
                None => None,
            },
            version: self.version,
            entities: match self.entities {
                Some(es) => Some(entity_views(es@)),
                None => None,
            },
            interfaces: match self.interfaces {
                Some(is) => Some(is@),
                None => None,
            },
            pads: match self.pads {
                Some(ps) => Some(ps@),
                None => None,
            },
            links: match self.links {
                Some(ls) => Some(ls@),
                None => None,
            },
        }
    }
}

/// The sequence that an optional sequence stands for where absent counts as
/// empty.
pub open spec fn or_empty<T>(items: Option<Seq<T>>) -> Seq<T> {
    match items {
        Some(s) => s,
        None => Seq::empty(),
    }
}

impl MediaTopology {
    /// What a snapshot made of these parts holds.
    pub open spec fn composed(
        path: Option<String>,
        version: u64,
        entities: Option<Vec<MediaEntity>>,
        interfaces: Option<Vec<MediaInterface>>,
        pads: Option<Vec<MediaPad>>,
        links: Option<Vec<MediaLink>>,
    ) -> MediaTopologyView {
        MediaTopologyView {
            path: match path {
                Some(p) => Some(p@),
                None => None,
            },
            version,
            entities: match entities {
                Some(es) => Some(entity_views(es@)),
                None => None,
            },
            interfaces: match interfaces {
                Some(is) => Some(is@),
                None => None,
            },
            pads: match pads {
                Some(ps) => Some(ps@),
                None => None,
            },
            links: match links {
                Some(ls) => Some(ls@),
                None => None,
            },
        }
    }

    /// Makes a snapshot of its parts.
    pub fn new(
        path: Option<String>,
        version: u64,
        entities: Option<Vec<MediaEntity>>,
        interfaces: Option<Vec<MediaInterface>>,
        pads: Option<Vec<MediaPad>>,
        links: Option<Vec<MediaLink>>,
    ) -> (t: Self)
        ensures
            t@ == Self::composed(path, version, entities, interfaces, pads, links),
    {
        Self { path, version, entities, interfaces, pads, links }
    }

    /// The same snapshot, with the path of the device file it was read from.
    pub fn with_path(self, path: String) -> (t: Self)
        ensures
            t@ == (MediaTopologyView { path: Some(path@), ..self@ }),
    {
        Self {
            path: Some(path),
            version: self.version,
            entities: self.entities,
            interfaces: self.interfaces,
            pads: self.pads,
            links: self.links,
        }
    }

    /// The path of the device file, where the snapshot was read from a path.
    pub fn path(&self) -> (path: Option<&str>)
        ensures
            match path {
                Some(p) => self@.path == Some(p@),
                None => self@.path is None,
            },
    {
        match &self.path {
            Some(p) => Some(p.as_str()),
            None => None,
        }
    }

    /// The generation of the graph at which the snapshot was taken.
    pub fn version(&self) -> (version: u64)
        ensures
            version == self@.version,
    {
        self.version
    }

    /// The entities, none where they were not asked for.
    pub fn entities_slice(&self) -> (s: &[MediaEntity])
        ensures
            entity_views(s@) == or_empty(self@.entities),
    {
        match &self.entities {
            Some(es) => es.as_slice(),
            None => {
                let s: &[MediaEntity] = &[];
                assert(entity_views(s@) =~= Seq::empty());
                s
            },
        }
    }

    /// The interfaces, none where they were not asked for.
    pub fn interfaces_slice(&self) -> (s: &[MediaInterface])
        ensures
            s@ == or_empty(self@.interfaces),
    {
        match &self.interfaces {
            Some(is) => is.as_slice(),
            None => &[],
        }
    }

    /// The pads, none where they were not asked for.
    pub fn pads_slice(&self) -> (s: &[MediaPad])
        ensures
            s@ == or_empty(self@.pads),
    {
        match &self.pads {
            Some(ps) => ps.as_slice(),
            None => &[],
        }
    }

    /// The links, none where they were not asked for.
    pub fn links_slice(&self) -> (s: &[MediaLink])
        ensures
            s@ == or_empty(self@.links),
    {
        match &self.links {
            Some(ls) => ls.as_slice(),
            None => &[],
        }
    }

    /// The entities, where they were asked for.
    pub fn entities(&self) -> (s: Option<&[MediaEntity]>)
        ensures
            match s {
                Some(es) => self@.entities == Some(entity_views(es@)),
                None => self@.entities is None,
            },
    {
        match &self.entities {
            Some(es) => Some(es.as_slice()),
            None => None,
        }
    }

    /// The interfaces, where they were asked for.
    pub fn interfaces(&self) -> (s: Option<&[MediaInterface]>)
        ensures
            match s {
                Some(is) => self@.interfaces == Some(is@),
                None => self@.interfaces is None,
            },
    {
        match &self.interfaces {
            Some(is) => Some(is.as_slice()),
            None => None,
        }
    }

    /// The pads, where they were asked for.
    pub fn pads(&self) -> (s: Option<&[MediaPad]>)
        ensures
            match s {
                Some(ps) => self@.pads == Some(ps@),
                None => self@.pads is None,
            },
    {
        match &self.pads {
            Some(ps) => Some(ps.as_slice()),
            None => None,
        }
    }

    /// The links, where they were asked for.
    pub fn links(&self) -> (s: Option<&[MediaLink]>)
        ensures
            match s {
                Some(ls) => self@.links == Some(ls@),
                None => self@.links is None,
            },
    {
        match &self.links {
            Some(ls) => Some(ls.as_slice()),
            None => None,
        }
    }
}

} // verus!
