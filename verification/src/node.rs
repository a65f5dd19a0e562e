use vstd::prelude::*;

use crate::content::Content;
use crate::counter::{Counter, CounterKey, CounterUpdate};
use crate::heading::HeadingElem;

verus! {

/// The closed set of node types known to this core. New element types are
/// added by extending this enum, not by runtime plugin loading.
#[derive(Clone, Copy, PartialEq, Eq, Structural, Debug)]
pub enum NodeKind {
    Heading,
    Plain,
}

/// A named behavioral contract that a node type may implement.
#[derive(Clone, Copy, PartialEq, Eq, Structural, Debug)]
pub enum Capability {
    Synthesize,
    Show,
    Finalize,
    Count,
    LocalName,
    Refable,
    Outlinable,
}

/// The capability registry: which behaviors each node type declares.
pub open spec fn spec_implements(kind: NodeKind, cap: Capability) -> bool {
    match kind {
        NodeKind::Heading => true,
        NodeKind::Plain => false,
    }
}

/// Capability lookup; dispatch over a node first consults this table and
/// falls back to a safe "not applicable" answer where it returns false.
pub fn implements(kind: NodeKind, cap: Capability) -> (r: bool)
    ensures
        r == spec_implements(kind, cap),
{
    match kind {
        NodeKind::Heading => true,
        NodeKind::Plain => false,
    }
}

/// A typed content node. A `Heading` participates in numbering, outlining
/// and referencing; a `Plain` node carries content and no capabilities.
#[derive(PartialEq, Eq, Debug)]
pub enum Node {
    Heading(HeadingElem),
    Plain { body: Content, location: Option<u64> },
}

impl Node {
    /// The node's type tag.
    pub open spec fn spec_kind(&self) -> NodeKind {
        match self {
            Node::Heading(_) => NodeKind::Heading,
            Node::Plain { .. } => NodeKind::Plain,
        }
    }

    pub fn kind(&self) -> (r: NodeKind)
        ensures
            r == self.spec_kind(),
    {
        match self {
            Node::Heading(_) => NodeKind::Heading,
            Node::Plain { .. } => NodeKind::Plain,
        }
    }

    /// The post-layout location of the node, if one has been assigned.
    pub open spec fn spec_location(&self) -> Option<u64> {
        match self {
            Node::Heading(h) => h.location,
            Node::Plain { location, .. } => *location,
        }
    }

    pub fn location(&self) -> (r: Option<u64>)
        ensures
            r == self.spec_location(),
    {
        match self {
            Node::Heading(h) => h.location,
            Node::Plain { location, .. } => *location,
        }
    }

    /// The counter update the node contributes, as a spec-level value.
    pub open spec fn spec_count_update(&self) -> Option<CounterUpdate> {
        match self {
            Node::Heading(h) => h.spec_update(),
            Node::Plain { .. } => None,
        }
    }

    /// Capability dispatch for `Count`: a node type that does not
    /// implement the capability safely contributes no update instead of
    /// failing.
    pub fn count_update(&self) -> (r: Option<CounterUpdate>)
        ensures
            r == self.spec_count_update(),
    {
        match self {
            Node::Heading(h) => h.update(),
            Node::Plain { .. } => None,
        }
    }
}

impl Node {
    /// Capability dispatch for `LocalName`: nodes without the capability
    /// yield no localized noun rather than failing.
    pub fn local_name_of(
        &self,
        lang: crate::style::Lang,
        region: Option<crate::style::Region>,
    ) -> (r: Option<&'static str>)
        ensures
            match self {
                Node::Heading(_) => (r matches Some(s) && s@
                    == crate::heading::local_name_spec(lang, region)),
                Node::Plain { .. } => r is None,
            },
    {
        match self {
            Node::Heading(h) => Some(h.local_name(lang, region)),
            Node::Plain { .. } => None,
        }
    }

    /// Capability dispatch for `Outlinable`'s level: nodes without the
    /// capability report no level.
    pub fn level_of(&self) -> (r: Option<usize>)
        ensures
            match self {
                Node::Heading(h) => r == Some(
                    crate::heading::resolved_level(
                        *h,
                        Seq::<crate::style::StyleScope>::empty(),
                    ),
                ),
                Node::Plain { .. } => r is None,
            },
    {
        match self {
            Node::Heading(h) => Some(h.level()),
            Node::Plain { .. } => None,
        }
    }

    /// Capability dispatch for `Refable`: the counter key a node steps,
    /// where it supports counting at all.
    pub fn counter_key_of(&self) -> (r: Option<CounterKey>)
        ensures
            match self {
                Node::Heading(_) => r == Some(CounterKey::Elem(NodeKind::Heading)),
                Node::Plain { .. } => r is None,
            },
    {
        match self {
            Node::Heading(h) => Some(h.counter()),
            Node::Plain { .. } => None,
        }
    }
}

/// Discovers a counter's event log by a single document-order traversal.
///
/// Every realized node must carry a location, and the nodes must stand in
/// document order (locations strictly increasing, as the external layout
/// guarantees). Each node is recorded once, with the update it contributes
/// (`None` for nodes lacking the `Count` capability or whose numbering is
/// inactive). The returned counter is frozen: discovery is complete, so
/// queries may begin.
pub fn discover_counter(key: CounterKey, nodes: &Vec<Node>) -> (c: Counter)
    requires
        forall|i: int| 0 <= i < nodes@.len() ==> (#[trigger] nodes@[i].spec_location()) is Some,
        forall|i: int, j: int|
            0 <= i < j < nodes@.len() ==> nodes@[i].spec_location().unwrap()
                < nodes@[j].spec_location().unwrap(),
    ensures
        c.wf(),
        c.frozen,
        c.key == key,
        c.entries@.len() == nodes@.len(),
        forall|i: int| 0 <= i < nodes@.len() ==> (#[trigger] c.entries@[i]).0
            == nodes@[i].spec_location().unwrap(),
        forall|i: int| 0 <= i < nodes@.len() ==> (#[trigger] c.entries@[i]).1
            == nodes@[i].spec_count_update(),
{
    let mut c = Counter::new(key);
    let mut i: usize = 0;
    while i < nodes.len()
        invariant
            c.wf(),
            !c.frozen,
            c.key == key,
            i <= nodes@.len(),
            c.entries@.len() == i,
            forall|k: int| 0 <= k < i ==> (#[trigger] c.entries@[k]).0
                == nodes@[k].spec_location().unwrap(),
            forall|k: int| 0 <= k < i ==> (#[trigger] c.entries@[k]).1
                == nodes@[k].spec_count_update(),
            forall|k: int| 0 <= k < nodes@.len() ==> (
            #[trigger] nodes@[k].spec_location()) is Some,
            forall|k: int, l: int|
                0 <= k < l < nodes@.len() ==> nodes@[k].spec_location().unwrap()
                    < nodes@[l].spec_location().unwrap(),
        decreases nodes@.len() - i,
    {
        let node = &nodes[i];
        let loc = match node.location() {
            Some(l) => l,
            None => {
                proof {
                    assert(nodes@[i as int].spec_location() is Some);
                    assert(false);
                }
                0
            },
        };
        let upd = node.count_update();
        proof {
            if c.entries@.len() > 0 {
                assert(c.entries@.last().0 == nodes@[i as int - 1].spec_location().unwrap());
                assert(nodes@[i as int - 1].spec_location().unwrap() < nodes@[
                    i as int].spec_location().unwrap());
            }
        }
        c.record(loc, upd);
        i = i + 1;
    }
    c.freeze();
    c
}

} // verus!
