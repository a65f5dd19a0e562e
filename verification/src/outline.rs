use vstd::prelude::*;

use crate::content::{Content, ContentV};
use crate::counter::Counter;
use crate::heading::{
    outline_v, resolved_level, resolved_numbering, resolved_outlined, spec_needs_outline_cb,
    HeadingElem,
};
use crate::node::Node;
use crate::style::StyleScope;

verus! {

/// One derived outline entry: the nesting level and the composed
/// label-plus-body content. Entries are computed on demand, never stored
/// on the nodes.
#[derive(PartialEq, Eq, Debug)]
pub struct OutlineEntry {
    pub level: usize,
    pub content: Content,
}

/// Spec-level image of an outline entry.
pub struct EntryV {
    pub level: usize,
    pub content: ContentV,
}

impl View for OutlineEntry {
    type V = EntryV;

    open spec fn view(&self) -> EntryV {
        EntryV { level: self.level, content: self.content@ }
    }
}

/// The spec-level image of an injected, already successful callback
/// result.
pub open spec fn ocb_v(cb: Option<Content>) -> Option<ContentV> {
    match cb {
        Some(c) => Some(c@),
        None => None,
    }
}

/// Whether a node contributes an outline entry: it must implement the
/// Outlinable capability (only headings do) and keep its `outlined` flag.
/// Nothing else decides inclusion.
pub open spec fn spec_included(n: Node) -> bool {
    match n {
        Node::Heading(h) => resolved_outlined(h, Seq::<StyleScope>::empty()),
        Node::Plain { .. } => false,
    }
}

/// Inclusion in the outline never depends on a heading's level: two
/// headings that differ only in `level` are included or omitted alike.
pub proof fn lemma_inclusion_ignores_level(h1: HeadingElem, h2: HeadingElem)
    requires
        h2 == (HeadingElem { level: h2.level, ..h1 }),
    ensures
        spec_included(Node::Heading(h1)) == spec_included(Node::Heading(h2)),
{
}

/// The entry an included heading contributes.
pub open spec fn entry_for(h: HeadingElem, c: Counter, cb: Option<Content>) -> EntryV {
    EntryV {
        level: resolved_level(h, Seq::<StyleScope>::empty()),
        content: outline_v(h, c, ocb_v(cb)),
    }
}

/// The outline of a document: exactly one entry per included node, in
/// document order.
pub open spec fn outline_list_spec(nodes: Seq<Node>, c: Counter, cbs: Seq<Option<Content>>)
    -> Seq<EntryV>
    decreases nodes.len(),
{
    if nodes.len() == 0 {
        Seq::empty()
    } else {
        let init = outline_list_spec(nodes.drop_last(), c, cbs.drop_last());
        match nodes.last() {
            Node::Heading(h) => if spec_included(nodes.last()) {
                init.push(entry_for(h, c, cbs.last()))
            } else {
                init
            },
            Node::Plain { .. } => init,
        }
    }
}

/// The spec-level image of a built entry list.
pub open spec fn entries_view(s: Seq<OutlineEntry>) -> Seq<EntryV> {
    s.map_values(|e: OutlineEntry| e@)
}

/// Derives the document outline from the finalized nodes and the frozen
/// counter: one entry per heading still marked `outlined`, each carrying
/// the heading's level and its composed label and body; nothing else is
/// omitted or added. `cbs` holds, aligned with the nodes, the externally
/// evaluated result of each configured outline override.
///
/// The pipeline runs extraction only after discovery froze the counter
/// and layout recorded every node, so a query here cannot fail; querying
/// earlier is a sequencing violation that the contract excludes.
pub fn extract_outline(nodes: &Vec<Node>, counter: &Counter, cbs: &Vec<Option<Content>>) -> (r:
    Vec<OutlineEntry>)
    requires
        counter.wf(),
        counter.frozen,
        counter.key == crate::counter::CounterKey::Elem(crate::node::NodeKind::Heading),
        cbs@.len() == nodes@.len(),
        forall|i: int|
            0 <= i < nodes@.len() ==> ((#[trigger] cbs@[i]) is Some <==> (nodes@[i] matches
                Node::Heading(h)
                && spec_needs_outline_cb(h))),
        forall|i: int|
            0 <= i < nodes@.len() ==> ((#[trigger] nodes@[i]) matches Node::Heading(h) ==> (resolved_outlined(
                h,
                Seq::<StyleScope>::empty(),
            ) && resolved_numbering(h, Seq::<StyleScope>::empty()) is Some ==> h.location is Some
                && counter.spec_has_loc(h.location.unwrap()))),
    ensures
        entries_view(r@) == outline_list_spec(nodes@, *counter, cbs@),
{
    let mut out: Vec<OutlineEntry> = Vec::new();
    let mut i: usize = 0;
    proof {
        assert(nodes@.take(0) =~= Seq::<Node>::empty());
        assert(entries_view(out@) =~= outline_list_spec(nodes@.take(0), *counter, cbs@.take(0)));
    }
    while i < nodes.len()
        invariant
            counter.wf(),
            counter.frozen,
            counter.key == crate::counter::CounterKey::Elem(crate::node::NodeKind::Heading),
            i <= nodes@.len(),
            cbs@.len() == nodes@.len(),
            forall|k: int|
                0 <= k < nodes@.len() ==> ((#[trigger] cbs@[k]) is Some <==> (nodes@[k] matches
                    Node::Heading(h)
                    && spec_needs_outline_cb(h))),
            forall|k: int|
                0 <= k < nodes@.len() ==> ((#[trigger] nodes@[k]) matches Node::Heading(h)
                    ==> (resolved_outlined(h, Seq::<StyleScope>::empty()) && resolved_numbering(
                    h,
                    Seq::<StyleScope>::empty(),
                ) is Some ==> h.location is Some && counter.spec_has_loc(h.location.unwrap()))),
            entries_view(out@) == outline_list_spec(nodes@.take(i as int), *counter, cbs@.take(
                i as int,
            )),
        decreases nodes@.len() - i,
    {
        match &nodes[i] {
            Node::Heading(h) => {
                let outlined = match h.outlined {
                    Some(v) => v,
                    None => true,
                };
                if outlined {
                    let cb: Option<Result<Content, crate::errors::CallbackError>> = match &cbs[i] {
                        Some(f) => Some(Ok(f.clone())),
                        None => None,
                    };
                    match h.outline(counter, cb) {
                        Ok(Some(content)) => {
                            let level = h.level();
                            out.push(OutlineEntry { level, content });
                        },
                        Ok(None) => {
                            proof {
                                assert(false);
                            }
                        },
                        Err(_) => {
                            proof {
                                assert(false);
                            }
                        },
                    }
                }
            },
            Node::Plain { .. } => (),
        }
        proof {
            assert(nodes@.take(i as int + 1).drop_last() =~= nodes@.take(i as int));
            assert(cbs@.take(i as int + 1).drop_last() =~= cbs@.take(i as int));
            assert(nodes@.take(i as int + 1).last() == nodes@[i as int]);
            assert(cbs@.take(i as int + 1).last() == cbs@[i as int]);
            assert(entries_view(out@) =~= outline_list_spec(nodes@.take(i as int + 1), *counter,
                cbs@.take(i as int + 1)));
        }
        i = i + 1;
    }
    proof {
        assert(nodes@.take(i as int) =~= nodes@);
        assert(cbs@.take(i as int) =~= cbs@);
    }
    out
}

} // verus!
