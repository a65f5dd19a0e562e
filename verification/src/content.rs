use vstd::prelude::*;

use crate::counter::{CounterKey, KeyV};
use crate::numbering::{Numbering, PieceV};

verus! {

/// Font weight attached by finalization.
#[derive(Clone, Copy, PartialEq, Eq, Structural, Debug)]
pub enum FontWeight {
    Regular,
    Bold,
}

/// Residual style attached around a rendered node. Lengths are measured in
/// thousandths of an em, which keeps the discrete level-based scale exact.
#[derive(Clone, Copy, PartialEq, Eq, Structural, Debug)]
pub struct FinalStyles {
    pub size_milli_em: u64,
    pub weight: FontWeight,
    pub above_milli_em: u64,
    pub below_milli_em: u64,
    pub sticky: bool,
}

/// A content node's value: the tree of material a node expands to.
///
/// `CounterDisplay` is a deferred counter reading: rendering inserts it
/// before layout has assigned locations, and the layout stage later
/// replaces it with the counter's label at the realized position.
#[derive(PartialEq, Eq, Debug)]
pub enum Content {
    Empty,
    Text(String),
    Space,
    HSpace { amount_milli_em: u64, weak: bool },
    Join(Box<Content>, Box<Content>),
    Block(Box<Content>),
    Styled(Box<Content>, FinalStyles),
    CounterDisplay { key: CounterKey, numbering: Numbering },
}

/// Spec-level image of a content tree.
pub enum ContentV {
    Empty,
    Text(Seq<char>),
    Space,
    HSpace { amount_milli_em: u64, weak: bool },
    Join(Box<ContentV>, Box<ContentV>),
    Block(Box<ContentV>),
    Styled(Box<ContentV>, FinalStyles),
    CounterDisplay { key: KeyV, numbering: Seq<PieceV> },
}

/// The spec-level image of a content tree.
pub open spec fn content_v(c: Content) -> ContentV
    decreases c,
{
    match c {
        Content::Empty => ContentV::Empty,
        Content::Text(s) => ContentV::Text(s@),
        Content::Space => ContentV::Space,
        Content::HSpace { amount_milli_em, weak } => ContentV::HSpace { amount_milli_em, weak },
        Content::Join(a, b) => ContentV::Join(Box::new(content_v(*a)), Box::new(content_v(*b))),
        Content::Block(a) => ContentV::Block(Box::new(content_v(*a))),
        Content::Styled(a, st) => ContentV::Styled(Box::new(content_v(*a)), st),
        Content::CounterDisplay { key, numbering } => ContentV::CounterDisplay {
            key: key@,
            numbering: numbering@,
        },
    }
}

impl View for Content {
    type V = ContentV;

    open spec fn view(&self) -> ContentV {
        content_v(*self)
    }
}

impl Clone for Content {
    fn clone(&self) -> (r: Self)
        ensures
            r@ == self@,
        decreases *self,
    {
        match self {
            Content::Empty => Content::Empty,
            Content::Text(s) => Content::Text(s.clone()),
            Content::Space => Content::Space,
            Content::HSpace { amount_milli_em, weak } => Content::HSpace {
                amount_milli_em: *amount_milli_em,
                weak: *weak,
            },
            Content::Join(a, b) => Content::Join(Box::new((**a).clone()), Box::new((**b).clone())),
            Content::Block(a) => Content::Block(Box::new((**a).clone())),
            Content::Styled(a, st) => Content::Styled(Box::new((**a).clone()), *st),
            Content::CounterDisplay { key, numbering } => Content::CounterDisplay {
                key: key.clone(),
                numbering: numbering.clone(),
            },
        }
    }
}

} // verus!
