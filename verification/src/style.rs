use vstd::prelude::*;

use crate::content::Content;
use crate::numbering::Numbering;

verus! {

/// A two-letter language code, lower case.
#[derive(Clone, Copy, PartialEq, Eq, Structural, Debug)]
pub struct Lang(pub char, pub char);

/// A two-letter region code, upper case.
#[derive(Clone, Copy, PartialEq, Eq, Structural, Debug)]
pub struct Region(pub char, pub char);

/// A handle for a user-supplied formatting function. The value/function
/// subsystem that evaluates such functions is an external collaborator:
/// the core stores only the handle, and the stages that would invoke the
/// function instead receive its externally computed result.
#[derive(Clone, Copy, PartialEq, Eq, Structural, Debug)]
pub struct FuncId(pub u64);

/// A style value that distinguishes "compute from context" from an
/// explicitly chosen value.
#[derive(PartialEq, Eq, Debug)]
pub enum Smart<T> {
    Auto,
    Custom(T),
}

/// A supplement for references to an element: fixed content, or a
/// user-supplied function of the referenced element.
#[derive(PartialEq, Eq, Debug)]
pub enum Supplement {
    Content(Content),
    Func(FuncId),
}

/// One cascading scope of property overrides; an unset field defers to
/// outer scopes and ultimately to the statically defined default.
#[derive(PartialEq, Eq, Debug)]
pub struct StyleScope {
    pub level: Option<usize>,
    pub numbering: Option<Option<Numbering>>,
    pub supplement: Option<Smart<Option<Supplement>>>,
    pub outlined: Option<bool>,
    pub display: Option<Option<FuncId>>,
    pub outline: Option<Option<FuncId>>,
    pub lang: Option<Lang>,
    pub region: Option<Option<Region>>,
}

impl StyleScope {
    /// A scope that overrides nothing.
    pub fn empty() -> (s: StyleScope)
        ensures
            s.level is None,
            s.numbering is None,
            s.supplement is None,
            s.outlined is None,
            s.display is None,
            s.outline is None,
            s.lang is None,
            s.region is None,
    {
        StyleScope {
            level: None,
            numbering: None,
            supplement: None,
            outlined: None,
            display: None,
            outline: None,
            lang: None,
            region: None,
        }
    }
}

/// An ordered, cascading set of scoped overrides; index 0 is innermost.
/// Resolution walks from innermost to outermost and is a pure function of
/// the chain — no hidden global state.
#[derive(PartialEq, Eq, Debug)]
pub struct StyleChain {
    pub scopes: Vec<StyleScope>,
}

/// The nearest enclosing `level` override, if any.
pub open spec fn chain_level(scopes: Seq<StyleScope>) -> Option<usize>
    decreases scopes.len(),
{
    if scopes.len() == 0 {
        None
    } else {
        match scopes[0].level {
            Some(v) => Some(v),
            None => chain_level(scopes.skip(1)),
        }
    }
}

/// The nearest enclosing `numbering` override, if any.
pub open spec fn chain_numbering(scopes: Seq<StyleScope>) -> Option<Option<Numbering>>
    decreases scopes.len(),
{
    if scopes.len() == 0 {
        None
    } else {
        match scopes[0].numbering {
            Some(v) => Some(v),
            None => chain_numbering(scopes.skip(1)),
        }
    }
}

/// The nearest enclosing `supplement` override, if any.
pub open spec fn chain_supplement(scopes: Seq<StyleScope>) -> Option<Smart<Option<Supplement>>>
    decreases scopes.len(),
{
    if scopes.len() == 0 {
        None
    } else {
        match scopes[0].supplement {
            Some(v) => Some(v),
            None => chain_supplement(scopes.skip(1)),
        }
    }
}

/// The nearest enclosing `outlined` override, if any.
pub open spec fn chain_outlined(scopes: Seq<StyleScope>) -> Option<bool>
    decreases scopes.len(),
{
    if scopes.len() == 0 {
        None
    } else {
        match scopes[0].outlined {
            Some(v) => Some(v),
            None => chain_outlined(scopes.skip(1)),
        }
    }
}

/// The nearest enclosing `display` override, if any.
pub open spec fn chain_display(scopes: Seq<StyleScope>) -> Option<Option<FuncId>>
    decreases scopes.len(),
{
    if scopes.len() == 0 {
        None
    } else {
        match scopes[0].display {
            Some(v) => Some(v),
            None => chain_display(scopes.skip(1)),
        }
    }
}

/// The nearest enclosing `outline` override, if any.
pub open spec fn chain_outline(scopes: Seq<StyleScope>) -> Option<Option<FuncId>>
    decreases scopes.len(),
{
    if scopes.len() == 0 {
        None
    } else {
        match scopes[0].outline {
            Some(v) => Some(v),
            None => chain_outline(scopes.skip(1)),
        }
    }
}

/// The nearest enclosing `lang` override, if any.
pub open spec fn chain_lang(scopes: Seq<StyleScope>) -> Option<Lang>
    decreases scopes.len(),
{
    if scopes.len() == 0 {
        None
    } else {
        match scopes[0].lang {
            Some(v) => Some(v),
            None => chain_lang(scopes.skip(1)),
        }
    }
}

/// The nearest enclosing `region` override, if any.
pub open spec fn chain_region(scopes: Seq<StyleScope>) -> Option<Option<Region>>
    decreases scopes.len(),
{
    if scopes.len() == 0 {
        None
    } else {
        match scopes[0].region {
            Some(v) => Some(v),
            None => chain_region(scopes.skip(1)),
        }
    }
}

/// The language in scope, defaulting to English.
pub open spec fn resolved_lang(scopes: Seq<StyleScope>) -> Lang {
    match chain_lang(scopes) {
        Some(l) => l,
        None => Lang('e', 'n'),
    }
}

/// The region in scope, defaulting to none.
pub open spec fn resolved_region(scopes: Seq<StyleScope>) -> Option<Region> {
    match chain_region(scopes) {
        Some(r) => r,
        None => None,
    }
}

impl StyleChain {
    /// A chain with no scopes: every lookup falls back to its default.
    pub fn new() -> (c: StyleChain)
        ensures
            c.scopes@.len() == 0,
    {
        StyleChain { scopes: Vec::new() }
    }

    /// The nearest `level` override.
    pub fn find_level(&self) -> (r: Option<usize>)
        ensures
            r == chain_level(self.scopes@),
    {
        let mut i: usize = 0;
        proof {
            assert(self.scopes@.skip(0) =~= self.scopes@);
        }
        while i < self.scopes.len()
            invariant
                i <= self.scopes@.len(),
                chain_level(self.scopes@) == chain_level(self.scopes@.skip(i as int)),
            decreases self.scopes@.len() - i,
        {
            match self.scopes[i].level {
                Some(v) => {
                    return Some(v);
                },
                None => (),
            }
            proof {
                assert(self.scopes@.skip(i as int).skip(1) =~= self.scopes@.skip(i as int + 1));
            }
            i = i + 1;
        }
        proof {
            assert(self.scopes@.skip(i as int) =~= Seq::<StyleScope>::empty());
        }
        None
    }

    /// The nearest `outlined` override.
    pub fn find_outlined(&self) -> (r: Option<bool>)
        ensures
            r == chain_outlined(self.scopes@),
    {
        let mut i: usize = 0;
        proof {
            assert(self.scopes@.skip(0) =~= self.scopes@);
        }
        while i < self.scopes.len()
            invariant
                i <= self.scopes@.len(),
                chain_outlined(self.scopes@) == chain_outlined(self.scopes@.skip(i as int)),
            decreases self.scopes@.len() - i,
        {
            match self.scopes[i].outlined {
                Some(v) => {
                    return Some(v);
                },
                None => (),
            }
            proof {
                assert(self.scopes@.skip(i as int).skip(1) =~= self.scopes@.skip(i as int + 1));
            }
            i = i + 1;
        }
        proof {
            assert(self.scopes@.skip(i as int) =~= Seq::<StyleScope>::empty());
        }
        None
    }

    /// The nearest `display` override.
    pub fn find_display(&self) -> (r: Option<Option<FuncId>>)
        ensures
            r == chain_display(self.scopes@),
    {
        let mut i: usize = 0;
        proof {
            assert(self.scopes@.skip(0) =~= self.scopes@);
        }
        while i < self.scopes.len()
            invariant
                i <= self.scopes@.len(),
                chain_display(self.scopes@) == chain_display(self.scopes@.skip(i as int)),
            decreases self.scopes@.len() - i,
        {
            match self.scopes[i].display {
                Some(v) => {
                    return Some(v);
                },
                None => (),
            }
            proof {
                assert(self.scopes@.skip(i as int).skip(1) =~= self.scopes@.skip(i as int + 1));
            }
            i = i + 1;
        }
        proof {
            assert(self.scopes@.skip(i as int) =~= Seq::<StyleScope>::empty());
        }
        None
    }

    /// The nearest `outline` override.
    pub fn find_outline(&self) -> (r: Option<Option<FuncId>>)
        ensures
            r == chain_outline(self.scopes@),
    {
        let mut i: usize = 0;
        proof {
            assert(self.scopes@.skip(0) =~= self.scopes@);
        }
        while i < self.scopes.len()
            invariant
                i <= self.scopes@.len(),
                chain_outline(self.scopes@) == chain_outline(self.scopes@.skip(i as int)),
            decreases self.scopes@.len() - i,
        {
            match self.scopes[i].outline {
                Some(v) => {
                    return Some(v);
                },
                None => (),
            }
            proof {
                assert(self.scopes@.skip(i as int).skip(1) =~= self.scopes@.skip(i as int + 1));
            }
            i = i + 1;
        }
        proof {
            assert(self.scopes@.skip(i as int) =~= Seq::<StyleScope>::empty());
        }
        None
    }

    /// The nearest `numbering` override, by reference.
    pub fn find_numbering(&self) -> (r: Option<&Option<Numbering>>)
        ensures
            match r {
                Some(v) => chain_numbering(self.scopes@) == Some(*v),
                None => chain_numbering(self.scopes@) is None,
            },
    {
        let mut i: usize = 0;
        proof {
            assert(self.scopes@.skip(0) =~= self.scopes@);
        }
        while i < self.scopes.len()
            invariant
                i <= self.scopes@.len(),
                chain_numbering(self.scopes@) == chain_numbering(self.scopes@.skip(i as int)),
            decreases self.scopes@.len() - i,
        {
            match &self.scopes[i].numbering {
                Some(v) => {
                    return Some(v);
                },
                None => (),
            }
            proof {
                assert(self.scopes@.skip(i as int).skip(1) =~= self.scopes@.skip(i as int + 1));
            }
            i = i + 1;
        }
        proof {
            assert(self.scopes@.skip(i as int) =~= Seq::<StyleScope>::empty());
        }
        None
    }

    /// The nearest `supplement` override, by reference.
    pub fn find_supplement(&self) -> (r: Option<&Smart<Option<Supplement>>>)
        ensures
            match r {
                Some(v) => chain_supplement(self.scopes@) == Some(*v),
                None => chain_supplement(self.scopes@) is None,
            },
    {
        let mut i: usize = 0;
        proof {
            assert(self.scopes@.skip(0) =~= self.scopes@);
        }
        while i < self.scopes.len()
            invariant
                i <= self.scopes@.len(),
                chain_supplement(self.scopes@) == chain_supplement(self.scopes@.skip(i as int)),
            decreases self.scopes@.len() - i,
        {
            match &self.scopes[i].supplement {
                Some(v) => {
                    return Some(v);
                },
                None => (),
            }
            proof {
                assert(self.scopes@.skip(i as int).skip(1) =~= self.scopes@.skip(i as int + 1));
            }
            i = i + 1;
        }
        proof {
            assert(self.scopes@.skip(i as int) =~= Seq::<StyleScope>::empty());
        }
        None
    }

    /// The language in scope, defaulting to English.
    pub fn lang_in(&self) -> (r: Lang)
        ensures
            r == resolved_lang(self.scopes@),
    {
        let mut i: usize = 0;
        proof {
            assert(self.scopes@.skip(0) =~= self.scopes@);
        }
        while i < self.scopes.len()
            invariant
                i <= self.scopes@.len(),
                chain_lang(self.scopes@) == chain_lang(self.scopes@.skip(i as int)),
            decreases self.scopes@.len() - i,
        {
            match self.scopes[i].lang {
                Some(v) => {
                    return v;
                },
                None => (),
            }
            proof {
                assert(self.scopes@.skip(i as int).skip(1) =~= self.scopes@.skip(i as int + 1));
            }
            i = i + 1;
        }
        proof {
            assert(self.scopes@.skip(i as int) =~= Seq::<StyleScope>::empty());
        }
        Lang('e', 'n')
    }

    /// The region in scope, defaulting to none.
    pub fn region_in(&self) -> (r: Option<Region>)
        ensures
            r == resolved_region(self.scopes@),
    {
        let mut i: usize = 0;
        proof {
            assert(self.scopes@.skip(0) =~= self.scopes@);
        }
        while i < self.scopes.len()
            invariant
                i <= self.scopes@.len(),
                chain_region(self.scopes@) == chain_region(self.scopes@.skip(i as int)),
            decreases self.scopes@.len() - i,
        {
            match self.scopes[i].region {
                Some(v) => {
                    return v;
                },
                None => (),
            }
            proof {
                assert(self.scopes@.skip(i as int).skip(1) =~= self.scopes@.skip(i as int + 1));
            }
            i = i + 1;
        }
        proof {
            assert(self.scopes@.skip(i as int) =~= Seq::<StyleScope>::empty());
        }
        None
    }
}

} // verus!
