use vstd::prelude::*;
use vstd::string::StringExecFns;

use crate::content::{content_v, Content, ContentV, FinalStyles, FontWeight};
use crate::counter::{Counter, CounterKey, CounterUpdate, KeyV};
use crate::errors::{CallbackError, OutlineError};
use crate::node::NodeKind;
use crate::numbering::{format_spec, Numbering, PieceV};
use crate::style::{
    chain_display, chain_level, chain_numbering, chain_outline, chain_outlined, chain_supplement,
    resolved_lang, resolved_region, FuncId, Lang, Region, Smart, StyleChain, StyleScope,
    Supplement,
};

verus! {

/// A section heading: a typed content node with a logical nesting level,
/// optional numbering, and an outline entry.
///
/// Every settable field is three-state: unset (defer to the style chain
/// and then to the static default), or set on the instance. Synthesis
/// resolves each field once, before rendering, and pushes the concrete
/// value onto the instance.
#[derive(PartialEq, Eq, Debug)]
pub struct HeadingElem {
    /// Logical nesting depth, starting from one. Default: 1. A stored
    /// zero never stands for a level: resolution clamps it to one.
    pub level: Option<usize>,
    /// How to number the heading. Default: no numbering.
    pub numbering: Option<Option<Numbering>>,
    /// Supplement used by references to this heading. Default: auto.
    pub supplement: Option<Smart<Option<Supplement>>>,
    /// Whether the heading appears in the outline. Default: true.
    pub outlined: Option<bool>,
    /// User function overriding in-place display. Default: none.
    pub display: Option<Option<FuncId>>,
    /// User function overriding outline display. Default: none.
    pub outline: Option<Option<FuncId>>,
    /// The heading's title.
    pub body: Content,
    /// Post-layout location, assigned externally after placement.
    pub location: Option<u64>,
}

/// A nesting level starts at one: a stored zero, which the plain integer
/// type admits but no heading ever means, resolves as one.
pub open spec fn clamp_level(v: usize) -> usize {
    if v == 0 {
        1
    } else {
        v
    }
}

/// The resolved `level`: instance, then chain, then the default 1,
/// clamped to at least one.
pub open spec fn resolved_level(h: HeadingElem, scopes: Seq<StyleScope>) -> usize {
    match h.level {
        Some(v) => clamp_level(v),
        None => match chain_level(scopes) {
            Some(v) => clamp_level(v),
            None => 1,
        },
    }
}

/// A heading's level is never below one, whatever was stored or styled.
pub proof fn lemma_level_at_least_one(h: HeadingElem, scopes: Seq<StyleScope>)
    ensures
        resolved_level(h, scopes) >= 1,
{
}

/// The resolved `numbering`: instance, then chain, then none.
pub open spec fn resolved_numbering(h: HeadingElem, scopes: Seq<StyleScope>) -> Option<Numbering> {
    match h.numbering {
        Some(v) => v,
        None => match chain_numbering(scopes) {
            Some(v) => v,
            None => None,
        },
    }
}

/// The resolved `supplement`: instance, then chain, then auto.
pub open spec fn resolved_supplement(h: HeadingElem, scopes: Seq<StyleScope>) -> Smart<
    Option<Supplement>,
> {
    match h.supplement {
        Some(v) => v,
        None => match chain_supplement(scopes) {
            Some(v) => v,
            None => Smart::Auto,
        },
    }
}

/// The resolved `outlined` flag: instance, then chain, then true.
pub open spec fn resolved_outlined(h: HeadingElem, scopes: Seq<StyleScope>) -> bool {
    match h.outlined {
        Some(v) => v,
        None => match chain_outlined(scopes) {
            Some(v) => v,
            None => true,
        },
    }
}

/// The resolved in-place display override: instance, then chain, then none.
pub open spec fn resolved_display(h: HeadingElem, scopes: Seq<StyleScope>) -> Option<FuncId> {
    match h.display {
        Some(v) => v,
        None => match chain_display(scopes) {
            Some(v) => v,
            None => None,
        },
    }
}

/// The resolved outline display override: instance, then chain, then none.
pub open spec fn resolved_outline_fn(h: HeadingElem, scopes: Seq<StyleScope>) -> Option<FuncId> {
    match h.outline {
        Some(v) => v,
        None => match chain_outline(scopes) {
            Some(v) => v,
            None => None,
        },
    }
}

/// Whether a region code denotes traditional-script Chinese usage.
pub open spec fn spec_region_is_tw(region: Option<Region>) -> bool {
    match region {
        Some(rg) => rg.0 == 'T' && rg.1 == 'W',
        None => false,
    }
}

/// Whether the language code appears in the localized-name table.
pub open spec fn spec_known_lang(lang: Lang) -> bool {
    ||| (lang.0 == 'a' && lang.1 == 'r')
    ||| (lang.0 == 'n' && lang.1 == 'b')
    ||| (lang.0 == 'z' && lang.1 == 'h')
    ||| (lang.0 == 'c' && lang.1 == 's')
    ||| (lang.0 == 'd' && lang.1 == 'a')
    ||| (lang.0 == 'n' && lang.1 == 'l')
    ||| (lang.0 == 'f' && lang.1 == 'r')
    ||| (lang.0 == 'd' && lang.1 == 'e')
    ||| (lang.0 == 'i' && lang.1 == 't')
    ||| (lang.0 == 'n' && lang.1 == 'n')
    ||| (lang.0 == 'p' && lang.1 == 'l')
    ||| (lang.0 == 'p' && lang.1 == 't')
    ||| (lang.0 == 'r' && lang.1 == 'u')
    ||| (lang.0 == 's' && lang.1 == 'l')
    ||| (lang.0 == 'e' && lang.1 == 's')
    ||| (lang.0 == 's' && lang.1 == 'v')
    ||| (lang.0 == 'u' && lang.1 == 'k')
    ||| (lang.0 == 'v' && lang.1 == 'i')
    ||| (lang.0 == 'e' && lang.1 == 'n')
}

/// The localized noun used as a heading's default supplement.
pub open spec fn local_name_spec(lang: Lang, region: Option<Region>) -> Seq<char> {
    if lang.0 == 'a' && lang.1 == 'r' {
        "الفصل"@
    } else if lang.0 == 'n' && lang.1 == 'b' {
        "Kapittel"@
    } else if lang.0 == 'z' && lang.1 == 'h' {
        if spec_region_is_tw(region) {
            "小節"@
        } else {
            "小节"@
        }
    } else if lang.0 == 'c' && lang.1 == 's' {
        "Kapitola"@
    } else if lang.0 == 'd' && lang.1 == 'a' {
        "Afsnit"@
    } else if lang.0 == 'n' && lang.1 == 'l' {
        "Hoofdstuk"@
    } else if lang.0 == 'f' && lang.1 == 'r' {
        "Chapitre"@
    } else if lang.0 == 'd' && lang.1 == 'e' {
        "Abschnitt"@
    } else if lang.0 == 'i' && lang.1 == 't' {
        "Sezione"@
    } else if lang.0 == 'n' && lang.1 == 'n' {
        "Kapittel"@
    } else if lang.0 == 'p' && lang.1 == 'l' {
        "Sekcja"@
    } else if lang.0 == 'p' && lang.1 == 't' {
        "Seção"@
    } else if lang.0 == 'r' && lang.1 == 'u' {
        "Раздел"@
    } else if lang.0 == 's' && lang.1 == 'l' {
        "Poglavje"@
    } else if lang.0 == 'e' && lang.1 == 's' {
        "Sección"@
    } else if lang.0 == 's' && lang.1 == 'v' {
        "Kapitel"@
    } else if lang.0 == 'u' && lang.1 == 'k' {
        "Розділ"@
    } else if lang.0 == 'v' && lang.1 == 'i' {
        "Phần"@
    } else {
        "Section"@
    }
}

/// Localized lookup is total: a (language, region) pair outside the table
/// falls back to the English default rather than failing.
pub proof fn lemma_local_name_fallback(lang: Lang, region: Option<Region>)
    requires
        !spec_known_lang(lang),
    ensures
        local_name_spec(lang, region) == "Section"@,
{
}

/// The spec-level image of an optional numbering.
pub open spec fn opt_numbering_v(o: Option<Numbering>) -> Option<Seq<PieceV>> {
    match o {
        Some(n) => Some(n@),
        None => None,
    }
}

/// The spec-level image of an injected callback result, where it carries
/// successful content.
pub open spec fn cb_content_v(cb: Option<Result<Content, CallbackError>>) -> Option<ContentV> {
    match cb {
        Some(Result::Ok(c)) => Some(c@),
        _ => None,
    }
}

/// Whether synthesis must invoke a user supplement function.
pub open spec fn spec_needs_supplement_cb(h: HeadingElem, scopes: Seq<StyleScope>) -> bool {
    resolved_supplement(h, scopes) matches Smart::Custom(Some(Supplement::Func(_)))
}

/// The supplement content synthesis stores: the localized name for auto,
/// empty for an explicit none, fixed content verbatim, and the external
/// function's result where a function was configured.
pub open spec fn synth_supp_v(h: HeadingElem, scopes: Seq<StyleScope>, cbv: Option<ContentV>)
    -> ContentV {
    match resolved_supplement(h, scopes) {
        Smart::Auto => ContentV::Text(local_name_spec(resolved_lang(scopes), resolved_region(scopes))),
        Smart::Custom(None) => ContentV::Empty,
        Smart::Custom(Some(Supplement::Content(c))) => c@,
        Smart::Custom(Some(Supplement::Func(_))) => match cbv {
            Some(cv) => cv,
            None => ContentV::Empty,
        },
    }
}

/// Synthesis is idempotent: once a heading carries the values resolved
/// under some chain (the shape `synthesize` leaves behind on success),
/// every field resolves to that same value under any chain, and no
/// supplement callback is needed again.
pub proof fn lemma_synthesize_idempotent(
    h: HeadingElem,
    h2: HeadingElem,
    scopes: Seq<StyleScope>,
    scopes2: Seq<StyleScope>,
)
    requires
        h2.level == Some(resolved_level(h, scopes)),
        h2.numbering is Some,
        opt_numbering_v(h2.numbering.unwrap()) == opt_numbering_v(resolved_numbering(h, scopes)),
        h2.supplement matches Some(Smart::Custom(Some(Supplement::Content(_)))),
        h2.outlined == Some(resolved_outlined(h, scopes)),
        h2.display == Some(resolved_display(h, scopes)),
        h2.outline == Some(resolved_outline_fn(h, scopes)),
    ensures
        resolved_level(h2, scopes2) == resolved_level(h, scopes),
        opt_numbering_v(resolved_numbering(h2, scopes2)) == opt_numbering_v(
            resolved_numbering(h, scopes),
        ),
        resolved_outlined(h2, scopes2) == resolved_outlined(h, scopes),
        resolved_display(h2, scopes2) == resolved_display(h, scopes),
        resolved_outline_fn(h2, scopes2) == resolved_outline_fn(h, scopes),
        !spec_needs_supplement_cb(h2, scopes2),
{
}

/// The counter update a heading contributes: one step at its level when
/// its numbering is active, nothing otherwise.
pub open spec fn spec_update_of(h: HeadingElem) -> Option<CounterUpdate> {
    if resolved_numbering(h, Seq::<StyleScope>::empty()) is Some {
        Some(CounterUpdate::Step(resolved_level(h, Seq::<StyleScope>::empty())))
    } else {
        None
    }
}

/// What `show` produces: the block-level expansion of the heading. An
/// in-place display override substitutes totally for the built-in
/// composition of number and body.
pub open spec fn show_v(h: HeadingElem, scopes: Seq<StyleScope>, cbv: Option<ContentV>)
    -> ContentV {
    match cbv {
        Some(cv) => ContentV::Block(Box::new(cv)),
        None => match resolved_numbering(h, scopes) {
            Some(n) => ContentV::Block(
                Box::new(
                    ContentV::Join(
                        Box::new(
                            ContentV::CounterDisplay {
                                key: KeyV::Elem(NodeKind::Heading),
                                numbering: n@,
                            },
                        ),
                        Box::new(
                            ContentV::Join(
                                Box::new(ContentV::HSpace { amount_milli_em: 300, weak: true }),
                                Box::new(content_v(h.body)),
                            ),
                        ),
                    ),
                ),
            ),
            None => ContentV::Block(Box::new(content_v(h.body))),
        },
    }
}

/// The residual style finalization attaches for a given level: a discrete
/// scale, clamped at the smallest tier for levels beyond two; spacing is
/// divided by the scale with truncating integer division, in thousandths
/// of an em.
pub open spec fn final_styles_spec(level: usize) -> FinalStyles {
    let scale: u64 = if level == 1 {
        1400
    } else if level == 2 {
        1200
    } else {
        1000
    };
    FinalStyles {
        size_milli_em: scale,
        weight: FontWeight::Bold,
        above_milli_em: (if level == 1 {
            1800000u64
        } else {
            1440000u64
        }) / scale,
        below_milli_em: 750000u64 / scale,
        sticky: true,
    }
}

/// Whether `outline` must invoke a user outline function.
pub open spec fn spec_needs_outline_cb(h: HeadingElem) -> bool {
    resolved_outlined(h, Seq::<StyleScope>::empty()) && resolved_outline_fn(
        h,
        Seq::<StyleScope>::empty(),
    ) is Some
}

/// What `outline` produces for an included heading: an outline override
/// substitutes totally; otherwise the resolved counter label joins the
/// body with a space; an unnumbered heading contributes its body alone.
pub open spec fn outline_v(h: HeadingElem, c: Counter, cbv: Option<ContentV>) -> ContentV {
    match cbv {
        Some(cv) => cv,
        None => match resolved_numbering(h, Seq::<StyleScope>::empty()) {
            Some(n) => ContentV::Join(
                Box::new(ContentV::Text(format_spec(n@, c.spec_value_at(h.location.unwrap())))),
                Box::new(
                    ContentV::Join(Box::new(ContentV::Space), Box::new(content_v(h.body))),
                ),
            ),
            None => content_v(h.body),
        },
    }
}

/// A rendering override is invisible to the outline: two headings that
/// differ only in their in-place display function have the same outline
/// specification, inclusion and numbering alike.
pub proof fn lemma_display_override_preserves_outline(
    h1: HeadingElem,
    h2: HeadingElem,
    c: Counter,
    cbv: Option<ContentV>,
)
    requires
        h2 == (HeadingElem { display: h2.display, ..h1 }),
    ensures
        outline_v(h1, c, cbv) == outline_v(h2, c, cbv),
        resolved_outlined(h1, Seq::<StyleScope>::empty()) == resolved_outlined(
            h2,
            Seq::<StyleScope>::empty(),
        ),
        spec_needs_outline_cb(h1) == spec_needs_outline_cb(h2),
{
}

impl HeadingElem {
    /// A fresh heading around a title, with every settable field unset.
    pub fn new(body: Content) -> (h: HeadingElem)
        ensures
            h.level is None,
            h.numbering is None,
            h.supplement is None,
            h.outlined is None,
            h.display is None,
            h.outline is None,
            h.body == body,
            h.location is None,
    {
        HeadingElem {
            level: None,
            numbering: None,
            supplement: None,
            outlined: None,
            display: None,
            outline: None,
            body,
            location: None,
        }
    }

    /// The heading's level under a style chain; never below one.
    pub fn level_in(&self, styles: &StyleChain) -> (r: usize)
        ensures
            r == resolved_level(*self, styles.scopes@),
            r >= 1,
    {
        let raw: usize = match self.level {
            Some(v) => v,
            None => match styles.find_level() {
                Some(v) => v,
                None => 1,
            },
        };
        if raw == 0 {
            1
        } else {
            raw
        }
    }

    /// The heading's numbering under a style chain.
    pub fn numbering_in<'a>(&'a self, styles: &'a StyleChain) -> (r: Option<&'a Numbering>)
        ensures
            match r {
                Some(n) => resolved_numbering(*self, styles.scopes@) == Some(*n),
                None => resolved_numbering(*self, styles.scopes@) is None,
            },
    {
        match &self.numbering {
            Some(Some(n)) => Some(n),
            Some(None) => None,
            None => match styles.find_numbering() {
                Some(Some(n)) => Some(n),
                _ => None,
            },
        }
    }

    /// The heading's supplement setting under a style chain; `None` means
    /// nothing was set anywhere and the auto default applies.
    pub fn supplement_in<'a>(&'a self, styles: &'a StyleChain) -> (r: Option<&'a Smart<Option<Supplement>>>)
        ensures
            match r {
                Some(s) => resolved_supplement(*self, styles.scopes@) == *s,
                None => resolved_supplement(*self, styles.scopes@) == Smart::<
                    Option<Supplement>,
                >::Auto,
            },
    {
        match &self.supplement {
            Some(s) => Some(s),
            None => styles.find_supplement(),
        }
    }

    /// The heading's outline inclusion under a style chain.
    pub fn outlined_in(&self, styles: &StyleChain) -> (r: bool)
        ensures
            r == resolved_outlined(*self, styles.scopes@),
    {
        match self.outlined {
            Some(v) => v,
            None => match styles.find_outlined() {
                Some(v) => v,
                None => true,
            },
        }
    }

    /// The heading's in-place display override under a style chain.
    pub fn display_in(&self, styles: &StyleChain) -> (r: Option<FuncId>)
        ensures
            r == resolved_display(*self, styles.scopes@),
    {
        match self.display {
            Some(v) => v,
            None => match styles.find_display() {
                Some(v) => v,
                None => None,
            },
        }
    }

    /// The heading's outline display override under a style chain.
    pub fn outline_in(&self, styles: &StyleChain) -> (r: Option<FuncId>)
        ensures
            r == resolved_outline_fn(*self, styles.scopes@),
    {
        match self.outline {
            Some(v) => v,
            None => match styles.find_outline() {
                Some(v) => v,
                None => None,
            },
        }
    }

    /// Whether synthesis under this chain needs an externally evaluated
    /// supplement function result.
    pub fn needs_supplement_callback(&self, styles: &StyleChain) -> (r: bool)
        ensures
            r == spec_needs_supplement_cb(*self, styles.scopes@),
    {
        match self.supplement_in(styles) {
            Some(Smart::Custom(Some(Supplement::Func(_)))) => true,
            _ => false,
        }
    }

    /// Whether `show` under this chain needs an externally evaluated
    /// display function result.
    pub fn needs_display_callback(&self, styles: &StyleChain) -> (r: bool)
        ensures
            r == resolved_display(*self, styles.scopes@) is Some,
    {
        self.display_in(styles).is_some()
    }

    /// Whether `outline` needs an externally evaluated outline function
    /// result.
    pub fn needs_outline_callback(&self) -> (r: bool)
        ensures
            r == spec_needs_outline_cb(*self),
    {
        let outlined = match self.outlined {
            Some(v) => v,
            None => true,
        };
        let has_fn = match self.outline {
            Some(Some(_)) => true,
            _ => false,
        };
        outlined && has_fn
    }

    /// The localized noun naming a section, for the default supplement.
    /// Unknown language codes fall back to the English default.
    pub fn local_name(&self, lang: Lang, region: Option<Region>) -> (r: &'static str)
        ensures
            r@ == local_name_spec(lang, region),
    {
        let tw = match region {
            Some(rg) => rg.0 == 'T' && rg.1 == 'W',
            None => false,
        };
        if lang.0 == 'a' && lang.1 == 'r' {
            "الفصل"
        } else if lang.0 == 'n' && lang.1 == 'b' {
            "Kapittel"
        } else if lang.0 == 'z' && lang.1 == 'h' {
            if tw {
                "小節"
            } else {
                "小节"
            }
        } else if lang.0 == 'c' && lang.1 == 's' {
            "Kapitola"
        } else if lang.0 == 'd' && lang.1 == 'a' {
            "Afsnit"
        } else if lang.0 == 'n' && lang.1 == 'l' {
            "Hoofdstuk"
        } else if lang.0 == 'f' && lang.1 == 'r' {
            "Chapitre"
        } else if lang.0 == 'd' && lang.1 == 'e' {
            "Abschnitt"
        } else if lang.0 == 'i' && lang.1 == 't' {
            "Sezione"
        } else if lang.0 == 'n' && lang.1 == 'n' {
            "Kapittel"
        } else if lang.0 == 'p' && lang.1 == 'l' {
            "Sekcja"
        } else if lang.0 == 'p' && lang.1 == 't' {
            "Seção"
        } else if lang.0 == 'r' && lang.1 == 'u' {
            "Раздел"
        } else if lang.0 == 's' && lang.1 == 'l' {
            "Poglavje"
        } else if lang.0 == 'e' && lang.1 == 's' {
            "Sección"
        } else if lang.0 == 's' && lang.1 == 'v' {
            "Kapitel"
        } else if lang.0 == 'u' && lang.1 == 'k' {
            "Розділ"
        } else if lang.0 == 'v' && lang.1 == 'i' {
            "Phần"
        } else {
            "Section"
        }
    }

    /// Resolves every style-dependent field into a concrete stored value,
    /// once, before rendering. Where a user supplement function is
    /// configured, its externally evaluated result is handed in; on a
    /// callback failure the heading is left exactly as it was and the
    /// error surfaces to the caller.
    pub fn synthesize(
        &mut self,
        styles: &StyleChain,
        supplement_cb: Option<Result<Content, CallbackError>>,
    ) -> (r: Result<(), CallbackError>)
        requires
            supplement_cb is Some <==> spec_needs_supplement_cb(*old(self), styles.scopes@),
        ensures
            r is Ok <==> !(supplement_cb matches Some(Result::Err(_))),
            match r {
                Result::Err(e) => *final(self) == *old(self) && supplement_cb == Some(
                    Result::<Content, CallbackError>::Err(e),
                ),
                Result::Ok(_) => {
                    &&& final(self).level == Some(resolved_level(*old(self), styles.scopes@))
                    &&& (final(self).numbering matches Some(n) && opt_numbering_v(n)
                        == opt_numbering_v(resolved_numbering(*old(self), styles.scopes@)))
                    &&& (final(self).supplement matches Some(
                        Smart::Custom(Some(Supplement::Content(c))),
                    ) && c@ == synth_supp_v(
                        *old(self),
                        styles.scopes@,
                        cb_content_v(supplement_cb),
                    ))
                    &&& final(self).outlined == Some(
                        resolved_outlined(*old(self), styles.scopes@),
                    )
                    &&& final(self).display == Some(resolved_display(*old(self), styles.scopes@))
                    &&& final(self).outline == Some(
                        resolved_outline_fn(*old(self), styles.scopes@),
                    )
                    &&& final(self).body == old(self).body
                    &&& final(self).location == old(self).location
                },
            },
    {
        let lang = styles.lang_in();
        let region = styles.region_in();
        let supplement: Content = match self.supplement_in(styles) {
            None | Some(Smart::Auto) => Content::Text(
                String::from_str(self.local_name(lang, region)),
            ),
            Some(Smart::Custom(None)) => Content::Empty,
            Some(Smart::Custom(Some(Supplement::Content(c)))) => c.clone(),
            Some(Smart::Custom(Some(Supplement::Func(_)))) => match supplement_cb {
                Some(Result::Ok(c)) => c,
                Some(Result::Err(e)) => {
                    return Err(e);
                },
                None => {
                    proof {
                        assert(false);
                    }
                    Content::Empty
                },
            },
        };
        let new_level = self.level_in(styles);
        let new_numbering: Option<Numbering> = match self.numbering_in(styles) {
            Some(n) => Some(n.clone()),
            None => None,
        };
        let new_outlined = self.outlined_in(styles);
        let new_display = self.display_in(styles);
        let new_outline = self.outline_in(styles);
        self.level = Some(new_level);
        self.numbering = Some(new_numbering);
        self.supplement = Some(Smart::Custom(Some(Supplement::Content(supplement))));
        self.outlined = Some(new_outlined);
        self.display = Some(new_display);
        self.outline = Some(new_outline);
        Ok(())
    }

    /// Produces the heading's expansion: a block holding the deferred
    /// counter display, weak spacing and the body — or, verbatim, the
    /// result of a configured in-place display override.
    pub fn show(
        &self,
        styles: &StyleChain,
        display_cb: Option<Result<Content, CallbackError>>,
    ) -> (r: Result<Content, CallbackError>)
        requires
            display_cb is Some <==> resolved_display(*self, styles.scopes@) is Some,
        ensures
            match display_cb {
                Some(Result::Err(e)) => r == Result::<Content, CallbackError>::Err(e),
                _ => (r matches Ok(c) && c@ == show_v(
                    *self,
                    styles.scopes@,
                    cb_content_v(display_cb),
                )),
            },
    {
        let numbers: Option<Content> = match self.numbering_in(styles) {
            Some(n) => Some(
                Content::CounterDisplay {
                    key: CounterKey::Elem(NodeKind::Heading),
                    numbering: n.clone(),
                },
            ),
            None => None,
        };
        let realized: Content = match display_cb {
            Some(Result::Err(e)) => {
                return Err(e);
            },
            Some(Result::Ok(c)) => c,
            None => match numbers {
                Some(nc) => Content::Join(
                    Box::new(nc),
                    Box::new(
                        Content::Join(
                            Box::new(Content::HSpace { amount_milli_em: 300, weak: true }),
                            Box::new(self.body.clone()),
                        ),
                    ),
                ),
                None => self.body.clone(),
            },
        };
        let result = Content::Block(Box::new(realized));
        proof {
            reveal_with_fuel(content_v, 8);
        }
        Ok(result)
    }

    /// Attaches the residual level-based style around a rendered heading.
    /// It never re-runs `show`: the rendered content is wrapped as given.
    pub fn finalize(&self, realized: Content, styles: &StyleChain) -> (r: Content)
        ensures
            r@ == ContentV::Styled(
                Box::new(realized@),
                final_styles_spec(resolved_level(*self, styles.scopes@)),
            ),
    {
        let level = self.level_in(styles);
        let scale: u64 = if level == 1 {
            1400
        } else if level == 2 {
            1200
        } else {
            1000
        };
        let st = FinalStyles {
            size_milli_em: scale,
            weight: FontWeight::Bold,
            above_milli_em: (if level == 1 {
                1800000u64
            } else {
                1440000u64
            }) / scale,
            below_milli_em: 750000u64 / scale,
            sticky: true,
        };
        Content::Styled(Box::new(realized), st)
    }

    /// The counter update this heading contributes to the discovery
    /// traversal: a step at its level only while its numbering is active.
    pub fn update(&self) -> (r: Option<CounterUpdate>)
        ensures
            r == spec_update_of(*self),
    {
        let numbered = match &self.numbering {
            Some(Some(_)) => true,
            _ => false,
        };
        if numbered {
            let raw: usize = match self.level {
                Some(v) => v,
                None => 1,
            };
            let level: usize = if raw == 0 {
                1
            } else {
                raw
            };
            Some(CounterUpdate::Step(level))
        } else {
            None
        }
    }

    /// Spec-level image of `update`.
    pub open spec fn spec_update(&self) -> Option<CounterUpdate> {
        spec_update_of(*self)
    }

    /// The supplement exposed to cross-reference renderers; after
    /// synthesis this is always stored content.
    pub fn supplement(&self) -> (r: Content)
        ensures
            r@ == match resolved_supplement(*self, Seq::<StyleScope>::empty()) {
                Smart::Custom(Some(Supplement::Content(c))) => c@,
                _ => ContentV::Empty,
            },
    {
        match &self.supplement {
            Some(Smart::Custom(Some(Supplement::Content(c)))) => c.clone(),
            _ => Content::Empty,
        }
    }

    /// The key of the counter this heading steps.
    pub fn counter(&self) -> (r: CounterKey)
        ensures
            r == CounterKey::Elem(NodeKind::Heading),
    {
        CounterKey::Elem(NodeKind::Heading)
    }

    /// The heading's numbering, for cross-reference renderers.
    pub fn numbering(&self) -> (r: Option<&Numbering>)
        ensures
            match r {
                Some(n) => resolved_numbering(*self, Seq::<StyleScope>::empty()) == Some(*n),
                None => resolved_numbering(*self, Seq::<StyleScope>::empty()) is None,
            },
    {
        match &self.numbering {
            Some(Some(n)) => Some(n),
            _ => None,
        }
    }

    /// The heading's nesting level for outline consumers; never below one.
    pub fn level(&self) -> (r: usize)
        ensures
            r == resolved_level(*self, Seq::<StyleScope>::empty()),
            r >= 1,
    {
        let raw: usize = match self.level {
            Some(v) => v,
            None => 1,
        };
        if raw == 0 {
            1
        } else {
            raw
        }
    }

    /// The heading's outline contribution: nothing when excluded, else
    /// the resolved counter label joined with the body — or, verbatim,
    /// the result of a configured outline override. Queries against an
    /// unfrozen counter, and locations the counter never saw, surface as
    /// errors rather than stale answers.
    pub fn outline(
        &self,
        counter: &Counter,
        outline_cb: Option<Result<Content, CallbackError>>,
    ) -> (r: Result<Option<Content>, OutlineError>)
        requires
            counter.wf(),
            counter.key == CounterKey::Elem(NodeKind::Heading),
            outline_cb is Some <==> spec_needs_outline_cb(*self),
            resolved_outlined(*self, Seq::<StyleScope>::empty()) && resolved_numbering(
                *self,
                Seq::<StyleScope>::empty(),
            ) is Some ==> self.location is Some,
        ensures
            !resolved_outlined(*self, Seq::<StyleScope>::empty()) ==> r == Result::<
                Option<Content>,
                OutlineError,
            >::Ok(None),
            resolved_outlined(*self, Seq::<StyleScope>::empty()) ==> match resolved_numbering(
                *self,
                Seq::<StyleScope>::empty(),
            ) {
                Some(_) => {
                    &&& !counter.frozen ==> r == Result::<Option<Content>, OutlineError>::Err(
                        OutlineError::NotYetResolved,
                    )
                    &&& counter.frozen && !counter.spec_has_loc(self.location.unwrap()) ==> r
                        == Result::<Option<Content>, OutlineError>::Err(
                        OutlineError::UnknownLocation,
                    )
                    &&& counter.frozen && counter.spec_has_loc(self.location.unwrap())
                        ==> match outline_cb {
                        Some(Result::Err(_)) => r == Result::<Option<Content>, OutlineError>::Err(
                            OutlineError::UserCallback,
                        ),
                        _ => (r matches Ok(Some(c)) && c@ == outline_v(
                            *self,
                            *counter,
                            cb_content_v(outline_cb),
                        )),
                    }
                },
                None => match outline_cb {
                    Some(Result::Err(_)) => r == Result::<Option<Content>, OutlineError>::Err(
                        OutlineError::UserCallback,
                    ),
                    _ => (r matches Ok(Some(c)) && c@ == outline_v(
                        *self,
                        *counter,
                        cb_content_v(outline_cb),
                    )),
                },
            },
    {
        let outlined = match self.outlined {
            Some(v) => v,
            None => true,
        };
        if !outlined {
            return Ok(None);
        }
        let numbers: Option<Content> = match self.numbering() {
            Some(n) => {
                let loc = match self.location {
                    Some(l) => l,
                    None => {
                        proof {
                            assert(false);
                        }
                        0
                    },
                };
                match counter.at(loc) {
                    Ok(v) => Some(Content::Text(n.format(&v))),
                    Err(e) => {
                        return Err(OutlineError::from_counter(e));
                    },
                }
            },
            None => None,
        };
        let content: Content = match outline_cb {
            Some(Result::Err(_)) => {
                return Err(OutlineError::UserCallback);
            },
            Some(Result::Ok(c)) => c,
            None => match numbers {
                Some(nc) => Content::Join(
                    Box::new(nc),
                    Box::new(
                        Content::Join(Box::new(Content::Space), Box::new(self.body.clone())),
                    ),
                ),
                None => self.body.clone(),
            },
        };
        proof {
            reveal_with_fuel(content_v, 8);
        }
        Ok(Some(content))
    }
}

} // verus!
