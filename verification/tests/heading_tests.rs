use docmeta::content::{Content, FinalStyles, FontWeight};
use docmeta::counter::{Counter, CounterKey, CounterUpdate};
use docmeta::errors::{CallbackError, OutlineError};
use docmeta::heading::HeadingElem;
use docmeta::node::NodeKind;
use docmeta::numbering::{NumKind, NumPiece, Numbering};
use docmeta::style::{Lang, Region, Smart, StyleChain, StyleScope, Supplement};

fn dotted() -> Numbering {
    Numbering {
        pieces: vec![NumPiece { kind: NumKind::Arabic, suffix: ".".to_string() }],
    }
}

fn scope() -> StyleScope {
    StyleScope::empty()
}

fn chain(scopes: Vec<StyleScope>) -> StyleChain {
    StyleChain { scopes }
}

fn body(text: &str) -> Content {
    Content::Text(text.to_string())
}

#[test]
fn synthesize_pushes_resolved_fields() {
    let mut h = HeadingElem::new(body("Intro"));
    let mut sc = scope();
    sc.numbering = Some(Some(dotted()));
    sc.level = Some(2);
    let styles = chain(vec![sc]);
    assert!(!h.needs_supplement_callback(&styles));
    let r = h.synthesize(&styles, None);
    assert_eq!(r, Ok(()));
    assert_eq!(h.level, Some(2));
    assert_eq!(h.numbering, Some(Some(dotted())));
    assert_eq!(h.outlined, Some(true));
    assert_eq!(h.display, Some(None));
    assert_eq!(h.outline, Some(None));
    // The auto supplement resolves to the localized default noun.
    assert_eq!(
        h.supplement,
        Some(Smart::Custom(Some(Supplement::Content(Content::Text(
            "Section".to_string()
        )))))
    );
    assert_eq!(h.body, body("Intro"));
}

#[test]
fn synthesize_inner_scope_wins() {
    let mut h = HeadingElem::new(body("t"));
    let mut inner = scope();
    inner.level = Some(3);
    let mut outer = scope();
    outer.level = Some(5);
    outer.outlined = Some(false);
    let styles = chain(vec![inner, outer]);
    h.synthesize(&styles, None).unwrap();
    assert_eq!(h.level, Some(3));
    assert_eq!(h.outlined, Some(false));
}

#[test]
fn synthesize_instance_field_beats_chain() {
    let mut h = HeadingElem::new(body("t"));
    h.level = Some(4);
    let mut sc = scope();
    sc.level = Some(2);
    let styles = chain(vec![sc]);
    h.synthesize(&styles, None).unwrap();
    assert_eq!(h.level, Some(4));
}

#[test]
fn synthesize_localizes_default_supplement() {
    let mut h = HeadingElem::new(body("t"));
    let mut sc = scope();
    sc.lang = Some(Lang('d', 'e'));
    let styles = chain(vec![sc]);
    h.synthesize(&styles, None).unwrap();
    assert_eq!(
        h.supplement,
        Some(Smart::Custom(Some(Supplement::Content(Content::Text(
            "Abschnitt".to_string()
        )))))
    );
}

#[test]
fn synthesize_callback_failure_leaves_heading_untouched() {
    let mut h = HeadingElem::new(body("t"));
    h.supplement = Some(Smart::Custom(Some(Supplement::Func(
        docmeta::style::FuncId(7),
    ))));
    let before = format!("{:?}", h);
    let styles = chain(vec![]);
    assert!(h.needs_supplement_callback(&styles));
    let r = h.synthesize(&styles, Some(Err(CallbackError)));
    assert_eq!(r, Err(CallbackError));
    assert_eq!(format!("{:?}", h), before);
    assert_eq!(h.level, None);
}

#[test]
fn local_name_unknown_language_falls_back_to_english() {
    let h = HeadingElem::new(body("t"));
    assert_eq!(h.local_name(Lang('x', 'x'), None), "Section");
    assert_eq!(h.local_name(Lang('q', 'q'), Some(Region('T', 'W'))), "Section");
    assert_eq!(h.local_name(Lang('e', 'n'), None), "Section");
}

#[test]
fn local_name_honors_region() {
    let h = HeadingElem::new(body("t"));
    assert_eq!(h.local_name(Lang('z', 'h'), Some(Region('T', 'W'))), "小節");
    assert_eq!(h.local_name(Lang('z', 'h'), None), "小节");
    assert_eq!(h.local_name(Lang('f', 'r'), None), "Chapitre");
}

#[test]
fn show_composes_number_spacing_and_body() {
    let mut h = HeadingElem::new(body("Intro"));
    h.numbering = Some(Some(dotted()));
    let styles = chain(vec![]);
    assert!(!h.needs_display_callback(&styles));
    let shown = h.show(&styles, None).unwrap();
    let expected = Content::Block(Box::new(Content::Join(
        Box::new(Content::CounterDisplay {
            key: CounterKey::Elem(NodeKind::Heading),
            numbering: dotted(),
        }),
        Box::new(Content::Join(
            Box::new(Content::HSpace { amount_milli_em: 300, weak: true }),
            Box::new(body("Intro")),
        )),
    )));
    assert_eq!(shown, expected);
}

#[test]
fn show_without_numbering_is_bare_body_block() {
    let h = HeadingElem::new(body("Intro"));
    let styles = chain(vec![]);
    let shown = h.show(&styles, None).unwrap();
    assert_eq!(shown, Content::Block(Box::new(body("Intro"))));
}

#[test]
fn show_override_substitutes_totally() {
    let mut h = HeadingElem::new(body("Intro"));
    h.numbering = Some(Some(dotted()));
    h.display = Some(Some(docmeta::style::FuncId(1)));
    let styles = chain(vec![]);
    assert!(h.needs_display_callback(&styles));
    let custom = body("custom rendering");
    let shown = h.show(&styles, Some(Ok(custom.clone()))).unwrap();
    assert_eq!(shown, Content::Block(Box::new(custom)));
}

#[test]
fn show_callback_failure_propagates() {
    let mut h = HeadingElem::new(body("t"));
    h.display = Some(Some(docmeta::style::FuncId(1)));
    let styles = chain(vec![]);
    let r = h.show(&styles, Some(Err(CallbackError)));
    assert_eq!(r, Err(CallbackError));
}

#[test]
fn finalize_attaches_level_scaled_styles() {
    let styles = chain(vec![]);
    let rendered = body("r");
    let mut h1 = HeadingElem::new(body("t"));
    h1.level = Some(1);
    assert_eq!(
        h1.finalize(rendered.clone(), &styles),
        Content::Styled(
            Box::new(rendered.clone()),
            FinalStyles {
                size_milli_em: 1400,
                weight: FontWeight::Bold,
                above_milli_em: 1285,
                below_milli_em: 535,
                sticky: true,
            }
        )
    );
    let mut h2 = HeadingElem::new(body("t"));
    h2.level = Some(2);
    assert_eq!(
        h2.finalize(rendered.clone(), &styles),
        Content::Styled(
            Box::new(rendered.clone()),
            FinalStyles {
                size_milli_em: 1200,
                weight: FontWeight::Bold,
                above_milli_em: 1200,
                below_milli_em: 625,
                sticky: true,
            }
        )
    );
    // Levels beyond the smallest defined tier clamp to the base scale.
    let mut h9 = HeadingElem::new(body("t"));
    h9.level = Some(9);
    assert_eq!(
        h9.finalize(rendered.clone(), &styles),
        Content::Styled(
            Box::new(rendered.clone()),
            FinalStyles {
                size_milli_em: 1000,
                weight: FontWeight::Bold,
                above_milli_em: 1440,
                below_milli_em: 750,
                sticky: true,
            }
        )
    );
}

#[test]
fn level_zero_resolves_as_one() {
    // A stored zero never stands for a level: it clamps to one wherever
    // it is read, so no zero-level step or zero tier can arise.
    let mut h = HeadingElem::new(body("t"));
    h.level = Some(0);
    h.numbering = Some(Some(dotted()));
    let styles = chain(vec![]);
    assert_eq!(h.level(), 1);
    assert_eq!(h.level_in(&styles), 1);
    assert_eq!(h.update(), Some(CounterUpdate::Step(1)));
    match h.finalize(body("r"), &styles) {
        Content::Styled(_, st) => assert_eq!(st.size_milli_em, 1400),
        other => panic!("expected styled content, got {:?}", other),
    }
    // A zero written into a style scope clamps the same way.
    let mut sc = scope();
    sc.level = Some(0);
    let h2 = HeadingElem::new(body("t"));
    assert_eq!(h2.level_in(&chain(vec![sc])), 1);
}

#[test]
fn update_steps_only_with_active_numbering() {
    let mut numbered = HeadingElem::new(body("t"));
    numbered.numbering = Some(Some(dotted()));
    numbered.level = Some(2);
    assert_eq!(numbered.update(), Some(CounterUpdate::Step(2)));

    let mut none_set = HeadingElem::new(body("t"));
    none_set.numbering = Some(None);
    assert_eq!(none_set.update(), None);

    let unset = HeadingElem::new(body("t"));
    assert_eq!(unset.update(), None);
}

#[test]
fn refable_accessors_expose_reference_pieces() {
    let mut h = HeadingElem::new(body("t"));
    h.supplement = Some(Smart::Custom(Some(Supplement::Content(body("Chapter")))));
    h.numbering = Some(Some(dotted()));
    h.level = Some(3);
    assert_eq!(h.supplement(), body("Chapter"));
    assert_eq!(h.counter(), CounterKey::Elem(NodeKind::Heading));
    assert_eq!(h.numbering(), Some(&dotted()));
    assert_eq!(h.level(), 3);
}

#[test]
fn outline_skips_excluded_heading() {
    let mut h = HeadingElem::new(body("t"));
    h.outlined = Some(false);
    let c = {
        let mut c = Counter::new(CounterKey::Elem(NodeKind::Heading));
        c.freeze();
        c
    };
    assert_eq!(h.outline(&c, None), Ok(None));
}

#[test]
fn outline_query_before_freeze_errors() {
    let mut h = HeadingElem::new(body("t"));
    h.numbering = Some(Some(dotted()));
    h.location = Some(10);
    let mut c = Counter::new(CounterKey::Elem(NodeKind::Heading));
    c.record(10, Some(CounterUpdate::Step(1)));
    assert_eq!(h.outline(&c, None), Err(OutlineError::NotYetResolved));
    c.freeze();
    let entry = h.outline(&c, None).unwrap().unwrap();
    assert_eq!(
        entry,
        Content::Join(
            Box::new(Content::Text("1".to_string())),
            Box::new(Content::Join(Box::new(Content::Space), Box::new(body("t")))),
        )
    );
}

#[test]
fn outline_unknown_location_errors() {
    let mut h = HeadingElem::new(body("t"));
    h.numbering = Some(Some(dotted()));
    h.location = Some(99);
    let mut c = Counter::new(CounterKey::Elem(NodeKind::Heading));
    c.record(10, Some(CounterUpdate::Step(1)));
    c.freeze();
    assert_eq!(h.outline(&c, None), Err(OutlineError::UnknownLocation));
}

#[test]
fn outline_callback_failure_errors() {
    let mut h = HeadingElem::new(body("t"));
    h.outline = Some(Some(docmeta::style::FuncId(2)));
    assert!(h.needs_outline_callback());
    let mut c = Counter::new(CounterKey::Elem(NodeKind::Heading));
    c.freeze();
    assert_eq!(
        h.outline(&c, Some(Err(CallbackError))),
        Err(OutlineError::UserCallback)
    );
}

#[test]
fn display_override_changes_show_but_not_outline() {
    let mut c = Counter::new(CounterKey::Elem(NodeKind::Heading));
    c.record(10, Some(CounterUpdate::Step(1)));
    c.freeze();

    let mut plain = HeadingElem::new(body("Intro"));
    plain.numbering = Some(Some(dotted()));
    plain.location = Some(10);

    let mut overridden = HeadingElem::new(body("Intro"));
    overridden.numbering = Some(Some(dotted()));
    overridden.location = Some(10);
    overridden.display = Some(Some(docmeta::style::FuncId(1)));

    let styles = chain(vec![]);
    let shown_plain = plain.show(&styles, None).unwrap();
    let shown_over = overridden
        .show(&styles, Some(Ok(body("loud"))))
        .unwrap();
    assert_ne!(shown_plain, shown_over);
    assert_eq!(shown_over, Content::Block(Box::new(body("loud"))));

    // The outline is unaffected by the in-place display override.
    assert_eq!(plain.outline(&c, None), overridden.outline(&c, None));
}
