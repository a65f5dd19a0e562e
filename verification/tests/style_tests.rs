use docmeta::content::Content;
use docmeta::heading::HeadingElem;
use docmeta::style::{Lang, Smart, StyleChain, StyleScope, Supplement};

fn body(text: &str) -> Content {
    Content::Text(text.to_string())
}

#[test]
fn resolution_walks_innermost_to_outermost_with_defaults() {
    let mut inner = StyleScope::empty();
    inner.outlined = Some(false);
    let mut outer = StyleScope::empty();
    outer.outlined = Some(true);
    outer.level = Some(7);
    let chain = StyleChain { scopes: vec![inner, outer] };
    assert_eq!(chain.find_outlined(), Some(false));
    assert_eq!(chain.find_level(), Some(7));
    // Nothing set anywhere: lookups fall back to the static defaults.
    let empty = StyleChain { scopes: vec![] };
    assert_eq!(empty.find_outlined(), None);
    assert_eq!(empty.lang_in(), Lang('e', 'n'));
    assert_eq!(empty.region_in(), None);
}

#[test]
fn explicit_auto_supplement_still_localizes() {
    // "auto" set explicitly in a scope is the sentinel, not an override:
    // synthesis computes the localized default from context.
    let mut h = HeadingElem::new(body("t"));
    let mut sc = StyleScope::empty();
    sc.supplement = Some(Smart::Auto);
    sc.lang = Some(Lang('s', 'v'));
    let styles = StyleChain { scopes: vec![sc] };
    h.synthesize(&styles, None).unwrap();
    assert_eq!(
        h.supplement,
        Some(Smart::Custom(Some(Supplement::Content(Content::Text(
            "Kapitel".to_string()
        )))))
    );
}

#[test]
fn explicit_none_supplement_stores_empty_content() {
    let mut h = HeadingElem::new(body("t"));
    let mut sc = StyleScope::empty();
    sc.supplement = Some(Smart::Custom(None));
    let styles = StyleChain { scopes: vec![sc] };
    h.synthesize(&styles, None).unwrap();
    assert_eq!(
        h.supplement,
        Some(Smart::Custom(Some(Supplement::Content(Content::Empty))))
    );
}

#[test]
fn synthesis_is_idempotent_on_identical_inputs() {
    let mut sc = StyleScope::empty();
    sc.level = Some(2);
    sc.lang = Some(Lang('f', 'r'));
    let styles = StyleChain { scopes: vec![sc] };
    let mut h = HeadingElem::new(body("t"));
    h.synthesize(&styles, None).unwrap();
    let once = format!("{:?}", h);
    h.synthesize(&styles, None).unwrap();
    assert_eq!(format!("{:?}", h), once);
}
