use docmeta::numbering::{NumKind, NumPiece, Numbering};

fn pattern(pieces: Vec<(NumKind, &str)>) -> Numbering {
    Numbering {
        pieces: pieces
            .into_iter()
            .map(|(kind, suffix)| NumPiece { kind, suffix: suffix.to_string() })
            .collect(),
    }
}

#[test]
fn decimal_components_join_with_suffix() {
    let n = pattern(vec![(NumKind::Arabic, "."), (NumKind::Arabic, ".")]);
    assert_eq!(n.format(&vec![2, 1]), "2.1");
    assert_eq!(n.format(&vec![2]), "2");
    assert_eq!(n.format(&vec![10, 0, 3]), "10.0.3");
    // The suffix of the piece used for a component separates it from the
    // next one; a piece with an empty suffix joins without a separator.
    let tight = pattern(vec![(NumKind::Arabic, "."), (NumKind::Arabic, "")]);
    assert_eq!(tight.format(&vec![10, 0, 3]), "10.03");
}

#[test]
fn short_pattern_repeats_last_piece() {
    let n = pattern(vec![(NumKind::Arabic, ".")]);
    assert_eq!(n.format(&vec![1, 2, 3]), "1.2.3");
}

#[test]
fn empty_pattern_or_empty_vector_gives_empty_label() {
    let none = pattern(vec![]);
    assert_eq!(none.format(&vec![1, 2]), "");
    let n = pattern(vec![(NumKind::Arabic, ".")]);
    assert_eq!(n.format(&vec![]), "");
}

#[test]
fn large_decimal_renders_exactly() {
    let n = pattern(vec![(NumKind::Arabic, "")]);
    assert_eq!(n.format(&vec![0]), "0");
    assert_eq!(n.format(&vec![10]), "10");
    assert_eq!(n.format(&vec![1234567]), "1234567");
}

#[test]
fn letters_use_bijective_base_26() {
    let n = pattern(vec![(NumKind::LowerLetter, "")]);
    assert_eq!(n.format(&vec![1]), "a");
    assert_eq!(n.format(&vec![26]), "z");
    assert_eq!(n.format(&vec![27]), "aa");
    assert_eq!(n.format(&vec![28]), "ab");
    assert_eq!(n.format(&vec![52]), "az");
    assert_eq!(n.format(&vec![53]), "ba");
    assert_eq!(n.format(&vec![0]), "");
}

#[test]
fn mixed_kinds_follow_their_pieces() {
    // A section-and-letter scheme over two levels.
    let n = pattern(vec![(NumKind::Arabic, "."), (NumKind::LowerLetter, ")")]);
    assert_eq!(n.format(&vec![3, 2]), "3.b");
    assert_eq!(n.format(&vec![3, 2, 4]), "3.b)d");
}
