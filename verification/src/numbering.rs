use vstd::prelude::*;
use vstd::string::StringExecFns;

verus! {

/// A counting symbol: how one counter component is rendered.
#[derive(Clone, Copy, PartialEq, Eq, Structural, Debug)]
pub enum NumKind {
    /// Decimal digits: 0, 1, 2, ...
    Arabic,
    /// Lower-case letters in bijective base 26: a, b, ..., z, aa, ab, ...
    /// Zero renders as the empty string.
    LowerLetter,
}

/// One piece of a numbering pattern: a counting symbol and the suffix
/// printed after the component it renders.
#[derive(PartialEq, Eq, Debug)]
pub struct NumPiece {
    pub kind: NumKind,
    pub suffix: String,
}

/// Spec-level image of a pattern piece.
pub struct PieceV {
    pub kind: NumKind,
    pub suffix: Seq<char>,
}

impl View for NumPiece {
    type V = PieceV;

    open spec fn view(&self) -> PieceV {
        PieceV { kind: self.kind, suffix: self.suffix@ }
    }
}

impl Clone for NumPiece {
    fn clone(&self) -> (r: Self)
        ensures
            r@ == self@,
    {
        NumPiece { kind: self.kind, suffix: self.suffix.clone() }
    }
}

/// A numbering pattern: a deterministic mapping from a vector of counter
/// components to a rendered label.
///
/// Policy, fixed and documented here: component `i` is rendered with piece
/// `min(i, pieces.len() - 1)` — a pattern shorter than the vector repeats
/// its last piece. The suffix of the piece used for a component separates
/// it from the next component; no suffix follows the final component. An
/// empty pattern, or an empty component vector, yields an empty label.
#[derive(PartialEq, Eq, Debug)]
pub struct Numbering {
    pub pieces: Vec<NumPiece>,
}

impl View for Numbering {
    type V = Seq<PieceV>;

    open spec fn view(&self) -> Seq<PieceV> {
        self.pieces@.map_values(|p: NumPiece| p@)
    }
}

impl Clone for Numbering {
    fn clone(&self) -> (r: Self)
        ensures
            r@ == self@,
    {
        let pieces = self.pieces.clone();
        proof {
            assert forall|i: int| 0 <= i < pieces@.len() implies pieces@[i]@
                == self.pieces@[i]@ by {
                assert(cloned::<NumPiece>(self.pieces@[i], pieces@[i]));
            }
            assert(Numbering { pieces }@ =~= self@);
        }
        Numbering { pieces }
    }
}

/// The decimal digit character for `d < 10`.
pub open spec fn spec_digit(d: nat) -> char {
    if d == 0 {
        '0'
    } else if d == 1 {
        '1'
    } else if d == 2 {
        '2'
    } else if d == 3 {
        '3'
    } else if d == 4 {
        '4'
    } else if d == 5 {
        '5'
    } else if d == 6 {
        '6'
    } else if d == 7 {
        '7'
    } else if d == 8 {
        '8'
    } else {
        '9'
    }
}

/// Standard decimal representation of `n`, most significant digit first.
pub open spec fn dec_rep(n: nat) -> Seq<char>
    decreases n,
{
    if n < 10 {
        seq![spec_digit(n)]
    } else {
        dec_rep(n / 10).push(spec_digit(n % 10))
    }
}

/// The lower-case letter for `i < 26`.
pub open spec fn spec_letter(i: nat) -> char {
    if i == 0 {
        'a'
    } else if i == 1 {
        'b'
    } else if i == 2 {
        'c'
    } else if i == 3 {
        'd'
    } else if i == 4 {
        'e'
    } else if i == 5 {
        'f'
    } else if i == 6 {
        'g'
    } else if i == 7 {
        'h'
    } else if i == 8 {
        'i'
    } else if i == 9 {
        'j'
    } else if i == 10 {
        'k'
    } else if i == 11 {
        'l'
    } else if i == 12 {
        'm'
    } else if i == 13 {
        'n'
    } else if i == 14 {
        'o'
    } else if i == 15 {
        'p'
    } else if i == 16 {
        'q'
    } else if i == 17 {
        'r'
    } else if i == 18 {
        's'
    } else if i == 19 {
        't'
    } else if i == 20 {
        'u'
    } else if i == 21 {
        'v'
    } else if i == 22 {
        'w'
    } else if i == 23 {
        'x'
    } else if i == 24 {
        'y'
    } else {
        'z'
    }
}

/// Bijective base-26 letter representation of `n`; zero is empty.
pub open spec fn letter_rep(n: nat) -> Seq<char>
    decreases n,
{
    if n == 0 {
        Seq::empty()
    } else {
        letter_rep((n - 1) as nat / 26).push(spec_letter((n - 1) as nat % 26))
    }
}

/// Rendering of a single component with a counting symbol.
pub open spec fn rep_spec(kind: NumKind, n: nat) -> Seq<char> {
    match kind {
        NumKind::Arabic => dec_rep(n),
        NumKind::LowerLetter => letter_rep(n),
    }
}

/// The piece used for component `i`: the pattern's last piece repeats.
pub open spec fn piece_at(pieces: Seq<PieceV>, i: int) -> PieceV
    recommends
        pieces.len() > 0,
{
    if i < pieces.len() {
        pieces[if i < 0 {
            0
        } else {
            i
        }]
    } else {
        pieces[pieces.len() - 1]
    }
}

/// The label for components `v[i..]`, continuing an in-progress rendering.
pub open spec fn format_from(pieces: Seq<PieceV>, v: Seq<u64>, i: int) -> Seq<char>
    decreases v.len() - i,
{
    if pieces.len() == 0 || i < 0 || i >= v.len() {
        Seq::empty()
    } else {
        rep_spec(piece_at(pieces, i).kind, v[i] as nat) + (if i + 1 < v.len() {
            piece_at(pieces, i).suffix
        } else {
            Seq::empty()
        }) + format_from(pieces, v, i + 1)
    }
}

/// The full label for a component vector under a pattern.
pub open spec fn format_spec(pieces: Seq<PieceV>, v: Seq<u64>) -> Seq<char> {
    format_from(pieces, v, 0)
}

/// The single-character string for a decimal digit.
fn digit_str(d: u64) -> (r: &'static str)
    requires
        d < 10,
    ensures
        r@ == seq![spec_digit(d as nat)],
{
    let r: &'static str = match d {
        0 => "0",
        1 => "1",
        2 => "2",
        3 => "3",
        4 => "4",
        5 => "5",
        6 => "6",
        7 => "7",
        8 => "8",
        _ => "9",
    };
    proof {
        reveal_strlit("0");
        reveal_strlit("1");
        reveal_strlit("2");
        reveal_strlit("3");
        reveal_strlit("4");
        reveal_strlit("5");
        reveal_strlit("6");
        reveal_strlit("7");
        reveal_strlit("8");
        reveal_strlit("9");
        assert(r@ =~= seq![spec_digit(d as nat)]);
    }
    r
}

/// The single-character string for a letter index below 26.
fn letter_str(i: u64) -> (r: &'static str)
    requires
        i < 26,
    ensures
        r@ == seq![spec_letter(i as nat)],
{
    let r: &'static str = match i {
        0 => "a",
        1 => "b",
        2 => "c",
        3 => "d",
        4 => "e",
        5 => "f",
        6 => "g",
        7 => "h",
        8 => "i",
        9 => "j",
        10 => "k",
        11 => "l",
        12 => "m",
        13 => "n",
        14 => "o",
        15 => "p",
        16 => "q",
        17 => "r",
        18 => "s",
        19 => "t",
        20 => "u",
        21 => "v",
        22 => "w",
        23 => "x",
        24 => "y",
        _ => "z",
    };
    proof {
        reveal_strlit("a");
        reveal_strlit("b");
        reveal_strlit("c");
        reveal_strlit("d");
        reveal_strlit("e");
        reveal_strlit("f");
        reveal_strlit("g");
        reveal_strlit("h");
        reveal_strlit("i");
        reveal_strlit("j");
        reveal_strlit("k");
        reveal_strlit("l");
        reveal_strlit("m");
        reveal_strlit("n");
        reveal_strlit("o");
        reveal_strlit("p");
        reveal_strlit("q");
        reveal_strlit("r");
        reveal_strlit("s");
        reveal_strlit("t");
        reveal_strlit("u");
        reveal_strlit("v");
        reveal_strlit("w");
        reveal_strlit("x");
        reveal_strlit("y");
        reveal_strlit("z");
        assert(r@ =~= seq![spec_letter(i as nat)]);
    }
    r
}

/// Appends the decimal rendering of `n` to `out`.
fn push_decimal(out: &mut String, n: u64)
    ensures
        final(out)@ == old(out)@ + dec_rep(n as nat),
    decreases n,
{
    if n < 10 {
        out.append(digit_str(n));
        proof {
            assert(final(out)@ =~= old(out)@ + dec_rep(n as nat));
        }
    } else {
        push_decimal(out, n / 10);
        out.append(digit_str(n % 10));
        proof {
            assert(final(out)@ =~= old(out)@ + dec_rep(n as nat));
        }
    }
}

/// Appends the bijective base-26 letter rendering of `n` to `out`.
fn push_letters(out: &mut String, n: u64)
    ensures
        final(out)@ == old(out)@ + letter_rep(n as nat),
    decreases n,
{
    if n > 0 {
        push_letters(out, (n - 1) / 26);
        out.append(letter_str((n - 1) % 26));
        proof {
            assert(final(out)@ =~= old(out)@ + letter_rep(n as nat));
        }
    } else {
        proof {
            assert(final(out)@ =~= old(out)@ + letter_rep(n as nat));
        }
    }
}

impl Numbering {
    /// Renders a counter's component vector to its label under this
    /// pattern, following the documented repeat/truncate policy.
    pub fn format(&self, v: &Vec<u64>) -> (r: String)
        ensures
            r@ == format_spec(self@, v@),
    {
        let mut out = String::new();
        if self.pieces.len() == 0 {
            return out;
        }
        let mut i: usize = 0;
        while i < v.len()
            invariant
                self.pieces.len() > 0,
                self@.len() == self.pieces@.len(),
                i <= v.len(),
                out@ + format_from(self@, v@, i as int) == format_spec(self@, v@),
            decreases v.len() - i,
        {
            let ghost prev = out@;
            let pi: usize = if i < self.pieces.len() {
                i
            } else {
                self.pieces.len() - 1
            };
            let piece = &self.pieces[pi];
            proof {
                assert(piece@ == piece_at(self@, i as int));
            }
            match piece.kind {
                NumKind::Arabic => push_decimal(&mut out, v[i]),
                NumKind::LowerLetter => push_letters(&mut out, v[i]),
            }
            if i + 1 < v.len() {
                out.append(piece.suffix.as_str());
            }
            proof {
                assert(out@ + format_from(self@, v@, i + 1 as int) =~= prev + format_from(
                    self@,
                    v@,
                    i as int,
                ));
            }
            i = i + 1;
        }
        out
    }
}

} // verus!
