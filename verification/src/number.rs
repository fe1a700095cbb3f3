//! Numbers as they stand in a document: decimal literals of any size.
//!
//! A number is kept as the text of its literal, so that integral and
//! fractional values of any magnitude pass through unchanged. The literal has
//! one normal form: an optional minus sign, an integer part without leading
//! zeros, an optional fraction, and an optional exponent written as `e`
//! followed by an explicit sign and at least one digit.

use vstd::prelude::*;
use vstd::string::StringSliceAdditionalSpecFns;
use vstd::string::is_ascii_spec_bytes;

verus! {

const MINUS: u8 = 45;

const PLUS: u8 = 43;

const POINT: u8 = 46;

const ZERO: u8 = 48;

const NINE: u8 = 57;

const LOWER_E: u8 = 101;

/// A decimal digit.
pub open spec fn is_digit(c: char) -> bool {
    '0' <= c <= '9'
}

/// Every position of `s` from `from` up to `to` holds a digit.
pub open spec fn digits_between(s: Seq<char>, from: int, to: int) -> bool {
    forall|i: int| from <= i < to ==> is_digit(#[trigger] s[i])
}

/// The sign: nothing, or a minus.
pub open spec fn is_sign_part(s: Seq<char>, from: int, to: int) -> bool {
    to == from || (to == from + 1 && s[from] == '-')
}

/// The integer part: one or more digits, a leading zero only when alone.
pub open spec fn is_integer_part(s: Seq<char>, from: int, to: int) -> bool {
    &&& from < to
    &&& digits_between(s, from, to)
    &&& (s[from] == '0' ==> to == from + 1)
}

/// The fraction: nothing, or a point and one or more digits.
pub open spec fn is_fraction_part(s: Seq<char>, from: int, to: int) -> bool {
    to == from || (from + 1 < to && s[from] == '.' && digits_between(s, from + 1, to))
}

/// The exponent: nothing, or `e`, a sign, and one or more digits.
pub open spec fn is_exponent_part(s: Seq<char>, from: int, to: int) -> bool {
    to == from || {
        &&& from + 2 < to
        &&& s[from] == 'e'
        &&& (s[from + 1] == '+' || s[from + 1] == '-')
        &&& digits_between(s, from + 2, to)
    }
}

/// `s` splits at `a`, `b` and `c` into sign, integer part, fraction and exponent.
pub open spec fn splits_as_number(s: Seq<char>, a: int, b: int, c: int) -> bool {
    &&& 0 <= a <= b <= c <= s.len()
    &&& is_sign_part(s, 0, a)
    &&& is_integer_part(s, a, b)
    &&& is_fraction_part(s, b, c)
    &&& is_exponent_part(s, c, s.len() as int)
}

/// `s` is a number literal in normal form.
pub open spec fn is_number_literal(s: Seq<char>) -> bool {
    exists|a: int, b: int, c: int| splits_as_number(s, a, b, c)
}

/// A number of a document, held as its literal.
#[derive(Debug, PartialEq, Eq)]
pub struct Number {
    literal: String,
}

impl View for Number {
    type V = Seq<char>;

    closed spec fn view(&self) -> Seq<char> {
        self.literal@
    }
}

/// The run of digits that starts at `from` ends at `end`, and no digit follows it.
spec fn digit_run(s: Seq<char>, from: int, end: int) -> bool {
    &&& from <= end <= s.len()
    &&& digits_between(s, from, end)
    &&& (end < s.len() ==> !is_digit(s[end]))
}

/// Where the sign of a literal ends.
spec fn sign_end(s: Seq<char>) -> int {
    if s.len() > 0 && s[0] == '-' {
        1
    } else {
        0
    }
}

/// The three split points of a literal are fixed by its characters.
proof fn lemma_split_is_forced(s: Seq<char>, a: int, b: int, c: int)
    requires
        splits_as_number(s, a, b, c),
    ensures
        a == sign_end(s),
        digit_run(s, a, b),
        b < s.len() && s[b] == '.' ==> b + 1 < c && digit_run(s, b + 1, c),
        !(b < s.len() && s[b] == '.') ==> c == b,
        c < s.len() ==> s[c] == 'e',
{
    assert(is_digit(s[a]));
    if b < c {
        assert(is_digit(s[b + 1]));
    }
}

/// Two digit runs from one start end at the same place.
proof fn lemma_digit_run_unique(s: Seq<char>, from: int, end1: int, end2: int)
    requires
        digit_run(s, from, end1),
        digit_run(s, from, end2),
    ensures
        end1 == end2,
{
    if end1 < end2 {
        assert(is_digit(s[end1]));
    } else if end2 < end1 {
        assert(is_digit(s[end2]));
    }
}

/// Every character of a number literal is an ASCII character.
proof fn lemma_literal_is_ascii(s: Seq<char>)
    requires
        is_number_literal(s),
    ensures
        vstd::utf8::is_ascii_chars(s),
{
    let (a, b, c) = choose|a: int, b: int, c: int| splits_as_number(s, a, b, c);
    assert forall|i: int| 0 <= i < s.len() implies '\0' <= #[trigger] s[i] <= '\u{7f}' by {
        if i < a {
        } else if i < b {
            assert(is_digit(s[i]));
        } else if i < c {
            if i > b {
                assert(is_digit(s[i]));
            }
        } else {
            if i > c + 1 {
                assert(is_digit(s[i]));
            }
        }
    }
}

/// The byte `b` is the ASCII character `c`.
spec fn is_byte_of(c: char, b: u8) -> bool {
    c <= '\u{7f}' && #[verifier::truncate] (c as u8) == b
}

/// `bytes` holds the characters of `s`, one byte for each.
spec fn spelled_by(s: Seq<char>, bytes: Seq<u8>) -> bool {
    &&& bytes.len() == s.len()
    &&& forall|i: int| 0 <= i < s.len() ==> is_byte_of(#[trigger] s[i], bytes[i])
}

/// A byte tells which character it stands for.
proof fn lemma_byte_names_char(c: char, b: u8)
    requires
        is_byte_of(c, b),
    ensures
        is_digit(c) <==> ZERO <= b <= NINE,
        c == '0' <==> b == ZERO,
        c == '-' <==> b == MINUS,
        c == '+' <==> b == PLUS,
        c == '.' <==> b == POINT,
        c == 'e' <==> b == LOWER_E,
{
    assert(c as u32 == b as u32);
}

/// Finds the end of the run of digits that starts at `from`.
fn digits_end(bytes: &[u8], from: usize, Ghost(s): Ghost<Seq<char>>) -> (end: usize)
    requires
        from <= bytes@.len(),
        spelled_by(s, bytes@),
    ensures
        digit_run(s, from as int, end as int),
{
    let mut end: usize = from;
    while end < bytes.len() && ZERO <= bytes[end] && bytes[end] <= NINE
        invariant
            from <= end <= bytes@.len(),
            spelled_by(s, bytes@),
            digits_between(s, from as int, end as int),
        decreases bytes@.len() - end,
    {
        proof {
            lemma_byte_names_char(s[end as int], bytes@[end as int]);
        }
        end += 1;
    }
    proof {
        if end < bytes@.len() {
            lemma_byte_names_char(s[end as int], bytes@[end as int]);
        }
    }
    end
}

impl Number {
    /// What holds of every number: its literal is in normal form.
    #[verifier::type_invariant]
    spec fn well_formed(self) -> bool {
        is_number_literal(self.literal@)
    }

    /// Reads a number from its literal. Text that is no literal in normal form
    /// gives `None`.
    pub fn parse(text: &str) -> (number: Option<Number>)
        ensures
            number is Some <==> is_number_literal(text@),
            number matches Some(n) ==> n@ == text@,
    {
        let ghost s = text@;
        if !text.is_ascii() {
            proof {
                if is_number_literal(s) {
                    lemma_literal_is_ascii(s);
                }
            }
            return None;
        }
        let bytes = text.as_bytes();
        proof {
            is_ascii_spec_bytes(text);
        }
        let n = bytes.len();
        assert(spelled_by(s, bytes@)) by {
            assert forall|i: int| 0 <= i < s.len() implies is_byte_of(
                #[trigger] s[i],
                bytes@[i],
            ) by {
                assert(s[i] as u8 == text.spec_bytes()[i]);
            }
        }
        let a: usize = if n > 0 && bytes[0] == MINUS {
            1
        } else {
            0
        };
        proof {
            if n > 0 {
                lemma_byte_names_char(s[0], bytes@[0]);
            }
        }
        let b = digits_end(bytes, a, Ghost(s));
        let integer_ok = a < b && (bytes[a] != ZERO || b == a + 1);
        proof {
            if a < b {
                lemma_byte_names_char(s[a as int], bytes@[a as int]);
            }
        }
        if !integer_ok {
            proof {
                if is_number_literal(s) {
                    let (x, y, z) = choose|x: int, y: int, z: int| splits_as_number(s, x, y, z);
                    lemma_split_is_forced(s, x, y, z);
                    lemma_digit_run_unique(s, a as int, b as int, y);
                }
            }
            return None;
        }
        let has_fraction = b < n && bytes[b] == POINT;
        proof {
            if b < n {
                lemma_byte_names_char(s[b as int], bytes@[b as int]);
            }
        }
        let c = if has_fraction {
            digits_end(bytes, b + 1, Ghost(s))
        } else {
            b
        };
        if has_fraction && c == b + 1 {
            proof {
                if is_number_literal(s) {
                    let (x, y, z) = choose|x: int, y: int, z: int| splits_as_number(s, x, y, z);
                    lemma_split_is_forced(s, x, y, z);
                    lemma_digit_run_unique(s, a as int, b as int, y);
                    lemma_digit_run_unique(s, b + 1, c as int, z);
                }
            }
            return None;
        }
        let has_exponent = c < n && bytes[c] == LOWER_E;
        let signed = has_exponent && c + 1 < n && (bytes[c + 1] == PLUS || bytes[c + 1] == MINUS);
        proof {
            if c < n {
                lemma_byte_names_char(s[c as int], bytes@[c as int]);
            }
            if c + 1 < n {
                lemma_byte_names_char(s[c + 1], bytes@[c + 1]);
            }
        }
        let d = if signed {
            digits_end(bytes, c + 2, Ghost(s))
        } else {
            c
        };
        let exponent_ok = !has_exponent || (signed && c + 2 < d);
        if !exponent_ok || d != n {
            proof {
                if is_number_literal(s) {
                    let (x, y, z) = choose|x: int, y: int, z: int| splits_as_number(s, x, y, z);
                    lemma_split_is_forced(s, x, y, z);
                    lemma_digit_run_unique(s, a as int, b as int, y);
                    if has_fraction {
                        lemma_digit_run_unique(s, b + 1, c as int, z);
                    }
                    assert(z == c);
                    if signed {
                        assert(digit_run(s, c + 2, s.len() as int));
                        lemma_digit_run_unique(s, c + 2, d as int, s.len() as int);
                    }
                }
            }
            return None;
        }
        proof {
            assert(splits_as_number(s, a as int, b as int, c as int));
        }
        Some(Number { literal: text.to_owned() })
    }

    /// The literal of the number.
    pub fn literal(&self) -> (text: &str)
        ensures
            text@ == self@,
            is_number_literal(text@),
    {
        proof {
            use_type_invariant(self);
        }
        self.literal.as_str()
    }
}

impl Clone for Number {
    fn clone(&self) -> (copy: Number)
        ensures
            copy@ == self@,
    {
        proof {
            use_type_invariant(self);
        }
        Number { literal: self.literal.clone() }
    }
}

} // verus!
