//! Decimal numbers as text. A measurement is kept as the text that wrote it,
//! once that text is known to follow the grammar of decimal numbers:
//!
//! ```text
//! Decimal ::= Sign? ( 'inf' | 'infinity' | 'nan' | Number )
//! Number  ::= ( Digit+ | Digit+ '.' Digit* | Digit* '.' Digit+ ) Exp?
//! Exp     ::= 'e' Sign? Digit+
//! Sign    ::= [+-]
//! Digit   ::= [0-9]
//! ```
//!
//! Letters match in either case.

use vstd::prelude::*;
use vstd::string::*;
use vstd::utf8::is_ascii_chars;
use crate::count::{is_digit, is_digit_byte};
use crate::text::{LOWER_E, MINUS, PLUS, POINT, UPPER_A, UPPER_E, UPPER_Z};

verus! {

pub open spec fn is_sign(c: char) -> bool {
    c == '+' || c == '-'
}

/// The lower-case form of an ASCII capital; any other character unchanged.
pub open spec fn lower(c: char) -> char {
    if 'A' <= c <= 'Z' {
        ((c as u8 + 32) as u8) as char
    } else {
        c
    }
}

/// Whether `s` is `word` when letters are read in lower case.
pub open spec fn spells(s: Seq<char>, word: Seq<char>) -> bool {
    &&& s.len() == word.len()
    &&& forall|i: int| 0 <= i < s.len() ==> lower(#[trigger] s[i]) == word[i]
}

/// Where the run of digits that starts at `from` ends.
pub open spec fn digits_end(s: Seq<char>, from: int) -> int
    decreases s.len() - from,
{
    if 0 <= from < s.len() && is_digit(s[from]) {
        digits_end(s, from + 1)
    } else {
        from
    }
}

/// Whether an exponent starts at `at` and runs to the end of `s`.
pub open spec fn exponent_at(s: Seq<char>, at: int) -> bool {
    let digits = if at + 1 < s.len() && is_sign(s[at + 1]) {
        at + 2
    } else {
        at + 1
    };
    &&& (s[at] == 'e' || s[at] == 'E')
    &&& digits < s.len()
    &&& digits_end(s, digits) == s.len()
}

/// `Number` of the grammar.
pub open spec fn is_number(s: Seq<char>) -> bool {
    let whole = digits_end(s, 0);
    let point = whole < s.len() && s[whole] == '.';
    let mantissa = if point {
        digits_end(s, whole + 1)
    } else {
        whole
    };
    let digits = if point {
        mantissa - 1
    } else {
        mantissa
    };
    &&& digits >= 1
    &&& (mantissa == s.len() || exponent_at(s, mantissa))
}

/// The text without a leading sign.
pub open spec fn unsigned_body(text: Seq<char>) -> Seq<char> {
    if text.len() > 0 && is_sign(text[0]) {
        text.skip(1)
    } else {
        text
    }
}

/// `Decimal` of the grammar.
pub open spec fn is_decimal(text: Seq<char>) -> bool {
    let body = unsigned_body(text);
    ||| spells(body, "inf"@)
    ||| spells(body, "infinity"@)
    ||| spells(body, "nan"@)
    ||| is_number(body)
}

proof fn lemma_digits_end(s: Seq<char>, from: int)
    requires
        0 <= from <= s.len(),
    ensures
        from <= digits_end(s, from) <= s.len(),
        forall|p: int| from <= p < digits_end(s, from) ==> is_digit(#[trigger] s[p]),
        digits_end(s, from) < s.len() ==> !is_digit(s[digits_end(s, from)]),
    decreases s.len() - from,
{
    if from < s.len() && is_digit(s[from]) {
        lemma_digits_end(s, from + 1);
    }
}

proof fn lemma_words()
    ensures
        "inf"@ == seq!['i', 'n', 'f'],
        "infinity"@ == seq!['i', 'n', 'f', 'i', 'n', 'i', 't', 'y'],
        "nan"@ == seq!['n', 'a', 'n'],
        is_ascii_chars("inf"@),
        is_ascii_chars("infinity"@),
        is_ascii_chars("nan"@),
{
    reveal_strlit("inf");
    reveal_strlit("infinity");
    reveal_strlit("nan");
    assert("inf"@ =~= seq!['i', 'n', 'f']);
    assert("infinity"@ =~= seq!['i', 'n', 'f', 'i', 'n', 'i', 't', 'y']);
    assert("nan"@ =~= seq!['n', 'a', 'n']);
}

proof fn lemma_spells_ascii(s: Seq<char>, word: Seq<char>)
    requires
        spells(s, word),
        is_ascii_chars(word),
    ensures
        is_ascii_chars(s),
{
    assert forall|i: int| 0 <= i < s.len() implies '\0' <= #[trigger] s[i] <= '\u{7f}' by {
        assert(lower(s[i]) == word[i]);
    }
}

proof fn lemma_number_ascii(s: Seq<char>)
    requires
        is_number(s),
    ensures
        is_ascii_chars(s),
{
    lemma_digits_end(s, 0);
    let whole = digits_end(s, 0);
    let point = whole < s.len() && s[whole] == '.';
    if point {
        lemma_digits_end(s, whole + 1);
    }
    let mantissa = if point {
        digits_end(s, whole + 1)
    } else {
        whole
    };
    if mantissa < s.len() {
        let digits = if mantissa + 1 < s.len() && is_sign(s[mantissa + 1]) {
            mantissa + 2
        } else {
            mantissa + 1
        };
        lemma_digits_end(s, digits);
    }
    assert forall|i: int| 0 <= i < s.len() implies '\0' <= #[trigger] s[i] <= '\u{7f}' by {
        if i < whole {
            assert(is_digit(s[i]));
        } else if i < mantissa {
            if i > whole {
                assert(is_digit(s[i]));
            }
        } else if i > mantissa + 1 {
            assert(is_digit(s[i]));
        } else if i == mantissa + 1 {
            assert(is_sign(s[i]) || is_digit(s[i]));
        }
    }
}

proof fn lemma_decimal_ascii(text: Seq<char>)
    requires
        is_decimal(text),
    ensures
        is_ascii_chars(text),
{
    lemma_words();
    let body = unsigned_body(text);
    if spells(body, "inf"@) {
        lemma_spells_ascii(body, "inf"@);
    } else if spells(body, "infinity"@) {
        lemma_spells_ascii(body, "infinity"@);
    } else if spells(body, "nan"@) {
        lemma_spells_ascii(body, "nan"@);
    } else {
        lemma_number_ascii(body);
    }
    assert forall|i: int| 0 <= i < text.len() implies '\0' <= #[trigger] text[i] <= '\u{7f}' by {
        if text.len() > 0 && is_sign(text[0]) {
            if i > 0 {
                assert(text[i] == body[i - 1]);
            }
        }
    }
}

/// No decimal number is written as the empty text.
pub proof fn lemma_decimal_not_empty(text: Seq<char>)
    requires
        is_decimal(text),
    ensures
        text.len() > 0,
{
    lemma_words();
    lemma_digits_end(unsigned_body(text), 0);
}

fn is_sign_byte(b: u8) -> (r: bool)
    ensures
        r == is_sign(b as char),
{
    b == PLUS || b == MINUS
}

fn spells_word(text: &str, word: &str) -> (r: bool)
    requires
        text.is_ascii(),
        word.is_ascii(),
    ensures
        r == spells(text@, word@),
{
    proof {
        is_ascii_spec_bytes(text);
        is_ascii_spec_bytes(word);
    }
    let n: usize = text.as_bytes().len();
    if n != word.as_bytes().len() {
        return false;
    }
    let mut i: usize = 0;
    while i < n
        invariant
            i <= n,
            n == text@.len(),
            n == word@.len(),
            text.is_ascii(),
            word.is_ascii(),
            forall|k: int| 0 <= k < i ==> lower(#[trigger] text@[k]) == word@[k],
        decreases n - i,
    {
        let b: u8 = text.get_ascii(i);
        let folded: u8 = if UPPER_A <= b && b <= UPPER_Z {
            b + 32
        } else {
            b
        };
        if folded != word.get_ascii(i) {
            assert(lower(text@[i as int]) != word@[i as int]);
            return false;
        }
        i += 1;
    }
    true
}

fn scan_digits(text: &str, from: usize) -> (end: usize)
    requires
        text.is_ascii(),
        from <= text@.len(),
    ensures
        end == digits_end(text@, from as int),
        from <= end <= text@.len(),
{
    proof {
        is_ascii_spec_bytes(text);
    }
    let n: usize = text.as_bytes().len();
    let mut i: usize = from;
    while i < n
        invariant
            from <= i <= n,
            n == text@.len(),
            text.is_ascii(),
            digits_end(text@, from as int) == digits_end(text@, i as int),
        decreases n - i,
    {
        let b: u8 = text.get_ascii(i);
        if !is_digit_byte(b) {
            assert(!is_digit(text@[i as int]));
            return i;
        }
        assert(is_digit(text@[i as int]));
        i += 1;
    }
    i
}

fn is_number_text(text: &str) -> (r: bool)
    requires
        text.is_ascii(),
    ensures
        r == is_number(text@),
{
    proof {
        is_ascii_spec_bytes(text);
    }
    let n: usize = text.as_bytes().len();
    let whole: usize = scan_digits(text, 0);
    let point: bool = whole < n && text.get_ascii(whole) == POINT;
    let mantissa: usize = if point {
        scan_digits(text, whole + 1)
    } else {
        whole
    };
    let digits: usize = if point {
        mantissa - 1
    } else {
        mantissa
    };
    if digits < 1 {
        return false;
    }
    if mantissa == n {
        return true;
    }
    let mark: u8 = text.get_ascii(mantissa);
    if mark != LOWER_E && mark != UPPER_E {
        return false;
    }
    let signed: bool = mantissa + 1 < n && is_sign_byte(text.get_ascii(mantissa + 1));
    let first: usize = if signed {
        mantissa + 2
    } else {
        mantissa + 1
    };
    if first >= n {
        return false;
    }
    scan_digits(text, first) == n
}

/// Whether a text follows the grammar of decimal numbers.
pub fn is_decimal_text(text: &str) -> (r: bool)
    ensures
        r == is_decimal(text@),
{
    if !text.is_ascii() {
        proof {
            if is_decimal(text@) {
                lemma_decimal_ascii(text@);
            }
        }
        return false;
    }
    proof {
        is_ascii_spec_bytes(text);
        lemma_words();
    }
    let n: usize = text.as_bytes().len();
    let signed: bool = n > 0 && is_sign_byte(text.get_ascii(0));
    let body: &str = if signed {
        text.substring_ascii(1, n)
    } else {
        text
    };
    assert(body@ =~= unsigned_body(text@));
    spells_word(body, "inf") || spells_word(body, "infinity") || spells_word(body, "nan")
        || is_number_text(body)
}

/// A measurement: text that follows the grammar of decimal numbers.
#[derive(Debug, PartialEq, Eq)]
pub struct Decimal {
    text: String,
}

impl View for Decimal {
    type V = Seq<char>;

    closed spec fn view(&self) -> Seq<char> {
        self.text@
    }
}

impl Clone for Decimal {
    fn clone(&self) -> (r: Self)
        ensures
            r@ == self@,
    {
        proof {
            use_type_invariant(self);
        }
        Decimal { text: self.text.clone() }
    }
}

impl Decimal {
    #[verifier::type_invariant]
    spec fn follows_grammar(self) -> bool {
        is_decimal(self.text@)
    }

    /// Takes a text as a measurement if it follows the grammar.
    pub fn parse(text: &str) -> (r: Option<Decimal>)
        ensures
            r is Some <==> is_decimal(text@),
            r matches Some(d) ==> d@ == text@,
    {
        if is_decimal_text(text) {
            Some(Decimal { text: String::from_str(text) })
        } else {
            None
        }
    }

    /// The text of the measurement, which follows the grammar.
    pub fn as_str(&self) -> (s: &str)
        ensures
            s@ == self@,
            is_decimal(self@),
    {
        proof {
            use_type_invariant(self);
        }
        self.text.as_str()
    }
}

} // verus!
