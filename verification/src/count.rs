//! Integer counts as decimal text: an optional `+`, then one or more ASCII
//! digits whose value fits in 32 bits.

use vstd::prelude::*;
use vstd::string::*;
use vstd::utf8::is_ascii_chars;
use crate::text::{DIGIT_0, DIGIT_9, PLUS};

verus! {

pub open spec fn is_digit(c: char) -> bool {
    '0' <= c <= '9'
}

pub open spec fn digit_value(c: char) -> nat {
    (c as nat - '0' as nat) as nat
}

pub open spec fn digit_char(d: nat) -> char {
    if d == 0 {
        '0'
    } else if d == 1 {
        '1'
    } else if d == 2 {
        '2'
    } else if d == 3 {
        '3'
    } else if d == 4 {
        '4'
    } else if d == 5 {
        '5'
    } else if d == 6 {
        '6'
    } else if d == 7 {
        '7'
    } else if d == 8 {
        '8'
    } else {
        '9'
    }
}

/// Whether a byte is an ASCII digit.
pub fn is_digit_byte(b: u8) -> (r: bool)
    ensures
        r == (DIGIT_0 <= b <= DIGIT_9),
        r == is_digit(b as char),
{
    DIGIT_0 <= b && b <= DIGIT_9
}

pub open spec fn all_digits(s: Seq<char>) -> bool {
    forall|i: int| 0 <= i < s.len() ==> is_digit(#[trigger] s[i])
}

/// The number that a run of digits writes in base ten.
pub open spec fn digits_value(s: Seq<char>) -> nat
    decreases s.len(),
{
    if s.len() == 0 {
        0
    } else {
        10 * digits_value(s.drop_last()) + digit_value(s.last())
    }
}

/// The text without a leading `+`.
pub open spec fn unsigned_part(text: Seq<char>) -> Seq<char> {
    if text.len() > 0 && text[0] == '+' {
        text.skip(1)
    } else {
        text
    }
}

/// The count that a text writes, if it writes one.
pub open spec fn count_value(text: Seq<char>) -> Option<u32> {
    let digits = unsigned_part(text);
    if digits.len() > 0 && all_digits(digits) && digits_value(digits) <= u32::MAX {
        Some(digits_value(digits) as u32)
    } else {
        None
    }
}

/// The shortest decimal text of a number.
pub open spec fn count_text(n: nat) -> Seq<char>
    decreases n,
{
    if n < 10 {
        seq![digit_char(n)]
    } else {
        count_text(n / 10).push(digit_char(n % 10))
    }
}

proof fn lemma_digits_value_prefix(s: Seq<char>, k: int)
    requires
        0 <= k <= s.len(),
    ensures
        digits_value(s.take(k)) <= digits_value(s),
    decreases s.len(),
{
    if k == s.len() {
        assert(s.take(k) =~= s);
    } else {
        assert(s.drop_last().take(k) =~= s.take(k));
        lemma_digits_value_prefix(s.drop_last(), k);
    }
}

proof fn lemma_count_is_ascii(text: Seq<char>)
    requires
        count_value(text) is Some,
    ensures
        is_ascii_chars(text),
{
    let digits = unsigned_part(text);
    assert forall|i: int| 0 <= i < text.len() implies '\0' <= #[trigger] text[i] <= '\u{7f}' by {
        if text[0] == '+' {
            if i > 0 {
                assert(is_digit(digits[i - 1]));
            }
        } else {
            assert(is_digit(digits[i]));
        }
    }
}

/// Reads a count. Text that is empty, holds anything but digits after an
/// optional `+`, or writes a number above `u32::MAX` gives `None`.
pub fn parse_count(text: &str) -> (r: Option<u32>)
    ensures
        r == count_value(text@),
{
    broadcast use is_ascii_spec_bytes;

    if !text.is_ascii() {
        proof {
            if count_value(text@) is Some {
                lemma_count_is_ascii(text@);
            }
        }
        return None;
    }
    proof {
        is_ascii_spec_bytes(text);
    }
    let n: usize = text.as_bytes().len();
    let start: usize = if n > 0 && text.get_ascii(0) == PLUS {
        1
    } else {
        0
    };
    let ghost digits = unsigned_part(text@);
    assert(digits =~= text@.skip(start as int));
    if start == n {
        return None;
    }
    let mut acc: u64 = 0;
    let mut i: usize = start;
    assert(digits.take(0) =~= Seq::<char>::empty());
    while i < n
        invariant
            start <= i <= n,
            text.is_ascii(),
            n == text@.len(),
            digits == text@.skip(start as int),
            digits == unsigned_part(text@),
            all_digits(digits.take(i - start)),
            acc == digits_value(digits.take(i - start)),
            acc <= u32::MAX,
        decreases n - i,
    {
        let b: u8 = text.get_ascii(i);
        let ghost k = i - start;
        assert(digits[k] == text@[i as int]);
        if !is_digit_byte(b) {
            assert(!is_digit(digits[k]));
            return None;
        }
        assert(is_digit(digits[k]));
        let d: u64 = (b - DIGIT_0) as u64;
        assert(d == digit_value(digits[k]));
        proof {
            let next = digits.take(k + 1);
            assert(next.drop_last() =~= digits.take(k));
            assert(next.last() == digits[k]);
            assert forall|j: int| 0 <= j < next.len() implies is_digit(#[trigger] next[j]) by {
                if j < k {
                    assert(is_digit(digits.take(k)[j]));
                }
            }
        }
        acc = acc * 10 + d;
        if acc > u32::MAX as u64 {
            proof {
                lemma_digits_value_prefix(digits, k + 1);
            }
            return None;
        }
        i += 1;
    }
    assert(digits.take(i - start) =~= digits);
    Some(acc as u32)
}

fn digit_str(d: u32) -> (s: &'static str)
    requires
        d < 10,
    ensures
        s@ == seq![digit_char(d as nat)],
{
    proof {
        reveal_strlit("0");
        reveal_strlit("1");
        reveal_strlit("2");
        reveal_strlit("3");
        reveal_strlit("4");
        reveal_strlit("5");
        reveal_strlit("6");
        reveal_strlit("7");
        reveal_strlit("8");
        reveal_strlit("9");
    }
    let s: &'static str = if d == 0 {
        "0"
    } else if d == 1 {
        "1"
    } else if d == 2 {
        "2"
    } else if d == 3 {
        "3"
    } else if d == 4 {
        "4"
    } else if d == 5 {
        "5"
    } else if d == 6 {
        "6"
    } else if d == 7 {
        "7"
    } else if d == 8 {
        "8"
    } else {
        "9"
    };
    assert(s@ =~= seq![digit_char(d as nat)]);
    s
}

/// Writes a count as its shortest decimal text.
pub fn format_count(n: u32) -> (s: String)
    ensures
        s@ == count_text(n as nat),
    decreases n,
{
    if n < 10 {
        String::from_str(digit_str(n))
    } else {
        let mut s = format_count(n / 10);
        s.append(digit_str(n % 10));
        s
    }
}

proof fn lemma_count_text_digits(n: nat)
    ensures
        count_text(n).len() > 0,
        all_digits(count_text(n)),
        digits_value(count_text(n)) == n,
    decreases n,
{
    if n < 10 {
        let s = count_text(n);
        assert(s.drop_last() =~= Seq::<char>::empty());
        assert(digits_value(s.drop_last()) == 0);
        assert(s.last() == digit_char(n));
    } else {
        lemma_count_text_digits(n / 10);
        let head = count_text(n / 10);
        let s = count_text(n);
        assert(s.drop_last() =~= head);
        assert(s.last() == digit_char(n % 10));
        assert forall|i: int| 0 <= i < s.len() implies is_digit(#[trigger] s[i]) by {
            if i < head.len() {
                assert(is_digit(head[i]));
            }
        }
    }
}

/// Reading the text written for a count gives the count back.
pub proof fn law_count_round_trip(n: u32)
    ensures
        count_value(count_text(n as nat)) == Some(n),
        count_text(n as nat).len() > 0,
{
    lemma_count_text_digits(n as nat);
    let s = count_text(n as nat);
    assert(is_digit(s[0]));
    assert(unsigned_part(s) == s);
}

} // verus!
