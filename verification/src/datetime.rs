//! Date-times with an explicit offset from UTC. A date-time is kept as the
//! text that wrote it together with the instant and the offset it denotes.

use vstd::prelude::*;
use vstd::string::*;
use vstd::utf8::is_ascii_chars;
use crate::count::{is_digit, is_digit_byte};
use crate::decimal::is_sign;
use crate::text::{COLON, LOWER_Z, MINUS, PLUS, UPPER_Z};

verus! {

/// What chrono reads from an RFC 3339 text: seconds since the Unix epoch,
/// nanoseconds within the second, and the offset east of UTC in seconds; or
/// `None` where chrono refuses the text.
pub uninterp spec fn rfc3339_instant(text: Seq<char>) -> Option<(i64, u32, i32)>;

/// Whether the text ends in `Z` or in a numeric offset `±hh:mm`.
pub open spec fn ends_with_offset(text: Seq<char>) -> bool {
    let n = text.len() as int;
    ||| n >= 1 && (text[n - 1] == 'Z' || text[n - 1] == 'z')
    ||| {
        &&& n >= 6
        &&& is_sign(text[n - 6])
        &&& is_digit(text[n - 5])
        &&& is_digit(text[n - 4])
        &&& text[n - 3] == ':'
        &&& is_digit(text[n - 2])
        &&& is_digit(text[n - 1])
    }
}

/// Whether the text is ASCII and states its offset from UTC.
pub open spec fn has_explicit_offset(text: Seq<char>) -> bool {
    is_ascii_chars(text) && ends_with_offset(text)
}

/// The instant and offset that a text denotes, if it is a date-time with an
/// explicit offset.
pub open spec fn date_time_value(text: Seq<char>) -> Option<(i64, u32, i32)> {
    if has_explicit_offset(text) {
        rfc3339_instant(text)
    } else {
        None
    }
}

/// Trusted: calls `chrono::DateTime::parse_from_rfc3339` and hands out what
/// `timestamp`, `timestamp_subsec_nanos` and the offset's `local_minus_utc`
/// give for the result. The contract only names that outcome; it depends on
/// the text alone.
#[verifier::external_body]
fn parse_rfc3339(text: &str) -> (r: Option<(i64, u32, i32)>)
    ensures
        r == rfc3339_instant(text@),
{
    match chrono::DateTime::parse_from_rfc3339(text) {
        Ok(t) => Some((t.timestamp(), t.timestamp_subsec_nanos(), t.offset().local_minus_utc())),
        Err(_) => None,
    }
}

/// Whether a text is ASCII and ends in `Z` or `±hh:mm`.
pub fn states_offset(text: &str) -> (r: bool)
    ensures
        r == has_explicit_offset(text@),
{
    if !text.is_ascii() {
        return false;
    }
    proof {
        is_ascii_spec_bytes(text);
    }
    let n: usize = text.as_bytes().len();
    if n >= 1 && (text.get_ascii(n - 1) == UPPER_Z || text.get_ascii(n - 1) == LOWER_Z) {
        return true;
    }
    if n < 6 {
        return false;
    }
    let sign: u8 = text.get_ascii(n - 6);
    let h1: u8 = text.get_ascii(n - 5);
    let h2: u8 = text.get_ascii(n - 4);
    let colon: u8 = text.get_ascii(n - 3);
    let m1: u8 = text.get_ascii(n - 2);
    let m2: u8 = text.get_ascii(n - 1);
    (sign == PLUS || sign == MINUS) && is_digit_byte(h1) && is_digit_byte(h2) && colon == COLON
        && is_digit_byte(m1) && is_digit_byte(m2)
}

/// A date-time with its offset from UTC.
#[derive(Debug, PartialEq, Eq)]
pub struct DateTime {
    text: String,
    seconds: i64,
    nanos: u32,
    offset: i32,
}

/// What a `DateTime` holds.
pub ghost struct DateTimeView {
    pub text: Seq<char>,
    pub seconds: i64,
    pub nanos: u32,
    pub offset: i32,
}

impl DateTimeView {
    /// The instant and offset are those that the text denotes.
    pub open spec fn wf(self) -> bool {
        date_time_value(self.text) == Some((self.seconds, self.nanos, self.offset))
    }
}

impl View for DateTime {
    type V = DateTimeView;

    closed spec fn view(&self) -> DateTimeView {
        DateTimeView {
            text: self.text@,
            seconds: self.seconds,
            nanos: self.nanos,
            offset: self.offset,
        }
    }
}

impl Clone for DateTime {
    fn clone(&self) -> (r: Self)
        ensures
            r@ == self@,
    {
        proof {
            use_type_invariant(self);
        }
        DateTime {
            text: self.text.clone(),
            seconds: self.seconds,
            nanos: self.nanos,
            offset: self.offset,
        }
    }
}

impl DateTime {
    #[verifier::type_invariant]
    spec fn denotes_its_text(self) -> bool {
        date_time_value(self.text@) == Some((self.seconds, self.nanos, self.offset))
    }

    /// Reads a date-time. The text must state its offset (`Z` or `±hh:mm`)
    /// and be one that chrono takes as RFC 3339; otherwise `None`.
    pub fn parse(text: &str) -> (r: Option<DateTime>)
        ensures
            r is Some <==> date_time_value(text@) is Some,
            r matches Some(t) ==> t@.text == text@ && t@.wf(),
    {
        if !states_offset(text) {
            return None;
        }
        match parse_rfc3339(text) {
            Some((seconds, nanos, offset)) => Some(
                DateTime { text: String::from_str(text), seconds, nanos, offset },
            ),
            None => None,
        }
    }

    /// The text of the date-time, which denotes its instant and offset.
    pub fn as_str(&self) -> (s: &str)
        ensures
            s@ == self@.text,
            self@.wf(),
    {
        proof {
            use_type_invariant(self);
        }
        self.text.as_str()
    }

    /// Seconds since 1970-01-01T00:00:00Z, leap seconds not counted.
    pub fn timestamp(&self) -> (s: i64)
        ensures
            s == self@.seconds,
    {
        self.seconds
    }

    /// Nanoseconds within the second.
    pub fn subsec_nanos(&self) -> (n: u32)
        ensures
            n == self@.nanos,
    {
        self.nanos
    }

    /// The offset east of UTC, in seconds.
    pub fn offset_seconds(&self) -> (o: i32)
        ensures
            o == self@.offset,
    {
        self.offset
    }
}

/// A text that does not state its offset denotes no date-time.
pub proof fn law_offset_required(text: Seq<char>)
    requires
        !ends_with_offset(text),
    ensures
        date_time_value(text) is None,
{
}

} // verus!
