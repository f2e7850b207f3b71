use vstd::prelude::*;

use crate::limiter::RateLimiter;

verus! {

/// Remaining permits in the short window.
pub const HEADER_SECONDLY_REMAINING: &'static str = "x-secondly-ratelimit-remaining";

/// Remaining permits in the long window.
pub const HEADER_HOURLY_REMAINING: &'static str = "x-hourly-ratelimit-remaining";

/// Seconds to wait before the next request.
pub const HEADER_RETRY_AFTER: &'static str = "retry-after";

/// Size of the collection being paginated.
pub const HEADER_TOTAL: &'static str = "x-total";

pub open spec fn is_digit(c: char) -> bool {
    '0' <= c && c <= '9'
}

pub open spec fn digit_value(c: char) -> int {
    (c as int) - ('0' as int)
}

pub open spec fn all_digits(s: Seq<char>) -> bool {
    forall|i: int| 0 <= i < s.len() ==> is_digit(#[trigger] s[i])
}

/// The number that a string of decimal digits denotes.
pub open spec fn decimal_value(s: Seq<char>) -> int
    decreases s.len(),
{
    if s.len() == 0 {
        0
    } else {
        decimal_value(s.drop_last()) * 10 + digit_value(s.last())
    }
}

/// The digits of an unsigned decimal literal: the text after one optional `+`.
pub open spec fn unsigned_digits(s: Seq<char>) -> Seq<char> {
    if s.len() > 0 && s[0] == '+' {
        s.subrange(1, s.len() as int)
    } else {
        s
    }
}

/// A `u64` written in decimal, as Rust's integer parsing reads it: an optional
/// `+`, then one or more digits, with a value that fits.
pub open spec fn parsed_u64(s: Seq<char>) -> Option<u64> {
    let d = unsigned_digits(s);
    if d.len() > 0 && all_digits(d) && decimal_value(d) <= u64::MAX {
        Some(decimal_value(d) as u64)
    } else {
        None
    }
}

proof fn lemma_decimal_value_nonneg(s: Seq<char>)
    requires
        all_digits(s),
    ensures
        decimal_value(s) >= 0,
    decreases s.len(),
{
    if s.len() > 0 {
        assert(all_digits(s.drop_last())) by {
            assert forall|i: int| 0 <= i < s.drop_last().len() implies is_digit(
                #[trigger] s.drop_last()[i],
            ) by {
                assert(s.drop_last()[i] == s[i]);
            }
        }
        lemma_decimal_value_nonneg(s.drop_last());
        assert(is_digit(s[s.len() - 1]));
    }
}

/// A longer digit string denotes at least as much as any of its prefixes.
proof fn lemma_decimal_value_prefix(s: Seq<char>, i: int)
    requires
        all_digits(s),
        0 <= i <= s.len(),
    ensures
        decimal_value(s.subrange(0, i)) <= decimal_value(s),
    decreases s.len() - i,
{
    if i < s.len() {
        let t = s.subrange(0, i + 1);
        assert(all_digits(t)) by {
            assert forall|j: int| 0 <= j < t.len() implies is_digit(#[trigger] t[j]) by {
                assert(t[j] == s[j]);
            }
        }
        assert(t.drop_last() =~= s.subrange(0, i));
        assert(is_digit(t[i]));
        assert(all_digits(s.subrange(0, i))) by {
            assert forall|j: int| 0 <= j < i implies is_digit(#[trigger] s.subrange(0, i)[j]) by {
                assert(s.subrange(0, i)[j] == s[j]);
            }
        }
        lemma_decimal_value_nonneg(s.subrange(0, i));
        lemma_decimal_value_prefix(s, i + 1);
    } else {
        assert(s.subrange(0, i) =~= s);
    }
}

/// Reads a `u64` written in decimal; `None` for anything else, an overflow included.
pub fn parse_u64(s: &str) -> (r: Option<u64>)
    ensures
        r == parsed_u64(s@),
{
    let n = s.unicode_len();
    let mut start: usize = 0;
    if n > 0 && s.get_char(0) == '+' {
        start = 1;
    }
    let ghost d = unsigned_digits(s@);
    assert(d =~= s@.subrange(start as int, n as int));
    if start == n {
        return None;
    }
    let mut value: u64 = 0;
    let mut i: usize = start;
    while i < n
        invariant
            start <= i <= n,
            n == s@.len(),
            d == unsigned_digits(s@),
            d =~= s@.subrange(start as int, n as int),
            all_digits(d.subrange(0, i - start)),
            value as int == decimal_value(d.subrange(0, i - start)),
        decreases n - i,
    {
        let c = s.get_char(i);
        if !('0' <= c && c <= '9') {
            assert(d[i - start] == c);
            assert(!is_digit(d[i - start]));
            return None;
        }
        let ghost prefix = d.subrange(0, i - start);
        let ghost next = d.subrange(0, i + 1 - start);
        assert(next.drop_last() =~= prefix);
        assert(next.last() == c);
        assert(all_digits(next)) by {
            assert forall|j: int| 0 <= j < next.len() implies is_digit(#[trigger] next[j]) by {
                if j < prefix.len() {
                    assert(next[j] == prefix[j]);
                }
            }
        }
        let digit = (c as u32 - '0' as u32) as u64;
        assert(digit as int == digit_value(c));
        assert(decimal_value(next) == value * 10 + digit_value(c));
        let shifted = match value.checked_mul(10) {
            Some(v) => v,
            None => {
                proof {
                    lemma_tail_blocks(d, i + 1 - start);
                }
                return None;
            },
        };
        value = match shifted.checked_add(digit) {
            Some(v) => v,
            None => {
                proof {
                    lemma_tail_blocks(d, i + 1 - start);
                }
                return None;
            },
        };
        i = i + 1;
    }
    assert(d.subrange(0, n - start) =~= d);
    Some(value)
}

/// Once a prefix of digits overflows, the whole string cannot parse: either a
/// later character is not a digit, or the whole value is larger still.
proof fn lemma_tail_blocks(d: Seq<char>, k: int)
    requires
        0 < k <= d.len(),
        all_digits(d.subrange(0, k)),
        decimal_value(d.subrange(0, k)) > u64::MAX,
    ensures
        !(d.len() > 0 && all_digits(d) && decimal_value(d) <= u64::MAX),
{
    if all_digits(d) {
        lemma_decimal_value_prefix(d, k);
    }
}

/// One response header: its lower-case name and its value, or `None` when the
/// value is not visible ASCII text.
#[derive(Debug)]
pub struct HeaderField {
    pub name: String,
    pub value: Option<String>,
}

/// A response's headers, in the order the response lists them.
#[derive(Debug)]
pub struct HeaderFields {
    pub fields: Vec<HeaderField>,
}

pub open spec fn value_view(v: Option<String>) -> Option<Seq<char>> {
    match v {
        Some(s) => Some(s@),
        None => None,
    }
}

/// The value of the first field named `name`, if there is such a field.
pub open spec fn first_value(fields: Seq<HeaderField>, name: Seq<char>) -> Option<Option<Seq<char>>>
    decreases fields.len(),
{
    if fields.len() == 0 {
        None
    } else if fields[0].name@ == name {
        Some(value_view(fields[0].value))
    } else {
        first_value(fields.subrange(1, fields.len() as int), name)
    }
}

/// The integer that the first field named `name` carries; `None` when that
/// field is missing or its value is not a `u64` in decimal.
pub open spec fn header_u64(fields: Seq<HeaderField>, name: Seq<char>) -> Option<u64> {
    match first_value(fields, name) {
        Some(Some(v)) => parsed_u64(v),
        _ => None,
    }
}

impl HeaderFields {
    pub fn new() -> (r: HeaderFields)
        ensures
            r.fields@.len() == 0,
    {
        HeaderFields { fields: Vec::new() }
    }

    /// Appends a field after those already present.
    pub fn push(&mut self, name: String, value: Option<String>)
        ensures
            final(self).fields@ == old(self).fields@.push(HeaderField { name, value }),
    {
        self.fields.push(HeaderField { name, value });
    }

    /// The integer carried by the first field named `name`.
    pub fn get_u64(&self, name: &str) -> (r: Option<u64>)
        ensures
            r == header_u64(self.fields@, name@),
    {
        let key = String::from_str(name);
        let n = self.fields.len();
        let mut i: usize = 0;
        assert(self.fields@.subrange(0, n as int) =~= self.fields@);
        while i < n
            invariant
                i <= n,
                n == self.fields@.len(),
                key@ == name@,
                first_value(self.fields@, name@) == first_value(
                    self.fields@.subrange(i as int, n as int),
                    name@,
                ),
            decreases n - i,
        {
            let ghost rest = self.fields@.subrange(i as int, n as int);
            assert(rest.subrange(1, rest.len() as int) =~= self.fields@.subrange(
                i + 1,
                n as int,
            ));
            assert(rest[0] == self.fields@[i as int]);
            let field = &self.fields[i];
            if field.name == key {
                return match &field.value {
                    Some(v) => parse_u64(v.as_str()),
                    None => None,
                };
            }
            i = i + 1;
        }
        None
    }
}

/// The signals one response carries for the limiter and the scroll.
#[derive(Clone, Copy, Debug, PartialEq, Eq, Structural)]
pub struct ResponseMetadata {
    pub quota_seconds_remaining: Option<u64>,
    pub quota_hours_remaining: Option<u64>,
    pub retry_after_seconds: Option<u64>,
    pub total_count: Option<u64>,
}

impl ResponseMetadata {
    pub open spec fn of(fields: Seq<HeaderField>) -> ResponseMetadata {
        ResponseMetadata {
            quota_seconds_remaining: header_u64(fields, HEADER_SECONDLY_REMAINING@),
            quota_hours_remaining: header_u64(fields, HEADER_HOURLY_REMAINING@),
            retry_after_seconds: header_u64(fields, HEADER_RETRY_AFTER@),
            total_count: header_u64(fields, HEADER_TOTAL@),
        }
    }

    /// Reads the four signals; a missing or unreadable header gives `None`.
    pub fn from_headers(headers: &HeaderFields) -> (r: ResponseMetadata)
        ensures
            r == ResponseMetadata::of(headers.fields@),
    {
        ResponseMetadata {
            quota_seconds_remaining: headers.get_u64(HEADER_SECONDLY_REMAINING),
            quota_hours_remaining: headers.get_u64(HEADER_HOURLY_REMAINING),
            retry_after_seconds: headers.get_u64(HEADER_RETRY_AFTER),
            total_count: headers.get_u64(HEADER_TOTAL),
        }
    }
}

} // verus!
