//! Parsing of the sound-server control utility's output and the choice of
//! on-screen-display content.
//!
//! The utility prints the sink volume as whitespace-separated tokens, one of
//! which is a percentage such as `60%`, and the mute state as a line holding
//! `yes` or `no`. The engine reads both from raw bytes; the calls that
//! produce them stay outside the library.

use vstd::prelude::*;

verus! {

/// ASCII space.
pub const BYTE_SPACE: u8 = 32;

/// ASCII horizontal tab.
pub const BYTE_TAB: u8 = 9;

/// ASCII line feed.
pub const BYTE_LF: u8 = 10;

/// ASCII vertical tab.
pub const BYTE_VT: u8 = 11;

/// ASCII form feed.
pub const BYTE_FF: u8 = 12;

/// ASCII carriage return.
pub const BYTE_CR: u8 = 13;

/// ASCII percent sign.
pub const BYTE_PERCENT: u8 = 37;

/// ASCII plus sign.
pub const BYTE_PLUS: u8 = 43;

/// ASCII digit zero.
pub const BYTE_ZERO: u8 = 48;

/// ASCII digit nine.
pub const BYTE_NINE: u8 = 57;

/// The byte is ASCII whitespace (a token separator).
pub open spec fn spec_is_space(b: u8) -> bool {
    b == BYTE_SPACE || b == BYTE_TAB || b == BYTE_LF || b == BYTE_VT || b == BYTE_FF || b
        == BYTE_CR
}

/// The byte is an ASCII decimal digit.
pub open spec fn spec_is_digit(b: u8) -> bool {
    BYTE_ZERO <= b <= BYTE_NINE
}

/// Every byte of `s` is an ASCII decimal digit.
pub open spec fn spec_all_digits(s: Seq<u8>) -> bool {
    forall|i: int| 0 <= i < s.len() ==> spec_is_digit(s[i])
}

/// The number the digit string `s` denotes, most significant digit first.
pub open spec fn spec_digits_value(s: Seq<u8>) -> int
    decreases s.len(),
{
    if s.len() == 0 {
        0
    } else {
        spec_digits_value(s.drop_last()) * 10 + (s.last() - BYTE_ZERO)
    }
}

/// The token with an optional leading plus sign stripped, as the standard
/// integer parser accepts one.
pub open spec fn spec_digit_part(t: Seq<u8>) -> Seq<u8> {
    if t.len() > 0 && t[0] == BYTE_PLUS {
        t.skip(1)
    } else {
        t
    }
}

/// The percentage a single token denotes: it must end in a percent sign
/// and the rest must be a non-empty digit string (after an optional plus
/// sign) whose value fits the byte range. Anything else denotes nothing.
pub open spec fn spec_token_percent_value(t: Seq<u8>) -> Option<u8> {
    if t.len() >= 1 && t.last() == BYTE_PERCENT {
        let num = spec_digit_part(t.drop_last());
        if num.len() > 0 && spec_all_digits(num) && spec_digits_value(num) <= 255 {
            Some(spec_digits_value(num) as u8)
        } else {
            None
        }
    } else {
        None
    }
}

/// The position right after the token starting at `i`: the first position
/// at or past `i` holding whitespace, or the end of the text.
pub open spec fn spec_token_end(s: Seq<u8>, i: int) -> int
    decreases s.len() - i,
{
    if i < 0 || i >= s.len() || spec_is_space(s[i]) {
        i
    } else {
        spec_token_end(s, i + 1)
    }
}

/// A token's end lies between its start and the end of the text.
pub proof fn lemma_token_end_bounds(s: Seq<u8>, i: int)
    requires
        0 <= i <= s.len(),
    ensures
        i <= spec_token_end(s, i) <= s.len(),
    decreases s.len() - i,
{
    if i < s.len() && !spec_is_space(s[i]) {
        lemma_token_end_bounds(s, i + 1);
    }
}

/// A stretch of non-whitespace from `i` to `e`, ended by whitespace or the
/// end of the text, is exactly the token starting at `i`.
pub proof fn lemma_token_end_is(s: Seq<u8>, i: int, e: int)
    requires
        0 <= i <= e <= s.len(),
        forall|j: int| i <= j < e ==> !spec_is_space(s[j]),
        e == s.len() || spec_is_space(s[e]),
    ensures
        spec_token_end(s, i) == e,
    decreases e - i,
{
    if i < e {
        lemma_token_end_is(s, i + 1, e);
    }
}

/// The first percentage token at or after position `i`: whitespace is
/// skipped, and each token either denotes a percentage or is passed over.
pub open spec fn spec_first_percentage_from(s: Seq<u8>, i: int) -> Option<u8>
    decreases s.len() - i,
    via spec_first_percentage_from_decreases
{
    if i < 0 || i >= s.len() {
        None
    } else if spec_is_space(s[i]) {
        spec_first_percentage_from(s, i + 1)
    } else {
        match spec_token_percent_value(s.subrange(i, spec_token_end(s, i))) {
            Some(v) => Some(v),
            None => spec_first_percentage_from(s, spec_token_end(s, i)),
        }
    }
}

#[via_fn]
proof fn spec_first_percentage_from_decreases(s: Seq<u8>, i: int) {
    if 0 <= i < s.len() && !spec_is_space(s[i]) {
        lemma_token_end_bounds(s, i + 1);
    }
}

/// The percentage the first percentage-shaped token of `s` denotes, if any
/// token of `s` is one.
pub open spec fn spec_first_percentage(s: Seq<u8>) -> Option<u8> {
    spec_first_percentage_from(s, 0)
}

/// A digit string denotes a non-negative number.
proof fn lemma_digits_value_nonneg(s: Seq<u8>)
    requires
        spec_all_digits(s),
    ensures
        spec_digits_value(s) >= 0,
    decreases s.len(),
{
    if s.len() > 0 {
        assert(spec_all_digits(s.drop_last()));
        lemma_digits_value_nonneg(s.drop_last());
    }
}

/// Extending a digit string never shrinks its value: the value of a prefix
/// is a lower bound.
proof fn lemma_digits_value_prefix(s: Seq<u8>, j: int)
    requires
        spec_all_digits(s),
        0 <= j <= s.len(),
    ensures
        spec_digits_value(s) >= spec_digits_value(s.take(j)),
    decreases s.len() - j,
{
    if j == s.len() {
        assert(s.take(j) =~= s);
    } else {
        lemma_digits_value_prefix(s, j + 1);
        assert(s.take(j + 1).drop_last() =~= s.take(j));
        assert(spec_all_digits(s.take(j)));
        lemma_digits_value_nonneg(s.take(j));
        assert(spec_digits_value(s.take(j + 1)) == spec_digits_value(s.take(j)) * 10 + (s[j]
            - BYTE_ZERO));
    }
}

/// Whether `b` is ASCII whitespace.
fn is_space(b: u8) -> (r: bool)
    ensures
        r == spec_is_space(b),
{
    b == BYTE_SPACE || b == BYTE_TAB || b == BYTE_LF || b == BYTE_VT || b == BYTE_FF || b
        == BYTE_CR
}

/// Reads the digit string `text[start..end]` as a number, `None` if it is
/// empty, holds a non-digit, or exceeds the byte range.
fn parse_percent_digits(text: &Vec<u8>, start: usize, end: usize) -> (r: Option<u8>)
    requires
        start <= end <= text@.len(),
    ensures
        (start < end && spec_all_digits(text@.subrange(start as int, end as int))
            && spec_digits_value(text@.subrange(start as int, end as int)) <= 255) ==> r == Some(
            spec_digits_value(text@.subrange(start as int, end as int)) as u8,
        ),
        !(start < end && spec_all_digits(text@.subrange(start as int, end as int))
            && spec_digits_value(text@.subrange(start as int, end as int)) <= 255) ==> r is None,
{
    let ghost num = text@.subrange(start as int, end as int);
    if start == end {
        return None;
    }
    let mut value: u32 = 0;
    let mut j = start;
    while j < end
        invariant
            start <= j <= end <= text@.len(),
            num == text@.subrange(start as int, end as int),
            spec_all_digits(num.take(j - start)),
            value == spec_digits_value(num.take(j - start)),
            value <= 255,
        decreases end - j,
    {
        let b = text[j];
        proof {
            assert(num[j - start] == b);
        }
        if b < BYTE_ZERO || b > BYTE_NINE {
            proof {
                assert(!spec_is_digit(num[j - start]));
            }
            return None;
        }
        let digit = (b - BYTE_ZERO) as u32;
        let next = value * 10 + digit;
        proof {
            assert(num.take(j - start + 1).drop_last() =~= num.take(j - start));
            assert(spec_digits_value(num.take(j - start + 1)) == next);
        }
        if next > 255 {
            proof {
                if spec_all_digits(num) {
                    lemma_digits_value_prefix(num, j - start + 1);
                }
            }
            return None;
        }
        value = next;
        j = j + 1;
    }
    proof {
        assert(num.take(end - start) =~= num);
    }
    Some(value as u8)
}

/// Finds the first whitespace-separated token that names a percentage (as
/// the sink-volume report prints one) and returns its value.
pub fn first_percentage(text: &Vec<u8>) -> (r: Option<u8>)
    ensures
        r == spec_first_percentage(text@),
{
    let n = text.len();
    let mut i: usize = 0;
    while i < n
        invariant
            i <= n,
            n == text@.len(),
            spec_first_percentage(text@) == spec_first_percentage_from(text@, i as int),
        decreases n - i,
    {
        if is_space(text[i]) {
            i = i + 1;
        } else {
            let mut e = i;
            while e < n && !is_space(text[e])
                invariant
                    i <= e <= n,
                    n == text@.len(),
                    forall|j: int| i <= j < e ==> !spec_is_space(text@[j]),
                decreases n - e,
            {
                e = e + 1;
            }
            proof {
                lemma_token_end_is(text@, i as int, e as int);
            }
            let ghost token = text@.subrange(i as int, e as int);
            let value = if text[e - 1] == BYTE_PERCENT {
                let start = if text[i] == BYTE_PLUS {
                    i + 1
                } else {
                    i
                };
                proof {
                    assert(token.last() == BYTE_PERCENT);
                    assert(spec_digit_part(token.drop_last()) =~= text@.subrange(
                        start as int,
                        e - 1,
                    )) by {
                        assert(token.drop_last() =~= text@.subrange(i as int, e - 1));
                    }
                }
                parse_percent_digits(text, start, e - 1)
            } else {
                proof {
                    assert(token.last() != BYTE_PERCENT);
                }
                None
            };
            match value {
                Some(v) => {
                    return Some(v);
                },
                None => {
                    i = e;
                },
            }
        }
    }
    None
}

/// Whether `text` holds `yes` as a contiguous byte run.
pub open spec fn spec_contains_yes(s: Seq<u8>) -> bool {
    exists|i: int|
        0 <= i && i + 3 <= s.len() && #[trigger] s[i] == 121 && s[i + 1] == 101 && s[i + 2] == 115
}

/// Whether `text` holds `no` as a contiguous byte run.
pub open spec fn spec_contains_no(s: Seq<u8>) -> bool {
    exists|i: int| 0 <= i && i + 2 <= s.len() && #[trigger] s[i] == 110 && s[i + 1] == 111
}

/// The mute state the sink-mute report denotes: muted if it says `yes`,
/// unmuted if it says `no`, unknown otherwise.
pub open spec fn spec_mute_state(s: Seq<u8>) -> Option<bool> {
    if spec_contains_yes(s) {
        Some(true)
    } else if spec_contains_no(s) {
        Some(false)
    } else {
        None
    }
}

/// Reads the sink-mute report: `yes` anywhere means muted, otherwise `no`
/// anywhere means unmuted, otherwise the state is unknown.
pub fn parse_mute_state(text: &Vec<u8>) -> (r: Option<bool>)
    ensures
        r == spec_mute_state(text@),
{
    if contains_yes(text) {
        Some(true)
    } else if contains_no(text) {
        Some(false)
    } else {
        None
    }
}

/// Whether the bytes of `yes` occur contiguously in `text`.
fn contains_yes(text: &Vec<u8>) -> (r: bool)
    ensures
        r == spec_contains_yes(text@),
{
    let n = text.len();
    if n < 3 {
        return false;
    }
    let mut i: usize = 0;
    while i <= n - 3
        invariant
            3 <= n == text@.len(),
            i <= n - 2,
            forall|j: int|
                0 <= j < i ==> !(#[trigger] text@[j] == 121 && text@[j + 1] == 101 && text@[j
                    + 2] == 115),
        decreases text@.len() - i,
    {
        if text[i] == 121 && text[i + 1] == 101 && text[i + 2] == 115 {
            return true;
        }
        i = i + 1;
    }
    false
}

/// Whether the bytes of `no` occur contiguously in `text`.
fn contains_no(text: &Vec<u8>) -> (r: bool)
    ensures
        r == spec_contains_no(text@),
{
    let n = text.len();
    if n < 2 {
        return false;
    }
    let mut i: usize = 0;
    while i <= n - 2
        invariant
            2 <= n == text@.len(),
            i <= n - 1,
            forall|j: int|
                0 <= j < i ==> !(#[trigger] text@[j] == 110 && text@[j + 1] == 111),
        decreases text@.len() - i,
    {
        if text[i] == 110 && text[i + 1] == 111 {
            return true;
        }
        i = i + 1;
    }
    false
}

/// What the transient volume notification shows beside its gauge.
#[derive(Clone, Copy, Debug, PartialEq, Eq, Structural)]
pub enum OsdBody {
    /// The sink is muted.
    Muted,
    /// The sink plays at this percentage.
    Percent(u8),
    /// The sink is unmuted but its volume is unknown.
    Active,
    /// Neither mute state nor volume is known.
    Changed,
}

/// The notification body for a mute state and a volume reading.
pub open spec fn spec_osd_body(volume: Option<u8>, muted: Option<bool>) -> OsdBody {
    match muted {
        Some(true) => OsdBody::Muted,
        Some(false) => match volume {
            Some(v) => OsdBody::Percent(v),
            None => OsdBody::Active,
        },
        None => match volume {
            Some(v) => OsdBody::Percent(v),
            None => OsdBody::Changed,
        },
    }
}

/// Chooses the volume notification's body: a mute notice wins, then a known
/// percentage, then a bare state notice.
pub fn osd_body(volume: Option<u8>, muted: Option<bool>) -> (r: OsdBody)
    ensures
        r == spec_osd_body(volume, muted),
{
    match muted {
        Some(true) => OsdBody::Muted,
        Some(false) => match volume {
            Some(v) => OsdBody::Percent(v),
            None => OsdBody::Active,
        },
        None => match volume {
            Some(v) => OsdBody::Percent(v),
            None => OsdBody::Changed,
        },
    }
}

/// After a volume command the volume is only queried (and shown) while the
/// sink is not known to be muted; a muted sink's notification shows no
/// gauge.
pub fn volume_query_needed(muted: Option<bool>) -> (r: bool)
    ensures
        r == (muted != Some(true)),
{
    match muted {
        Some(true) => false,
        _ => true,
    }
}

} // verus!
