//! Validation grammar for the raw text a user types into a field.
//!
//! A count field (split interval, distance) accepts what Rust's unsigned
//! integer grammar accepts: an optional leading `+` followed by one or more
//! ASCII digits, with the value required to fit the target type.  A pace
//! field accepts `mm:ss`: exactly one colon, each side an unsigned integer,
//! stored as `mm * 60 + ss` whole seconds.  A pace whose total seconds would
//! not fit the stored width is rejected as invalid seconds.

use vstd::prelude::*;

verus! {

/// A code point with the Unicode `White_Space` property, the set `str::trim`
/// removes.
pub open spec fn is_space_char(c: char) -> bool {
    let u = c as u32;
    (0x09 <= u && u <= 0x0D) || u == 0x20 || u == 0x85 || u == 0xA0 || u == 0x1680 || (0x2000 <= u
        && u <= 0x200A) || u == 0x2028 || u == 0x2029 || u == 0x202F || u == 0x205F || u == 0x3000
}

/// Input that trims to the empty string: every character is whitespace.
pub open spec fn spec_is_blank(s: Seq<char>) -> bool {
    forall|i: int| 0 <= i < s.len() ==> is_space_char(#[trigger] s[i])
}

fn is_space(c: char) -> (r: bool)
    ensures
        r == is_space_char(c),
{
    let u = c as u32;
    (0x09 <= u && u <= 0x0D) || u == 0x20 || u == 0x85 || u == 0xA0 || u == 0x1680 || (0x2000 <= u
        && u <= 0x200A) || u == 0x2028 || u == 0x2029 || u == 0x202F || u == 0x205F || u == 0x3000
}

/// Whether the input consists of whitespace alone (or is empty); such an
/// edit resets the field instead of being parsed.
pub fn is_blank(s: &str) -> (r: bool)
    ensures
        r == spec_is_blank(s@),
{
    let n = s.unicode_len();
    let mut i: usize = 0;
    while i < n
        invariant
            n == s@.len(),
            i <= n,
            forall|k: int| 0 <= k < i ==> is_space_char(#[trigger] s@[k]),
        decreases n - i,
    {
        if !is_space(s.get_char(i)) {
            return false;
        }
        i = i + 1;
    }
    true
}

/// An ASCII decimal digit.
pub open spec fn is_digit_char(c: char) -> bool {
    0x30 <= c as u32 && c as u32 <= 0x39
}

/// The numeric value of an ASCII decimal digit.
pub open spec fn digit_value(c: char) -> int
    recommends
        is_digit_char(c),
{
    c as u32 - 0x30
}

/// Every character of the sequence is an ASCII decimal digit.
pub open spec fn all_digits(s: Seq<char>) -> bool {
    forall|i: int| 0 <= i < s.len() ==> is_digit_char(#[trigger] s[i])
}

/// The digits of an unsigned-integer literal: the input with one optional
/// leading `+` removed.
pub open spec fn digits_part(s: Seq<char>) -> Seq<char> {
    if s.len() > 0 && s[0] == '+' {
        s.drop_first()
    } else {
        s
    }
}

/// The unsigned-integer grammar: an optional leading `+`, then one or more
/// ASCII digits.
pub open spec fn is_uint_string(s: Seq<char>) -> bool {
    digits_part(s).len() > 0 && all_digits(digits_part(s))
}

/// The value of a digit string, most significant digit first.
pub open spec fn uint_value(d: Seq<char>) -> int
    recommends
        all_digits(d),
    decreases d.len(),
{
    if d.len() == 0 {
        0
    } else {
        uint_value(d.drop_last()) * 10 + digit_value(d.last())
    }
}

proof fn lemma_uint_value_nonneg(d: Seq<char>)
    requires
        all_digits(d),
    ensures
        uint_value(d) >= 0,
    decreases d.len(),
{
    if d.len() > 0 {
        assert(all_digits(d.drop_last()));
        lemma_uint_value_nonneg(d.drop_last());
    }
}

proof fn lemma_uint_value_prefix_le(d: Seq<char>, i: int)
    requires
        all_digits(d),
        0 <= i <= d.len(),
    ensures
        uint_value(d.subrange(0, i)) <= uint_value(d),
    decreases d.len(),
{
    if i == d.len() {
        assert(d.subrange(0, i) =~= d);
    } else {
        let t = d.drop_last();
        assert(all_digits(t));
        assert(d.subrange(0, i) =~= t.subrange(0, i));
        lemma_uint_value_prefix_le(t, i);
        lemma_uint_value_nonneg(t);
    }
}

/// What parsing an unsigned integer returns: the value, when the grammar
/// matches and the value is at most `bound`; nothing otherwise.
pub open spec fn spec_parse_bounded(s: Seq<char>, bound: u64) -> Option<u64> {
    if is_uint_string(s) && uint_value(digits_part(s)) <= bound {
        Some(uint_value(digits_part(s)) as u64)
    } else {
        None
    }
}

/// Parses an unsigned integer of at most `bound`, per the grammar of
/// [`is_uint_string`].  Rejects the empty string, stray characters, and any
/// value above the bound.
pub fn parse_bounded(s: &str, bound: u64) -> (r: Option<u64>)
    ensures
        r == spec_parse_bounded(s@, bound),
{
    let n = s.unicode_len();
    let mut start: usize = 0;
    if n > 0 && s.get_char(0) == '+' {
        start = 1;
    }
    proof {
        assert(digits_part(s@) =~= s@.subrange(start as int, n as int));
    }
    if start >= n {
        return None;
    }
    let mut acc: u64 = 0;
    let mut i: usize = start;
    while i < n
        invariant
            n == s@.len(),
            start <= i <= n,
            start < n,
            digits_part(s@) =~= s@.subrange(start as int, n as int),
            all_digits(s@.subrange(start as int, i as int)),
            acc as int == uint_value(s@.subrange(start as int, i as int)),
        decreases n - i,
    {
        let c = s.get_char(i);
        let u = c as u32;
        if u < 0x30 || u > 0x39 {
            proof {
                assert(!is_digit_char(digits_part(s@)[i - start]));
            }
            return None;
        }
        let d: u64 = (u - 0x30) as u64;
        proof {
            let pre = s@.subrange(start as int, i as int);
            let ext = s@.subrange(start as int, i as int + 1);
            assert(ext.drop_last() =~= pre);
            assert(ext.last() == s@[i as int]);
            assert(all_digits(ext));
        }
        let wide: u128 = (acc as u128) * 10 + (d as u128);
        if wide > u64::MAX as u128 {
            proof {
                let dp = digits_part(s@);
                let ext = s@.subrange(start as int, i as int + 1);
                if all_digits(dp) {
                    assert(ext =~= dp.subrange(0, i as int + 1 - start));
                    lemma_uint_value_prefix_le(dp, i as int + 1 - start);
                }
            }
            return None;
        }
        acc = wide as u64;
        i = i + 1;
    }
    proof {
        assert(s@.subrange(start as int, i as int) =~= digits_part(s@));
    }
    if acc <= bound {
        Some(acc)
    } else {
        None
    }
}

/// How many colons the input holds.
pub open spec fn colon_count(s: Seq<char>) -> int
    decreases s.len(),
{
    if s.len() == 0 {
        0
    } else {
        colon_count(s.drop_last()) + if s.last() == ':' {
            1int
        } else {
            0int
        }
    }
}

/// The index of the first colon, or the length when there is none.
pub open spec fn first_colon(s: Seq<char>) -> int
    decreases s.len(),
{
    if s.len() == 0 {
        0
    } else if s[0] == ':' {
        0
    } else {
        1 + first_colon(s.drop_first())
    }
}

proof fn lemma_first_colon_characterize(s: Seq<char>, j: int)
    requires
        0 <= j <= s.len(),
        forall|k: int| 0 <= k < j ==> s[k] != ':',
        j < s.len() ==> s[j] == ':',
    ensures
        first_colon(s) == j,
    decreases s.len(),
{
    if s.len() == 0 {
    } else if s[0] == ':' {
        assert(j == 0);
    } else {
        let t = s.drop_first();
        assert(forall|k: int| 0 <= k < j - 1 ==> t[k] != ':');
        lemma_first_colon_characterize(t, j - 1);
    }
}

proof fn lemma_no_colon_count_zero(s: Seq<char>)
    requires
        forall|k: int| 0 <= k < s.len() ==> s[k] != ':',
    ensures
        colon_count(s) == 0,
    decreases s.len(),
{
    if s.len() > 0 {
        lemma_no_colon_count_zero(s.drop_last());
    }
}

/// Why a pace input was rejected.
#[derive(Clone, Copy, Debug, PartialEq, Eq, Structural)]
pub enum PaceError {
    /// Not exactly one colon.
    Format,
    /// The minutes part is not an unsigned integer in range.
    Minutes,
    /// The seconds part is not an unsigned integer in range, or the total
    /// number of seconds does not fit the stored width.
    Seconds,
}

/// What parsing a pace input returns: `mm * 60 + ss` whole seconds when the
/// input is `mm:ss`, or the first error the grammar hits.
pub open spec fn spec_parse_duration(s: Seq<char>) -> Result<u64, PaceError> {
    let j = first_colon(s);
    let mm = s.subrange(0, j);
    let ss = s.subrange(j + 1, s.len() as int);
    if colon_count(s) != 1 {
        Err(PaceError::Format)
    } else if spec_parse_bounded(mm, u64::MAX) is None {
        Err(PaceError::Minutes)
    } else if spec_parse_bounded(ss, u64::MAX) is None {
        Err(PaceError::Seconds)
    } else {
        let total = spec_parse_bounded(mm, u64::MAX)->0 * 60 + spec_parse_bounded(
            ss,
            u64::MAX,
        )->0;
        if total > u64::MAX {
            Err(PaceError::Seconds)
        } else {
            Ok(total as u64)
        }
    }
}

/// Parses a pace given as `mm:ss` into whole seconds per kilometer.
pub fn parse_duration(s: &str) -> (r: Result<u64, PaceError>)
    ensures
        r == spec_parse_duration(s@),
{
    let n = s.unicode_len();
    let mut colons: usize = 0;
    let mut first: usize = n;
    let mut i: usize = 0;
    while i < n
        invariant
            n == s@.len(),
            i <= n,
            colons <= i,
            colons as int == colon_count(s@.subrange(0, i as int)),
            first == n || (first < i && s@[first as int] == ':'),
            forall|k: int| 0 <= k < i && k < first ==> s@[k] != ':',
        decreases n - i,
    {
        let c = s.get_char(i);
        proof {
            let pre = s@.subrange(0, i as int);
            let ext = s@.subrange(0, i as int + 1);
            assert(ext.drop_last() =~= pre);
            assert(ext.last() == s@[i as int]);
        }
        if c == ':' {
            colons = colons + 1;
            if first == n {
                first = i;
            }
        }
        i = i + 1;
    }
    proof {
        assert(s@.subrange(0, n as int) =~= s@);
    }
    if colons != 1 {
        return Err(PaceError::Format);
    }
    proof {
        if first == n {
            lemma_no_colon_count_zero(s@);
        }
        lemma_first_colon_characterize(s@, first as int);
    }
    let mm_str = s.substring_char(0, first);
    let ss_str = s.substring_char(first + 1, n);
    let mm = match parse_bounded(mm_str, u64::MAX) {
        Some(v) => v,
        None => {
            return Err(PaceError::Minutes);
        },
    };
    let ss = match parse_bounded(ss_str, u64::MAX) {
        Some(v) => v,
        None => {
            return Err(PaceError::Seconds);
        },
    };
    let total: u128 = (mm as u128) * 60 + (ss as u128);
    if total > u64::MAX as u128 {
        Err(PaceError::Seconds)
    } else {
        Ok(total as u64)
    }
}

} // verus!
