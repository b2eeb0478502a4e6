//! Derived values of one instance: the total duration and the split table,
//! together with their `MM:SS` rendering.
//!
//! Both values are pure functions of the instance's settled fields.  The
//! total duration is defined only when pace and distance are positive; the
//! split table additionally needs a positive split interval.  Elapsed times
//! are truncated to whole seconds before they are decomposed into minutes
//! and seconds.

use vstd::prelude::*;

verus! {

/// The character for one decimal digit.
pub open spec fn digit_char(d: int) -> char
    recommends
        0 <= d < 10,
{
    if d == 0 {
        '0'
    } else if d == 1 {
        '1'
    } else if d == 2 {
        '2'
    } else if d == 3 {
        '3'
    } else if d == 4 {
        '4'
    } else if d == 5 {
        '5'
    } else if d == 6 {
        '6'
    } else if d == 7 {
        '7'
    } else if d == 8 {
        '8'
    } else {
        '9'
    }
}

/// The decimal rendering of a non-negative integer, without padding.
pub open spec fn spec_decimal(n: int) -> Seq<char>
    recommends
        n >= 0,
    decreases n,
{
    if n < 10 {
        seq![digit_char(n)]
    } else {
        spec_decimal(n / 10).push(digit_char(n % 10))
    }
}

/// The decimal rendering zero-padded on the left to at least two digits.
pub open spec fn spec_two_digits(n: int) -> Seq<char>
    recommends
        n >= 0,
{
    if n < 10 {
        seq!['0'] + spec_decimal(n)
    } else {
        spec_decimal(n)
    }
}

/// A whole number of seconds rendered as zero-padded minutes, a colon, and
/// two seconds digits.
pub open spec fn spec_mmss(total_seconds: int) -> Seq<char>
    recommends
        total_seconds >= 0,
{
    spec_two_digits(total_seconds / 60) + seq![':'] + spec_two_digits(total_seconds % 60)
}

/// Total running time in whole seconds for a given pace and distance:
/// `pace * distance / 1000`, truncated, and only defined when both inputs
/// are positive.
pub open spec fn spec_total_seconds(pace: u64, distance: usize) -> Option<u128> {
    if pace > 0 && distance > 0 {
        Some(((pace * distance) / 1000) as u128)
    } else {
        None
    }
}

fn digit_str(d: u128) -> (r: &'static str)
    requires
        d < 10,
    ensures
        r@ == seq![digit_char(d as int)],
{
    let r: &'static str = if d == 0 {
        "0"
    } else if d == 1 {
        "1"
    } else if d == 2 {
        "2"
    } else if d == 3 {
        "3"
    } else if d == 4 {
        "4"
    } else if d == 5 {
        "5"
    } else if d == 6 {
        "6"
    } else if d == 7 {
        "7"
    } else if d == 8 {
        "8"
    } else {
        "9"
    };
    proof {
        reveal_strlit("0");
        reveal_strlit("1");
        reveal_strlit("2");
        reveal_strlit("3");
        reveal_strlit("4");
        reveal_strlit("5");
        reveal_strlit("6");
        reveal_strlit("7");
        reveal_strlit("8");
        reveal_strlit("9");
        assert(r@ =~= seq![digit_char(d as int)]);
    }
    r
}

/// The decimal rendering of `n`, without padding.
pub fn decimal_string(n: u128) -> (r: String)
    ensures
        r@ == spec_decimal(n as int),
    decreases n,
{
    if n < 10 {
        let mut s = String::new();
        s.append(digit_str(n));
        proof {
            assert(s@ =~= spec_decimal(n as int));
        }
        s
    } else {
        let mut s = decimal_string(n / 10);
        s.append(digit_str(n % 10));
        proof {
            assert(s@ =~= spec_decimal(n as int));
        }
        s
    }
}

/// The decimal rendering of `n`, zero-padded to at least two digits.
pub fn two_digit_string(n: u128) -> (r: String)
    ensures
        r@ == spec_two_digits(n as int),
{
    if n < 10 {
        let mut s = String::new();
        s.append("0");
        s.append(digit_str(n));
        proof {
            reveal_strlit("0");
            assert(s@ =~= spec_two_digits(n as int));
        }
        s
    } else {
        decimal_string(n)
    }
}

/// `total_seconds` rendered as `MM:SS` (minutes zero-padded to at least two
/// digits, seconds always two digits).
pub fn mmss_string(total_seconds: u128) -> (r: String)
    ensures
        r@ == spec_mmss(total_seconds as int),
{
    let mut s = two_digit_string(total_seconds / 60);
    s.append(":");
    let sec = two_digit_string(total_seconds % 60);
    s.append(sec.as_str());
    proof {
        reveal_strlit(":");
        assert(s@ =~= spec_mmss(total_seconds as int));
    }
    s
}

/// Total running time in whole seconds, when pace and distance are both set.
pub fn total_seconds(pace: u64, distance: usize) -> (r: Option<u128>)
    ensures
        r == spec_total_seconds(pace, distance),
{
    if pace > 0 && distance > 0 {
        proof {
            vstd::arithmetic::mul::lemma_mul_upper_bound(
                pace as int,
                u64::MAX as int,
                distance as int,
                u64::MAX as int,
            );
        }
        let wide: u128 = (pace as u128) * (distance as u128);
        Some(wide / 1000)
    } else {
        None
    }
}

/// The total duration rendered as `MM:SS`, when pace and distance are both
/// set.  The presentation layer shows a placeholder for `None`.
pub fn total_duration_label(pace: u64, distance: usize) -> (r: Option<String>)
    ensures
        match r {
            Some(s) => spec_total_seconds(pace, distance) is Some && s@ == spec_mmss(
                spec_total_seconds(pace, distance)->0 as int,
            ),
            None => spec_total_seconds(pace, distance) is None,
        },
{
    match total_seconds(pace, distance) {
        Some(t) => Some(mmss_string(t)),
        None => None,
    }
}

/// A split row rendered for display: the marker in meters, then the elapsed
/// time as `MM:SS`.
pub open spec fn spec_split_label(marker: int, seconds: int) -> Seq<char> {
    spec_decimal(marker) + "m: "@ + spec_mmss(seconds)
}

/// Renders one split row as the marker followed by `m: ` and the elapsed
/// `MM:SS`.
pub fn split_row_label(marker: usize, seconds: u128) -> (r: String)
    ensures
        r@ == spec_split_label(marker as int, seconds as int),
{
    let mut s = decimal_string(marker as u128);
    s.append("m: ");
    let t = mmss_string(seconds);
    s.append(t.as_str());
    proof {
        assert(s@ =~= spec_split_label(marker as int, seconds as int));
    }
    s
}

/// One row of the split table: a distance marker in meters and the elapsed
/// time there in whole seconds.
#[derive(Clone, Copy, Debug, PartialEq, Eq, Structural)]
pub struct SplitRow {
    pub marker: usize,
    pub seconds: u128,
}

/// Number of split rows: one for every positive multiple of the interval up
/// to and including the distance; zero whenever a precondition is unset.
pub open spec fn spec_split_count(pace: u64, distance: usize, interval: usize) -> int {
    if pace > 0 && distance > 0 && interval > 0 {
        distance as int / interval as int
    } else {
        0
    }
}

/// The marker of the `i`-th split row (counted from zero).
pub open spec fn spec_split_marker(interval: usize, i: int) -> int {
    (i + 1) * interval
}

/// Elapsed whole seconds at a marker: `pace * marker / 1000`, truncated.
pub open spec fn spec_elapsed_seconds(pace: u64, marker: int) -> int {
    pace * marker / 1000
}

/// The split table for one instance.  Row `i` (from zero) has marker
/// `(i + 1) * interval` and elapsed time `pace * marker / 1000` whole
/// seconds; the table is empty unless pace, distance and interval are all
/// positive.
pub fn split_rows(pace: u64, distance: usize, interval: usize) -> (r: Vec<SplitRow>)
    ensures
        r@.len() == spec_split_count(pace, distance, interval),
        forall|i: int|
            0 <= i < r@.len() ==> {
                &&& #[trigger] r@[i].marker as int == spec_split_marker(interval, i)
                &&& r@[i].seconds as int == spec_elapsed_seconds(pace, r@[i].marker as int)
            },
{
    let mut rows: Vec<SplitRow> = Vec::new();
    if pace > 0 && distance > 0 && interval > 0 {
        let count: usize = distance / interval;
        let mut k: usize = 0;
        while k < count
            invariant
                interval > 0,
                count == distance as int / interval as int,
                k <= count,
                rows@.len() == k,
                forall|i: int|
                    0 <= i < k ==> {
                        &&& #[trigger] rows@[i].marker as int == spec_split_marker(interval, i)
                        &&& rows@[i].seconds as int == spec_elapsed_seconds(
                            pace,
                            rows@[i].marker as int,
                        )
                    },
            decreases count - k,
        {
            proof {
                vstd::arithmetic::div_mod::lemma_fundamental_div_mod(
                    distance as int,
                    interval as int,
                );
                vstd::arithmetic::div_mod::lemma_mod_bound(distance as int, interval as int);
                vstd::arithmetic::mul::lemma_mul_inequality(
                    k as int + 1,
                    count as int,
                    interval as int,
                );
                assert((k + 1) * interval <= distance);
            }
            let marker: usize = (k + 1) * interval;
            proof {
                vstd::arithmetic::mul::lemma_mul_upper_bound(
                    pace as int,
                    u64::MAX as int,
                    marker as int,
                    u64::MAX as int,
                );
            }
            let seconds: u128 = (pace as u128) * (marker as u128) / 1000;
            rows.push(SplitRow { marker, seconds });
            k = k + 1;
        }
    }
    rows
}

} // verus!
