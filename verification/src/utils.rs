//! Small helpers: case-insensitive prefix stripping, the wall clock, and
//! position formatting.

use vstd::prelude::*;
use vstd::string::StrSliceExecFns;
use crate::text::{chars_to_string, lower_of, lowercase, str_eq};

verus! {

/// The needle occurs in `input` at character position `i`, ignoring case.
pub open spec fn ci_match_at(input: Seq<char>, needle: Seq<char>, i: int) -> bool {
    &&& 0 <= i
    &&& i + needle.len() <= input.len()
    &&& lower_of(input.subrange(i, i + needle.len())) == lower_of(needle)
}

/// The needle occurs somewhere in `input`, ignoring case.
pub open spec fn ci_contains(input: Seq<char>, needle: Seq<char>) -> bool {
    exists|i: int| ci_match_at(input, needle, i)
}

/// The first position at which `needle` occurs in `input`, ignoring case.
pub(crate) fn find_ci(input: &str, needle: &str) -> (r: Option<usize>)
    ensures
        match r {
            Some(i) => ci_match_at(input@, needle@, i as int) && forall|j: int|
                0 <= j < i ==> !ci_match_at(input@, needle@, j),
            None => !ci_contains(input@, needle@),
        },
{
    let n = input.unicode_len();
    let m = needle.unicode_len();
    if m > n {
        proof {
            assert(forall|i: int| !ci_match_at(input@, needle@, i));
        }
        return None;
    }
    if m == 0 {
        proof {
            assert(input@.subrange(0, 0) =~= needle@);
            assert(ci_match_at(input@, needle@, 0));
        }
        return Some(0);
    }
    let low_needle = lowercase(needle);
    let mut i: usize = 0;
    while i <= n - m
        invariant
            0 <= i <= n - m + 1,
            0 < m <= n,
            n == input@.len(),
            m == needle@.len(),
            low_needle@ == lower_of(needle@),
            forall|j: int| 0 <= j < i ==> !ci_match_at(input@, needle@, j),
        decreases n - m + 1 - i,
    {
        let window = input.substring_char(i, i + m);
        let low_window = lowercase(window);
        if str_eq(low_window.as_str(), low_needle.as_str()) {
            return Some(i);
        }
        i = i + 1;
    }
    proof {
        assert(!ci_contains(input@, needle@)) by {
            if ci_contains(input@, needle@) {
                let j = choose|j: int| ci_match_at(input@, needle@, j);
                assert(!ci_match_at(input@, needle@, j));
            }
        }
    }
    None
}

/// Returns the rest of `input` after the first occurrence of
/// `remove_until`, compared ignoring case; the whole of `input` when it
/// does not occur.
pub fn strip_until_match<'a>(remove_until: &str, input: &'a str) -> (r: &'a str)
    ensures
        ci_contains(input@, remove_until@) ==> exists|i: int|
            {
                &&& #[trigger] ci_match_at(input@, remove_until@, i)
                &&& (forall|j: int| 0 <= j < i ==> !ci_match_at(input@, remove_until@, j))
                &&& r@ == input@.subrange(i + remove_until@.len(), input@.len() as int)
            },
        !ci_contains(input@, remove_until@) ==> r@ == input@,
{
    match find_ci(input, remove_until) {
        Some(pos) => {
            let m = remove_until.unicode_len();
            let n = input.unicode_len();
            input.substring_char(pos + m, n)
        },
        None => input,
    }
}

/// Relies on `SystemTime::now` and `duration_since(UNIX_EPOCH)`: the wall
/// clock in whole seconds. The result depends on the machine's clock, so
/// nothing is claimed of it; a clock before the epoch reads as zero.
#[verifier::external_body]
pub fn get_current_timestamp() -> u64 {
    match std::time::SystemTime::now().duration_since(std::time::UNIX_EPOCH) {
        Ok(d) => d.as_secs(),
        Err(_) => 0,
    }
}

/// The decimal digit character for `d`.
pub open spec fn spec_digit(d: int) -> char {
    if d == 0 {
        '0'
    } else if d == 1 {
        '1'
    } else if d == 2 {
        '2'
    } else if d == 3 {
        '3'
    } else if d == 4 {
        '4'
    } else if d == 5 {
        '5'
    } else if d == 6 {
        '6'
    } else if d == 7 {
        '7'
    } else if d == 8 {
        '8'
    } else {
        '9'
    }
}

/// The decimal rendering of a non-negative number.
pub open spec fn spec_decimal(n: int) -> Seq<char>
    decreases n,
{
    if n < 10 {
        seq![spec_digit(n)]
    } else {
        spec_decimal(n / 10) + seq![spec_digit(n % 10)]
    }
}

/// The decimal rendering padded with a leading zero below ten.
pub open spec fn spec_pad2(n: int) -> Seq<char> {
    if n < 10 {
        seq!['0', spec_digit(n)]
    } else {
        spec_decimal(n)
    }
}

/// A position in microseconds rendered as whole minutes and seconds,
/// each at least two digits, separated by a colon.
pub open spec fn spec_formatted_time(microseconds: u128) -> Seq<char> {
    let secs = microseconds as int / 1000000;
    spec_pad2(secs / 60) + seq![':'] + spec_pad2(secs % 60)
}

fn digit_char(d: u8) -> (c: char)
    requires
        d < 10,
    ensures
        c == spec_digit(d as int),
{
    match d {
        0 => '0',
        1 => '1',
        2 => '2',
        3 => '3',
        4 => '4',
        5 => '5',
        6 => '6',
        7 => '7',
        8 => '8',
        _ => '9',
    }
}

fn decimal_chars(n: u128) -> (r: Vec<char>)
    ensures
        r@ == spec_decimal(n as int),
    decreases n,
{
    if n < 10 {
        let mut v: Vec<char> = Vec::new();
        v.push(digit_char(n as u8));
        proof {
            assert(v@ =~= spec_decimal(n as int));
        }
        v
    } else {
        let mut v = decimal_chars(n / 10);
        v.push(digit_char((n % 10) as u8));
        proof {
            assert(v@ =~= spec_decimal(n as int));
        }
        v
    }
}

fn pad2_chars(n: u128) -> (r: Vec<char>)
    ensures
        r@ == spec_pad2(n as int),
{
    if n < 10 {
        let mut v: Vec<char> = Vec::new();
        v.push('0');
        v.push(digit_char(n as u8));
        proof {
            assert(v@ =~= spec_pad2(n as int));
        }
        v
    } else {
        decimal_chars(n)
    }
}

/// Renders a position in microseconds as "minutes:seconds", each field at
/// least two digits.
pub fn microseconds_to_formatted_time(microseconds: u128) -> (r: String)
    ensures
        r@ == spec_formatted_time(microseconds),
{
    let secs = microseconds / 1000000;
    let minutes = pad2_chars(secs / 60);
    let seconds = pad2_chars(secs % 60);
    let mut v: Vec<char> = Vec::new();
    let mut i: usize = 0;
    while i < minutes.len()
        invariant
            i <= minutes@.len(),
            v@ == minutes@.subrange(0, i as int),
        decreases minutes@.len() - i,
    {
        v.push(minutes[i]);
        i = i + 1;
        proof {
            assert(v@ =~= minutes@.subrange(0, i as int));
        }
    }
    proof {
        assert(minutes@.subrange(0, minutes@.len() as int) =~= minutes@);
    }
    v.push(':');
    let ghost mid = v@;
    let mut k: usize = 0;
    while k < seconds.len()
        invariant
            k <= seconds@.len(),
            v@ == mid + seconds@.subrange(0, k as int),
        decreases seconds@.len() - k,
    {
        v.push(seconds[k]);
        k = k + 1;
        proof {
            assert(v@ =~= mid + seconds@.subrange(0, k as int));
        }
    }
    proof {
        assert(seconds@.subrange(0, seconds@.len() as int) =~= seconds@);
        assert(v@ =~= spec_formatted_time(microseconds));
    }
    chars_to_string(&v)
}

} // verus!
