//! Plain text building blocks: decimal rendering of integers and a
//! character search, each pinned to a spec-level definition.

use vstd::prelude::*;
use vstd::string::StrSliceExecFns;
use vstd::string::StringExecFns;

verus! {

/// The single decimal digit character for a value below ten.
pub open spec fn digit_text(d: nat) -> Seq<char> {
    if d == 0 {
        "0"@
    } else if d == 1 {
        "1"@
    } else if d == 2 {
        "2"@
    } else if d == 3 {
        "3"@
    } else if d == 4 {
        "4"@
    } else if d == 5 {
        "5"@
    } else if d == 6 {
        "6"@
    } else if d == 7 {
        "7"@
    } else if d == 8 {
        "8"@
    } else {
        "9"@
    }
}

/// The decimal rendering of a non-negative integer, most significant
/// digit first, with no sign and no leading zeros (zero itself is "0").
pub open spec fn uint_text(n: nat) -> Seq<char>
    decreases n,
{
    if n < 10 {
        digit_text(n)
    } else {
        uint_text(n / 10) + digit_text(n % 10)
    }
}

/// The decimal rendering of an integer: a leading minus sign for a
/// negative value, the bare digits otherwise.
pub open spec fn int_text(i: int) -> Seq<char> {
    if i < 0 {
        "-"@ + uint_text((-i) as nat)
    } else {
        uint_text(i as nat)
    }
}

fn digit_str(d: u64) -> (r: &'static str)
    requires
        d < 10,
    ensures
        r@ == digit_text(d as nat),
{
    match d {
        0 => "0",
        1 => "1",
        2 => "2",
        3 => "3",
        4 => "4",
        5 => "5",
        6 => "6",
        7 => "7",
        8 => "8",
        _ => "9",
    }
}

/// Renders a non-negative machine integer in decimal.
pub fn u64_string(n: u64) -> (r: String)
    ensures
        r@ == uint_text(n as nat),
    decreases n,
{
    if n < 10 {
        digit_str(n).to_owned()
    } else {
        let mut s = u64_string(n / 10);
        s.append(digit_str(n % 10));
        s
    }
}

/// Renders a signed machine integer in decimal.
pub fn i64_string(i: i64) -> (r: String)
    ensures
        r@ == int_text(i as int),
{
    if i >= 0 {
        u64_string(i as u64)
    } else {
        let wide: i128 = i as i128;
        let mag: u64 = (-wide) as u64;
        assert(mag == -(i as int));
        let mut s = "-".to_owned();
        s.append(u64_string(mag).as_str());
        s
    }
}

/// Renders a `usize` in decimal.
pub fn usize_string(n: usize) -> (r: String)
    ensures
        r@ == uint_text(n as nat),
{
    u64_string(n as u64)
}

/// Renders an `isize` in decimal.
pub fn isize_string(i: isize) -> (r: String)
    ensures
        r@ == int_text(i as int),
{
    i64_string(i as i64)
}

/// Decides whether a string holds the given character anywhere.
pub fn str_contains_char(s: &str, c: char) -> (r: bool)
    ensures
        r == s@.contains(c),
{
    let n = s.unicode_len();
    let mut i: usize = 0;
    while i < n
        invariant
            i <= n,
            n == s@.len(),
            forall|j: int| 0 <= j < i ==> s@[j] != c,
        decreases n - i,
    {
        if s.get_char(i) == c {
            assert(s@.contains(c)) by {
                assert(s@[i as int] == c);
            }
            return true;
        }
        i += 1;
    }
    false
}

} // verus!
