//! Small string helpers shared by the other modules.
//!
//! The functions of std on strings that the library uses are called here,
//! each behind a statement of what it returns.

use vstd::prelude::*;

verus! {

/// The lowercase form of a string, as `str::to_lowercase` computes it.
pub uninterp spec fn lowercase_of(s: Seq<char>) -> Seq<char>;

/// A string without the white space at its two ends, as `str::trim` leaves
/// it.
pub uninterp spec fn trimmed(s: Seq<char>) -> Seq<char>;

/// `suffix` is the end of `s`.
pub open spec fn is_suffix(suffix: Seq<char>, s: Seq<char>) -> bool {
    suffix.len() <= s.len() && s.subrange(s.len() - suffix.len(), s.len() as int) == suffix
}

/// `part` occurs somewhere in `s`.
pub open spec fn has_substring(s: Seq<char>, part: Seq<char>) -> bool {
    exists|i: int| 0 <= i <= s.len() - part.len() && #[trigger] s.subrange(i, i + part.len()) == part
}

/// What follows the last `sep` in `s`; all of `s` where it holds none.
pub open spec fn last_segment_of(s: Seq<char>, sep: char) -> Seq<char>
    decreases s.len(),
{
    if s.len() == 0 || s.last() == sep {
        Seq::empty()
    } else {
        last_segment_of(s.drop_last(), sep).push(s.last())
    }
}

/// `s` without any repetitions of `suffix` at its end.
pub open spec fn without_trailing(s: Seq<char>, suffix: Seq<char>) -> Seq<char>
    decreases s.len(),
{
    if suffix.len() > 0 && is_suffix(suffix, s) {
        without_trailing(s.take(s.len() - suffix.len()), suffix)
    } else {
        s
    }
}

/// The decimal digit for a number below ten.
pub open spec fn digit_char(d: nat) -> char {
    if d == 0 {
        '0'
    } else if d == 1 {
        '1'
    } else if d == 2 {
        '2'
    } else if d == 3 {
        '3'
    } else if d == 4 {
        '4'
    } else if d == 5 {
        '5'
    } else if d == 6 {
        '6'
    } else if d == 7 {
        '7'
    } else if d == 8 {
        '8'
    } else {
        '9'
    }
}

/// A number in decimal digits, without leading zeros.
pub open spec fn decimal_digits(n: nat) -> Seq<char>
    decreases n,
{
    if n < 10 {
        seq![digit_char(n)]
    } else {
        decimal_digits(n / 10).push(digit_char(n % 10))
    }
}

/// Calls `str::to_lowercase`. The result is the Unicode lowercase mapping of
/// the argument; it is named rather than spelled out.
#[verifier::external_body]
pub(crate) fn to_lowercase(s: &str) -> (r: String)
    ensures
        r@ == lowercase_of(s@),
{
    s.to_lowercase()
}

/// Calls `str::trim`. The result is the argument without leading and
/// trailing white space, as Unicode defines it; it is named rather than
/// spelled out.
#[verifier::external_body]
pub(crate) fn trim(s: &str) -> (r: &str)
    ensures
        r@ == trimmed(s@),
{
    s.trim()
}

/// Two strings are equal exactly when they hold the same characters.
pub fn str_eq(a: &str, b: &str) -> (r: bool)
    ensures
        r == (a@ == b@),
{
    let left = a.to_owned();
    let right = b.to_owned();
    left == right
}

/// Calls `str::ends_with` with a string as the pattern.
#[verifier::external_body]
pub(crate) fn ends_with(s: &str, suffix: &str) -> (r: bool)
    ensures
        r == is_suffix(suffix@, s@),
{
    s.ends_with(suffix)
}

/// Calls `str::contains` with a string as the pattern.
#[verifier::external_body]
pub(crate) fn contains(s: &str, part: &str) -> (r: bool)
    ensures
        r == has_substring(s@, part@),
{
    s.contains(part)
}

/// Calls `str::rsplit` with a character as the separator and takes the first
/// piece it yields, which is the last of the string.
#[verifier::external_body]
pub(crate) fn last_segment(s: &str, sep: char) -> (r: &str)
    ensures
        r@ == last_segment_of(s@, sep),
{
    s.rsplit(sep).next().unwrap_or(s)
}

/// Calls `str::trim_end_matches` with a string that is not empty as the
/// pattern: the suffix is taken off the end as often as it stands there.
#[verifier::external_body]
pub(crate) fn trim_end_matches(s: &str, suffix: &str) -> (r: String)
    requires
        suffix@.len() > 0,
    ensures
        r@ == without_trailing(s@, suffix@),
{
    s.trim_end_matches(suffix).to_owned()
}

/// Calls `to_string` of std on an unsigned integer.
#[verifier::external_body]
pub(crate) fn decimal(n: usize) -> (r: String)
    ensures
        r@ == decimal_digits(n as nat),
{
    n.to_string()
}

} // verus!
