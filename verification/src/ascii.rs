//! ASCII case folding on the bytes of a string.

use vstd::prelude::*;
use vstd::string::*;

verus! {

/// A byte with the upper-case ASCII letters folded to lower case.
pub open spec fn lower_byte(b: u8) -> u8 {
    if 0x41 <= b <= 0x5a {
        (b + 0x20) as u8
    } else {
        b
    }
}

/// Two byte strings are equal once their ASCII letters are folded.
pub open spec fn eq_ignore_case(a: Seq<u8>, b: Seq<u8>) -> bool {
    &&& a.len() == b.len()
    &&& forall|i: int| 0 <= i < a.len() ==> lower_byte(#[trigger] a[i]) == lower_byte(b[i])
}

/// The folded form of `s` ends with `suffix`, taken as it is.
pub open spec fn lower_ends_with(s: Seq<u8>, suffix: Seq<u8>) -> bool {
    &&& suffix.len() <= s.len()
    &&& forall|i: int|
        0 <= i < suffix.len() ==> lower_byte(s[s.len() - suffix.len() + i]) == #[trigger] suffix[i]
}

/// The folded form of `s` starts with `prefix`, taken as it is.
pub open spec fn lower_starts_with(s: Seq<u8>, prefix: Seq<u8>) -> bool {
    &&& prefix.len() <= s.len()
    &&& forall|i: int| 0 <= i < prefix.len() ==> lower_byte(s[i]) == #[trigger] prefix[i]
}

pub fn to_lower(b: u8) -> (r: u8)
    ensures
        r == lower_byte(b),
{
    if 0x41 <= b && b <= 0x5a {
        b + 0x20
    } else {
        b
    }
}

pub fn bytes_eq_ignore_case(a: &[u8], b: &[u8]) -> (r: bool)
    ensures
        r == eq_ignore_case(a@, b@),
{
    if a.len() != b.len() {
        return false;
    }
    let mut i: usize = 0;
    while i < a.len()
        invariant
            a.len() == b.len(),
            i <= a.len(),
            forall|j: int| 0 <= j < i ==> lower_byte(#[trigger] a@[j]) == lower_byte(b@[j]),
        decreases a.len() - i,
    {
        if to_lower(a[i]) != to_lower(b[i]) {
            return false;
        }
        i += 1;
    }
    true
}

pub fn bytes_lower_ends_with(s: &[u8], suffix: &[u8]) -> (r: bool)
    ensures
        r == lower_ends_with(s@, suffix@),
{
    if suffix.len() > s.len() {
        return false;
    }
    let base: usize = s.len() - suffix.len();
    let mut i: usize = 0;
    while i < suffix.len()
        invariant
            base == s.len() - suffix.len(),
            i <= suffix.len(),
            forall|j: int| 0 <= j < i ==> lower_byte(s@[base + j]) == #[trigger] suffix@[j],
        decreases suffix.len() - i,
    {
        if to_lower(s[base + i]) != suffix[i] {
            return false;
        }
        i += 1;
    }
    true
}

pub fn bytes_lower_starts_with(s: &[u8], prefix: &[u8]) -> (r: bool)
    ensures
        r == lower_starts_with(s@, prefix@),
{
    if prefix.len() > s.len() {
        return false;
    }
    let mut i: usize = 0;
    while i < prefix.len()
        invariant
            prefix.len() <= s.len(),
            i <= prefix.len(),
            forall|j: int| 0 <= j < i ==> lower_byte(s@[j]) == #[trigger] prefix@[j],
        decreases prefix.len() - i,
    {
        if to_lower(s[i]) != prefix[i] {
            return false;
        }
        i += 1;
    }
    true
}

/// `str::eq_ignore_ascii_case`, on the bytes of the two strings.
pub fn str_eq_ignore_case(a: &str, b: &str) -> (r: bool)
    ensures
        r == eq_ignore_case(a.spec_bytes(), b.spec_bytes()),
{
    bytes_eq_ignore_case(a.as_bytes(), b.as_bytes())
}

} // verus!
