//! Verified text helpers: prefix and suffix tests, ASCII-case-insensitive
//! comparison, and decimal formatting of numbers.
//!
//! These are the string-level building blocks of the request parser and of
//! the response serializer.

use vstd::prelude::*;

verus! {

/// A character with its ASCII upper case folded to lower case; all other
/// characters are left alone.
pub open spec fn spec_fold_char(c: char) -> char {
    if 65 <= c as u32 && c as u32 <= 90 {
        (((c as u8) + 32) as u8) as char
    } else {
        c
    }
}

/// A string with every ASCII upper-case character folded to lower case.
pub open spec fn spec_fold(s: Seq<char>) -> Seq<char> {
    s.map_values(|c: char| spec_fold_char(c))
}

/// `p` is a prefix of `s`.
pub open spec fn spec_starts_with(s: Seq<char>, p: Seq<char>) -> bool {
    p.len() <= s.len() && s.subrange(0, p.len() as int) == p
}

/// `p` is a suffix of `s`.
pub open spec fn spec_ends_with(s: Seq<char>, p: Seq<char>) -> bool {
    p.len() <= s.len() && s.subrange(s.len() - p.len(), s.len() as int) == p
}

/// The character of a single decimal digit.
pub open spec fn spec_digit(d: nat) -> char {
    if d == 0 {
        '0'
    } else if d == 1 {
        '1'
    } else if d == 2 {
        '2'
    } else if d == 3 {
        '3'
    } else if d == 4 {
        '4'
    } else if d == 5 {
        '5'
    } else if d == 6 {
        '6'
    } else if d == 7 {
        '7'
    } else if d == 8 {
        '8'
    } else {
        '9'
    }
}

/// The decimal notation of `n`, most significant digit first, with no
/// leading zero except for `n == 0` itself.
pub open spec fn spec_decimal(n: nat) -> Seq<char>
    decreases n,
{
    if n < 10 {
        seq![spec_digit(n)]
    } else {
        spec_decimal(n / 10) + seq![spec_digit(n % 10)]
    }
}

/// Folds one character to lower case, as `spec_fold_char` describes.
pub fn fold_char(c: char) -> (r: char)
    ensures
        r == spec_fold_char(c),
{
    let u: u32 = c as u32;
    if 65 <= u && u <= 90 {
        ((c as u8) + 32) as char
    } else {
        c
    }
}

/// Whether `s` begins with the prefix `p`, character by character.
pub fn starts_with(s: &str, p: &str) -> (r: bool)
    ensures
        r == spec_starts_with(s@, p@),
{
    let s_len: usize = s.unicode_len();
    let p_len: usize = p.unicode_len();
    if p_len > s_len {
        return false;
    }
    let mut i: usize = 0;
    while i < p_len
        invariant
            i <= p_len <= s_len,
            s_len == s@.len(),
            p_len == p@.len(),
            forall|j: int| 0 <= j < i ==> s@[j] == p@[j],
        decreases p_len - i,
    {
        if s.get_char(i) != p.get_char(i) {
            assert(!spec_starts_with(s@, p@)) by {
                assert(s@.subrange(0, p@.len() as int)[i as int] == s@[i as int]);
            }
            return false;
        }
        i = i + 1;
    }
    assert(s@.subrange(0, p@.len() as int) =~= p@);
    true
}

/// Whether `s` ends with the suffix `p`, character by character.
pub fn ends_with(s: &str, p: &str) -> (r: bool)
    ensures
        r == spec_ends_with(s@, p@),
{
    let s_len: usize = s.unicode_len();
    let p_len: usize = p.unicode_len();
    if p_len > s_len {
        return false;
    }
    let off: usize = s_len - p_len;
    let mut i: usize = 0;
    while i < p_len
        invariant
            i <= p_len <= s_len,
            off == s_len - p_len,
            s_len == s@.len(),
            p_len == p@.len(),
            forall|j: int| 0 <= j < i ==> s@[off + j] == p@[j],
        decreases p_len - i,
    {
        if s.get_char(off + i) != p.get_char(i) {
            assert(!spec_ends_with(s@, p@)) by {
                assert(s@.subrange(s@.len() - p@.len(), s@.len() as int)[i as int] == s@[off + i]);
            }
            return false;
        }
        i = i + 1;
    }
    assert(s@.subrange(s@.len() - p@.len(), s@.len() as int) =~= p@);
    true
}

/// Whether the two strings are equal once ASCII case is folded away.
pub fn eq_ignore_ascii_case(a: &str, b: &str) -> (r: bool)
    ensures
        r == (spec_fold(a@) == spec_fold(b@)),
{
    let a_len: usize = a.unicode_len();
    let b_len: usize = b.unicode_len();
    if a_len != b_len {
        assert(spec_fold(a@).len() != spec_fold(b@).len());
        return false;
    }
    let mut i: usize = 0;
    while i < a_len
        invariant
            i <= a_len,
            a_len == a@.len(),
            a_len == b@.len(),
            forall|j: int| 0 <= j < i ==> spec_fold_char(a@[j]) == spec_fold_char(b@[j]),
        decreases a_len - i,
    {
        if fold_char(a.get_char(i)) != fold_char(b.get_char(i)) {
            assert(spec_fold(a@)[i as int] != spec_fold(b@)[i as int]);
            return false;
        }
        i = i + 1;
    }
    assert(spec_fold(a@) =~= spec_fold(b@));
    true
}

/// One decimal digit as a borrowed string.
fn digit_str(d: usize) -> (r: &'static str)
    requires
        d < 10,
    ensures
        r@ == seq![spec_digit(d as nat)],
{
    proof {
        reveal_strlit("0");
        reveal_strlit("1");
        reveal_strlit("2");
        reveal_strlit("3");
        reveal_strlit("4");
        reveal_strlit("5");
        reveal_strlit("6");
        reveal_strlit("7");
        reveal_strlit("8");
        reveal_strlit("9");
    }
    let r: &'static str = match d {
        0 => "0",
        1 => "1",
        2 => "2",
        3 => "3",
        4 => "4",
        5 => "5",
        6 => "6",
        7 => "7",
        8 => "8",
        _ => "9",
    };
    assert(r@ =~= seq![spec_digit(d as nat)]);
    r
}

/// The decimal notation of `n`, as `spec_decimal` describes.
pub fn format_usize(n: usize) -> (r: String)
    ensures
        r@ == spec_decimal(n as nat),
    decreases n,
{
    if n < 10 {
        String::from_str(digit_str(n))
    } else {
        assert(n / 10 < n) by (nonlinear_arith)
            requires
                n >= 10,
        ;
        let mut r = format_usize(n / 10);
        r.append(digit_str(n % 10));
        r
    }
}

} // verus!
