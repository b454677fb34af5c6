//! Verified construction of decimal text, and two small trusted string helpers.

use vstd::prelude::*;

verus! {

/// Whether two string slices consist of the same characters.
pub fn str_eq(a: &str, b: &str) -> (r: bool)
    ensures
        r == (a@ == b@),
{
    let na = a.unicode_len();
    let nb = b.unicode_len();
    if na != nb {
        return false;
    }
    let mut i: usize = 0;
    while i < na
        invariant
            na == a@.len(),
            na == b@.len(),
            i <= na,
            forall|j: int| 0 <= j < i ==> a@[j] == b@[j],
        decreases na - i,
    {
        if a.get_char(i) != b.get_char(i) {
            return false;
        }
        i = i + 1;
    }
    proof {
        assert(a@ =~= b@);
    }
    true
}

/// Relies on `String::push`: appends exactly one character at the end.
#[verifier::external_body]
pub fn string_push(s: &mut String, c: char)
    ensures
        final(s)@ == old(s)@ + seq![c],
{
    s.push(c);
}

/// Whether the text contains a NUL character, which native event metadata
/// cannot carry.
pub open spec fn has_nul(s: Seq<char>) -> bool {
    exists|i: int| 0 <= i < s.len() && s[i] == '\0'
}

/// Scans a string slice for a NUL character.
pub fn str_contains_nul(s: &str) -> (r: bool)
    ensures
        r == has_nul(s@),
{
    let n = s.unicode_len();
    let mut i: usize = 0;
    while i < n
        invariant
            n == s@.len(),
            i <= n,
            forall|j: int| 0 <= j < i ==> s@[j] != '\0',
        decreases n - i,
    {
        if s.get_char(i) == '\0' {
            return true;
        }
        i = i + 1;
    }
    false
}

/// The decimal digit character for a value below ten.
pub open spec fn dec_digit(n: int) -> char {
    if n == 0 {
        '0'
    } else if n == 1 {
        '1'
    } else if n == 2 {
        '2'
    } else if n == 3 {
        '3'
    } else if n == 4 {
        '4'
    } else if n == 5 {
        '5'
    } else if n == 6 {
        '6'
    } else if n == 7 {
        '7'
    } else if n == 8 {
        '8'
    } else {
        '9'
    }
}

/// The decimal rendering of a non-negative number, most significant digit first.
pub open spec fn dec_of(n: int) -> Seq<char>
    decreases n,
{
    if n < 10 {
        seq![dec_digit(n)]
    } else {
        dec_of(n / 10) + seq![dec_digit(n % 10)]
    }
}

/// The decimal rendering of a signed number: a minus sign before the
/// magnitude when negative.
pub open spec fn dec_of_int(n: int) -> Seq<char> {
    if n >= 0 {
        dec_of(n)
    } else {
        seq!['-'] + dec_of(-n)
    }
}

/// A run of `n` zero characters.
pub open spec fn zeros(n: int) -> Seq<char>
    decreases n,
{
    if n <= 0 {
        Seq::empty()
    } else {
        zeros(n - 1) + seq!['0']
    }
}

/// `s` left-padded with zeros up to width `w`.
pub open spec fn pad_left(s: Seq<char>, w: int) -> Seq<char> {
    if s.len() >= w {
        s
    } else {
        zeros(w - s.len()) + s
    }
}

pub open spec fn pow10(k: nat) -> int
    decreases k,
{
    if k == 0 {
        1
    } else {
        10 * pow10((k - 1) as nat)
    }
}

/// A number below `10^k` needs at most `k` decimal digits.
pub proof fn lemma_dec_of_len_le(n: int, k: nat)
    requires
        0 <= n < pow10(k),
        k >= 1,
    ensures
        dec_of(n).len() <= k,
    decreases k,
{
    if n < 10 {
    } else {
        assert(pow10(k) == 10 * pow10((k - 1) as nat));
        lemma_dec_of_len_le(n / 10, (k - 1) as nat);
    }
}

/// Every `u64` fits in twenty decimal digits.
pub proof fn lemma_dec_of_u64_len(n: u64)
    ensures
        dec_of(n as int).len() <= 20,
{
    assert(pow10(20) > 0xffffffffffffffff) by {
        reveal_with_fuel(pow10, 21);
    }
    lemma_dec_of_len_le(n as int, 20);
}

/// The decimal digit character for `d`.
pub fn digit_char(d: u8) -> (c: char)
    requires
        d < 10,
    ensures
        c == dec_digit(d as int),
{
    match d {
        0 => '0',
        1 => '1',
        2 => '2',
        3 => '3',
        4 => '4',
        5 => '5',
        6 => '6',
        7 => '7',
        8 => '8',
        _ => '9',
    }
}

/// Appends the decimal rendering of `n` to `s`.
pub fn push_dec_u64(s: &mut String, n: u64)
    ensures
        final(s)@ == old(s)@ + dec_of(n as int),
    decreases n,
{
    if n < 10 {
        string_push(s, digit_char(n as u8));
    } else {
        push_dec_u64(s, n / 10);
        string_push(s, digit_char((n % 10) as u8));
    }
}

/// Appends the decimal rendering of `n`, left-padded with zeros to `width`.
pub fn push_dec_padded(s: &mut String, n: u64, width: usize)
    requires
        width <= 20,
    ensures
        final(s)@ == old(s)@ + pad_left(dec_of(n as int), width as int),
{
    let len = dec_len(n);
    let mut i: usize = 0;
    let pad = if width > len {
        width - len
    } else {
        0
    };
    while i < pad
        invariant
            i <= pad,
            s@ == old(s)@ + zeros(i as int),
        decreases pad - i,
    {
        string_push(s, '0');
        i = i + 1;
    }
    push_dec_u64(s, n);
    proof {
        if width > len {
            assert(s@ == old(s)@ + zeros(pad as int) + dec_of(n as int));
        }
    }
}

/// The number of decimal digits of `n`.
pub fn dec_len(n: u64) -> (r: usize)
    ensures
        r == dec_of(n as int).len(),
        1 <= r <= 20,
    decreases n,
{
    proof {
        lemma_dec_of_u64_len(n);
    }
    if n < 10 {
        1
    } else {
        dec_len(n / 10) + 1
    }
}

/// Appends the decimal rendering of a signed value to `s`.
pub fn push_dec_i64(s: &mut String, n: i64)
    ensures
        final(s)@ == old(s)@ + dec_of_int(n as int),
{
    if n >= 0 {
        push_dec_u64(s, n as u64);
    } else {
        string_push(s, '-');
        let magnitude: u64 = ((-(n as i128)) as u64);
        push_dec_u64(s, magnitude);
    }
}

} // verus!
