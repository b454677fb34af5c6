//! Fixed-width lowercase hex encoding of trace and span identifiers, and
//! the matching decoder.  Encoding a byte sequence and decoding the text
//! recovers the bytes exactly.

use vstd::prelude::*;
use crate::text::string_push;

verus! {

/// The lowercase hex digit character for a value below sixteen.
pub open spec fn hex_digit(n: int) -> char {
    if n == 0 {
        '0'
    } else if n == 1 {
        '1'
    } else if n == 2 {
        '2'
    } else if n == 3 {
        '3'
    } else if n == 4 {
        '4'
    } else if n == 5 {
        '5'
    } else if n == 6 {
        '6'
    } else if n == 7 {
        '7'
    } else if n == 8 {
        '8'
    } else if n == 9 {
        '9'
    } else if n == 10 {
        'a'
    } else if n == 11 {
        'b'
    } else if n == 12 {
        'c'
    } else if n == 13 {
        'd'
    } else if n == 14 {
        'e'
    } else {
        'f'
    }
}

/// The lowercase hex rendering of a byte sequence: two digits per byte.
pub open spec fn hex_of(b: Seq<u8>) -> Seq<char>
    decreases b.len(),
{
    if b.len() == 0 {
        Seq::empty()
    } else {
        seq![hex_digit(b[0] as int / 16), hex_digit(b[0] as int % 16)] + hex_of(b.drop_first())
    }
}

/// The numeric value of a hex digit character; 16 if the character is not one.
pub open spec fn hex_val(c: char) -> int {
    if c == '0' {
        0
    } else if c == '1' {
        1
    } else if c == '2' {
        2
    } else if c == '3' {
        3
    } else if c == '4' {
        4
    } else if c == '5' {
        5
    } else if c == '6' {
        6
    } else if c == '7' {
        7
    } else if c == '8' {
        8
    } else if c == '9' {
        9
    } else if c == 'a' {
        10
    } else if c == 'b' {
        11
    } else if c == 'c' {
        12
    } else if c == 'd' {
        13
    } else if c == 'e' {
        14
    } else if c == 'f' {
        15
    } else {
        16
    }
}

pub open spec fn is_hex_char(c: char) -> bool {
    hex_val(c) < 16
}

/// The bytes a lowercase hex text denotes, or `None` if it is not such a text.
pub open spec fn decode_hex(s: Seq<char>) -> Option<Seq<u8>>
    decreases s.len(),
{
    if s.len() % 2 != 0 {
        None
    } else if s.len() == 0 {
        Some(Seq::empty())
    } else if is_hex_char(s[0]) && is_hex_char(s[1]) {
        match decode_hex(s.skip(2)) {
            Some(rest) => Some(seq![(hex_val(s[0]) * 16 + hex_val(s[1])) as u8] + rest),
            None => None,
        }
    } else {
        None
    }
}

pub proof fn lemma_hex_of_len(b: Seq<u8>)
    ensures
        hex_of(b).len() == 2 * b.len(),
    decreases b.len(),
{
    if b.len() > 0 {
        lemma_hex_of_len(b.drop_first());
    }
}

/// Hex digits decode back to their value.
pub proof fn lemma_hex_digit_val(n: int)
    requires
        0 <= n < 16,
    ensures
        hex_val(hex_digit(n)) == n,
{
}

/// Every character of a hex rendering is a lowercase hex digit.
pub proof fn lemma_hex_of_chars(b: Seq<u8>)
    ensures
        forall|i: int| 0 <= i < hex_of(b).len() ==> is_hex_char(#[trigger] hex_of(b)[i]),
    decreases b.len(),
{
    if b.len() > 0 {
        lemma_hex_of_chars(b.drop_first());
        lemma_hex_digit_val(b[0] as int / 16);
        lemma_hex_digit_val(b[0] as int % 16);
        assert forall|i: int| 0 <= i < hex_of(b).len() implies is_hex_char(
            #[trigger] hex_of(b)[i],
        ) by {
            if i >= 2 {
                assert(hex_of(b)[i] == hex_of(b.drop_first())[i - 2]);
            }
        }
    }
}

/// Decoding the hex rendering of any byte sequence recovers it exactly.
pub proof fn lemma_hex_round_trip(b: Seq<u8>)
    ensures
        decode_hex(hex_of(b)) == Some(b),
    decreases b.len(),
{
    lemma_hex_of_len(b);
    if b.len() == 0 {
        assert(hex_of(b) =~= Seq::<char>::empty());
    } else {
        lemma_hex_round_trip(b.drop_first());
        let s = hex_of(b);
        lemma_hex_digit_val(b[0] as int / 16);
        lemma_hex_digit_val(b[0] as int % 16);
        assert(s.skip(2) =~= hex_of(b.drop_first()));
        assert((hex_val(s[0]) * 16 + hex_val(s[1])) as u8 == b[0]);
        assert(seq![b[0]] + b.drop_first() =~= b);
    }
}

/// The hex digit character for `d`.
pub fn hex_digit_char(d: u8) -> (c: char)
    requires
        d < 16,
    ensures
        c == hex_digit(d as int),
{
    match d {
        0 => '0',
        1 => '1',
        2 => '2',
        3 => '3',
        4 => '4',
        5 => '5',
        6 => '6',
        7 => '7',
        8 => '8',
        9 => '9',
        10 => 'a',
        11 => 'b',
        12 => 'c',
        13 => 'd',
        14 => 'e',
        _ => 'f',
    }
}

/// Renders `bytes` as fixed-width lowercase hex text.
pub fn bytes_to_hex(bytes: &[u8]) -> (r: String)
    ensures
        r@ == hex_of(bytes@),
        r@.len() == 2 * bytes@.len(),
{
    let mut r = String::new();
    let mut i: usize = 0;
    proof {
        assert(bytes@.skip(0) =~= bytes@);
    }
    while i < bytes.len()
        invariant
            i <= bytes@.len(),
            hex_of(bytes@) =~= r@ + hex_of(bytes@.skip(i as int)),
        decreases bytes@.len() - i,
    {
        let b = bytes[i];
        string_push(&mut r, hex_digit_char(b / 16));
        string_push(&mut r, hex_digit_char(b % 16));
        proof {
            assert(bytes@.skip(i as int).drop_first() =~= bytes@.skip(i as int + 1));
        }
        i = i + 1;
    }
    proof {
        assert(bytes@.skip(bytes@.len() as int) =~= Seq::<u8>::empty());
        lemma_hex_of_len(bytes@);
    }
    r
}

/// The numeric value of a hex digit character, or 16 for any other character.
pub fn hex_char_val(c: char) -> (r: u8)
    ensures
        r == hex_val(c),
{
    match c {
        '0' => 0,
        '1' => 1,
        '2' => 2,
        '3' => 3,
        '4' => 4,
        '5' => 5,
        '6' => 6,
        '7' => 7,
        '8' => 8,
        '9' => 9,
        'a' => 10,
        'b' => 11,
        'c' => 12,
        'd' => 13,
        'e' => 14,
        'f' => 15,
        _ => 16,
    }
}

/// Decodes lowercase hex text back into bytes; `None` if `s` is not such a text.
pub fn hex_to_bytes(s: &str) -> (r: Option<Vec<u8>>)
    ensures
        match r {
            Some(v) => decode_hex(s@) == Some(v@),
            None => decode_hex(s@) is None,
        },
{
    let n = s.unicode_len();
    if n % 2 != 0 {
        return None;
    }
    let mut acc: Vec<u8> = Vec::new();
    let mut i: usize = 0;
    proof {
        assert(s@.skip(0) =~= s@);
    }
    while i < n
        invariant
            n == s@.len(),
            n % 2 == 0,
            i % 2 == 0,
            i <= n,
            acc@.len() == i / 2,
            forall|rest: Seq<u8>|
                decode_hex(s@.skip(i as int)) == Some(rest) ==> decode_hex(s@) == Some(acc@ + rest),
            decode_hex(s@.skip(i as int)) is None ==> decode_hex(s@) is None,
        decreases n - i,
    {
        let c0 = s.get_char(i);
        let c1 = s.get_char(i + 1);
        let v0 = hex_char_val(c0);
        let v1 = hex_char_val(c1);
        if v0 >= 16 || v1 >= 16 {
            return None;
        }
        let ghost acc0 = acc@;
        let b = v0 * 16 + v1;
        acc.push(b);
        proof {
            let sk = s@.skip(i as int);
            assert(sk[0] == s@[i as int]);
            assert(sk[1] == s@[i as int + 1]);
            assert(sk.skip(2) =~= s@.skip(i as int + 2));
            assert(sk.len() % 2 == 0);
            assert forall|rest: Seq<u8>|
                decode_hex(s@.skip(i as int + 2)) == Some(rest) implies decode_hex(s@) == Some(
                acc@ + rest,
            ) by {
                assert(decode_hex(sk) == Some(
                    seq![(hex_val(sk[0]) * 16 + hex_val(sk[1])) as u8] + rest,
                ));
                assert((hex_val(sk[0]) * 16 + hex_val(sk[1])) as u8 == b);
                assert(acc0 + (seq![b] + rest) =~= acc@ + rest);
            }
        }
        i = i + 2;
    }
    proof {
        assert(s@.skip(n as int) =~= Seq::<char>::empty());
        assert(acc@ + Seq::<u8>::empty() =~= acc@);
    }
    Some(acc)
}

} // verus!
