//! Fixed-width lowercase hexadecimal rendering and parsing, and decimal
//! rendering, for the identifiers that travel inside a propagation carrier.

use vstd::prelude::*;
use vstd::arithmetic::div_mod::{lemma_div_decreases, lemma_fundamental_div_mod, lemma_mod_bound};

verus! {

/// The lowercase hexadecimal digit character for a value below sixteen.
pub open spec fn hex_char(d: nat) -> char {
    if d == 0 {
        '0'
    } else if d == 1 {
        '1'
    } else if d == 2 {
        '2'
    } else if d == 3 {
        '3'
    } else if d == 4 {
        '4'
    } else if d == 5 {
        '5'
    } else if d == 6 {
        '6'
    } else if d == 7 {
        '7'
    } else if d == 8 {
        '8'
    } else if d == 9 {
        '9'
    } else if d == 10 {
        'a'
    } else if d == 11 {
        'b'
    } else if d == 12 {
        'c'
    } else if d == 13 {
        'd'
    } else if d == 14 {
        'e'
    } else {
        'f'
    }
}

/// Whether a character is a hexadecimal digit, in either case.
pub open spec fn is_hex_digit(c: char) -> bool {
    (48 <= c as u32 && c as u32 <= 57) || (97 <= c as u32 && c as u32 <= 102) || (65 <= c as u32
        && c as u32 <= 70)
}

/// The numeric value of a hexadecimal digit character (zero on other input).
pub open spec fn hex_digit_value(c: char) -> nat {
    if 48 <= c as u32 && c as u32 <= 57 {
        (c as u32 - 48) as nat
    } else if 97 <= c as u32 && c as u32 <= 102 {
        (c as u32 - 87) as nat
    } else if 65 <= c as u32 && c as u32 <= 70 {
        (c as u32 - 55) as nat
    } else {
        0
    }
}

/// The lowercase hexadecimal rendering of `n`, `width` digits wide,
/// most significant digit first; `n` is truncated to `width` digits.
pub open spec fn hex_digits(n: nat, width: nat) -> Seq<char>
    decreases width,
{
    if width == 0 {
        Seq::<char>::empty()
    } else {
        hex_digits(n / 16, (width - 1) as nat).push(hex_char(n % 16))
    }
}

/// The value denoted by a sequence of hexadecimal digit characters.
pub open spec fn hex_value(s: Seq<char>) -> nat
    decreases s.len(),
{
    if s.len() == 0 {
        0
    } else {
        hex_value(s.drop_last()) * 16 + hex_digit_value(s.last())
    }
}

/// Whether every character of `s` is a hexadecimal digit.
pub open spec fn all_hex(s: Seq<char>) -> bool {
    forall|i: int| 0 <= i < s.len() ==> is_hex_digit(#[trigger] s[i])
}

/// Sixteen to the given power.
pub open spec fn pow16(w: nat) -> nat
    decreases w,
{
    if w == 0 {
        1nat
    } else {
        16 * pow16((w - 1) as nat)
    }
}

pub proof fn lemma_hex_digits_len(n: nat, w: nat)
    ensures
        hex_digits(n, w).len() == w,
    decreases w,
{
    if w > 0 {
        lemma_hex_digits_len(n / 16, (w - 1) as nat);
    }
}

pub proof fn lemma_hex_char_value(d: nat)
    requires
        d < 16,
    ensures
        is_hex_digit(hex_char(d)),
        hex_digit_value(hex_char(d)) == d,
{
}

pub proof fn lemma_hex_digits_all_hex(n: nat, w: nat)
    ensures
        all_hex(hex_digits(n, w)),
    decreases w,
{
    if w > 0 {
        lemma_hex_digits_all_hex(n / 16, (w - 1) as nat);
        lemma_mod_bound(n as int, 16);
        lemma_hex_char_value(n % 16);
        assert forall|i: int| 0 <= i < hex_digits(n, w).len() implies is_hex_digit(
            #[trigger] hex_digits(n, w)[i],
        ) by {
            lemma_hex_digits_len(n / 16, (w - 1) as nat);
            if i < w - 1 {
                assert(hex_digits(n, w)[i] == hex_digits(n / 16, (w - 1) as nat)[i]);
            }
        }
    }
}

pub proof fn lemma_pow16_mono(a: nat, b: nat)
    requires
        a <= b,
    ensures
        pow16(a) <= pow16(b),
        pow16(a) >= 1,
    decreases b,
{
    if b > 0 && a < b {
        lemma_pow16_mono(a, (b - 1) as nat);
    } else if b > 0 {
        lemma_pow16_mono((a - 1) as nat, (b - 1) as nat);
    }
}

pub proof fn lemma_pow16_32()
    ensures
        pow16(32) == 0x100000000000000000000000000000000,
{
    reveal_with_fuel(pow16, 33);
}

pub proof fn lemma_hex_value_bound(s: Seq<char>)
    ensures
        hex_value(s) < pow16(s.len()),
    decreases s.len(),
{
    if s.len() == 0 {
    } else {
        lemma_hex_value_bound(s.drop_last());
    }
}

pub proof fn lemma_hex_round_trip(n: nat, w: nat)
    requires
        n < pow16(w),
    ensures
        hex_value(hex_digits(n, w)) == n,
    decreases w,
{
    if w == 0 {
        assert(n == 0);
    } else {
        let q = n / 16;
        let r = n % 16;
        lemma_fundamental_div_mod(n as int, 16);
        lemma_mod_bound(n as int, 16);
        assert(q < pow16((w - 1) as nat));
        lemma_hex_round_trip(q, (w - 1) as nat);
        let s = hex_digits(n, w);
        assert(s.drop_last() =~= hex_digits(q, (w - 1) as nat));
        assert(s.last() == hex_char(r));
        lemma_hex_char_value(r);
    }
}

/// The decimal digit character for a value below ten.
pub open spec fn dec_char(d: nat) -> char {
    hex_char(if d < 10 {
        d
    } else {
        0
    })
}

/// The decimal rendering of `n`, without leading zeros.
pub open spec fn dec_digits(n: nat) -> Seq<char>
    decreases n,
{
    if n < 10 {
        seq![dec_char(n)]
    } else {
        dec_digits(n / 10).push(dec_char(n % 10))
    }
}

fn hex_char_of(d: u8) -> (c: char)
    requires
        d < 16,
    ensures
        c == hex_char(d as nat),
{
    if d == 0 {
        '0'
    } else if d == 1 {
        '1'
    } else if d == 2 {
        '2'
    } else if d == 3 {
        '3'
    } else if d == 4 {
        '4'
    } else if d == 5 {
        '5'
    } else if d == 6 {
        '6'
    } else if d == 7 {
        '7'
    } else if d == 8 {
        '8'
    } else if d == 9 {
        '9'
    } else if d == 10 {
        'a'
    } else if d == 11 {
        'b'
    } else if d == 12 {
        'c'
    } else if d == 13 {
        'd'
    } else if d == 14 {
        'e'
    } else {
        'f'
    }
}

/// Relies on String::push: appends exactly the given character.
#[verifier::external_body]
fn push_char(s: &mut String, c: char)
    ensures
        final(s)@ == old(s)@.push(c),
{
    s.push(c);
}

/// Render `n` as exactly `width` lowercase hexadecimal digits.
pub fn hex_string(n: u128, width: usize) -> (r: String)
    ensures
        r@ == hex_digits(n as nat, width as nat),
    decreases width,
{
    if width == 0 {
        String::new()
    } else {
        let q: u128 = n / 16;
        let rem: u128 = n % 16;
        let mut r = hex_string(q, width - 1);
        let c = hex_char_of(rem as u8);
        push_char(&mut r, c);
        r
    }
}

/// The hexadecimal digit value of a character, if it has one.
fn hex_digit_of(c: char) -> (r: Option<u8>)
    ensures
        match r {
            Some(v) => is_hex_digit(c) && v < 16 && v as nat == hex_digit_value(c),
            None => !is_hex_digit(c),
        },
{
    match c {
        '0' => Some(0),
        '1' => Some(1),
        '2' => Some(2),
        '3' => Some(3),
        '4' => Some(4),
        '5' => Some(5),
        '6' => Some(6),
        '7' => Some(7),
        '8' => Some(8),
        '9' => Some(9),
        'a' => Some(10),
        'b' => Some(11),
        'c' => Some(12),
        'd' => Some(13),
        'e' => Some(14),
        'f' => Some(15),
        'A' => Some(10),
        'B' => Some(11),
        'C' => Some(12),
        'D' => Some(13),
        'E' => Some(14),
        'F' => Some(15),
        _ => None,
    }
}

/// Parse the characters of `s` between `from` and `to` as hexadecimal,
/// rejecting the range if any character is not a hexadecimal digit.
pub fn parse_hex_range(s: &str, from: usize, to: usize) -> (r: Option<u128>)
    requires
        from <= to,
        to <= s@.len(),
        to - from <= 32,
    ensures
        match r {
            Some(v) => all_hex(s@.subrange(from as int, to as int)) && v as nat == hex_value(
                s@.subrange(from as int, to as int),
            ),
            None => !all_hex(s@.subrange(from as int, to as int)),
        },
{
    let mut acc: u128 = 0;
    let mut i: usize = from;
    proof {
        assert(s@.subrange(from as int, from as int) =~= Seq::<char>::empty());
    }
    while i < to
        invariant
            from <= i <= to,
            to <= s@.len(),
            to - from <= 32,
            all_hex(s@.subrange(from as int, i as int)),
            acc as nat == hex_value(s@.subrange(from as int, i as int)),
            (acc as nat) < pow16((i - from) as nat),
        decreases to - i,
    {
        let c = s.get_char(i);
        match hex_digit_of(c) {
            Some(d) => {
                proof {
                    let prefix = s@.subrange(from as int, i as int);
                    let extended = s@.subrange(from as int, i + 1 as int);
                    assert(extended.drop_last() =~= prefix);
                    assert(extended.last() == s@[i as int]);
                    lemma_pow16_mono((i + 1 - from) as nat, 32);
                    lemma_pow16_32();
                }
                acc = acc * 16 + (d as u128);
                i = i + 1;
            },
            None => {
                proof {
                    let whole = s@.subrange(from as int, to as int);
                    assert(whole[i - from] == s@[i as int]);
                }
                return None;
            },
        }
    }
    proof {
        assert(s@.subrange(from as int, to as int) =~= s@.subrange(from as int, i as int));
    }
    Some(acc)
}

fn dec_char_of(d: u8) -> (c: char)
    requires
        d < 10,
    ensures
        c == dec_char(d as nat),
{
    hex_char_of(d)
}

/// Render `n` in decimal, without leading zeros.
pub fn dec_string_u8(n: u8) -> (r: String)
    ensures
        r@ == dec_digits(n as nat),
    decreases n,
{
    if n < 10 {
        let mut r = String::new();
        push_char(&mut r, dec_char_of(n));
        proof {
            assert(r@ =~= dec_digits(n as nat));
        }
        r
    } else {
        proof {
            lemma_div_decreases(n as int, 10);
        }
        let q: u8 = n / 10;
        let rem: u8 = n % 10;
        let mut r = dec_string_u8(q);
        push_char(&mut r, dec_char_of(rem));
        r
    }
}

} // verus!
