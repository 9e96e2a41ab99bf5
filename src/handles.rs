//! Fixed-length handle texts built from a counter, used when a random draw
//! is already taken.
use vstd::prelude::*;

use crate::digest::hex_digit;
use crate::text::string_from_chars;

verus! {

/// An ASCII letter or digit.
pub open spec fn is_alnum(c: char) -> bool {
    ('a' <= c <= 'z') || ('A' <= c <= 'Z') || ('0' <= c <= '9')
}

/// A text of `len` ASCII letters and digits.
pub open spec fn is_alnum_text(s: Seq<char>, len: nat) -> bool {
    s.len() == len && forall|i: int| 0 <= i < s.len() ==> is_alnum(#[trigger] s[i])
}

/// The `k`-th group of four bits of `j`, lowest first.
pub open spec fn group(j: u64, k: int) -> u64 {
    (j >> ((4 * k) as u64)) & 15u64
}

/// The same group, as a byte.
pub open spec fn nibble(j: u64, k: int) -> u8 {
    group(j, k) as u8
}

/// The sixteen hexadecimal digits of `j`, lowest first.
pub open spec fn counter_handle(j: u64) -> Seq<char> {
    Seq::new(16, |k: int| hex_digit(nibble(j, k)))
}

proof fn lemma_nibble_small(j: u64, k: int)
    requires
        0 <= k < 16,
    ensures
        nibble(j, k) < 16,
        nibble(j, k) as u64 == group(j, k),
{
    let s = (4 * k) as u64;
    assert((j >> s) & 15u64 < 16u64) by (bit_vector);
}

/// The sixteen digits, one by one.
proof fn lemma_hex_digits()
    ensures
        hex_digit(0) == '0' && hex_digit(1) == '1' && hex_digit(2) == '2' && hex_digit(3) == '3'
            && hex_digit(4) == '4' && hex_digit(5) == '5' && hex_digit(6) == '6' && hex_digit(7)
            == '7' && hex_digit(8) == '8' && hex_digit(9) == '9' && hex_digit(10) == 'a'
            && hex_digit(11) == 'b' && hex_digit(12) == 'c' && hex_digit(13) == 'd' && hex_digit(14)
            == 'e' && hex_digit(15) == 'f',
{
}

/// Distinct digits are distinct characters, all letters or digits.
proof fn lemma_hex_digit(x: u8, y: u8)
    requires
        x < 16,
        y < 16,
    ensures
        is_alnum(hex_digit(x)),
        hex_digit(x) == hex_digit(y) ==> x == y,
{
    lemma_hex_digits();
}

/// Distinct counters give distinct texts, each of sixteen letters and digits.
pub proof fn lemma_counter_handle(a: u64, b: u64)
    ensures
        is_alnum_text(counter_handle(a), 16),
        counter_handle(a) == counter_handle(b) ==> a == b,
{
    assert forall|i: int| 0 <= i < 16 implies is_alnum(#[trigger] counter_handle(a)[i]) by {
        lemma_nibble_small(a, i);
        lemma_hex_digit(nibble(a, i), 0);
    }
    if counter_handle(a) == counter_handle(b) {
        assert forall|k: int| 0 <= k < 16 implies #[trigger] group(a, k) == group(b, k) by {
            lemma_nibble_small(a, k);
            lemma_nibble_small(b, k);
            assert(counter_handle(a)[k] == counter_handle(b)[k]);
            lemma_hex_digit(nibble(a, k), nibble(b, k));
        }
        assert(group(a, 0) == group(b, 0)
            && group(a, 1) == group(b, 1)
            && group(a, 2) == group(b, 2)
            && group(a, 3) == group(b, 3)
            && group(a, 4) == group(b, 4)
            && group(a, 5) == group(b, 5)
            && group(a, 6) == group(b, 6)
            && group(a, 7) == group(b, 7)
            && group(a, 8) == group(b, 8)
            && group(a, 9) == group(b, 9)
            && group(a, 10) == group(b, 10)
            && group(a, 11) == group(b, 11)
            && group(a, 12) == group(b, 12)
            && group(a, 13) == group(b, 13)
            && group(a, 14) == group(b, 14)
            && group(a, 15) == group(b, 15));
        assert(a == b) by (bit_vector)
            requires
                (a >> 0u64) & 15 == (b >> 0u64) & 15,
                (a >> 4u64) & 15 == (b >> 4u64) & 15,
                (a >> 8u64) & 15 == (b >> 8u64) & 15,
                (a >> 12u64) & 15 == (b >> 12u64) & 15,
                (a >> 16u64) & 15 == (b >> 16u64) & 15,
                (a >> 20u64) & 15 == (b >> 20u64) & 15,
                (a >> 24u64) & 15 == (b >> 24u64) & 15,
                (a >> 28u64) & 15 == (b >> 28u64) & 15,
                (a >> 32u64) & 15 == (b >> 32u64) & 15,
                (a >> 36u64) & 15 == (b >> 36u64) & 15,
                (a >> 40u64) & 15 == (b >> 40u64) & 15,
                (a >> 44u64) & 15 == (b >> 44u64) & 15,
                (a >> 48u64) & 15 == (b >> 48u64) & 15,
                (a >> 52u64) & 15 == (b >> 52u64) & 15,
                (a >> 56u64) & 15 == (b >> 56u64) & 15,
                (a >> 60u64) & 15 == (b >> 60u64) & 15,
        ;
    }
}

fn hex_char(n: u8) -> (r: char)
    requires
        n < 16,
    ensures
        r == hex_digit(n),
{
    proof {
        lemma_hex_digits();
    }
    if n < 10 {
        if n < 5 {
            if n == 0 { '0' } else if n == 1 { '1' } else if n == 2 { '2' } else if n == 3 { '3' } else { '4' }
        } else {
            if n == 5 { '5' } else if n == 6 { '6' } else if n == 7 { '7' } else if n == 8 { '8' } else { '9' }
        }
    } else {
        if n == 10 { 'a' } else if n == 11 { 'b' } else if n == 12 { 'c' } else if n == 13 { 'd' } else if n == 14 { 'e' } else { 'f' }
    }
}

/// The text of `counter_handle(j)`.
pub fn counter_handle_text(j: u64) -> (r: String)
    ensures
        r@ == counter_handle(j),
{
    let mut cs: Vec<char> = Vec::new();
    let mut k: u64 = 0;
    while k < 16
        invariant
            k <= 16,
            cs@.len() == k,
            forall|i: int| 0 <= i < k ==> cs@[i] == hex_digit(#[trigger] nibble(j, i)),
        decreases 16 - k,
    {
        let s: u64 = 4 * k;
        let v: u64 = (j >> s) & 15u64;
        assert(v < 16) by (bit_vector)
            requires
                v == (j >> s) & 15u64,
        ;
        assert(nibble(j, k as int) == v as u8);
        cs.push(hex_char(v as u8));
        k = k + 1;
    }
    assert(cs@ =~= counter_handle(j));
    string_from_chars(&cs)
}

} // verus!
