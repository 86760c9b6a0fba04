//! The byte-level mutation operators.
//!
//! Every operator leaves its input untouched and returns a new buffer.

use vstd::prelude::*;
use crate::config::{
    ARITH_MAX, HAVOC_BLK_LARGE, HAVOC_BLK_MEDIUM, HAVOC_BLK_SMALL, HAVOC_BLK_XL, HAVOC_WAY,
    INTERESTING_16, INTERESTING_16_CNT, INTERESTING_32, INTERESTING_32_CNT, INTERESTING_8,
    INTERESTING_8_CNT, MAX_FILE,
};
use crate::random::gen_range;

verus! {

/// The mask that selects bit `k` of a byte, bit 0 being the most significant.
pub open spec fn bit_mask(k: int) -> u8 {
    128u8 >> (k as u64)
}

/// `s` with the bit at bit offset `pos` inverted. Bits are numbered from the
/// most significant bit of the first byte.
pub open spec fn flip_bit(s: Seq<u8>, pos: int) -> Seq<u8> {
    s.update(pos / 8, s[pos / 8] ^ bit_mask(pos % 8))
}

/// `s` with the `n` bits from bit offset `pos` on inverted.
pub open spec fn flip_bits(s: Seq<u8>, pos: int, n: nat) -> Seq<u8>
    decreases n,
{
    if n == 0 {
        s
    } else {
        flip_bits(flip_bit(s, pos), pos + 1, (n - 1) as nat)
    }
}

/// `s` with the `n` bytes from `pos` on inverted.
pub open spec fn flip_bytes(s: Seq<u8>, pos: int, n: int) -> Seq<u8> {
    Seq::new(
        s.len(),
        |i: int|
            if pos <= i < pos + n {
                s[i] ^ 0xffu8
            } else {
                s[i]
            },
    )
}

proof fn lemma_bit_position(pos: u64)
    ensures
        (pos >> 3) == pos / 8,
        (pos & 7) == pos % 8,
        (pos & 7) < 8,
{
    assert((pos >> 3) == pos / 8 && (pos & 7) == pos % 8 && (pos & 7) < 8) by (bit_vector);
}

fn flipbit(origin_seed: &mut Vec<u8>, pos: u64)
    requires
        pos < 8 * old(origin_seed)@.len(),
    ensures
        final(origin_seed)@ == flip_bit(old(origin_seed)@, pos as int),
{
    proof {
        lemma_bit_position(pos);
    }
    assert(pos / 8 < origin_seed.len());
    let pos_byte = (pos >> 3) as usize;
    let pos_bit = pos & 7;
    let flipped = origin_seed[pos_byte] ^ (128u8 >> pos_bit);
    origin_seed[pos_byte] = flipped;
}

/// Inverts the bit at bit offset `pos`.
pub fn flip_one_bit(input_seed: &Vec<u8>, pos: u64) -> (output_seed: Vec<u8>)
    requires
        pos < 8 * input_seed@.len(),
    ensures
        output_seed@ == flip_bits(input_seed@, pos as int, 1),
{
    let mut output_seed = input_seed.clone();
    flipbit(&mut output_seed, pos);
    proof {
        reveal_with_fuel(flip_bits, 2);
    }
    output_seed
}

/// Inverts the bit at bit offset `pos`.
pub fn flip_one_bit_option(input_seed: &Vec<u8>, pos: u64) -> (output: Option<Vec<u8>>)
    requires
        pos < 8 * input_seed@.len(),
    ensures
        output matches Some(v) && v@ == flip_bits(input_seed@, pos as int, 1),
{
    Some(flip_one_bit(input_seed, pos))
}

/// Inverts the two bits from bit offset `pos` on.
pub fn flip_two_bits(input_seed: &Vec<u8>, pos: u64) -> (output_seed: Vec<u8>)
    requires
        pos + 2 <= 8 * input_seed@.len(),
        pos + 1 <= u64::MAX,
    ensures
        output_seed@ == flip_bits(input_seed@, pos as int, 2),
{
    let mut output_seed = input_seed.clone();
    flipbit(&mut output_seed, pos);
    flipbit(&mut output_seed, pos + 1);
    proof {
        reveal_with_fuel(flip_bits, 3);
    }
    output_seed
}

/// Inverts the two bits from bit offset `pos` on.
pub fn flip_two_bits_option(input_seed: &Vec<u8>, pos: u64) -> (output: Option<Vec<u8>>)
    requires
        pos + 2 <= 8 * input_seed@.len(),
        pos + 1 <= u64::MAX,
    ensures
        output matches Some(v) && v@ == flip_bits(input_seed@, pos as int, 2),
{
    Some(flip_two_bits(input_seed, pos))
}

/// Inverts the four bits from bit offset `pos` on.
pub fn flip_four_bits(input_seed: &Vec<u8>, pos: u64) -> (output_seed: Vec<u8>)
    requires
        pos + 4 <= 8 * input_seed@.len(),
        pos + 3 <= u64::MAX,
    ensures
        output_seed@ == flip_bits(input_seed@, pos as int, 4),
{
    let mut output_seed = input_seed.clone();
    flipbit(&mut output_seed, pos);
    flipbit(&mut output_seed, pos + 1);
    flipbit(&mut output_seed, pos + 2);
    flipbit(&mut output_seed, pos + 3);
    proof {
        reveal_with_fuel(flip_bits, 5);
    }
    output_seed
}

/// Inverts the four bits from bit offset `pos` on.
pub fn flip_four_bits_option(input_seed: &Vec<u8>, pos: u64) -> (output: Option<Vec<u8>>)
    requires
        pos + 4 <= 8 * input_seed@.len(),
        pos + 3 <= u64::MAX,
    ensures
        output matches Some(v) && v@ == flip_bits(input_seed@, pos as int, 4),
{
    Some(flip_four_bits(input_seed, pos))
}

fn flipbyte(origin_seed: &mut Vec<u8>, pos: u64)
    requires
        pos < old(origin_seed)@.len(),
    ensures
        final(origin_seed)@ == old(origin_seed)@.update(
            pos as int,
            old(origin_seed)@[pos as int] ^ 0xffu8,
        ),
{
    assert(pos < origin_seed.len());
    let flipped = origin_seed[pos as usize] ^ 0xFF;
    origin_seed[pos as usize] = flipped;
}

/// Inverts the byte at `byte_pos`.
pub fn flip_one_byte(input_seed: &Vec<u8>, byte_pos: u64) -> (output_seed: Vec<u8>)
    requires
        byte_pos < input_seed@.len(),
    ensures
        output_seed@ == flip_bytes(input_seed@, byte_pos as int, 1),
{
    let mut output_seed = input_seed.clone();
    flipbyte(&mut output_seed, byte_pos);
    assert(output_seed@ =~= flip_bytes(input_seed@, byte_pos as int, 1));
    output_seed
}

/// Inverts the byte at `byte_pos`.
pub fn flip_one_byte_option(input_seed: &Vec<u8>, byte_pos: u64) -> (output: Option<Vec<u8>>)
    requires
        byte_pos < input_seed@.len(),
    ensures
        output matches Some(v) && v@ == flip_bytes(input_seed@, byte_pos as int, 1),
{
    Some(flip_one_byte(input_seed, byte_pos))
}

/// Inverts the two bytes from `byte_pos` on.
pub fn flip_two_bytes(input_seed: &Vec<u8>, byte_pos: u64) -> (output_seed: Vec<u8>)
    requires
        byte_pos + 2 <= input_seed@.len(),
    ensures
        output_seed@ == flip_bytes(input_seed@, byte_pos as int, 2),
{
    assert(byte_pos + 2 <= input_seed.len());
    let mut output_seed = input_seed.clone();
    flipbyte(&mut output_seed, byte_pos);
    flipbyte(&mut output_seed, byte_pos + 1);
    assert(output_seed@ =~= flip_bytes(input_seed@, byte_pos as int, 2));
    output_seed
}

/// Inverts the two bytes from `byte_pos` on.
pub fn flip_two_bytes_option(input_seed: &Vec<u8>, byte_pos: u64) -> (output: Option<Vec<u8>>)
    requires
        byte_pos + 2 <= input_seed@.len(),
    ensures
        output matches Some(v) && v@ == flip_bytes(input_seed@, byte_pos as int, 2),
{
    Some(flip_two_bytes(input_seed, byte_pos))
}

/// Inverts the four bytes from `byte_pos` on.
pub fn flip_four_bytes(input_seed: &Vec<u8>, byte_pos: u64) -> (output_seed: Vec<u8>)
    requires
        byte_pos + 4 <= input_seed@.len(),
    ensures
        output_seed@ == flip_bytes(input_seed@, byte_pos as int, 4),
{
    assert(byte_pos + 4 <= input_seed.len());
    let mut output_seed = input_seed.clone();
    flipbyte(&mut output_seed, byte_pos);
    flipbyte(&mut output_seed, byte_pos + 1);
    flipbyte(&mut output_seed, byte_pos + 2);
    flipbyte(&mut output_seed, byte_pos + 3);
    assert(output_seed@ =~= flip_bytes(input_seed@, byte_pos as int, 4));
    output_seed
}

/// Inverts the four bytes from `byte_pos` on.
pub fn flip_four_bytes_option(input_seed: &Vec<u8>, byte_pos: u64) -> (output: Option<Vec<u8>>)
    requires
        byte_pos + 4 <= input_seed@.len(),
    ensures
        output matches Some(v) && v@ == flip_bytes(input_seed@, byte_pos as int, 4),
{
    Some(flip_four_bytes(input_seed, byte_pos))
}

/// Inverting the same bytes twice gives the buffer back.
pub proof fn lemma_flip_bytes_involution(s: Seq<u8>, pos: int, n: int)
    ensures
        flip_bytes(flip_bytes(s, pos, n), pos, n) == s,
{
    assert forall|b: u8| (#[trigger] (b ^ 0xffu8)) ^ 0xffu8 == b by {
        assert((b ^ 0xffu8) ^ 0xffu8 == b) by (bit_vector);
    }
    assert(flip_bytes(flip_bytes(s, pos, n), pos, n) =~= s);
}

/// `s` with the byte at `pos` replaced by `byte_new`.
pub open spec fn set_byte(s: Seq<u8>, pos: int, byte_new: u8) -> Seq<u8> {
    s.update(pos, byte_new)
}

/// Overwrites the byte at `byte_pos` with the non-zero value `byte_new`.
pub fn set_one_byte(input_seed: &Vec<u8>, byte_pos: u64, byte_new: u8) -> (output_seed: Vec<u8>)
    requires
        byte_pos < input_seed@.len(),
        byte_new != 0,
    ensures
        output_seed@ == set_byte(input_seed@, byte_pos as int, byte_new),
{
    assert(byte_pos < input_seed.len());
    let mut output_seed = input_seed.clone();
    output_seed[byte_pos as usize] = byte_new;
    output_seed
}

/// Number of zero bits below the lowest set bit of `x`; 0 for `x == 0`.
pub open spec fn trailing_zeros(x: nat) -> nat
    decreases x,
{
    if x == 0 || x % 2 == 1 {
        0
    } else {
        1 + trailing_zeros(x / 2)
    }
}

/// `x` shifted right until its lowest bit is set; 0 for `x == 0`.
pub open spec fn strip_trailing_zeros(x: nat) -> nat
    decreases x,
{
    if x == 0 || x % 2 == 1 {
        x
    } else {
        strip_trailing_zeros(x / 2)
    }
}

/// Whether a change of a word by the bit difference `xor_val` is one that a
/// bit or byte flip produces as well: no change at all, a run of one, two or
/// four bits anywhere, or a run of one, two or four whole bytes on a byte
/// boundary.
pub open spec fn could_be_bitflip_spec(xor_val: u32) -> bool {
    let rest = strip_trailing_zeros(xor_val as nat);
    let shift = trailing_zeros(xor_val as nat);
    ||| xor_val == 0
    ||| rest == 1
    ||| rest == 3
    ||| rest == 15
    ||| (shift % 8 == 0 && (rest == 0xff || rest == 0xffff || rest == 0xffff_ffff))
}

proof fn lemma_low_bit(x: u32)
    ensures
        ((x & 1) == 0) == (x % 2 == 0),
        (x >> 1) == x / 2,
{
    assert((((x & 1) == 0) == (x % 2 == 0)) && (x >> 1) == x / 2) by (bit_vector);
}

/// Decides `could_be_bitflip_spec`.
pub fn could_be_bitflip(xor_val_orign: u32) -> (redundant: bool)
    ensures
        redundant == could_be_bitflip_spec(xor_val_orign),
{
    let mut sh: u32 = 0;
    let mut xor_val = xor_val_orign;
    if xor_val == 0 {
        return true;
    }
    proof {
        lemma_low_bit(xor_val);
        lemma_trailing_zeros_bound(xor_val_orign);
    }
    while (xor_val & 1) == 0
        invariant
            xor_val != 0,
            ((xor_val & 1) == 0) == (xor_val % 2 == 0),
            strip_trailing_zeros(xor_val_orign as nat) == strip_trailing_zeros(xor_val as nat),
            trailing_zeros(xor_val_orign as nat) == sh + trailing_zeros(xor_val as nat),
            trailing_zeros(xor_val_orign as nat) <= 31,
        decreases xor_val,
    {
        proof {
            lemma_low_bit(xor_val);
            lemma_low_bit(xor_val >> 1);
        }
        sh += 1;
        xor_val >>= 1;
    }
    if xor_val == 1 || xor_val == 3 || xor_val == 15 {
        return true;
    }
    if (sh & 7) != 0 {
        assert((sh & 7) == sh % 8) by (bit_vector);
        return false;
    }
    assert((sh & 7) == sh % 8) by (bit_vector);
    if xor_val == 0xff || xor_val == 0xffff || xor_val == 0xffffffff {
        return true;
    }
    false
}

proof fn lemma_trailing_zeros_bound(x: u32)
    ensures
        trailing_zeros(x as nat) <= 31,
{
    assert(pow2(32) == 0x1_0000_0000) by {
        reveal_with_fuel(pow2, 33);
    }
    lemma_trailing_zeros_below(x as nat, 32);
}

spec fn pow2(k: nat) -> nat
    decreases k,
{
    if k == 0 {
        1
    } else {
        2 * pow2((k - 1) as nat)
    }
}

proof fn lemma_trailing_zeros_below(x: nat, k: nat)
    requires
        x < pow2(k),
    ensures
        x != 0 ==> trailing_zeros(x) < k,
    decreases k,
{
    if x != 0 && x % 2 == 0 {
        assert(k != 0);
        lemma_trailing_zeros_below(x / 2, (k - 1) as nat);
    }
}

/// The `n` bytes of `s` from `pos` on, read as a number with the first byte
/// as the most significant.
pub open spec fn be_value(s: Seq<u8>, pos: int, n: nat) -> nat
    decreases n,
{
    if n == 0 {
        0
    } else {
        be_value(s, pos, (n - 1) as nat) * 256 + s[pos + n - 1] as nat
    }
}

/// The `n` bytes of `s` from `pos` on, read as a number with the first byte
/// as the least significant.
pub open spec fn le_value(s: Seq<u8>, pos: int, n: nat) -> nat
    decreases n,
{
    if n == 0 {
        0
    } else {
        s[pos] as nat + 256 * le_value(s, pos + 1, (n - 1) as nat)
    }
}

/// `s` with the `n` bytes from `pos` on replaced by the low `n` base-256
/// digits of `v`, the most significant first.
pub open spec fn put_be(s: Seq<u8>, pos: int, n: nat, v: nat) -> Seq<u8>
    decreases n,
{
    if n == 0 {
        s
    } else {
        put_be(s, pos, (n - 1) as nat, v / 256).update(pos + n - 1, (v % 256) as u8)
    }
}

/// `s` with the `n` bytes from `pos` on replaced by the low `n` base-256
/// digits of `v`, the least significant first.
pub open spec fn put_le(s: Seq<u8>, pos: int, n: nat, v: nat) -> Seq<u8>
    decreases n,
{
    if n == 0 {
        s
    } else {
        put_le(s.update(pos, (v % 256) as u8), pos + 1, (n - 1) as nat, v / 256)
    }
}

/// The number of values an `n`-byte word can take: 256 to the power `n`.
pub open spec fn word_modulus(n: nat) -> nat
    decreases n,
{
    if n == 0 {
        1
    } else {
        256 * word_modulus((n - 1) as nat)
    }
}

/// The `n`-byte word of `s` at `pos`: big-endian, or little-endian when
/// `other_endian` is set.
pub open spec fn word_value(s: Seq<u8>, pos: int, n: nat, other_endian: bool) -> nat {
    if other_endian {
        le_value(s, pos, n)
    } else {
        be_value(s, pos, n)
    }
}

/// `s` with the `n`-byte word at `pos` set to `v`, in the byte order that
/// `word_value` reads.
pub open spec fn put_word(s: Seq<u8>, pos: int, n: nat, v: nat, other_endian: bool) -> Seq<u8> {
    if other_endian {
        put_le(s, pos, n, v)
    } else {
        put_be(s, pos, n, v)
    }
}

/// The word at `pos` plus `delta`, wrapping at the word's width.
pub open spec fn added_value(s: Seq<u8>, pos: int, n: nat, delta: nat, other_endian: bool) -> nat {
    (word_value(s, pos, n, other_endian) + delta) % word_modulus(n)
}

/// The word at `pos` minus `delta`, wrapping at the word's width.
pub open spec fn subtracted_value(
    s: Seq<u8>,
    pos: int,
    n: nat,
    delta: nat,
    other_endian: bool,
) -> nat {
    ((word_value(s, pos, n, other_endian) - delta) % (word_modulus(n) as int)) as nat
}

/// `s` with `delta` added to the `n`-byte word at `pos`.
pub open spec fn arith_add(s: Seq<u8>, pos: int, n: nat, delta: nat, other_endian: bool) -> Seq<
    u8,
> {
    put_word(s, pos, n, added_value(s, pos, n, delta, other_endian), other_endian)
}

/// `s` with `delta` subtracted from the `n`-byte word at `pos`.
pub open spec fn arith_sub(s: Seq<u8>, pos: int, n: nat, delta: nat, other_endian: bool) -> Seq<
    u8,
> {
    put_word(s, pos, n, subtracted_value(s, pos, n, delta, other_endian), other_endian)
}

/// The bits in which two values of a word of at most four bytes differ.
pub open spec fn value_xor(before: nat, after: nat) -> u32 {
    (before as u32) ^ (after as u32)
}

/// Whether adding `delta` to the word at `pos` changes it in a way that a
/// bit or byte flip produces as well, or not at all.
pub open spec fn add_is_redundant(
    s: Seq<u8>,
    pos: int,
    n: nat,
    delta: nat,
    other_endian: bool,
) -> bool {
    could_be_bitflip_spec(
        value_xor(word_value(s, pos, n, other_endian), added_value(s, pos, n, delta, other_endian)),
    )
}

/// Whether subtracting `delta` from the word at `pos` changes it in a way
/// that a bit or byte flip produces as well, or not at all.
pub open spec fn sub_is_redundant(
    s: Seq<u8>,
    pos: int,
    n: nat,
    delta: nat,
    other_endian: bool,
) -> bool {
    could_be_bitflip_spec(
        value_xor(
            word_value(s, pos, n, other_endian),
            subtracted_value(s, pos, n, delta, other_endian),
        ),
    )
}

/// The values of `word_modulus` for the three word widths.
pub proof fn lemma_word_modulus()
    ensures
        word_modulus(1) == 0x100,
        word_modulus(2) == 0x1_0000,
        word_modulus(4) == 0x1_0000_0000,
{
    reveal_with_fuel(word_modulus, 5);
}

fn read_word16(input: &Vec<u8>, pos: u64, other_endian: bool) -> (v: u16)
    requires
        pos + 2 <= input@.len(),
    ensures
        v == word_value(input@, pos as int, 2, other_endian),
{
    assert(pos + 2 <= input.len());
    let b0 = input[pos as usize] as u16;
    let b1 = input[(pos + 1) as usize] as u16;
    proof {
        reveal_with_fuel(be_value, 3);
        reveal_with_fuel(le_value, 3);
    }
    if other_endian {
        b0 + 256 * b1
    } else {
        b0 * 256 + b1
    }
}

fn read_word32(input: &Vec<u8>, pos: u64, other_endian: bool) -> (v: u32)
    requires
        pos + 4 <= input@.len(),
    ensures
        v == word_value(input@, pos as int, 4, other_endian),
{
    assert(pos + 4 <= input.len());
    let b0 = input[pos as usize] as u32;
    let b1 = input[(pos + 1) as usize] as u32;
    let b2 = input[(pos + 2) as usize] as u32;
    let b3 = input[(pos + 3) as usize] as u32;
    proof {
        reveal_with_fuel(be_value, 5);
        reveal_with_fuel(le_value, 5);
    }
    if other_endian {
        b0 + 256 * (b1 + 256 * (b2 + 256 * b3))
    } else {
        ((b0 * 256 + b1) * 256 + b2) * 256 + b3
    }
}

fn write_word16(input: &Vec<u8>, pos: u64, v: u16, other_endian: bool) -> (output: Vec<u8>)
    requires
        pos + 2 <= input@.len(),
    ensures
        output@ == put_word(input@, pos as int, 2, v as nat, other_endian),
{
    assert(pos + 2 <= input.len());
    let high = (v / 256) as u8;
    let low = (v % 256) as u8;
    let mut output = input.clone();
    proof {
        reveal_with_fuel(put_be, 3);
        reveal_with_fuel(put_le, 3);
    }
    if other_endian {
        output[pos as usize] = low;
        output[(pos + 1) as usize] = high;
        assert(output@ =~= put_le(input@, pos as int, 2, v as nat));
    } else {
        output[pos as usize] = high;
        output[(pos + 1) as usize] = low;
        assert(output@ =~= put_be(input@, pos as int, 2, v as nat));
    }
    output
}

fn write_word32(input: &Vec<u8>, pos: u64, v: u32, other_endian: bool) -> (output: Vec<u8>)
    requires
        pos + 4 <= input@.len(),
    ensures
        output@ == put_word(input@, pos as int, 4, v as nat, other_endian),
{
    assert(pos + 4 <= input.len());
    let d0 = (v % 256) as u8;
    let d1 = (v / 256 % 256) as u8;
    let d2 = (v / 256 / 256 % 256) as u8;
    let d3 = (v / 256 / 256 / 256) as u8;
    let mut output = input.clone();
    proof {
        reveal_with_fuel(put_be, 5);
        reveal_with_fuel(put_le, 5);
    }
    if other_endian {
        output[pos as usize] = d0;
        output[(pos + 1) as usize] = d1;
        output[(pos + 2) as usize] = d2;
        output[(pos + 3) as usize] = d3;
        assert(output@ =~= put_le(input@, pos as int, 4, v as nat));
    } else {
        output[pos as usize] = d3;
        output[(pos + 1) as usize] = d2;
        output[(pos + 2) as usize] = d1;
        output[(pos + 3) as usize] = d0;
        assert(output@ =~= put_be(input@, pos as int, 4, v as nat));
    }
    output
}

/// Adds `arith_number` to the byte at `byte_pos`. The result
/// wraps at the width of the word.
pub fn arithmetic_add_one_byte(
    input_seed: &Vec<u8>,
    byte_pos: u64,
    arith_number: u8,
) -> (output_seed: Vec<u8>)
    requires
        byte_pos < input_seed@.len(),
    ensures
        output_seed@ == arith_add(input_seed@, byte_pos as int, 1, arith_number as nat, false),
{
    assert(byte_pos < input_seed.len());
    let orig = input_seed[byte_pos as usize];
    proof {
        reveal_with_fuel(be_value, 2);
        reveal_with_fuel(put_be, 2);
        lemma_word_modulus();
    }
    let changed = orig.wrapping_add(arith_number);
    let mut output_seed = input_seed.clone();
    output_seed[byte_pos as usize] = changed;
    output_seed
}

/// As `arithmetic_add_one_byte`, but `None` where the change is one that a bit
/// or byte flip makes as well, or no change at all.
pub fn arithmetic_add_one_byte_option(
    input_seed: &Vec<u8>,
    byte_pos: u64,
    arith_number: u8,
) -> (output: Option<Vec<u8>>)
    requires
        byte_pos < input_seed@.len(),
    ensures
        match output {
            None => add_is_redundant(input_seed@, byte_pos as int, 1, arith_number as nat, false),
            Some(v) => !add_is_redundant(
                input_seed@,
                byte_pos as int,
                1,
                arith_number as nat,
                false,
            )
                && v@ == arith_add(input_seed@, byte_pos as int, 1, arith_number as nat, false),
        },
{
    assert(byte_pos < input_seed.len());
    let orig = input_seed[byte_pos as usize];
    proof {
        reveal_with_fuel(be_value, 2);
        reveal_with_fuel(put_be, 2);
        lemma_word_modulus();
    }
    let changed = orig.wrapping_add(arith_number);
    if could_be_bitflip((orig as u32) ^ (changed as u32)) {
        None
    } else {
        let mut output_seed = input_seed.clone();
        output_seed[byte_pos as usize] = changed;
        Some(output_seed)
    }
}

/// Whether subtracting `arith_number` from the byte at `byte_pos` is a
/// change that a bit or byte flip makes as well, or no change at all.
pub fn sub_one_byte_could_be_bitflip(
    input_seed: &Vec<u8>,
    byte_pos: u64,
    arith_number: u8,
) -> (redundant: bool)
    requires
        byte_pos < input_seed@.len(),
    ensures
        redundant == sub_is_redundant(input_seed@, byte_pos as int, 1, arith_number as nat, false),
{
    assert(byte_pos < input_seed.len());
    let orig = input_seed[byte_pos as usize];
    proof {
        reveal_with_fuel(be_value, 2);
        lemma_word_modulus();
    }
    let changed = orig.wrapping_sub(arith_number);
    could_be_bitflip((orig as u32) ^ (changed as u32))
}

/// Subtracts `arith_number` from the byte at `byte_pos`. The result
/// wraps at the width of the word.
pub fn arithmetic_sub_one_byte(
    input_seed: &Vec<u8>,
    byte_pos: u64,
    arith_number: u8,
) -> (output_seed: Vec<u8>)
    requires
        byte_pos < input_seed@.len(),
    ensures
        output_seed@ == arith_sub(input_seed@, byte_pos as int, 1, arith_number as nat, false),
{
    assert(byte_pos < input_seed.len());
    let orig = input_seed[byte_pos as usize];
    proof {
        reveal_with_fuel(be_value, 2);
        reveal_with_fuel(put_be, 2);
        lemma_word_modulus();
    }
    let changed = orig.wrapping_sub(arith_number);
    let mut output_seed = input_seed.clone();
    output_seed[byte_pos as usize] = changed;
    output_seed
}

/// As `arithmetic_sub_one_byte`, but `None` where the change is one that a bit
/// or byte flip makes as well, or no change at all.
pub fn arithmetic_sub_one_byte_option(
    input_seed: &Vec<u8>,
    byte_pos: u64,
    arith_number: u8,
) -> (output: Option<Vec<u8>>)
    requires
        byte_pos < input_seed@.len(),
    ensures
        match output {
            None => sub_is_redundant(input_seed@, byte_pos as int, 1, arith_number as nat, false),
            Some(v) => !sub_is_redundant(
                input_seed@,
                byte_pos as int,
                1,
                arith_number as nat,
                false,
            )
                && v@ == arith_sub(input_seed@, byte_pos as int, 1, arith_number as nat, false),
        },
{
    assert(byte_pos < input_seed.len());
    let orig = input_seed[byte_pos as usize];
    proof {
        reveal_with_fuel(be_value, 2);
        reveal_with_fuel(put_be, 2);
        lemma_word_modulus();
    }
    let changed = orig.wrapping_sub(arith_number);
    if could_be_bitflip((orig as u32) ^ (changed as u32)) {
        None
    } else {
        let mut output_seed = input_seed.clone();
        output_seed[byte_pos as usize] = changed;
        Some(output_seed)
    }
}

/// Adds `arith_number` to the two-byte word at `byte_pos`, read with the first
/// byte as the most significant. The result wraps at the width of the word.
pub fn arithmetic_add_two_bytes(
    input_seed: &Vec<u8>,
    byte_pos: u64,
    arith_number: u16,
) -> (output_seed: Vec<u8>)
    requires
        byte_pos + 2 <= input_seed@.len(),
    ensures
        output_seed@ == arith_add(input_seed@, byte_pos as int, 2, arith_number as nat, false),
{
    let orig_old = read_word16(input_seed, byte_pos, false);
    proof {
        lemma_word_modulus();
    }
    let orig_new = orig_old.wrapping_add(arith_number);
    write_word16(input_seed, byte_pos, orig_new, false)
}

/// As `arithmetic_add_two_bytes`, but `None` where the change is one that a bit
/// or byte flip makes as well, or no change at all.
pub fn arithmetic_add_two_bytes_option(
    input_seed: &Vec<u8>,
    byte_pos: u64,
    arith_number: u16,
) -> (output: Option<Vec<u8>>)
    requires
        byte_pos + 2 <= input_seed@.len(),
    ensures
        match output {
            None => add_is_redundant(input_seed@, byte_pos as int, 2, arith_number as nat, false),
            Some(v) => !add_is_redundant(
                input_seed@,
                byte_pos as int,
                2,
                arith_number as nat,
                false,
            )
                && v@ == arith_add(input_seed@, byte_pos as int, 2, arith_number as nat, false),
        },
{
    let orig_old = read_word16(input_seed, byte_pos, false);
    proof {
        lemma_word_modulus();
    }
    let orig_new = orig_old.wrapping_add(arith_number);
    if could_be_bitflip((orig_old as u32) ^ (orig_new as u32)) {
        None
    } else {
        Some(write_word16(input_seed, byte_pos, orig_new, false))
    }
}

/// Subtracts `arith_number` from the two-byte word at `byte_pos`, read with the
/// first byte as the most significant. The result wraps at the width of the
/// word.
pub fn arithmetic_sub_two_bytes(
    input_seed: &Vec<u8>,
    byte_pos: u64,
    arith_number: u16,
) -> (output_seed: Vec<u8>)
    requires
        byte_pos + 2 <= input_seed@.len(),
    ensures
        output_seed@ == arith_sub(input_seed@, byte_pos as int, 2, arith_number as nat, false),
{
    let orig_old = read_word16(input_seed, byte_pos, false);
    proof {
        lemma_word_modulus();
    }
    let orig_new = orig_old.wrapping_sub(arith_number);
    write_word16(input_seed, byte_pos, orig_new, false)
}

/// As `arithmetic_sub_two_bytes`, but `None` where the change is one that a bit
/// or byte flip makes as well, or no change at all.
pub fn arithmetic_sub_two_bytes_option(
    input_seed: &Vec<u8>,
    byte_pos: u64,
    arith_number: u16,
) -> (output: Option<Vec<u8>>)
    requires
        byte_pos + 2 <= input_seed@.len(),
    ensures
        match output {
            None => sub_is_redundant(input_seed@, byte_pos as int, 2, arith_number as nat, false),
            Some(v) => !sub_is_redundant(
                input_seed@,
                byte_pos as int,
                2,
                arith_number as nat,
                false,
            )
                && v@ == arith_sub(input_seed@, byte_pos as int, 2, arith_number as nat, false),
        },
{
    let orig_old = read_word16(input_seed, byte_pos, false);
    proof {
        lemma_word_modulus();
    }
    let orig_new = orig_old.wrapping_sub(arith_number);
    if could_be_bitflip((orig_old as u32) ^ (orig_new as u32)) {
        None
    } else {
        Some(write_word16(input_seed, byte_pos, orig_new, false))
    }
}

/// Adds `arith_number` to the two-byte word at `byte_pos`, read with the first
/// byte as the least significant. The result wraps at the width of the word.
pub fn arithmetic_add_two_bytes_another_endian(
    input_seed: &Vec<u8>,
    byte_pos: u64,
    arith_number: u16,
) -> (output_seed: Vec<u8>)
    requires
        byte_pos + 2 <= input_seed@.len(),
    ensures
        output_seed@ == arith_add(input_seed@, byte_pos as int, 2, arith_number as nat, true),
{
    let orig_old = read_word16(input_seed, byte_pos, true);
    proof {
        lemma_word_modulus();
    }
    let orig_new = orig_old.wrapping_add(arith_number);
    write_word16(input_seed, byte_pos, orig_new, true)
}

/// As `arithmetic_add_two_bytes_another_endian`, but `None` where the change is
/// one that a bit or byte flip makes as well, or no change at all.
pub fn arithmetic_add_two_bytes_another_endian_option(
    input_seed: &Vec<u8>,
    byte_pos: u64,
    arith_number: u16,
) -> (output: Option<Vec<u8>>)
    requires
        byte_pos + 2 <= input_seed@.len(),
    ensures
        match output {
            None => add_is_redundant(input_seed@, byte_pos as int, 2, arith_number as nat, true),
            Some(v) => !add_is_redundant(input_seed@, byte_pos as int, 2, arith_number as nat, true)
                && v@ == arith_add(input_seed@, byte_pos as int, 2, arith_number as nat, true),
        },
{
    let orig_old = read_word16(input_seed, byte_pos, true);
    proof {
        lemma_word_modulus();
    }
    let orig_new = orig_old.wrapping_add(arith_number);
    if could_be_bitflip((orig_old as u32) ^ (orig_new as u32)) {
        None
    } else {
        Some(write_word16(input_seed, byte_pos, orig_new, true))
    }
}

/// Subtracts `arith_number` from the two-byte word at `byte_pos`, read with the
/// first byte as the least significant. The result wraps at the width of the
/// word.
pub fn arithmetic_sub_two_bytes_another_endian(
    input_seed: &Vec<u8>,
    byte_pos: u64,
    arith_number: u16,
) -> (output_seed: Vec<u8>)
    requires
        byte_pos + 2 <= input_seed@.len(),
    ensures
        output_seed@ == arith_sub(input_seed@, byte_pos as int, 2, arith_number as nat, true),
{
    let orig_old = read_word16(input_seed, byte_pos, true);
    proof {
        lemma_word_modulus();
    }
    let orig_new = orig_old.wrapping_sub(arith_number);
    write_word16(input_seed, byte_pos, orig_new, true)
}

/// As `arithmetic_sub_two_bytes_another_endian`, but `None` where the change is
/// one that a bit or byte flip makes as well, or no change at all.
pub fn arithmetic_sub_two_bytes_another_endian_option(
    input_seed: &Vec<u8>,
    byte_pos: u64,
    arith_number: u16,
) -> (output: Option<Vec<u8>>)
    requires
        byte_pos + 2 <= input_seed@.len(),
    ensures
        match output {
            None => sub_is_redundant(input_seed@, byte_pos as int, 2, arith_number as nat, true),
            Some(v) => !sub_is_redundant(input_seed@, byte_pos as int, 2, arith_number as nat, true)
                && v@ == arith_sub(input_seed@, byte_pos as int, 2, arith_number as nat, true),
        },
{
    let orig_old = read_word16(input_seed, byte_pos, true);
    proof {
        lemma_word_modulus();
    }
    let orig_new = orig_old.wrapping_sub(arith_number);
    if could_be_bitflip((orig_old as u32) ^ (orig_new as u32)) {
        None
    } else {
        Some(write_word16(input_seed, byte_pos, orig_new, true))
    }
}

/// Adds `arith_number` to the four-byte word at `byte_pos`, read with the first
/// byte as the most significant. The result wraps at the width of the word.
pub fn arithmetic_add_four_bytes(
    input_seed: &Vec<u8>,
    byte_pos: u64,
    arith_number: u32,
) -> (output_seed: Vec<u8>)
    requires
        byte_pos + 4 <= input_seed@.len(),
    ensures
        output_seed@ == arith_add(input_seed@, byte_pos as int, 4, arith_number as nat, false),
{
    let orig_old = read_word32(input_seed, byte_pos, false);
    proof {
        lemma_word_modulus();
    }
    let orig_new = orig_old.wrapping_add(arith_number);
    write_word32(input_seed, byte_pos, orig_new, false)
}

/// As `arithmetic_add_four_bytes`, but `None` where the change is one that a bit
/// or byte flip makes as well, or no change at all.
pub fn arithmetic_add_four_bytes_option(
    input_seed: &Vec<u8>,
    byte_pos: u64,
    arith_number: u32,
) -> (output: Option<Vec<u8>>)
    requires
        byte_pos + 4 <= input_seed@.len(),
    ensures
        match output {
            None => add_is_redundant(input_seed@, byte_pos as int, 4, arith_number as nat, false),
            Some(v) => !add_is_redundant(
                input_seed@,
                byte_pos as int,
                4,
                arith_number as nat,
                false,
            )
                && v@ == arith_add(input_seed@, byte_pos as int, 4, arith_number as nat, false),
        },
{
    let orig_old = read_word32(input_seed, byte_pos, false);
    proof {
        lemma_word_modulus();
    }
    let orig_new = orig_old.wrapping_add(arith_number);
    if could_be_bitflip(orig_old ^ orig_new) {
        None
    } else {
        Some(write_word32(input_seed, byte_pos, orig_new, false))
    }
}

/// Subtracts `arith_number` from the four-byte word at `byte_pos`, read with the
/// first byte as the most significant. The result wraps at the width of the
/// word.
pub fn arithmetic_sub_four_bytes(
    input_seed: &Vec<u8>,
    byte_pos: u64,
    arith_number: u32,
) -> (output_seed: Vec<u8>)
    requires
        byte_pos + 4 <= input_seed@.len(),
    ensures
        output_seed@ == arith_sub(input_seed@, byte_pos as int, 4, arith_number as nat, false),
{
    let orig_old = read_word32(input_seed, byte_pos, false);
    proof {
        lemma_word_modulus();
    }
    let orig_new = orig_old.wrapping_sub(arith_number);
    write_word32(input_seed, byte_pos, orig_new, false)
}

/// As `arithmetic_sub_four_bytes`, but `None` where the change is one that a bit
/// or byte flip makes as well, or no change at all.
pub fn arithmetic_sub_four_bytes_option(
    input_seed: &Vec<u8>,
    byte_pos: u64,
    arith_number: u32,
) -> (output: Option<Vec<u8>>)
    requires
        byte_pos + 4 <= input_seed@.len(),
    ensures
        match output {
            None => sub_is_redundant(input_seed@, byte_pos as int, 4, arith_number as nat, false),
            Some(v) => !sub_is_redundant(
                input_seed@,
                byte_pos as int,
                4,
                arith_number as nat,
                false,
            )
                && v@ == arith_sub(input_seed@, byte_pos as int, 4, arith_number as nat, false),
        },
{
    let orig_old = read_word32(input_seed, byte_pos, false);
    proof {
        lemma_word_modulus();
    }
    let orig_new = orig_old.wrapping_sub(arith_number);
    if could_be_bitflip(orig_old ^ orig_new) {
        None
    } else {
        Some(write_word32(input_seed, byte_pos, orig_new, false))
    }
}

/// Adds `arith_number` to the four-byte word at `byte_pos`, read with the first
/// byte as the least significant. The result wraps at the width of the word.
pub fn arithmetic_add_four_bytes_another_endian(
    input_seed: &Vec<u8>,
    byte_pos: u64,
    arith_number: u32,
) -> (output_seed: Vec<u8>)
    requires
        byte_pos + 4 <= input_seed@.len(),
    ensures
        output_seed@ == arith_add(input_seed@, byte_pos as int, 4, arith_number as nat, true),
{
    let orig_old = read_word32(input_seed, byte_pos, true);
    proof {
        lemma_word_modulus();
    }
    let orig_new = orig_old.wrapping_add(arith_number);
    write_word32(input_seed, byte_pos, orig_new, true)
}

/// As `arithmetic_add_four_bytes_another_endian`, but `None` where the change is
/// one that a bit or byte flip makes as well, or no change at all.
pub fn arithmetic_add_four_bytes_another_endian_option(
    input_seed: &Vec<u8>,
    byte_pos: u64,
    arith_number: u32,
) -> (output: Option<Vec<u8>>)
    requires
        byte_pos + 4 <= input_seed@.len(),
    ensures
        match output {
            None => add_is_redundant(input_seed@, byte_pos as int, 4, arith_number as nat, true),
            Some(v) => !add_is_redundant(input_seed@, byte_pos as int, 4, arith_number as nat, true)
                && v@ == arith_add(input_seed@, byte_pos as int, 4, arith_number as nat, true),
        },
{
    let orig_old = read_word32(input_seed, byte_pos, true);
    proof {
        lemma_word_modulus();
    }
    let orig_new = orig_old.wrapping_add(arith_number);
    if could_be_bitflip(orig_old ^ orig_new) {
        None
    } else {
        Some(write_word32(input_seed, byte_pos, orig_new, true))
    }
}

/// Subtracts `arith_number` from the four-byte word at `byte_pos`, read with the
/// first byte as the least significant. The result wraps at the width of the
/// word.
pub fn arithmetic_sub_four_bytes_another_endian(
    input_seed: &Vec<u8>,
    byte_pos: u64,
    arith_number: u32,
) -> (output_seed: Vec<u8>)
    requires
        byte_pos + 4 <= input_seed@.len(),
    ensures
        output_seed@ == arith_sub(input_seed@, byte_pos as int, 4, arith_number as nat, true),
{
    let orig_old = read_word32(input_seed, byte_pos, true);
    proof {
        lemma_word_modulus();
    }
    let orig_new = orig_old.wrapping_sub(arith_number);
    write_word32(input_seed, byte_pos, orig_new, true)
}

/// As `arithmetic_sub_four_bytes_another_endian`, but `None` where the change is
/// one that a bit or byte flip makes as well, or no change at all.
pub fn arithmetic_sub_four_bytes_another_endian_option(
    input_seed: &Vec<u8>,
    byte_pos: u64,
    arith_number: u32,
) -> (output: Option<Vec<u8>>)
    requires
        byte_pos + 4 <= input_seed@.len(),
    ensures
        match output {
            None => sub_is_redundant(input_seed@, byte_pos as int, 4, arith_number as nat, true),
            Some(v) => !sub_is_redundant(input_seed@, byte_pos as int, 4, arith_number as nat, true)
                && v@ == arith_sub(input_seed@, byte_pos as int, 4, arith_number as nat, true),
        },
{
    let orig_old = read_word32(input_seed, byte_pos, true);
    proof {
        lemma_word_modulus();
    }
    let orig_new = orig_old.wrapping_sub(arith_number);
    if could_be_bitflip(orig_old ^ orig_new) {
        None
    } else {
        Some(write_word32(input_seed, byte_pos, orig_new, true))
    }
}

/// Reading a word that was just written gives the written value back.
pub proof fn lemma_word_value_of_put(s: Seq<u8>, pos: int, n: nat, v: nat, other_endian: bool)
    requires
        n == 1 || n == 2 || n == 4,
        0 <= pos,
        pos + n <= s.len(),
        v < word_modulus(n),
    ensures
        word_value(put_word(s, pos, n, v, other_endian), pos, n, other_endian) == v,
{
    reveal_with_fuel(be_value, 5);
    reveal_with_fuel(le_value, 5);
    reveal_with_fuel(put_be, 5);
    reveal_with_fuel(put_le, 5);
    lemma_word_modulus();
}

/// Of two writes to the same word only the second one shows.
pub proof fn lemma_put_word_twice(
    s: Seq<u8>,
    pos: int,
    n: nat,
    v1: nat,
    v2: nat,
    other_endian: bool,
)
    requires
        n == 1 || n == 2 || n == 4,
        0 <= pos,
        pos + n <= s.len(),
    ensures
        put_word(put_word(s, pos, n, v1, other_endian), pos, n, v2, other_endian) == put_word(
            s,
            pos,
            n,
            v2,
            other_endian,
        ),
{
    reveal_with_fuel(put_be, 5);
    reveal_with_fuel(put_le, 5);
    assert(put_word(put_word(s, pos, n, v1, other_endian), pos, n, v2, other_endian) =~= put_word(
        s,
        pos,
        n,
        v2,
        other_endian,
    ));
}

/// Writing back the value a word already has changes nothing.
pub proof fn lemma_put_word_same(s: Seq<u8>, pos: int, n: nat, other_endian: bool)
    requires
        n == 1 || n == 2 || n == 4,
        0 <= pos,
        pos + n <= s.len(),
    ensures
        put_word(s, pos, n, word_value(s, pos, n, other_endian), other_endian) == s,
        word_value(s, pos, n, other_endian) < word_modulus(n),
{
    lemma_word_modulus();
    if other_endian {
        lemma_le_digits(s, pos, n);
    } else {
        lemma_be_digits(s, pos, n);
    }
}

proof fn lemma_split_digit(high: int, low: int)
    requires
        0 <= low < 256,
    ensures
        (high * 256 + low) % 256 == low,
        (high * 256 + low) / 256 == high,
{
}

/// The base-256 digits of a big-endian word are its bytes.
proof fn lemma_be_digits(s: Seq<u8>, pos: int, n: nat)
    requires
        0 <= pos,
        pos + n <= s.len(),
    ensures
        be_value(s, pos, n) < word_modulus(n),
        put_be(s, pos, n, be_value(s, pos, n)) == s,
    decreases n,
{
    reveal_with_fuel(be_value, 2);
    reveal_with_fuel(put_be, 2);
    reveal_with_fuel(word_modulus, 2);
    if n >= 1 {
        lemma_be_digits(s, pos, (n - 1) as nat);
        lemma_split_digit(be_value(s, pos, (n - 1) as nat) as int, s[pos + n - 1] as int);
        assert(s.update(pos + n - 1, s[pos + n - 1]) =~= s);
    }
}

/// The base-256 digits of a little-endian word are its bytes.
proof fn lemma_le_digits(s: Seq<u8>, pos: int, n: nat)
    requires
        0 <= pos,
        pos + n <= s.len(),
    ensures
        le_value(s, pos, n) < word_modulus(n),
        put_le(s, pos, n, le_value(s, pos, n)) == s,
    decreases n,
{
    reveal_with_fuel(le_value, 2);
    reveal_with_fuel(put_le, 2);
    reveal_with_fuel(word_modulus, 2);
    if n >= 1 {
        lemma_le_digits(s, pos + 1, (n - 1) as nat);
        lemma_split_digit(le_value(s, pos + 1, (n - 1) as nat) as int, s[pos] as int);
        assert(s.update(pos, s[pos]) =~= s);
    }
}

/// Adding a delta to a word and then subtracting the same delta from it
/// gives the buffer back, whatever the delta and whether or not the
/// addition wrapped.
pub proof fn lemma_add_then_sub(s: Seq<u8>, pos: int, n: nat, delta: nat, other_endian: bool)
    requires
        n == 1 || n == 2 || n == 4,
        0 <= pos,
        pos + n <= s.len(),
    ensures
        arith_sub(arith_add(s, pos, n, delta, other_endian), pos, n, delta, other_endian) == s,
{
    let before = word_value(s, pos, n, other_endian);
    let raised = added_value(s, pos, n, delta, other_endian);
    let t = arith_add(s, pos, n, delta, other_endian);
    lemma_word_modulus();
    lemma_put_word_same(s, pos, n, other_endian);
    lemma_word_value_of_put(s, pos, n, raised, other_endian);
    assert(subtracted_value(t, pos, n, delta, other_endian) == before) by {
        lemma_wrap_back(before as int, delta as int, word_modulus(n) as int);
    }
    lemma_put_word_twice(s, pos, n, raised, before, other_endian);
}

/// Subtracting a delta from a word and then adding the same delta to it
/// gives the buffer back.
pub proof fn lemma_sub_then_add(s: Seq<u8>, pos: int, n: nat, delta: nat, other_endian: bool)
    requires
        n == 1 || n == 2 || n == 4,
        0 <= pos,
        pos + n <= s.len(),
    ensures
        arith_add(arith_sub(s, pos, n, delta, other_endian), pos, n, delta, other_endian) == s,
{
    let before = word_value(s, pos, n, other_endian);
    let lowered = subtracted_value(s, pos, n, delta, other_endian);
    let t = arith_sub(s, pos, n, delta, other_endian);
    lemma_word_modulus();
    lemma_put_word_same(s, pos, n, other_endian);
    lemma_word_value_of_put(s, pos, n, lowered, other_endian);
    assert(added_value(t, pos, n, delta, other_endian) == before) by {
        lemma_wrap_back(before as int, -(delta as int), word_modulus(n) as int);
    }
    lemma_put_word_twice(s, pos, n, lowered, before, other_endian);
}

proof fn lemma_wrap_back(x: int, d: int, m: int)
    requires
        0 <= x < m,
        m == 0x100 || m == 0x1_0000 || m == 0x1_0000_0000,
    ensures
        ((x + d) % m - d) % m == x,
{
}

/// Entry `index` of the table of boundary values for an `n`-byte word.
pub open spec fn interesting_value(n: nat, index: int) -> int {
    if n == 1 {
        INTERESTING_8[index] as int
    } else if n == 2 {
        INTERESTING_16[index] as int
    } else {
        INTERESTING_32[index] as int
    }
}

/// `s` with the `n`-byte word at `pos` set to entry `index` of the table of
/// boundary values for that width, negative entries in two's complement.
pub open spec fn interesting_replace(
    s: Seq<u8>,
    pos: int,
    n: nat,
    index: int,
    other_endian: bool,
) -> Seq<u8> {
    put_word(
        s,
        pos,
        n,
        (interesting_value(n, index) % (word_modulus(n) as int)) as nat,
        other_endian,
    )
}

/// Overwrites the byte at `byte_pos` with entry `index_number` of the byte
/// table.
pub fn interesting8_replace(
    input_seed: &Vec<u8>,
    byte_pos: u64,
    index_number: u8,
) -> (output_seed: Vec<u8>)
    requires
        byte_pos < input_seed@.len(),
        index_number < INTERESTING_8_CNT,
    ensures
        output_seed@ == interesting_replace(
            input_seed@,
            byte_pos as int,
            1,
            index_number as int,
            false,
        ),
{
    assert(byte_pos < input_seed.len());
    let value = INTERESTING_8[index_number as usize];
    let byte = value as u8;
    proof {
        assert(byte == (value as int) % 256) by (bit_vector)
            requires
                byte == value as u8,
        ;
        reveal_with_fuel(put_be, 2);
        lemma_word_modulus();
    }
    let mut output_seed = input_seed.clone();
    output_seed[byte_pos as usize] = byte;
    output_seed
}

fn interesting_word16(index_number: u8) -> (word: u16)
    requires
        index_number < INTERESTING_16_CNT,
    ensures
        word == interesting_value(2, index_number as int) % 0x1_0000,
{
    let value = INTERESTING_16[index_number as usize];
    let word = value as u16;
    proof {
        assert(word == (value as int) % 0x1_0000) by (bit_vector)
            requires
                word == value as u16,
        ;
    }
    word
}

fn interesting_word32(index_number: u8) -> (word: u32)
    requires
        index_number < INTERESTING_32_CNT,
    ensures
        word == interesting_value(4, index_number as int) % 0x1_0000_0000,
{
    let value = INTERESTING_32[index_number as usize];
    let word = value as u32;
    proof {
        assert(word == (value as int) % 0x1_0000_0000) by (bit_vector)
            requires
                word == value as u32,
        ;
    }
    word
}

/// Overwrites the two bytes from `byte_pos` on with entry `index_number` of
/// the word table, the most significant byte first.
pub fn interesting16_replace(
    input_seed: &Vec<u8>,
    byte_pos: u64,
    index_number: u8,
) -> (output_seed: Vec<u8>)
    requires
        byte_pos + 2 <= input_seed@.len(),
        index_number < INTERESTING_16_CNT,
    ensures
        output_seed@ == interesting_replace(
            input_seed@,
            byte_pos as int,
            2,
            index_number as int,
            false,
        ),
{
    proof {
        lemma_word_modulus();
    }
    write_word16(input_seed, byte_pos, interesting_word16(index_number), false)
}

/// Overwrites the two bytes from `byte_pos` on with entry `index_number` of
/// the word table, the least significant byte first.
pub fn interesting16_replace_another_endian(
    input_seed: &Vec<u8>,
    byte_pos: u64,
    index_number: u8,
) -> (output_seed: Vec<u8>)
    requires
        byte_pos + 2 <= input_seed@.len(),
        index_number < INTERESTING_16_CNT,
    ensures
        output_seed@ == interesting_replace(
            input_seed@,
            byte_pos as int,
            2,
            index_number as int,
            true,
        ),
{
    proof {
        lemma_word_modulus();
    }
    write_word16(input_seed, byte_pos, interesting_word16(index_number), true)
}

/// Overwrites the four bytes from `byte_pos` on with entry `index_number`
/// of the double word table, the most significant byte first.
pub fn interesting32_replace(
    input_seed: &Vec<u8>,
    byte_pos: u64,
    index_number: u8,
) -> (output_seed: Vec<u8>)
    requires
        byte_pos + 4 <= input_seed@.len(),
        index_number < INTERESTING_32_CNT,
    ensures
        output_seed@ == interesting_replace(
            input_seed@,
            byte_pos as int,
            4,
            index_number as int,
            false,
        ),
{
    proof {
        lemma_word_modulus();
    }
    write_word32(input_seed, byte_pos, interesting_word32(index_number), false)
}

/// Overwrites the four bytes from `byte_pos` on with entry `index_number`
/// of the double word table, the least significant byte first.
pub fn interesting32_replace_another_endian(
    input_seed: &Vec<u8>,
    byte_pos: u64,
    index_number: u8,
) -> (output_seed: Vec<u8>)
    requires
        byte_pos + 4 <= input_seed@.len(),
        index_number < INTERESTING_32_CNT,
    ensures
        output_seed@ == interesting_replace(
            input_seed@,
            byte_pos as int,
            4,
            index_number as int,
            true,
        ),
{
    proof {
        lemma_word_modulus();
    }
    write_word32(input_seed, byte_pos, interesting_word32(index_number), true)
}

/// `s` without the `len` bytes from `from` on.
pub open spec fn remove_bytes(s: Seq<u8>, from: int, len: int) -> Seq<u8> {
    s.subrange(0, from) + s.subrange(from + len, s.len() as int)
}

/// Removes the `del_len` bytes from `del_from` on.
pub fn delete_byte(input_seed: &Vec<u8>, del_from: u64, del_len: u64) -> (output_seed: Vec<u8>)
    requires
        del_from < input_seed@.len(),
        del_len > 0,
        del_from + del_len <= input_seed@.len(),
    ensures
        output_seed@ == remove_bytes(input_seed@, del_from as int, del_len as int),
        output_seed@.len() == input_seed@.len() - del_len,
{
    let len = input_seed.len();
    let from = del_from as usize;
    let upto = (del_from + del_len) as usize;
    let mut output_seed: Vec<u8> = Vec::new();
    let mut i: usize = 0;
    while i < from
        invariant
            i <= from <= len,
            len == input_seed@.len(),
            output_seed@ == input_seed@.subrange(0, i as int),
        decreases from - i,
    {
        output_seed.push(input_seed[i]);
        i += 1;
        assert(output_seed@ =~= input_seed@.subrange(0, i as int));
    }
    let mut j: usize = upto;
    while j < len
        invariant
            from <= upto <= j <= len,
            len == input_seed@.len(),
            output_seed@ == input_seed@.subrange(0, from as int) + input_seed@.subrange(
                upto as int,
                j as int,
            ),
        decreases len - j,
    {
        output_seed.push(input_seed[j]);
        j += 1;
        assert(output_seed@ =~= input_seed@.subrange(0, from as int) + input_seed@.subrange(
            upto as int,
            j as int,
        ));
    }
    output_seed
}

/// `s` with `block` put in before position `at`.
pub open spec fn insert_block(s: Seq<u8>, at: int, block: Seq<u8>) -> Seq<u8> {
    s.subrange(0, at) + block + s.subrange(at, s.len() as int)
}

/// `count` times the byte `value`.
pub open spec fn fill_block(value: u8, count: nat) -> Seq<u8> {
    Seq::new(count, |i: int| value)
}

/// Puts `count` times the byte `value` in before position `at`.
pub fn insert_fill_bytes(
    input_seed: &Vec<u8>,
    at: u64,
    value: u8,
    count: u64,
) -> (output_seed: Vec<u8>)
    requires
        at <= input_seed@.len(),
        input_seed@.len() + count <= usize::MAX,
    ensures
        output_seed@ == insert_block(input_seed@, at as int, fill_block(value, count as nat)),
        output_seed@.len() == input_seed@.len() + count,
{
    let len = input_seed.len();
    let at = at as usize;
    let mut output_seed: Vec<u8> = Vec::new();
    let mut i: usize = 0;
    while i < at
        invariant
            i <= at <= len,
            len == input_seed@.len(),
            output_seed@ == input_seed@.subrange(0, i as int),
        decreases at - i,
    {
        output_seed.push(input_seed[i]);
        i += 1;
        assert(output_seed@ =~= input_seed@.subrange(0, i as int));
    }
    let mut k: u64 = 0;
    while k < count
        invariant
            k <= count,
            at <= len,
            len == input_seed@.len(),
            output_seed@ == input_seed@.subrange(0, at as int) + fill_block(value, k as nat),
        decreases count - k,
    {
        output_seed.push(value);
        k += 1;
        assert(output_seed@ =~= input_seed@.subrange(0, at as int) + fill_block(value, k as nat));
    }
    let mut j: usize = at;
    while j < len
        invariant
            at <= j <= len,
            len == input_seed@.len(),
            output_seed@ == input_seed@.subrange(0, at as int) + fill_block(value, count as nat)
                + input_seed@.subrange(at as int, j as int),
        decreases len - j,
    {
        output_seed.push(input_seed[j]);
        j += 1;
        assert(output_seed@ =~= input_seed@.subrange(0, at as int) + fill_block(
            value,
            count as nat,
        ) + input_seed@.subrange(at as int, j as int));
    }
    output_seed
}

/// Puts a copy of the `count` bytes from `from` on in before position `at`.
pub fn insert_copied_bytes(
    input_seed: &Vec<u8>,
    at: u64,
    from: u64,
    count: u64,
) -> (output_seed: Vec<u8>)
    requires
        at <= input_seed@.len(),
        from + count <= input_seed@.len(),
        input_seed@.len() + count <= usize::MAX,
    ensures
        output_seed@ == insert_block(
            input_seed@,
            at as int,
            input_seed@.subrange(from as int, from + count),
        ),
{
    let len = input_seed.len();
    let at = at as usize;
    let from = from as usize;
    let upto = from + count as usize;
    let ghost block = input_seed@.subrange(from as int, upto as int);
    let mut output_seed: Vec<u8> = Vec::new();
    let mut i: usize = 0;
    while i < at
        invariant
            i <= at <= len,
            len == input_seed@.len(),
            output_seed@ == input_seed@.subrange(0, i as int),
        decreases at - i,
    {
        output_seed.push(input_seed[i]);
        i += 1;
        assert(output_seed@ =~= input_seed@.subrange(0, i as int));
    }
    let mut k: usize = from;
    while k < upto
        invariant
            from <= k <= upto <= len,
            at <= len,
            len == input_seed@.len(),
            output_seed@ == input_seed@.subrange(0, at as int) + input_seed@.subrange(
                from as int,
                k as int,
            ),
        decreases upto - k,
    {
        output_seed.push(input_seed[k]);
        k += 1;
        assert(output_seed@ =~= input_seed@.subrange(0, at as int) + input_seed@.subrange(
            from as int,
            k as int,
        ));
    }
    let mut j: usize = at;
    while j < len
        invariant
            at <= j <= len,
            len == input_seed@.len(),
            block == input_seed@.subrange(from as int, upto as int),
            output_seed@ == input_seed@.subrange(0, at as int) + block + input_seed@.subrange(
                at as int,
                j as int,
            ),
        decreases len - j,
    {
        output_seed.push(input_seed[j]);
        j += 1;
        assert(output_seed@ =~= input_seed@.subrange(0, at as int) + block
            + input_seed@.subrange(at as int, j as int));
    }
    output_seed
}

/// The range of block lengths for a size tier, cut to `limit`: tier 0 is
/// small, tier 1 medium, any other tier large, or extra large where
/// `extra_large` is set. A tier that starts at or above `limit` starts at 1
/// instead.
pub open spec fn block_len_range(tier: u64, extra_large: bool, limit: u64) -> (u64, u64) {
    let (low, high) = if tier == 0 {
        (1u64, HAVOC_BLK_SMALL)
    } else if tier == 1 {
        (HAVOC_BLK_SMALL, HAVOC_BLK_MEDIUM)
    } else if !extra_large {
        (HAVOC_BLK_MEDIUM, HAVOC_BLK_LARGE)
    } else {
        (HAVOC_BLK_LARGE, HAVOC_BLK_XL)
    };
    (
        if low >= limit {
            1u64
        } else {
            low
        },
        if high <= limit {
            high
        } else {
            limit
        },
    )
}

/// Computes `block_len_range`. The range is never empty and lies between 1
/// and `limit`.
pub fn block_len_bounds(tier: u64, extra_large: bool, limit: u64) -> (bounds: (u64, u64))
    requires
        limit >= 1,
    ensures
        bounds == block_len_range(tier, extra_large, limit),
        1 <= bounds.0 <= bounds.1 <= limit,
        bounds.1 <= HAVOC_BLK_XL,
{
    let mut min_value: u64;
    let max_value: u64;
    if tier == 0 {
        min_value = 1;
        max_value = HAVOC_BLK_SMALL;
    } else if tier == 1 {
        min_value = HAVOC_BLK_SMALL;
        max_value = HAVOC_BLK_MEDIUM;
    } else if !extra_large {
        min_value = HAVOC_BLK_MEDIUM;
        max_value = HAVOC_BLK_LARGE;
    } else {
        min_value = HAVOC_BLK_LARGE;
        max_value = HAVOC_BLK_XL;
    }
    if min_value >= limit {
        min_value = 1;
    }
    let capped = if max_value <= limit {
        max_value
    } else {
        limit
    };
    (min_value, capped)
}

/// Whether `block_len` is a length of one of the size tiers as
/// `block_len_range` cuts them to `limit`: of tier 0, 1 or 2, the last one
/// large or extra large.
pub open spec fn is_tier_block_len(limit: u64, block_len: u64) -> bool {
    exists|tier: u64, extra_large: bool|
        tier < 3 && (extra_large ==> tier == 2) && (#[trigger] block_len_range(
            tier,
            extra_large,
            limit,
        )).0 <= block_len <= block_len_range(tier, extra_large, limit).1
}

/// Picks a block length at random: first one of three size tiers, the
/// third of which is in one case out of ten the extra-large one, then a
/// length within the tier's range as `block_len_range` cuts it to `limit`.
/// Whatever is drawn, the length is at least 1 and at most `limit`.
pub fn choose_block_len(limit: u64, rang: &mut rand::ThreadRng) -> (block_len: u64)
    requires
        limit >= 1,
    ensures
        is_tier_block_len(limit, block_len),
        1 <= block_len <= limit,
        block_len <= HAVOC_BLK_XL,
{
    let rlim: u64 = 3;
    let tier = gen_range(rang, 0, rlim);
    let extra_large = tier >= 2 && gen_range(rang, 0, 10) == 0;
    let (min_value, max_value) = block_len_bounds(tier, extra_large, limit);
    let interval = gen_range(rang, 0, max_value - min_value + 1);
    let block_len = min_value + interval;
    assert(block_len_range(tier, extra_large, limit).0 <= block_len <= block_len_range(
        tier,
        extra_large,
        limit,
    ).1);
    block_len
}

/// One fully drawn havoc tweak.
///
/// Widths are 1, 2 or 4: bits for `FlipBits`, bytes elsewhere. Words are
/// read and written with the first byte as the most significant, or as the
/// least significant where `other_endian` is set; for a single byte the
/// two are the same.
#[derive(Debug, Clone, Copy, PartialEq)]
pub enum HavocOp {
    /// Invert `width` bits from a bit offset on.
    FlipBits { width: u8, pos: u64 },
    /// Invert `width` bytes from a byte offset on.
    FlipBytes { width: u8, pos: u64 },
    /// Add `delta` to the word of `width` bytes at `pos`.
    Add { width: u8, other_endian: bool, pos: u64, delta: u8 },
    /// Subtract `delta` from the word of `width` bytes at `pos`.
    Sub { width: u8, other_endian: bool, pos: u64, delta: u8 },
    /// Overwrite the word of `width` bytes at `pos` with an entry of the
    /// table of interesting values for that width.
    Interesting { width: u8, other_endian: bool, pos: u64, index: u8 },
    /// Overwrite one byte.
    SetByte { pos: u64, value: u8 },
    /// Put `count` times one byte in before `at`.
    InsertFill { at: u64, value: u8, count: u64 },
    /// Put a copy of the `count` bytes from `from` on in before `at`.
    InsertCopy { at: u64, from: u64, count: u64 },
    /// Remove `count` bytes from `from` on.
    Delete { from: u64, count: u64 },
}

/// Number of entries of the table of interesting values for a width.
pub open spec fn interesting_count(width: nat) -> nat {
    if width == 1 {
        INTERESTING_8_CNT as nat
    } else if width == 2 {
        INTERESTING_16_CNT as nat
    } else {
        INTERESTING_32_CNT as nat
    }
}

impl HavocOp {
    /// The tweak can be carried out on `s`: it stays within the buffer.
    pub open spec fn fits(self, s: Seq<u8>) -> bool {
        match self {
            HavocOp::FlipBits { width, pos } => (width == 1 || width == 2 || width == 4) && pos
                + width <= 8 * s.len() && pos + width - 1 <= u64::MAX,
            HavocOp::FlipBytes { width, pos } => (width == 1 || width == 2 || width == 4) && pos
                + width <= s.len(),
            HavocOp::Add { width, other_endian, pos, delta } => (width == 1 || width == 2
                || width == 4) && pos + width <= s.len(),
            HavocOp::Sub { width, other_endian, pos, delta } => (width == 1 || width == 2
                || width == 4) && pos + width <= s.len(),
            HavocOp::Interesting { width, other_endian, pos, index } => (width == 1 || width == 2
                || width == 4) && pos + width <= s.len() && index < interesting_count(
                width as nat,
            ),
            HavocOp::SetByte { pos, value } => pos < s.len() && value != 0,
            HavocOp::InsertFill { at, value, count } => at <= s.len() && s.len() + count
                <= usize::MAX,
            HavocOp::InsertCopy { at, from, count } => at <= s.len() && from + count <= s.len()
                && s.len() + count <= usize::MAX,
            HavocOp::Delete { from, count } => from < s.len() && count > 0 && from + count
                <= s.len(),
        }
    }

    /// The number under which the havoc stage draws this kind of tweak.
    /// The kinds from 0 to 8 work on any buffer, those from 9 to 14 need two
    /// bytes, those from 15 on need four.
    pub open spec fn selector(self) -> nat {
        match self {
            HavocOp::FlipBits { width, pos } => if width == 1 {
                0
            } else if width == 2 {
                1
            } else {
                2
            },
            HavocOp::FlipBytes { width, pos } => if width == 1 {
                3
            } else if width == 2 {
                9
            } else {
                15
            },
            HavocOp::Add { width, other_endian, pos, delta } => if width == 1 {
                4
            } else if width == 2 {
                10
            } else {
                16
            },
            HavocOp::Sub { width, other_endian, pos, delta } => if width == 1 {
                5
            } else if width == 2 {
                11
            } else {
                17
            },
            HavocOp::Interesting { width, other_endian, pos, index } => if width == 1 {
                6
            } else if width == 2 {
                12
            } else {
                18
            },
            HavocOp::SetByte { pos, value } => 7,
            HavocOp::InsertFill { at, value, count } => 8,
            HavocOp::InsertCopy { at, from, count } => 8,
            HavocOp::Delete { from, count } => 13,
        }
    }

    /// The tweak is one that the havoc stage may draw for `s`: it fits, its
    /// kind is among those offered for the length of `s`, a delta is below
    /// `ARITH_MAX`, an inserted block is at most `HAVOC_BLK_XL` bytes long,
    /// goes in before an existing byte and keeps the buffer below
    /// `MAX_FILE`, and a deletion leaves at least one byte.
    pub open spec fn drawn_for(self, s: Seq<u8>) -> bool {
        &&& self.fits(s)
        &&& self.selector() < havoc_ways(s.len())
        &&& match self {
            HavocOp::Add { width, other_endian, pos, delta } => delta < ARITH_MAX,
            HavocOp::Sub { width, other_endian, pos, delta } => delta < ARITH_MAX,
            HavocOp::InsertFill { at, value, count } => at < s.len() && 1 <= count
                <= HAVOC_BLK_XL && s.len() + HAVOC_BLK_XL < MAX_FILE,
            HavocOp::InsertCopy { at, from, count } => at < s.len() && 1 <= count
                <= HAVOC_BLK_XL && s.len() + HAVOC_BLK_XL < MAX_FILE,
            HavocOp::Delete { from, count } => count < s.len(),
            _ => true,
        }
    }

    /// The buffer that the tweak makes of `s`.
    pub open spec fn apply(self, s: Seq<u8>) -> Seq<u8> {
        match self {
            HavocOp::FlipBits { width, pos } => flip_bits(s, pos as int, width as nat),
            HavocOp::FlipBytes { width, pos } => flip_bytes(s, pos as int, width as int),
            HavocOp::Add { width, other_endian, pos, delta } => arith_add(
                s,
                pos as int,
                width as nat,
                delta as nat,
                other_endian,
            ),
            HavocOp::Sub { width, other_endian, pos, delta } => arith_sub(
                s,
                pos as int,
                width as nat,
                delta as nat,
                other_endian,
            ),
            HavocOp::Interesting { width, other_endian, pos, index } => interesting_replace(
                s,
                pos as int,
                width as nat,
                index as int,
                other_endian,
            ),
            HavocOp::SetByte { pos, value } => set_byte(s, pos as int, value),
            HavocOp::InsertFill { at, value, count } => insert_block(
                s,
                at as int,
                fill_block(value, count as nat),
            ),
            HavocOp::InsertCopy { at, from, count } => insert_block(
                s,
                at as int,
                s.subrange(from as int, from + count),
            ),
            HavocOp::Delete { from, count } => remove_bytes(s, from as int, count as int),
        }
    }
}

/// Number of kinds of tweak that the havoc stage offers for a buffer of
/// `len` bytes: those that work on a single byte, and those on two and on
/// four bytes where the buffer has them.
pub open spec fn havoc_ways(len: nat) -> nat {
    if len == 1 {
        9
    } else if len <= 3 {
        15
    } else {
        HAVOC_WAY as nat
    }
}

/// Computes `havoc_ways`.
pub fn havoc_operation_count(len: u64) -> (ways: u64)
    ensures
        ways == havoc_ways(len as nat),
{
    if len == 1 {
        9
    } else if len <= 3 {
        15
    } else {
        HAVOC_WAY as u64
    }
}

/// Whether `output` is `input` with one tweak of the havoc stage applied.
pub open spec fn is_havoc_result(input: Seq<u8>, output: Seq<u8>) -> bool {
    exists|op: HavocOp| #[trigger] op.drawn_for(input) && output == op.apply(input)
}

/// Carries out one havoc tweak.
pub fn apply_havoc_op(input_seed: &Vec<u8>, op: &HavocOp) -> (output_seed: Vec<u8>)
    requires
        op.fits(input_seed@),
    ensures
        output_seed@ == op.apply(input_seed@),
{
    proof {
        // a single byte reads and writes the same in either byte order
        reveal_with_fuel(be_value, 2);
        reveal_with_fuel(le_value, 2);
        reveal_with_fuel(put_be, 2);
        reveal_with_fuel(put_le, 2);
    }
    match *op {
        HavocOp::FlipBits { width, pos } => {
            if width == 1 {
                flip_one_bit(input_seed, pos)
            } else if width == 2 {
                flip_two_bits(input_seed, pos)
            } else {
                flip_four_bits(input_seed, pos)
            }
        },
        HavocOp::FlipBytes { width, pos } => {
            if width == 1 {
                flip_one_byte(input_seed, pos)
            } else if width == 2 {
                flip_two_bytes(input_seed, pos)
            } else {
                flip_four_bytes(input_seed, pos)
            }
        },
        HavocOp::Add { width, other_endian, pos, delta } => {
            if width == 1 {
                arithmetic_add_one_byte(input_seed, pos, delta)
            } else if width == 2 {
                if other_endian {
                    arithmetic_add_two_bytes_another_endian(input_seed, pos, delta as u16)
                } else {
                    arithmetic_add_two_bytes(input_seed, pos, delta as u16)
                }
            } else {
                if other_endian {
                    arithmetic_add_four_bytes_another_endian(input_seed, pos, delta as u32)
                } else {
                    arithmetic_add_four_bytes(input_seed, pos, delta as u32)
                }
            }
        },
        HavocOp::Sub { width, other_endian, pos, delta } => {
            if width == 1 {
                arithmetic_sub_one_byte(input_seed, pos, delta)
            } else if width == 2 {
                if other_endian {
                    arithmetic_sub_two_bytes_another_endian(input_seed, pos, delta as u16)
                } else {
                    arithmetic_sub_two_bytes(input_seed, pos, delta as u16)
                }
            } else {
                if other_endian {
                    arithmetic_sub_four_bytes_another_endian(input_seed, pos, delta as u32)
                } else {
                    arithmetic_sub_four_bytes(input_seed, pos, delta as u32)
                }
            }
        },
        HavocOp::Interesting { width, other_endian, pos, index } => {
            if width == 1 {
                interesting8_replace(input_seed, pos, index)
            } else if width == 2 {
                if other_endian {
                    interesting16_replace_another_endian(input_seed, pos, index)
                } else {
                    interesting16_replace(input_seed, pos, index)
                }
            } else {
                if other_endian {
                    interesting32_replace_another_endian(input_seed, pos, index)
                } else {
                    interesting32_replace(input_seed, pos, index)
                }
            }
        },
        HavocOp::SetByte { pos, value } => set_one_byte(input_seed, pos, value),
        HavocOp::InsertFill { at, value, count } => insert_fill_bytes(input_seed, at, value, count),
        HavocOp::InsertCopy { at, from, count } => insert_copied_bytes(
            input_seed,
            at,
            from,
            count,
        ),
        HavocOp::Delete { from, count } => delete_byte(input_seed, from, count),
    }
}

/// Draws a block insertion. In one case out of four the block is a single
/// byte repeated, a random one or one taken from the buffer, and up to
/// `HAVOC_BLK_XL` bytes long; otherwise it is a copy of a stretch of the
/// buffer. It goes in before a random byte of the buffer.
pub fn choose_insertion(input_seed: &Vec<u8>, rang: &mut rand::ThreadRng) -> (op: HavocOp)
    requires
        input_seed@.len() >= 1,
        input_seed@.len() + HAVOC_BLK_XL < MAX_FILE,
    ensures
        op.drawn_for(input_seed@),
        op is InsertFill || op is InsertCopy,
{
    let len = input_seed.len() as u64;
    // 0: make the block up; anything else: copy it from the buffer
    let is_clone_from_old_string = gen_range(rang, 0, 4);
    let clone_len: u64;
    let clone_start_pos: u64;
    if is_clone_from_old_string == 0 {
        clone_len = choose_block_len(HAVOC_BLK_XL, rang);
        clone_start_pos = 0;
    } else {
        clone_len = choose_block_len(len, rang);
        clone_start_pos = gen_range(rang, 0, len - clone_len + 1);
    }
    let insert = gen_range(rang, 0, len);
    if is_clone_from_old_string == 0 {
        let pad: u8;
        if gen_range(rang, 0, 2) == 0 {
            pad = gen_range(rang, 0, 256) as u8;
        } else {
            let pad_pos = gen_range(rang, 0, len) as usize;
            pad = input_seed[pad_pos];
        }
        HavocOp::InsertFill { at: insert, value: pad, count: clone_len }
    } else {
        HavocOp::InsertCopy { at: insert, from: clone_start_pos, count: clone_len }
    }
}

/// Inserts a randomly drawn block at a random place: see
/// `choose_insertion`. The buffer grows by at least 1 and at most
/// `HAVOC_BLK_XL` bytes and so stays below `MAX_FILE`.
pub fn insert_clone_bytes(
    input_seed: &Vec<u8>,
    rang: &mut rand::ThreadRng,
) -> (output_seed: Vec<u8>)
    requires
        input_seed@.len() >= 1,
        input_seed@.len() + HAVOC_BLK_XL < MAX_FILE,
    ensures
        is_havoc_result(input_seed@, output_seed@),
        input_seed@.len() < output_seed@.len() <= input_seed@.len() + HAVOC_BLK_XL,
        output_seed@.len() < MAX_FILE,
{
    let op = choose_insertion(input_seed, rang);
    apply_havoc_op(input_seed, &op)
}

/// Draws one havoc tweak for the buffer: first its kind, among the
/// `havoc_ways` kinds offered for the buffer's length, then its place and
/// parameters. A block is inserted only while the buffer stays below
/// `MAX_FILE`; otherwise a byte is overwritten instead.
pub fn choose_havoc_op(input_seed: &Vec<u8>, rang: &mut rand::ThreadRng) -> (op: HavocOp)
    requires
        input_seed@.len() >= 1,
        8 * input_seed@.len() <= u64::MAX,
    ensures
        op.drawn_for(input_seed@),
{
    let len = input_seed.len() as u64;
    let max_random_value = havoc_operation_count(len);
    let random_value = gen_range(rang, 0, max_random_value);
    // 0 to 8 need one byte
    if random_value == 0 {
        HavocOp::FlipBits { width: 1, pos: gen_range(rang, 0, len * 8) }
    } else if random_value == 1 {
        HavocOp::FlipBits { width: 2, pos: gen_range(rang, 0, len * 8 - 1) }
    } else if random_value == 2 {
        HavocOp::FlipBits { width: 4, pos: gen_range(rang, 0, len * 8 - 3) }
    } else if random_value == 3 {
        HavocOp::FlipBytes { width: 1, pos: gen_range(rang, 0, len) }
    } else if random_value == 4 {
        let pos = gen_range(rang, 0, len);
        let arith_number = gen_range(rang, 0, ARITH_MAX as u64) as u8;
        HavocOp::Add { width: 1, other_endian: false, pos, delta: arith_number }
    } else if random_value == 5 {
        let pos = gen_range(rang, 0, len);
        let arith_number = gen_range(rang, 0, ARITH_MAX as u64) as u8;
        HavocOp::Sub { width: 1, other_endian: false, pos, delta: arith_number }
    } else if random_value == 6 {
        let pos = gen_range(rang, 0, len);
        let index_number = gen_range(rang, 0, INTERESTING_8_CNT as u64) as u8;
        HavocOp::Interesting { width: 1, other_endian: false, pos, index: index_number }
    } else if random_value == 7 {
        let pos = gen_range(rang, 0, len);
        let random_byte_value = (1 + gen_range(rang, 0, 255)) as u8;
        HavocOp::SetByte { pos, value: random_byte_value }
    } else if random_value == 8 {
        if len + HAVOC_BLK_XL < MAX_FILE {
            choose_insertion(input_seed, rang)
        } else {
            // the buffer is too long to grow: overwrite a byte instead
            let pos = gen_range(rang, 0, len);
            let random_byte_value = (1 + gen_range(rang, 0, 255)) as u8;
            HavocOp::SetByte { pos, value: random_byte_value }
        }
    } else if random_value == 9 {
        // 9 to 14 need two bytes
        HavocOp::FlipBytes { width: 2, pos: gen_range(rang, 0, len - 1) }
    } else if random_value == 10 {
        let pos = gen_range(rang, 0, len - 1);
        let arith_number = gen_range(rang, 0, ARITH_MAX as u64) as u8;
        let use_another = gen_range(rang, 0, 2);
        HavocOp::Add { width: 2, other_endian: use_another == 1, pos, delta: arith_number }
    } else if random_value == 11 {
        let pos = gen_range(rang, 0, len - 1);
        let arith_number = gen_range(rang, 0, ARITH_MAX as u64) as u8;
        let use_another = gen_range(rang, 0, 2);
        HavocOp::Sub { width: 2, other_endian: use_another == 1, pos, delta: arith_number }
    } else if random_value == 12 {
        let pos = gen_range(rang, 0, len - 1);
        let index_number = gen_range(rang, 0, INTERESTING_16_CNT as u64) as u8;
        let use_another = gen_range(rang, 0, 2);
        HavocOp::Interesting {
            width: 2,
            other_endian: use_another != 1,
            pos,
            index: index_number,
        }
    } else if random_value == 13 || random_value == 14 {
        let del_len = choose_block_len(len - 1, rang);
        let del_from = gen_range(rang, 0, len - del_len + 1);
        HavocOp::Delete { from: del_from, count: del_len }
    } else if random_value == 15 {
        // 15 to 18 need four bytes
        HavocOp::FlipBytes { width: 4, pos: gen_range(rang, 0, len - 3) }
    } else if random_value == 16 {
        let pos = gen_range(rang, 0, len - 3);
        let arith_number = gen_range(rang, 0, ARITH_MAX as u64) as u8;
        let use_another = gen_range(rang, 0, 2);
        HavocOp::Add { width: 4, other_endian: use_another == 1, pos, delta: arith_number }
    } else if random_value == 17 {
        let pos = gen_range(rang, 0, len - 3);
        let arith_number = gen_range(rang, 0, ARITH_MAX as u64) as u8;
        let use_another = gen_range(rang, 0, 2);
        HavocOp::Sub { width: 4, other_endian: use_another == 1, pos, delta: arith_number }
    } else {
        let pos = gen_range(rang, 0, len - 3);
        let index_number = gen_range(rang, 0, INTERESTING_32_CNT as u64) as u8;
        let use_another = gen_range(rang, 0, 2);
        HavocOp::Interesting {
            width: 4,
            other_endian: use_another != 1,
            pos,
            index: index_number,
        }
    }
}

/// A tweak drawn by the havoc stage never empties the buffer and grows it
/// by at most `HAVOC_BLK_XL` bytes.
pub proof fn lemma_havoc_result_len(input: Seq<u8>, op: HavocOp)
    requires
        op.drawn_for(input),
    ensures
        1 <= op.apply(input).len() <= input.len() + HAVOC_BLK_XL,
        input.len() < op.apply(input).len() ==> op.apply(input).len() < MAX_FILE,
{
    reveal_with_fuel(flip_bits, 5);
    reveal_with_fuel(put_be, 5);
    reveal_with_fuel(put_le, 5);
}

/// Applies one randomly drawn havoc tweak: see `choose_havoc_op`.
pub fn havoc_mutate(input_seed: &Vec<u8>, rang: &mut rand::ThreadRng) -> (output_seed: Vec<u8>)
    requires
        input_seed@.len() >= 1,
        8 * input_seed@.len() <= u64::MAX,
    ensures
        is_havoc_result(input_seed@, output_seed@),
        1 <= output_seed@.len() <= input_seed@.len() + HAVOC_BLK_XL,
        input_seed@.len() < output_seed@.len() ==> output_seed@.len() < MAX_FILE,
{
    let op = choose_havoc_op(input_seed, rang);
    proof {
        lemma_havoc_result_len(input_seed@, op);
    }
    apply_havoc_op(input_seed, &op)
}

/// Flipping bits keeps the length of the buffer.
pub proof fn lemma_flip_bits_len(s: Seq<u8>, pos: int, n: nat)
    requires
        0 <= pos,
        pos + n <= 8 * s.len(),
    ensures
        flip_bits(s, pos, n).len() == s.len(),
    decreases n,
{
    if n > 0 {
        lemma_flip_bits_len(flip_bit(s, pos), pos + 1, (n - 1) as nat);
    }
}

/// Writing a word keeps the length of the buffer.
pub proof fn lemma_put_word_len(s: Seq<u8>, pos: int, n: nat, v: nat, other_endian: bool)
    requires
        0 <= pos,
        pos + n <= s.len(),
    ensures
        put_word(s, pos, n, v, other_endian).len() == s.len(),
    decreases n,
{
    if n > 0 {
        lemma_put_word_len(s, pos, (n - 1) as nat, v / 256, false);
        lemma_put_word_len(s.update(pos, (v % 256) as u8), pos + 1, (n - 1) as nat, v / 256, true);
    }
}

} // verus!
