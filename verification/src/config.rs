//! Tunable constants of the mutation engine.

use vstd::prelude::*;

verus! {

/// Chance, in percent, that a seed which was already fuzzed or is not
/// favored gets skipped when it comes up for selection.
pub const SKIP_TO_NEW_PROB: u32 = 99;

/// Exclusive upper bound of the deltas tried by the arithmetic stages.
pub const ARITH_MAX: u8 = 35;

pub const INTERESTING_8_CNT: u8 = 9;

/// Boundary values for a single byte.
pub const INTERESTING_8: [i8; 9] = [
    -128,  // overflows a signed byte when decremented
    -1,
    0,
    1,
    16,  // one-off with common buffer sizes
    32,
    64,
    100,
    127,  // overflows a signed byte when incremented
];

pub const INTERESTING_16_CNT: u8 = 19;

/// Boundary values for a 16-bit word; the first nine repeat the byte table.
pub const INTERESTING_16: [i16; 19] = [
    -128,
    -1,
    0,
    1,
    16,
    32,
    64,
    100,
    127,
    -32768,  // overflows a signed word when decremented
    -129,  // overflows a signed byte
    128,
    255,  // overflows an unsigned byte when incremented
    256,
    512,  // one-off with common buffer sizes
    1000,
    1024,
    4096,
    32767,  // overflows a signed word when incremented
];

pub const INTERESTING_32_CNT: u8 = 27;

/// Boundary values for a 32-bit word; the first nineteen repeat the word table.
pub const INTERESTING_32: [i32; 27] = [
    -128,
    -1,
    0,
    1,
    16,
    32,
    64,
    100,
    127,
    -32768,
    -129,
    128,
    255,
    256,
    512,
    1000,
    1024,
    4096,
    32767,
    -2147483648,  // overflows a signed double word when decremented
    -100663046,  // large negative number, the same in either byte order
    -32769,  // overflows a signed word
    32768,
    65535,  // overflows an unsigned word when incremented
    65536,
    100663045,  // large positive number, the same in either byte order
    2147483647,  // overflows a signed double word when incremented
];

pub const HAVOC_MIN: u8 = 16;

/// Baseline number of random tweaks during a single havoc stage.
pub const HAVOC_CYCLES: u16 = 256;

/// Largest number of havoc rounds handed to one seed.
pub const HAVOC_CYCLES_INIT: u16 = 1024;

pub const SPLICE_HAVOC: u8 = 32;

/// Largest exponent of the havoc stacking: each round stacks `2^n` tweaks
/// for some `n` between 1 and this value.
pub const HAVOC_STACK_POW2: u8 = 7;

/// Number of different havoc operations.
pub const HAVOC_WAY: u8 = 19;

/// Caps on the block sizes used when cloning and deleting.
pub const HAVOC_BLK_SMALL: u64 = 32;

pub const HAVOC_BLK_MEDIUM: u64 = 128;

pub const HAVOC_BLK_LARGE: u64 = 1500;

/// Extra-large blocks, picked very rarely.
pub const HAVOC_BLK_XL: u64 = 32768;

/// Maximum size of an input, in bytes.
pub const MAX_FILE: u64 = 1048576;

/// Number of positions in a coverage map.
pub const MAP_SIZE: usize = 65536;

} // verus!
