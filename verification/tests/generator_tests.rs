use seed_management::input_seed::InputSeed;
use seed_management::seed_generator::selector::Selector;
use seed_management::seed_generator::state_parser::FuzzingState;
use seed_management::seed_generator::{carry_out, SeedGenerator};

fn redundant(xor: u32) -> bool {
    if xor == 0 {
        return true;
    }
    let shift = xor.trailing_zeros();
    let rest = xor >> shift;
    rest == 1
        || rest == 3
        || rest == 15
        || (shift % 8 == 0 && (rest == 0xff || rest == 0xffff || rest == 0xffff_ffff))
}

fn put(seed: &[u8], pos: usize, bytes: &[u8]) -> Vec<u8> {
    let mut out = seed.to_vec();
    out[pos..pos + bytes.len()].copy_from_slice(bytes);
    out
}

fn flip_bits(seed: &[u8], pos: usize, width: usize) -> Vec<u8> {
    let mut out = seed.to_vec();
    for bit in pos..pos + width {
        out[bit / 8] ^= 0x80 >> (bit % 8);
    }
    out
}

fn flip_bytes(seed: &[u8], pos: usize, width: usize) -> Vec<u8> {
    let mut out = seed.to_vec();
    for byte in out[pos..pos + width].iter_mut() {
        *byte ^= 0xff;
    }
    out
}

fn arith(seed: &[u8], width: usize, subtract: bool, little: bool, out: &mut Vec<Vec<u8>>) {
    if seed.len() < width {
        return;
    }
    for pos in 0..=seed.len() - width {
        for delta in 0..35u32 {
            let mut word = [0u8; 4];
            word[4 - width..].copy_from_slice(&seed[pos..pos + width]);
            if little {
                word[4 - width..].reverse();
            }
            let before = u32::from_be_bytes(word);
            let mask = if width == 4 { u32::MAX } else { (1u32 << (8 * width)) - 1 };
            let after = if subtract {
                before.wrapping_sub(delta) & mask
            } else {
                before.wrapping_add(delta) & mask
            };
            if redundant(before ^ after) {
                continue;
            }
            let mut bytes = after.to_be_bytes()[4 - width..].to_vec();
            if little {
                bytes.reverse();
            }
            out.push(put(seed, pos, &bytes));
        }
    }
}

fn interesting(seed: &[u8], width: usize, little: bool, table: &[i32], out: &mut Vec<Vec<u8>>) {
    if seed.len() < width {
        return;
    }
    for pos in 0..=seed.len() - width {
        for value in table {
            let mut bytes = value.to_be_bytes()[4 - width..].to_vec();
            if little {
                bytes.reverse();
            }
            out.push(put(seed, pos, &bytes));
        }
    }
}

/// Every buffer that the deterministic stages make of `seed`, in order.
fn deterministic_outputs(seed: &[u8]) -> Vec<Vec<u8>> {
    let mut out = Vec::new();
    for width in [1, 2, 4] {
        for pos in 0..=8 * seed.len() - width {
            out.push(flip_bits(seed, pos, width));
        }
    }
    for width in [1, 2, 4] {
        if seed.len() >= width {
            for pos in 0..=seed.len() - width {
                out.push(flip_bytes(seed, pos, width));
            }
        }
    }
    arith(seed, 1, false, false, &mut out);
    arith(seed, 1, true, false, &mut out);
    for width in [2, 4] {
        arith(seed, width, false, false, &mut out);
        arith(seed, width, true, false, &mut out);
        arith(seed, width, false, true, &mut out);
        arith(seed, width, true, true, &mut out);
    }
    let table8: Vec<i32> = seed_management::config::INTERESTING_8.iter().map(|v| *v as i32).collect();
    let table16: Vec<i32> =
        seed_management::config::INTERESTING_16.iter().map(|v| *v as i32).collect();
    let table32: Vec<i32> = seed_management::config::INTERESTING_32.to_vec();
    interesting(seed, 1, false, &table8, &mut out);
    interesting(seed, 2, false, &table16, &mut out);
    interesting(seed, 2, true, &table16, &mut out);
    interesting(seed, 4, false, &table32, &mut out);
    interesting(seed, 4, true, &table32, &mut out);
    out
}

fn check_generator(bytes: Vec<u8>) {
    let seed = InputSeed::new(bytes.clone());
    let mut generator = SeedGenerator::new();
    let expected = deterministic_outputs(&bytes);
    for (index, buffer) in expected.iter().enumerate() {
        let got = generator.get_a_mutated_seed(&seed);
        assert_eq!(got.as_ref(), Some(buffer), "output number {}", index);
    }
    // the havoc stage: between 1 * 3 and 1024 * 129 random buffers, then the end
    let mut havoc = 0u64;
    while let Some(buffer) = generator.get_a_mutated_seed(&seed) {
        assert!(!buffer.is_empty());
        havoc += 1;
        assert!(havoc <= 1024 * 129);
    }
    assert!(havoc >= 3);
    // after the end the walk starts over
    assert_eq!(generator.get_a_mutated_seed(&seed), Some(expected[0].clone()));
    assert_eq!(generator.get_a_mutated_seed(&seed), Some(expected[1].clone()));
}

#[test]
fn generator_walks_one_byte() {
    check_generator(vec![0x80]);
}

#[test]
fn generator_walks_two_bytes() {
    check_generator(vec![40, 32]);
}

#[test]
fn generator_walks_three_bytes() {
    check_generator(vec![0xff, 0x00, 0x7f]);
}

#[test]
fn generator_walks_five_bytes() {
    check_generator(vec![0x00, 0xff, 0xfe, 0x01, 0x80]);
}

#[test]
fn generator_starts_with_the_first_bit_flip() {
    let seed = InputSeed::new(vec![40, 32]);
    let mut generator = SeedGenerator::new();
    assert_eq!(generator.get_a_mutated_seed(&seed), Some(vec![168, 32]));
    assert_eq!(generator.get_a_mutated_seed(&seed), Some(vec![104, 32]));
    assert_eq!(generator.get_a_mutated_seed(&seed), Some(vec![8, 32]));
}

#[test]
fn generator_skips_redundant_deltas() {
    // 16 + 15 + 13 bit flips and 2 + 1 byte flips come first
    let seed = InputSeed::new(vec![40, 32]);
    let mut generator = SeedGenerator::origin(InputSeed::emptyNew());
    for _ in 0..47 {
        assert!(generator.get_a_mutated_seed(&seed).is_some());
    }
    // adding 0 to 4 to the byte 40 changes nothing, one bit or two neighbours;
    // 40 + 5 = 45 changes two bits that are apart
    assert_eq!(generator.get_a_mutated_seed(&seed), Some(vec![45, 32]));
    // 46 differs from 40 in two neighbours, 47 in three bits
    assert_eq!(generator.get_a_mutated_seed(&seed), Some(vec![47, 32]));
}

#[test]
fn generator_gives_nothing_for_an_empty_seed() {
    let empty = InputSeed::emptyNew();
    let mut generator = SeedGenerator::new();
    assert_eq!(generator.get_a_mutated_seed(&empty), None);
    assert_eq!(generator.get_a_mutated_seed(&empty), None);
    let seed = InputSeed::new(vec![1]);
    assert_eq!(generator.get_a_mutated_seed(&seed), Some(vec![0x81]));
}

#[test]
fn generator_mostly_passes_by_a_fuzzed_seed() {
    let mut seed = InputSeed::new(vec![40, 32]);
    seed.was_fuzzed = true;
    let mut taken = 0;
    for _ in 0..2000 {
        let mut generator = SeedGenerator::new();
        match generator.get_a_mutated_seed(&seed) {
            Some(buffer) => {
                assert_eq!(buffer, vec![168, 32]);
                taken += 1;
            }
            None => {
                // passed by: the next seed is served from the start
                let fresh = InputSeed::new(vec![1]);
                assert_eq!(generator.get_a_mutated_seed(&fresh), Some(vec![0x81]));
            }
        }
    }
    assert!(taken < 200);
}

#[test]
fn carry_out_applies_the_operator_of_the_stage() {
    let bytes = vec![0x10u8, 0x20, 0x30, 0x40];
    assert_eq!(carry_out(&bytes, FuzzingState::StateFlip1(9)), Some(vec![0x10, 0x60, 0x30, 0x40]));
    assert_eq!(carry_out(&bytes, FuzzingState::StateFlip2(0)), Some(vec![0xd0, 0x20, 0x30, 0x40]));
    assert_eq!(carry_out(&bytes, FuzzingState::StateFlip4(28)), Some(vec![0x10, 0x20, 0x30, 0x4f]));
    assert_eq!(carry_out(&bytes, FuzzingState::StateFlip8(1)), Some(vec![0x10, 0xdf, 0x30, 0x40]));
    assert_eq!(carry_out(&bytes, FuzzingState::StateFlip16(2)), Some(vec![0x10, 0x20, 0xcf, 0xbf]));
    assert_eq!(carry_out(&bytes, FuzzingState::StateFlip32(0)), Some(vec![0xef, 0xdf, 0xcf, 0xbf]));
    assert_eq!(carry_out(&bytes, FuzzingState::StateAddArith8((0, 1))), None);
    assert_eq!(
        carry_out(&bytes, FuzzingState::StateAddArith8((0, 5))),
        Some(vec![0x15, 0x20, 0x30, 0x40])
    );
    assert_eq!(
        carry_out(&bytes, FuzzingState::StateSubArith8((3, 3))),
        Some(vec![0x10, 0x20, 0x30, 0x3d])
    );
    assert_eq!(
        carry_out(&bytes, FuzzingState::StateSubArith16((0, 0x21))),
        Some(vec![0x0f, 0xff, 0x30, 0x40])
    );
    assert_eq!(
        carry_out(&bytes, FuzzingState::StateAddArith16AnotherEndian((0, 5))),
        Some(vec![0x15, 0x20, 0x30, 0x40])
    );
    assert_eq!(
        carry_out(&bytes, FuzzingState::StateSubArith32((0, 0x21))),
        Some(vec![0x10, 0x20, 0x30, 0x1f])
    );
    assert_eq!(
        carry_out(&bytes, FuzzingState::StateSubArith32AnotherEndian((0, 0x11))),
        Some(vec![0xff, 0x1f, 0x30, 0x40])
    );
    assert_eq!(
        carry_out(&bytes, FuzzingState::StateInterest8((2, 8))),
        Some(vec![0x10, 0x20, 0x7f, 0x40])
    );
    assert_eq!(
        carry_out(&bytes, FuzzingState::StateInterest16((1, 10))),
        Some(vec![0x10, 0xff, 0x7f, 0x40])
    );
    assert_eq!(
        carry_out(&bytes, FuzzingState::StateInterest16AnotherEndian((1, 10))),
        Some(vec![0x10, 0x7f, 0xff, 0x40])
    );
    assert_eq!(
        carry_out(&bytes, FuzzingState::StateInterest32((0, 21))),
        Some(vec![0xff, 0xff, 0x7f, 0xff])
    );
    assert_eq!(
        carry_out(&bytes, FuzzingState::StateInterest32AnotherEndian((0, 21))),
        Some(vec![0xff, 0x7f, 0xff, 0xff])
    );
    assert!(carry_out(&bytes, FuzzingState::StateHavoc((0, 0))).is_some());
}

#[test]
fn selector_decides_by_the_flags_and_the_draw() {
    let selector = Selector {};
    let fresh = InputSeed::new(vec![1]);
    let mut fuzzed = InputSeed::new(vec![1]);
    fuzzed.was_fuzzed = true;
    let mut plain = InputSeed::new(vec![1]);
    plain.is_favored = false;
    for draw in 0..100 {
        assert!(selector.decide(&fresh, draw));
        assert_eq!(selector.decide(&fuzzed, draw), draw >= 99);
        assert_eq!(selector.decide(&plain, draw), draw >= 99);
    }
    for _ in 0..500 {
        assert!(selector.whether_select(&fresh));
    }
}

#[test]
fn selector_mostly_passes_by_other_seeds() {
    let selector = Selector {};
    let mut fuzzed = InputSeed::new(vec![1]);
    fuzzed.was_fuzzed = true;
    let mut taken = 0;
    for _ in 0..3000 {
        if selector.whether_select(&fuzzed) {
            taken += 1;
        }
    }
    assert!(taken < 300);
}
