use seed_management::config::{
    ARITH_MAX, HAVOC_BLK_XL, INTERESTING_16, INTERESTING_16_CNT, INTERESTING_32,
    INTERESTING_32_CNT, INTERESTING_8, INTERESTING_8_CNT,
};
use seed_management::seed_generator::mutator::{
    arithmetic_add_four_bytes, arithmetic_add_four_bytes_another_endian,
    arithmetic_add_four_bytes_another_endian_option, arithmetic_add_four_bytes_option,
    arithmetic_add_one_byte, arithmetic_add_one_byte_option, arithmetic_add_two_bytes,
    arithmetic_add_two_bytes_another_endian, arithmetic_add_two_bytes_another_endian_option,
    arithmetic_add_two_bytes_option, arithmetic_sub_four_bytes,
    arithmetic_sub_four_bytes_another_endian, arithmetic_sub_four_bytes_another_endian_option,
    arithmetic_sub_four_bytes_option, arithmetic_sub_one_byte, arithmetic_sub_one_byte_option,
    arithmetic_sub_two_bytes, arithmetic_sub_two_bytes_another_endian,
    arithmetic_sub_two_bytes_another_endian_option, arithmetic_sub_two_bytes_option,
    could_be_bitflip, delete_byte, flip_four_bits, flip_four_bits_option, flip_four_bytes,
    flip_four_bytes_option, flip_one_bit, flip_one_bit_option, flip_one_byte,
    flip_one_byte_option, flip_two_bits, flip_two_bits_option, flip_two_bytes,
    flip_two_bytes_option, insert_copied_bytes, insert_fill_bytes, interesting16_replace,
    interesting16_replace_another_endian, interesting32_replace,
    interesting32_replace_another_endian, interesting8_replace, set_one_byte,
    sub_one_byte_could_be_bitflip,
};

#[test]
fn mod_it_works() {
    assert_eq!(2 + 2, 4);
}

#[test]
fn flip_one_bit_counts_from_the_top_bit() {
    assert_eq!(flip_one_bit(&vec![40, 32], 0), vec![168, 32]);
    assert_eq!(flip_one_bit(&vec![40, 32], 7), vec![41, 32]);
    assert_eq!(flip_one_bit(&vec![40, 32], 8), vec![40, 160]);
    assert_eq!(flip_one_bit(&vec![40, 32], 15), vec![40, 33]);
    assert_eq!(flip_one_bit_option(&vec![0], 3), Some(vec![0x10]));
}

#[test]
fn flip_two_and_four_bits_cross_byte_borders() {
    assert_eq!(flip_two_bits(&vec![0, 0], 0), vec![0xc0, 0]);
    assert_eq!(flip_two_bits(&vec![0, 0], 7), vec![0x01, 0x80]);
    assert_eq!(flip_two_bits(&vec![0, 0], 14), vec![0, 0x03]);
    assert_eq!(flip_two_bits_option(&vec![0xff], 6), Some(vec![0xfc]));
    assert_eq!(flip_four_bits(&vec![0, 0], 0), vec![0xf0, 0]);
    assert_eq!(flip_four_bits(&vec![0, 0], 6), vec![0x03, 0xc0]);
    assert_eq!(flip_four_bits(&vec![0, 0], 12), vec![0, 0x0f]);
    assert_eq!(flip_four_bits_option(&vec![0xff], 4), Some(vec![0xf0]));
}

#[test]
fn flip_bytes_invert_whole_bytes() {
    assert_eq!(flip_one_byte(&vec![1, 2, 3, 4], 3), vec![1, 2, 3, 0xfb]);
    assert_eq!(flip_two_bytes(&vec![1, 2, 3, 4], 1), vec![1, 0xfd, 0xfc, 4]);
    assert_eq!(flip_four_bytes(&vec![1, 2, 3, 4, 5], 1), vec![1, 0xfd, 0xfc, 0xfb, 0xfa]);
    assert_eq!(flip_one_byte_option(&vec![0], 0), Some(vec![0xff]));
    assert_eq!(flip_two_bytes_option(&vec![0, 0xff], 0), Some(vec![0xff, 0]));
    assert_eq!(flip_four_bytes_option(&vec![0, 0, 0, 0], 0), Some(vec![0xff; 4]));
}

#[test]
fn flipping_bytes_twice_gives_the_buffer_back() {
    let buffer: Vec<u8> = vec![0, 1, 0x7f, 0x80, 0xff, 40, 32];
    for pos in 0..buffer.len() as u64 {
        assert_eq!(flip_one_byte(&flip_one_byte(&buffer, pos), pos), buffer);
        if pos + 2 <= buffer.len() as u64 {
            assert_eq!(flip_two_bytes(&flip_two_bytes(&buffer, pos), pos), buffer);
        }
        if pos + 4 <= buffer.len() as u64 {
            assert_eq!(flip_four_bytes(&flip_four_bytes(&buffer, pos), pos), buffer);
        }
    }
}

#[test]
fn set_one_byte_overwrites() {
    assert_eq!(set_one_byte(&vec![1, 2, 3], 1, 9), vec![1, 9, 3]);
}

fn strip_zeros(mut x: u32) -> (u32, u32) {
    let mut shift = 0;
    while x != 0 && x % 2 == 0 {
        x /= 2;
        shift += 1;
    }
    (x, shift)
}

fn expected_redundant(xor: u32) -> bool {
    let (rest, shift) = strip_zeros(xor);
    xor == 0
        || rest == 1
        || rest == 3
        || rest == 15
        || (shift % 8 == 0 && (rest == 0xff || rest == 0xffff || rest == 0xffff_ffff))
}

#[test]
fn could_be_bitflip_on_chosen_values() {
    assert!(could_be_bitflip(0));
    assert!(could_be_bitflip(1));
    assert!(could_be_bitflip(0x8000_0000));
    assert!(could_be_bitflip(3));
    assert!(could_be_bitflip(6));
    assert!(could_be_bitflip(0xc000_0000));
    assert!(could_be_bitflip(15));
    assert!(could_be_bitflip(0x78));
    assert!(could_be_bitflip(0xff));
    assert!(could_be_bitflip(0xff00));
    assert!(could_be_bitflip(0xffff));
    assert!(could_be_bitflip(0x00ff_ff00));
    assert!(could_be_bitflip(0xffff_ffff));
    assert!(!could_be_bitflip(5));
    assert!(!could_be_bitflip(7));
    assert!(!could_be_bitflip(0x1fe));
    assert!(!could_be_bitflip(0x0ff0));
    assert!(!could_be_bitflip(0x1f));
    assert!(!could_be_bitflip(0xff_ffff));
    assert!(!could_be_bitflip(0x1_fffe));
}

#[test]
fn could_be_bitflip_agrees_with_its_definition() {
    for xor in 0..=0x1_ffffu32 {
        assert_eq!(could_be_bitflip(xor), expected_redundant(xor));
    }
    for shift in 0..32 {
        for pattern in [1u32, 3, 5, 7, 15, 0x1f, 0xff, 0x1ff, 0xffff, 0xff_ffff, 0xffff_ffff] {
            let xor = pattern << shift;
            assert_eq!(could_be_bitflip(xor), expected_redundant(xor));
        }
    }
}

#[test]
fn redundancy_filter_rejects_exactly_the_flip_like_deltas() {
    for byte in [0x00u8, 0x7f, 0x80, 0xff] {
        for delta in 0..ARITH_MAX {
            let buffer = vec![7, byte, 9];
            let raised = byte.wrapping_add(delta);
            let expected = if expected_redundant((byte ^ raised) as u32) {
                None
            } else {
                Some(vec![7, raised, 9])
            };
            assert_eq!(arithmetic_add_one_byte_option(&buffer, 1, delta), expected);
            let lowered = byte.wrapping_sub(delta);
            let redundant = expected_redundant((byte ^ lowered) as u32);
            let expected = if redundant {
                None
            } else {
                Some(vec![7, lowered, 9])
            };
            assert_eq!(arithmetic_sub_one_byte_option(&buffer, 1, delta), expected);
            assert_eq!(sub_one_byte_could_be_bitflip(&buffer, 1, delta), redundant);
        }
    }
}

#[test]
fn redundancy_filter_on_words() {
    for high in [0x00u8, 0x7f, 0x80, 0xff] {
        for low in [0x00u8, 0x7f, 0x80, 0xff] {
            for delta in 0..ARITH_MAX as u16 {
                let buffer = vec![high, low];
                let be = u16::from_be_bytes([high, low]);
                let le = u16::from_le_bytes([high, low]);
                let sum = be.wrapping_add(delta);
                let expected = if expected_redundant((be ^ sum) as u32) {
                    None
                } else {
                    Some(sum.to_be_bytes().to_vec())
                };
                assert_eq!(arithmetic_add_two_bytes_option(&buffer, 0, delta), expected);
                let diff = be.wrapping_sub(delta);
                let expected = if expected_redundant((be ^ diff) as u32) {
                    None
                } else {
                    Some(diff.to_be_bytes().to_vec())
                };
                assert_eq!(arithmetic_sub_two_bytes_option(&buffer, 0, delta), expected);
                let sum = le.wrapping_add(delta);
                let expected = if expected_redundant((le ^ sum) as u32) {
                    None
                } else {
                    Some(sum.to_le_bytes().to_vec())
                };
                assert_eq!(
                    arithmetic_add_two_bytes_another_endian_option(&buffer, 0, delta),
                    expected
                );
                let diff = le.wrapping_sub(delta);
                let expected = if expected_redundant((le ^ diff) as u32) {
                    None
                } else {
                    Some(diff.to_le_bytes().to_vec())
                };
                assert_eq!(
                    arithmetic_sub_two_bytes_another_endian_option(&buffer, 0, delta),
                    expected
                );
            }
        }
    }
}

#[test]
fn redundancy_filter_on_double_words() {
    for bytes in [[0u8, 0, 0, 0], [0xff, 0xff, 0xff, 0xff], [0x7f, 0xff, 0xff, 0xf0], [1, 2, 3, 4]] {
        for delta in 0..ARITH_MAX as u32 {
            let buffer = bytes.to_vec();
            let be = u32::from_be_bytes(bytes);
            let le = u32::from_le_bytes(bytes);
            let sum = be.wrapping_add(delta);
            let expected = if expected_redundant(be ^ sum) {
                None
            } else {
                Some(sum.to_be_bytes().to_vec())
            };
            assert_eq!(arithmetic_add_four_bytes_option(&buffer, 0, delta), expected);
            let diff = be.wrapping_sub(delta);
            let expected = if expected_redundant(be ^ diff) {
                None
            } else {
                Some(diff.to_be_bytes().to_vec())
            };
            assert_eq!(arithmetic_sub_four_bytes_option(&buffer, 0, delta), expected);
            let sum = le.wrapping_add(delta);
            let expected = if expected_redundant(le ^ sum) {
                None
            } else {
                Some(sum.to_le_bytes().to_vec())
            };
            assert_eq!(
                arithmetic_add_four_bytes_another_endian_option(&buffer, 0, delta),
                expected
            );
            let diff = le.wrapping_sub(delta);
            let expected = if expected_redundant(le ^ diff) {
                None
            } else {
                Some(diff.to_le_bytes().to_vec())
            };
            assert_eq!(
                arithmetic_sub_four_bytes_another_endian_option(&buffer, 0, delta),
                expected
            );
        }
    }
}

#[test]
fn arithmetic_on_one_byte_wraps() {
    assert_eq!(arithmetic_add_one_byte(&vec![1, 250, 3], 1, 5), vec![1, 255, 3]);
    assert_eq!(arithmetic_add_one_byte(&vec![1, 250, 3], 1, 6), vec![1, 0, 3]);
    assert_eq!(arithmetic_sub_one_byte(&vec![1, 3, 3], 1, 3), vec![1, 0, 3]);
    assert_eq!(arithmetic_sub_one_byte(&vec![1, 3, 3], 1, 4), vec![1, 255, 3]);
}

#[test]
fn arithmetic_on_words_carries_between_bytes() {
    assert_eq!(arithmetic_add_two_bytes(&vec![9, 0x00, 0xff, 9], 1, 1), vec![9, 0x01, 0x00, 9]);
    assert_eq!(arithmetic_add_two_bytes(&vec![0x12, 0x80], 0, 0x10), vec![0x12, 0x90]);
    assert_eq!(arithmetic_add_two_bytes(&vec![0xff, 0xff], 0, 2), vec![0x00, 0x01]);
    assert_eq!(arithmetic_sub_two_bytes(&vec![0x01, 0x00], 0, 1), vec![0x00, 0xff]);
    assert_eq!(arithmetic_sub_two_bytes(&vec![0x00, 0x00], 0, 1), vec![0xff, 0xff]);
    assert_eq!(
        arithmetic_add_two_bytes_another_endian(&vec![0xff, 0x00], 0, 1),
        vec![0x00, 0x01]
    );
    assert_eq!(
        arithmetic_sub_two_bytes_another_endian(&vec![0x00, 0x01], 0, 1),
        vec![0xff, 0x00]
    );
}

#[test]
fn arithmetic_on_double_words_carries_between_bytes() {
    assert_eq!(
        arithmetic_add_four_bytes(&vec![0x00, 0xff, 0xff, 0xff], 0, 1),
        vec![0x01, 0x00, 0x00, 0x00]
    );
    assert_eq!(
        arithmetic_add_four_bytes(&vec![0x12, 0x34, 0x80, 0xf0], 0, 0x20),
        vec![0x12, 0x34, 0x81, 0x10]
    );
    assert_eq!(
        arithmetic_sub_four_bytes(&vec![0x01, 0x00, 0x00, 0x00], 0, 1),
        vec![0x00, 0xff, 0xff, 0xff]
    );
    assert_eq!(
        arithmetic_add_four_bytes_another_endian(&vec![0xff, 0xff, 0xff, 0x00], 0, 1),
        vec![0x00, 0x00, 0x00, 0x01]
    );
    assert_eq!(
        arithmetic_sub_four_bytes_another_endian(&vec![0x00, 0x00, 0x00, 0x01], 0, 1),
        vec![0xff, 0xff, 0xff, 0x00]
    );
    assert_eq!(
        arithmetic_add_four_bytes(&vec![7, 0xff, 0xff, 0xff, 0xff], 1, 3),
        vec![7, 0, 0, 0, 2]
    );
}

#[test]
fn adding_then_subtracting_gives_the_buffer_back() {
    let buffer: Vec<u8> = vec![0x00, 0x7f, 0x80, 0xff, 0xfe, 0x01, 40, 32];
    for delta in 0..ARITH_MAX {
        for pos in 0..buffer.len() as u64 {
            let raised = arithmetic_add_one_byte(&buffer, pos, delta);
            assert_eq!(arithmetic_sub_one_byte(&raised, pos, delta), buffer);
            if pos + 2 <= buffer.len() as u64 {
                let d = delta as u16;
                let raised = arithmetic_add_two_bytes(&buffer, pos, d);
                assert_eq!(arithmetic_sub_two_bytes(&raised, pos, d), buffer);
                let raised = arithmetic_add_two_bytes_another_endian(&buffer, pos, d);
                assert_eq!(arithmetic_sub_two_bytes_another_endian(&raised, pos, d), buffer);
            }
            if pos + 4 <= buffer.len() as u64 {
                let d = delta as u32;
                let raised = arithmetic_add_four_bytes(&buffer, pos, d);
                assert_eq!(arithmetic_sub_four_bytes(&raised, pos, d), buffer);
                let raised = arithmetic_add_four_bytes_another_endian(&buffer, pos, d);
                assert_eq!(arithmetic_sub_four_bytes_another_endian(&raised, pos, d), buffer);
            }
        }
    }
}

#[test]
fn interesting_bytes_are_written_in_twos_complement() {
    assert_eq!(interesting8_replace(&vec![1, 2], 1, 0), vec![1, 0x80]);
    assert_eq!(interesting8_replace(&vec![1, 2], 0, 1), vec![0xff, 2]);
    assert_eq!(interesting8_replace(&vec![1, 2], 0, 7), vec![100, 2]);
    for index in 0..INTERESTING_8_CNT {
        let out = interesting8_replace(&vec![5], 0, index);
        assert_eq!(out, vec![INTERESTING_8[index as usize] as u8]);
    }
}

#[test]
fn interesting_words_are_written_in_both_byte_orders() {
    assert_eq!(interesting16_replace(&vec![1, 2, 3], 1, 9), vec![1, 0x80, 0x00]);
    assert_eq!(interesting16_replace_another_endian(&vec![1, 2, 3], 1, 9), vec![1, 0x00, 0x80]);
    assert_eq!(interesting16_replace(&vec![1, 2], 0, 12), vec![0x00, 0xff]);
    assert_eq!(interesting16_replace(&vec![1, 2], 0, 15), vec![0x03, 0xe8]);
    assert_eq!(interesting16_replace_another_endian(&vec![1, 2], 0, 15), vec![0xe8, 0x03]);
    for index in 0..INTERESTING_16_CNT {
        let value = INTERESTING_16[index as usize];
        assert_eq!(interesting16_replace(&vec![5, 6], 0, index), value.to_be_bytes().to_vec());
        assert_eq!(
            interesting16_replace_another_endian(&vec![5, 6], 0, index),
            value.to_le_bytes().to_vec()
        );
    }
}

#[test]
fn interesting_double_words_are_written_in_both_byte_orders() {
    assert_eq!(interesting32_replace(&vec![1, 2, 3, 4], 0, 20), vec![0xfa, 0x00, 0x00, 0xfa]);
    assert_eq!(interesting32_replace(&vec![1, 2, 3, 4], 0, 23), vec![0x00, 0x00, 0xff, 0xff]);
    assert_eq!(
        interesting32_replace_another_endian(&vec![1, 2, 3, 4], 0, 23),
        vec![0xff, 0xff, 0x00, 0x00]
    );
    assert_eq!(interesting32_replace(&vec![9, 1, 2, 3, 4], 1, 19), vec![9, 0x80, 0, 0, 0]);
    for index in 0..INTERESTING_32_CNT {
        let value = INTERESTING_32[index as usize];
        assert_eq!(
            interesting32_replace(&vec![5, 6, 7, 8], 0, index),
            value.to_be_bytes().to_vec()
        );
        assert_eq!(
            interesting32_replace_another_endian(&vec![5, 6, 7, 8], 0, index),
            value.to_le_bytes().to_vec()
        );
    }
}

#[test]
fn delete_byte_removes_a_run() {
    assert_eq!(delete_byte(&vec![1, 2, 3, 4, 5], 0, 1), vec![2, 3, 4, 5]);
    assert_eq!(delete_byte(&vec![1, 2, 3, 4, 5], 1, 3), vec![1, 5]);
    assert_eq!(delete_byte(&vec![1, 2, 3, 4, 5], 4, 1), vec![1, 2, 3, 4]);
    assert_eq!(delete_byte(&vec![1, 2, 3, 4, 5], 0, 5), Vec::<u8>::new());
}

#[test]
fn inserted_blocks_go_in_before_the_position() {
    assert_eq!(insert_fill_bytes(&vec![1, 2, 3], 0, 9, 2), vec![9, 9, 1, 2, 3]);
    assert_eq!(insert_fill_bytes(&vec![1, 2, 3], 2, 9, 1), vec![1, 2, 9, 3]);
    assert_eq!(insert_fill_bytes(&vec![1, 2, 3], 3, 9, 3), vec![1, 2, 3, 9, 9, 9]);
    assert_eq!(insert_fill_bytes(&vec![1, 2, 3], 1, 9, 0), vec![1, 2, 3]);
    assert_eq!(insert_copied_bytes(&vec![1, 2, 3], 0, 1, 2), vec![2, 3, 1, 2, 3]);
    assert_eq!(insert_copied_bytes(&vec![1, 2, 3], 2, 0, 3), vec![1, 2, 1, 2, 3, 3]);
    assert_eq!(insert_copied_bytes(&vec![1, 2, 3], 1, 2, 1), vec![1, 3, 2, 3]);
    let grown = insert_fill_bytes(&vec![1], 0, 0, HAVOC_BLK_XL);
    assert_eq!(grown.len() as u64, HAVOC_BLK_XL + 1);
}
