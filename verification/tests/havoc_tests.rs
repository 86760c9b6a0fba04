use seed_management::config::{ARITH_MAX, HAVOC_BLK_XL};
use seed_management::seed_generator::mutator::{
    apply_havoc_op, block_len_bounds, choose_block_len, choose_havoc_op, choose_insertion,
    havoc_mutate, havoc_operation_count, insert_clone_bytes, HavocOp,
};

#[test]
fn block_len_bounds_by_tier() {
    assert_eq!(block_len_bounds(0, false, 100_000), (1, 32));
    assert_eq!(block_len_bounds(1, false, 100_000), (32, 128));
    assert_eq!(block_len_bounds(2, false, 100_000), (128, 1500));
    assert_eq!(block_len_bounds(2, true, 100_000), (1500, 32768));
    assert_eq!(block_len_bounds(0, true, 100_000), (1, 32));
    assert_eq!(block_len_bounds(0, false, 10), (1, 10));
    assert_eq!(block_len_bounds(1, false, 32), (1, 32));
    assert_eq!(block_len_bounds(1, false, 33), (32, 33));
    assert_eq!(block_len_bounds(2, false, 100), (1, 100));
    assert_eq!(block_len_bounds(2, true, 2000), (1500, 2000));
    assert_eq!(block_len_bounds(2, true, 1), (1, 1));
}

#[test]
fn choose_block_len_stays_within_the_limit() {
    let mut rng = rand::thread_rng();
    for limit in [1u64, 2, 31, 32, 33, 128, 1500, 32768, 1_000_000] {
        for _ in 0..300 {
            let len = choose_block_len(limit, &mut rng);
            assert!(1 <= len && len <= limit && len <= HAVOC_BLK_XL);
        }
    }
}

#[test]
fn choose_block_len_draws_different_lengths() {
    let mut rng = rand::thread_rng();
    let first = choose_block_len(30_000, &mut rng);
    let mut differs = false;
    for _ in 0..500 {
        if choose_block_len(30_000, &mut rng) != first {
            differs = true;
        }
    }
    assert!(differs);
}

#[test]
fn havoc_operation_count_by_length() {
    assert_eq!(havoc_operation_count(1), 9);
    assert_eq!(havoc_operation_count(2), 15);
    assert_eq!(havoc_operation_count(3), 15);
    assert_eq!(havoc_operation_count(4), 19);
    assert_eq!(havoc_operation_count(1000), 19);
}

fn needs_bytes(op: &HavocOp) -> u64 {
    match *op {
        HavocOp::FlipBits { .. } => 1,
        HavocOp::FlipBytes { width, .. } => width as u64,
        HavocOp::Add { width, .. } => width as u64,
        HavocOp::Sub { width, .. } => width as u64,
        HavocOp::Interesting { width, .. } => width as u64,
        HavocOp::SetByte { .. } => 1,
        HavocOp::InsertFill { .. } => 1,
        HavocOp::InsertCopy { .. } => 1,
        HavocOp::Delete { .. } => 2,
    }
}

#[test]
fn havoc_on_a_single_byte_draws_single_byte_tweaks_only() {
    let mut rng = rand::thread_rng();
    let buffer = vec![0x5au8];
    for _ in 0..3000 {
        let op = choose_havoc_op(&buffer, &mut rng);
        assert_eq!(needs_bytes(&op), 1);
        match op {
            HavocOp::FlipBits { width, pos } => assert!(pos + width as u64 <= 8),
            HavocOp::FlipBytes { pos, .. } => assert_eq!(pos, 0),
            HavocOp::Add { pos, delta, other_endian, .. } => {
                assert!(pos == 0 && delta < ARITH_MAX && !other_endian)
            }
            HavocOp::Sub { pos, delta, other_endian, .. } => {
                assert!(pos == 0 && delta < ARITH_MAX && !other_endian)
            }
            HavocOp::Interesting { pos, index, .. } => assert!(pos == 0 && index < 9),
            HavocOp::SetByte { pos, value } => assert!(pos == 0 && value != 0),
            HavocOp::InsertFill { at, count, .. } => {
                assert!(at == 0 && 1 <= count && count <= HAVOC_BLK_XL)
            }
            HavocOp::InsertCopy { at, from, count } => assert!(at == 0 && from == 0 && count == 1),
            HavocOp::Delete { .. } => unreachable!(),
        }
        let out = apply_havoc_op(&buffer, &op);
        assert!(!out.is_empty());
    }
}

#[test]
fn havoc_on_three_bytes_never_draws_a_double_word_tweak() {
    let mut rng = rand::thread_rng();
    let buffer = vec![1u8, 2, 3];
    for _ in 0..3000 {
        let op = choose_havoc_op(&buffer, &mut rng);
        assert!(needs_bytes(&op) <= 2);
        if let HavocOp::Delete { from, count } = op {
            assert!(1 <= count && count <= 2 && from + count <= 3);
        }
    }
}

#[test]
fn havoc_draws_every_kind_on_long_buffers() {
    let mut rng = rand::thread_rng();
    let buffer: Vec<u8> = (0..64).collect();
    let mut seen = [false; 9];
    for _ in 0..5000 {
        let index = match choose_havoc_op(&buffer, &mut rng) {
            HavocOp::FlipBits { .. } => 0,
            HavocOp::FlipBytes { .. } => 1,
            HavocOp::Add { .. } => 2,
            HavocOp::Sub { .. } => 3,
            HavocOp::Interesting { .. } => 4,
            HavocOp::SetByte { .. } => 5,
            HavocOp::InsertFill { .. } => 6,
            HavocOp::InsertCopy { .. } => 7,
            HavocOp::Delete { .. } => 8,
        };
        seen[index] = true;
    }
    assert_eq!(seen, [true; 9]);
}

#[test]
fn apply_havoc_op_dispatches_to_the_operators() {
    let buffer = vec![0x00u8, 0xff, 0x10, 0x20];
    let op = HavocOp::FlipBits { width: 2, pos: 7 };
    assert_eq!(apply_havoc_op(&buffer, &op), vec![0x01, 0x7f, 0x10, 0x20]);
    let op = HavocOp::FlipBytes { width: 4, pos: 0 };
    assert_eq!(apply_havoc_op(&buffer, &op), vec![0xff, 0x00, 0xef, 0xdf]);
    let op = HavocOp::Add { width: 2, other_endian: false, pos: 0, delta: 1 };
    assert_eq!(apply_havoc_op(&buffer, &op), vec![0x01, 0x00, 0x10, 0x20]);
    let op = HavocOp::Add { width: 2, other_endian: true, pos: 0, delta: 1 };
    assert_eq!(apply_havoc_op(&buffer, &op), vec![0x01, 0xff, 0x10, 0x20]);
    let op = HavocOp::Sub { width: 4, other_endian: false, pos: 0, delta: 0x21 };
    assert_eq!(apply_havoc_op(&buffer, &op), vec![0x00, 0xff, 0x0f, 0xff]);
    let op = HavocOp::Sub { width: 1, other_endian: false, pos: 0, delta: 1 };
    assert_eq!(apply_havoc_op(&buffer, &op), vec![0xff, 0xff, 0x10, 0x20]);
    let op = HavocOp::Interesting { width: 2, other_endian: true, pos: 2, index: 13 };
    assert_eq!(apply_havoc_op(&buffer, &op), vec![0x00, 0xff, 0x00, 0x01]);
    let op = HavocOp::Interesting { width: 4, other_endian: false, pos: 0, index: 24 };
    assert_eq!(apply_havoc_op(&buffer, &op), vec![0x00, 0x01, 0x00, 0x00]);
    let op = HavocOp::SetByte { pos: 3, value: 7 };
    assert_eq!(apply_havoc_op(&buffer, &op), vec![0x00, 0xff, 0x10, 0x07]);
    let op = HavocOp::InsertFill { at: 1, value: 5, count: 2 };
    assert_eq!(apply_havoc_op(&buffer, &op), vec![0x00, 5, 5, 0xff, 0x10, 0x20]);
    let op = HavocOp::InsertCopy { at: 0, from: 2, count: 2 };
    assert_eq!(apply_havoc_op(&buffer, &op), vec![0x10, 0x20, 0x00, 0xff, 0x10, 0x20]);
    let op = HavocOp::Delete { from: 1, count: 2 };
    assert_eq!(apply_havoc_op(&buffer, &op), vec![0x00, 0x20]);
}

#[test]
fn insert_clone_bytes_grows_the_buffer_by_a_block() {
    let mut rng = rand::thread_rng();
    let buffer: Vec<u8> = vec![1, 2, 3, 4, 5];
    for _ in 0..500 {
        let op = choose_insertion(&buffer, &mut rng);
        match op {
            HavocOp::InsertFill { at, count, .. } => {
                assert!(at < 5 && 1 <= count && count <= HAVOC_BLK_XL)
            }
            HavocOp::InsertCopy { at, from, count } => {
                assert!(at < 5 && 1 <= count && from + count <= 5)
            }
            _ => unreachable!(),
        }
        let out = insert_clone_bytes(&buffer, &mut rng);
        assert!(out.len() > 5 && out.len() as u64 <= 5 + HAVOC_BLK_XL);
    }
}

#[test]
fn havoc_mutate_never_empties_the_buffer() {
    let mut rng = rand::thread_rng();
    for buffer in [vec![9u8], vec![1, 2], vec![1, 2, 3], vec![1, 2, 3, 4], (0..100).collect()] {
        for _ in 0..1000 {
            let out = havoc_mutate(&buffer, &mut rng);
            assert!(!out.is_empty());
            assert!(out.len() as u64 <= buffer.len() as u64 + HAVOC_BLK_XL);
        }
    }
}

#[test]
fn havoc_mutate_falls_back_to_a_byte_where_the_buffer_cannot_grow() {
    let mut rng = rand::thread_rng();
    let buffer = vec![0u8; 1_048_576 - 32_768];
    for _ in 0..40 {
        let out = havoc_mutate(&buffer, &mut rng);
        assert!(out.len() <= buffer.len());
    }
}
