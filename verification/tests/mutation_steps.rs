use fuzzer::mutator::run_plan;
use fuzzer::mutator::Mutation;

fn applied(step: Mutation, data: &[u8]) -> Vec<u8> {
    let mut out = data.to_vec();
    step.apply_to(&mut out);
    out
}

#[test]
fn keep_changes_nothing() {
    assert_eq!(applied(Mutation::Keep, &[1, 2, 3]), vec![1, 2, 3]);
    assert_eq!(applied(Mutation::Keep, &[]), Vec::<u8>::new());
}

#[test]
fn flip_bit_inverts_one_bit() {
    assert_eq!(
        applied(Mutation::FlipBit { index: 1, bit: 3 }, &[0b0000_0000, 0b1111_1111]),
        vec![0b0000_0000, 0b1111_0111]
    );
    assert_eq!(applied(Mutation::FlipBit { index: 0, bit: 7 }, &[0]), vec![0x80]);
    assert_eq!(applied(Mutation::FlipBit { index: 0, bit: 0 }, &[1]), vec![0]);
}

#[test]
fn flip_bit_twice_restores_the_byte() {
    let step = Mutation::FlipBit { index: 2, bit: 5 };
    let once = applied(step.clone(), &[9, 8, 7, 6]);
    assert_ne!(once, vec![9, 8, 7, 6]);
    assert_eq!(applied(step, &once), vec![9, 8, 7, 6]);
}

#[test]
fn steps_that_do_not_fit_change_nothing() {
    assert_eq!(applied(Mutation::FlipBit { index: 3, bit: 0 }, &[1, 2, 3]), vec![1, 2, 3]);
    assert_eq!(applied(Mutation::FlipBit { index: 0, bit: 8 }, &[1, 2, 3]), vec![1, 2, 3]);
    assert_eq!(applied(Mutation::SetByte { index: 0, value: 1 }, &[]), Vec::<u8>::new());
    assert_eq!(applied(Mutation::InsertByte { index: 4, value: 1 }, &[1, 2, 3]), vec![1, 2, 3]);
    assert_eq!(applied(Mutation::DeleteByte { index: 0 }, &[]), Vec::<u8>::new());
    assert_eq!(
        applied(Mutation::OverwriteBlock { start: 2, bytes: vec![0, 0] }, &[1, 2, 3]),
        vec![1, 2, 3]
    );
    assert_eq!(
        applied(Mutation::OverwriteBlock { start: usize::MAX, bytes: vec![0, 0] }, &[1, 2, 3]),
        vec![1, 2, 3]
    );
    assert_eq!(applied(Mutation::AddDelta { index: 1, delta: 1 }, &[1]), vec![1]);
    assert_eq!(applied(Mutation::Crossover { point: 2, tail: vec![9] }, &[1]), vec![1]);
    assert_eq!(applied(Mutation::Splice { point: 2, bytes: vec![9] }, &[1]), vec![1]);
    assert_eq!(
        applied(Mutation::ReplaceWindow { start: 2, end: 1, word: vec![9] }, &[1, 2, 3]),
        vec![1, 2, 3]
    );
    assert_eq!(
        applied(Mutation::ReplaceWindow { start: 1, end: 4, word: vec![9] }, &[1, 2, 3]),
        vec![1, 2, 3]
    );
    assert_eq!(applied(Mutation::SwapBytes { first: 0, second: 3 }, &[1, 2, 3]), vec![1, 2, 3]);
    assert_eq!(applied(Mutation::InsertValue { index: 1, bytes: vec![9] }, &[]), Vec::<u8>::new());
}

#[test]
fn set_byte_overwrites() {
    assert_eq!(applied(Mutation::SetByte { index: 1, value: 0xAB }, &[1, 2, 3]), vec![1, 0xAB, 3]);
}

#[test]
fn insert_byte_extends_by_one() {
    assert_eq!(applied(Mutation::InsertByte { index: 0, value: 9 }, &[1, 2]), vec![9, 1, 2]);
    assert_eq!(applied(Mutation::InsertByte { index: 1, value: 9 }, &[1, 2]), vec![1, 9, 2]);
    assert_eq!(applied(Mutation::InsertByte { index: 2, value: 9 }, &[1, 2]), vec![1, 2, 9]);
    assert_eq!(applied(Mutation::InsertByte { index: 0, value: 9 }, &[]), vec![9]);
}

#[test]
fn delete_byte_shrinks_by_one() {
    assert_eq!(applied(Mutation::DeleteByte { index: 0 }, &[1, 2, 3]), vec![2, 3]);
    assert_eq!(applied(Mutation::DeleteByte { index: 2 }, &[1, 2, 3]), vec![1, 2]);
    assert_eq!(applied(Mutation::DeleteByte { index: 0 }, &[7]), Vec::<u8>::new());
}

#[test]
fn overwrite_block_replaces_a_run() {
    assert_eq!(
        applied(Mutation::OverwriteBlock { start: 1, bytes: vec![7, 8] }, &[1, 2, 3, 4]),
        vec![1, 7, 8, 4]
    );
    assert_eq!(
        applied(Mutation::OverwriteBlock { start: 0, bytes: vec![7, 8] }, &[1, 2]),
        vec![7, 8]
    );
    assert_eq!(
        applied(Mutation::OverwriteBlock { start: 2, bytes: vec![] }, &[1, 2]),
        vec![1, 2]
    );
}

#[test]
fn add_delta_wraps_around() {
    assert_eq!(applied(Mutation::AddDelta { index: 0, delta: 10 }, &[250]), vec![4]);
    assert_eq!(applied(Mutation::AddDelta { index: 0, delta: -10 }, &[4]), vec![250]);
    assert_eq!(applied(Mutation::AddDelta { index: 0, delta: 0 }, &[4]), vec![4]);
    assert_eq!(applied(Mutation::AddDelta { index: 0, delta: -1 }, &[0]), vec![255]);
    assert_eq!(applied(Mutation::AddDelta { index: 0, delta: 256 }, &[17]), vec![17]);
    assert_eq!(applied(Mutation::AddDelta { index: 0, delta: -256 }, &[17]), vec![17]);
    assert_eq!(applied(Mutation::AddDelta { index: 0, delta: 300 }, &[0]), vec![44]);
    assert_eq!(applied(Mutation::AddDelta { index: 0, delta: i64::MAX }, &[0]), vec![255]);
    assert_eq!(applied(Mutation::AddDelta { index: 0, delta: i64::MIN }, &[3]), vec![3]);
}

#[test]
fn add_delta_agrees_with_wrapping_add_of_the_low_byte() {
    for delta in [-300i64, -129, -128, -1, 0, 1, 127, 128, 255, 256, 1000] {
        for byte in [0u8, 1, 127, 128, 200, 255] {
            let expected = byte.wrapping_add(delta as i8 as u8);
            if (-128..=127).contains(&delta) {
                assert_eq!(applied(Mutation::AddDelta { index: 0, delta }, &[byte]), vec![expected]);
            }
            let exact = (byte as i64 + delta).rem_euclid(256) as u8;
            assert_eq!(applied(Mutation::AddDelta { index: 0, delta }, &[byte]), vec![exact]);
        }
    }
}

#[test]
fn crossover_keeps_the_head_and_takes_the_tail() {
    assert_eq!(
        applied(Mutation::Crossover { point: 2, tail: vec![7, 8] }, &[1, 2, 3, 4]),
        vec![1, 2, 7, 8]
    );
    assert_eq!(
        applied(Mutation::Crossover { point: 1, tail: vec![7, 8, 9] }, &[1, 2]),
        vec![1, 7, 8, 9]
    );
    assert_eq!(applied(Mutation::Crossover { point: 0, tail: vec![] }, &[1, 2]), Vec::<u8>::new());
}

#[test]
fn splice_inserts_bytes() {
    assert_eq!(
        applied(Mutation::Splice { point: 1, bytes: vec![7, 8] }, &[1, 2, 3]),
        vec![1, 7, 8, 2, 3]
    );
    assert_eq!(applied(Mutation::Splice { point: 0, bytes: vec![7] }, &[1]), vec![7, 1]);
}

#[test]
fn replace_window_swaps_a_run_for_a_word() {
    assert_eq!(
        applied(Mutation::ReplaceWindow { start: 1, end: 3, word: vec![7, 8] }, &[1, 2, 3, 4]),
        vec![1, 7, 8, 4]
    );
    assert_eq!(
        applied(Mutation::ReplaceWindow { start: 2, end: 3, word: vec![7, 8, 9] }, &[1, 2, 3]),
        vec![1, 2, 7, 8, 9]
    );
    assert_eq!(
        applied(Mutation::ReplaceWindow { start: 1, end: 1, word: vec![] }, &[1, 2, 3]),
        vec![1, 2, 3]
    );
}

#[test]
fn swap_bytes_exchanges_two_positions() {
    assert_eq!(applied(Mutation::SwapBytes { first: 0, second: 2 }, &[1, 2, 3]), vec![3, 2, 1]);
    assert_eq!(applied(Mutation::SwapBytes { first: 1, second: 1 }, &[1, 2, 3]), vec![1, 2, 3]);
}

#[test]
fn insert_value_inserts_all_its_bytes() {
    assert_eq!(
        applied(Mutation::InsertValue { index: 3, bytes: vec![0xFF, 0xFF] }, &[1, 2, 3]),
        vec![1, 2, 3, 0xFF, 0xFF]
    );
}

#[test]
fn plan_is_applied_in_order() {
    let plan = vec![
        Mutation::InsertByte { index: 0, value: 9 },
        Mutation::DeleteByte { index: 1 },
        Mutation::SetByte { index: 0, value: 7 },
    ];
    assert_eq!(run_plan(&[1, 2, 3], &plan), vec![7, 2, 3]);
    assert_eq!(run_plan(&[1, 2, 3], &Vec::new()), vec![1, 2, 3]);
}

#[test]
fn baseline_plan_changes_length_by_at_most_its_resizing_steps() {
    let plan = vec![
        Mutation::InsertByte { index: 0, value: 1 },
        Mutation::FlipBit { index: 0, bit: 1 },
        Mutation::InsertByte { index: 1, value: 2 },
        Mutation::DeleteByte { index: 0 },
        Mutation::Keep,
        Mutation::SetByte { index: 0, value: 3 },
    ];
    for input in [vec![], vec![5u8], vec![5u8; 40]] {
        let out = run_plan(&input, &plan);
        let change = out.len() as i64 - input.len() as i64;
        assert!(change.abs() <= 3);
        assert_eq!(change, 1);
    }
}

#[test]
fn deleting_from_an_empty_input_is_harmless() {
    let plan = vec![
        Mutation::DeleteByte { index: 0 },
        Mutation::DeleteByte { index: 0 },
        Mutation::FlipBit { index: 0, bit: 0 },
    ];
    assert_eq!(run_plan(&[], &plan), Vec::<u8>::new());
}
