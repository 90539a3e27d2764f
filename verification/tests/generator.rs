use ckb_bench::generator::{GenerateError, RandomFee};
use ckb_bench::types::{CellOutput, LiveCell, OutPoint, Personal, Script, Transaction};
use ckb_types::packed;
use ckb_types::prelude::{Builder, Entity};

const OCCUPIED: u64 = 6_100_000_000;

fn out_point(tag: u8, index: u32) -> OutPoint {
    OutPoint { tx_hash: [tag; 32], index }
}

fn script(tag: u8) -> Script {
    Script { code_hash: [tag; 32], hash_type: 1, args: vec![tag; 20] }
}

fn person(tag: u8) -> Personal {
    Personal { lock_script: script(tag), dep_out_point: out_point(0xdd, 0) }
}

fn cell(index: u32, capacity: u64) -> LiveCell {
    LiveCell { out_point: out_point(1, index), capacity, lock: script(0xaa) }
}

#[test]
fn fee_of_pair_is_what_exceeds_two_occupied_outputs() {
    let receiver = person(0xbb);
    assert_eq!(
        RandomFee::fee_of_pair(&cell(0, 10_000_000_000), &cell(1, 2_200_000_123), &receiver),
        Ok(123)
    );
    assert_eq!(RandomFee::fee_of_pair(&cell(0, OCCUPIED), &cell(1, OCCUPIED), &receiver), Ok(0));
    assert_eq!(
        RandomFee::fee_of_pair(&cell(0, OCCUPIED), &cell(1, OCCUPIED - 1), &receiver),
        Err(GenerateError::InsufficientCapacity)
    );
    assert_eq!(
        RandomFee::fee_of_pair(&cell(0, OCCUPIED - 1), &cell(1, 0), &receiver),
        Err(GenerateError::InsufficientCapacity)
    );
    assert_eq!(
        RandomFee::fee_of_pair(&cell(0, u64::MAX), &cell(1, 1), &receiver),
        Err(GenerateError::CapacityOverflow)
    );
}

#[test]
fn occupied_capacity_grows_with_the_lock_arguments() {
    let mut receiver = person(0xbb);
    receiver.lock_script.args = Vec::new();
    assert_eq!(
        RandomFee::fee_of_pair(&cell(0, 4_100_000_000), &cell(1, 4_100_000_007), &receiver),
        Ok(7)
    );
    receiver.lock_script.args = vec![0; 1];
    assert_eq!(
        RandomFee::fee_of_pair(&cell(0, 4_200_000_000), &cell(1, 4_200_000_007), &receiver),
        Ok(7)
    );
}

#[test]
fn spend_returns_the_draw_to_the_second_output() {
    let sender = person(0xaa);
    let receiver = person(0xbb);
    let first = cell(4, 7_000_000_000);
    let second = cell(9, 6_000_000_000);
    let transaction = RandomFee::spend(&first, &second, &sender, &receiver, 300_000_000).unwrap();
    assert_eq!(
        transaction,
        Transaction {
            inputs: vec![out_point(1, 4), out_point(1, 9)],
            outputs: vec![
                CellOutput { capacity: OCCUPIED, lock: script(0xbb) },
                CellOutput { capacity: OCCUPIED + 300_000_000, lock: script(0xbb) },
            ],
            dep: out_point(0xdd, 0),
            witnesses: Vec::new(),
        }
    );
}

#[test]
fn spend_without_excess_returns_nothing() {
    let sender = person(0xaa);
    let receiver = person(0xbb);
    let transaction =
        RandomFee::spend(&cell(0, OCCUPIED), &cell(1, OCCUPIED), &sender, &receiver, 4).unwrap();
    assert_eq!(transaction.outputs[0].capacity, OCCUPIED);
    assert_eq!(transaction.outputs[1].capacity, OCCUPIED);
}

#[test]
fn spend_fails_as_the_pair_does() {
    let sender = person(0xaa);
    let receiver = person(0xbb);
    assert_eq!(
        RandomFee::spend(&cell(0, 1), &cell(1, 2), &sender, &receiver, 0),
        Err(GenerateError::InsufficientCapacity)
    );
    assert_eq!(
        RandomFee::spend(&cell(0, u64::MAX), &cell(1, 2), &sender, &receiver, 0),
        Err(GenerateError::CapacityOverflow)
    );
    assert_eq!(
        RandomFee::spend(&cell(0, u64::MAX), &cell(1, 0), &sender, &receiver, u64::MAX),
        Err(GenerateError::CapacityOverflow)
    );
}

#[test]
fn generate_pairs_an_even_number_of_cells() {
    let sender = person(0xaa);
    let receiver = person(0xbb);
    let cells: Vec<LiveCell> = (0..6u32).map(|i| cell(i, 10_000_000_000 + u64::from(i))).collect();
    let (rest, transactions) = RandomFee.generate(cells.clone(), &sender, &receiver).unwrap();
    assert!(rest.is_empty());
    assert_eq!(transactions.len(), 3);
    for (k, transaction) in transactions.iter().enumerate() {
        let first = &cells[5 - 2 * k];
        let second = &cells[4 - 2 * k];
        assert_eq!(transaction.inputs, vec![first.out_point, second.out_point]);
        assert_eq!(transaction.outputs.len(), 2);
        assert_eq!(transaction.dep, sender.dep_out_point);
        assert!(transaction.witnesses.is_empty());
        let held = first.capacity + second.capacity;
        let fee = held - 2 * OCCUPIED;
        assert_eq!(transaction.outputs[0], CellOutput { capacity: OCCUPIED, lock: script(0xbb) });
        assert_eq!(transaction.outputs[1].lock, script(0xbb));
        assert!(transaction.outputs[1].capacity >= OCCUPIED);
        assert!(transaction.outputs[1].capacity < OCCUPIED + fee);
        let made = transaction.outputs[0].capacity + transaction.outputs[1].capacity;
        assert!(made <= held);
    }
}

#[test]
fn generate_sets_the_last_of_an_odd_number_aside() {
    let sender = person(0xaa);
    let receiver = person(0xbb);
    let cells: Vec<LiveCell> = (0..5u32).map(|i| cell(i, 20_000_000_000)).collect();
    let (rest, transactions) = RandomFee.generate(cells.clone(), &sender, &receiver).unwrap();
    assert_eq!(rest, vec![cells[4].clone()]);
    assert_eq!(transactions.len(), 2);
    assert_eq!(transactions[0].inputs, vec![cells[3].out_point, cells[2].out_point]);
    assert_eq!(transactions[1].inputs, vec![cells[1].out_point, cells[0].out_point]);
    for transaction in &transactions {
        assert!(!transaction.inputs.contains(&cells[4].out_point));
    }
}

#[test]
fn generate_of_nothing_and_of_one_cell() {
    let sender = person(0xaa);
    let receiver = person(0xbb);
    assert_eq!(RandomFee.generate(Vec::new(), &sender, &receiver), Ok((Vec::new(), Vec::new())));
    // a single cell is handed back, however little it holds
    assert_eq!(
        RandomFee.generate(vec![cell(0, 1)], &sender, &receiver),
        Ok((vec![cell(0, 1)], Vec::new()))
    );
}

#[test]
fn generate_draws_below_five_of_a_small_excess() {
    let sender = person(0xaa);
    let receiver = person(0xbb);
    for _ in 0..50 {
        let cells = vec![cell(0, OCCUPIED), cell(1, OCCUPIED + 1)];
        let (_, transactions) = RandomFee.generate(cells, &sender, &receiver).unwrap();
        assert!(transactions[0].outputs[1].capacity < OCCUPIED + 5);
        assert!(transactions[0].outputs[1].capacity >= OCCUPIED);
        let cells = vec![cell(0, OCCUPIED), cell(1, OCCUPIED)];
        let (_, transactions) = RandomFee.generate(cells, &sender, &receiver).unwrap();
        assert_eq!(transactions[0].outputs[1].capacity, OCCUPIED);
    }
}

#[test]
fn generate_fails_for_the_whole_batch() {
    let sender = person(0xaa);
    let receiver = person(0xbb);
    let cells = vec![cell(0, 1), cell(1, 1), cell(2, 20_000_000_000), cell(3, 20_000_000_000)];
    assert_eq!(
        RandomFee.generate(cells, &sender, &receiver),
        Err(GenerateError::InsufficientCapacity)
    );
    // the pair taken first decides
    let cells = vec![cell(0, 1), cell(1, 1), cell(2, u64::MAX), cell(3, u64::MAX)];
    assert_eq!(RandomFee.generate(cells, &sender, &receiver), Err(GenerateError::CapacityOverflow));
}

#[test]
fn with_signature_gives_each_input_the_witness() {
    let sender = person(0xaa);
    let receiver = person(0xbb);
    let raw = RandomFee::spend(&cell(0, OCCUPIED), &cell(1, OCCUPIED), &sender, &receiver, 0)
        .unwrap();
    let signed = raw.clone().with_signature(&vec![9, 8, 7]);
    assert_eq!(signed.witnesses, vec![vec![9, 8, 7], vec![9, 8, 7]]);
    assert_eq!(signed.inputs, raw.inputs);
    assert_eq!(signed.outputs, raw.outputs);
    assert_eq!(signed.dep, raw.dep);
    assert_eq!(signed.hash(), raw.hash());
    let again = signed.with_signature(&vec![1]);
    assert_eq!(again.witnesses, vec![vec![1], vec![1]]);
}

#[test]
fn hash_is_that_of_the_ledger_transaction() {
    let sender = person(0xaa);
    let receiver = person(0xbb);
    let first = cell(4, 7_000_000_000);
    let second = cell(9, 6_000_000_000);
    let transaction = RandomFee::spend(&first, &second, &sender, &receiver, 5).unwrap();
    let point = |tag: u8, index: u32| {
        packed::OutPoint::new_builder()
            .tx_hash(packed::Byte32::from_slice(&[tag; 32]).unwrap())
            .index(index)
            .build()
    };
    let lock = packed::Script::new_builder()
        .code_hash(packed::Byte32::from_slice(&[0xbb; 32]).unwrap())
        .hash_type(1u8)
        .args(&[0xbbu8; 20][..])
        .build();
    let output = |capacity: u64| {
        packed::CellOutput::new_builder().capacity(capacity).lock(lock.clone()).build()
    };
    let expected = ckb_types::core::TransactionBuilder::default()
        .input(packed::CellInput::new_builder().previous_output(point(1, 4)).build())
        .input(packed::CellInput::new_builder().previous_output(point(1, 9)).build())
        .output(output(OCCUPIED))
        .output(output(OCCUPIED + 5))
        .output_data(packed::Bytes::default())
        .output_data(packed::Bytes::default())
        .cell_dep(packed::CellDep::new_builder().out_point(point(0xdd, 0)).build())
        .build();
    assert_eq!(transaction.hash().to_vec(), expected.hash().raw_data().to_vec());
    let other = RandomFee::spend(&first, &second, &sender, &receiver, 6).unwrap();
    assert_ne!(transaction.hash(), other.hash());
}

#[test]
fn signing_message_is_the_digest_of_the_hash() {
    let sender = person(0xaa);
    let receiver = person(0xbb);
    let transaction =
        RandomFee::spend(&cell(4, OCCUPIED), &cell(9, OCCUPIED), &sender, &receiver, 0).unwrap();
    let hash = transaction.hash();
    assert_eq!(transaction.signing_message(), ckb_hash::blake2b_256(hash));
    assert_ne!(transaction.signing_message(), hash);
}

#[test]
fn attach_signatures_signs_each_transaction_in_order() {
    let sender = person(0xaa);
    let receiver = person(0xbb);
    let cells: Vec<LiveCell> = (0..6u32).map(|i| cell(i, 10_000_000_000)).collect();
    let (_, transactions) = RandomFee.generate(cells, &sender, &receiver).unwrap();
    let signatures = vec![Some(vec![1u8, 1]), Some(vec![2u8]), Some(Vec::new())];
    let signed = RandomFee::attach_signatures(transactions.clone(), &signatures).unwrap();
    assert_eq!(signed.len(), 3);
    for i in 0..3 {
        let signature = signatures[i].clone().unwrap();
        assert_eq!(signed[i], transactions[i].clone().with_signature(&signature));
        assert_eq!(signed[i].witnesses, vec![signature.clone(), signature]);
        assert_eq!(signed[i].inputs, transactions[i].inputs);
    }
    assert_eq!(RandomFee::attach_signatures(Vec::new(), &Vec::new()), Ok(Vec::new()));
}

#[test]
fn attach_signatures_fails_where_one_is_missing() {
    let sender = person(0xaa);
    let receiver = person(0xbb);
    let cells: Vec<LiveCell> = (0..4u32).map(|i| cell(i, 10_000_000_000)).collect();
    let (_, transactions) = RandomFee.generate(cells, &sender, &receiver).unwrap();
    assert_eq!(
        RandomFee::attach_signatures(transactions.clone(), &vec![Some(vec![1u8]), None]),
        Err(GenerateError::SigningFailed)
    );
    assert_eq!(
        RandomFee::attach_signatures(transactions.clone(), &vec![Some(vec![1u8])]),
        Err(GenerateError::SigningFailed)
    );
    assert_eq!(
        RandomFee::attach_signatures(transactions, &vec![Some(vec![1u8]); 3]),
        Err(GenerateError::SigningFailed)
    );
}

#[test]
fn generate_with_draws_is_reproducible() {
    let sender = person(0xaa);
    let receiver = person(0xbb);
    let cells: Vec<LiveCell> = (0..5u32).map(|i| cell(i, 7_000_000_000 + u64::from(i))).collect();
    let draws = vec![1_000_000_000u64, 42];
    let (rest, transactions) =
        RandomFee.generate_with_draws(cells.clone(), &sender, &receiver, &draws).unwrap();
    assert_eq!(rest, vec![cells[4].clone()]);
    let output = |capacity: u64| CellOutput { capacity, lock: script(0xbb) };
    assert_eq!(
        transactions,
        vec![
            Transaction {
                inputs: vec![out_point(1, 3), out_point(1, 2)],
                outputs: vec![output(OCCUPIED), output(OCCUPIED + 1_000_000_000)],
                dep: out_point(0xdd, 0),
                witnesses: Vec::new(),
            },
            Transaction {
                inputs: vec![out_point(1, 1), out_point(1, 0)],
                outputs: vec![output(OCCUPIED), output(OCCUPIED + 42)],
                dep: out_point(0xdd, 0),
                witnesses: Vec::new(),
            },
        ]
    );
    // what was held, less what the outputs hold, is left as the fee
    let held = cells[3].capacity + cells[2].capacity;
    let made = transactions[0].outputs[0].capacity + transactions[0].outputs[1].capacity;
    assert_eq!(held - made, 2 * 7_000_000_000 + 5 - 2 * OCCUPIED - 1_000_000_000);
    let again = RandomFee.generate_with_draws(cells, &sender, &receiver, &draws).unwrap();
    assert_eq!(again.1, transactions);
}

#[test]
fn generate_with_draws_fails_at_the_first_pair_that_cannot_be_spent() {
    let sender = person(0xaa);
    let receiver = person(0xbb);
    let cells = vec![cell(0, u64::MAX), cell(1, 1), cell(2, 1), cell(3, 1)];
    assert_eq!(
        RandomFee.generate_with_draws(cells, &sender, &receiver, &vec![0, 0]),
        Err(GenerateError::InsufficientCapacity)
    );
    let cells = vec![cell(0, u64::MAX / 2), cell(1, u64::MAX / 2)];
    assert_eq!(
        RandomFee.generate_with_draws(cells, &sender, &receiver, &vec![u64::MAX]),
        Err(GenerateError::CapacityOverflow)
    );
}
