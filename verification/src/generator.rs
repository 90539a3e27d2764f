//! The generator of spend transactions with a random fee: it pairs the live
//! cells, spends each pair into two cells of the receiver, and returns part
//! of what the pair held beyond their least capacity to the second of them.

use crate::capacity::{capacity_add, capacity_sub, lock_occupied_capacity, occupied_capacity_of};
use crate::types::{
    signed_model, CellOutput, CellOutputModel, LiveCell, OutPoint, Personal, Transaction,
    TransactionModel,
};
use rand::Rng;
use vstd::prelude::*;

verus! {

/// Why no transactions were generated.
#[derive(Clone, Copy, Debug, PartialEq, Eq, Structural)]
pub enum GenerateError {
    /// A capacity exceeds `u64::MAX`: the sum of a pair, or the least
    /// capacity of an output.
    CapacityOverflow,
    /// A pair of cells holds less than two outputs need.
    InsufficientCapacity,
    /// A transaction has no signature.
    SigningFailed,
}

/// The generator that pays a random fee.
#[derive(Clone, Copy, Debug, PartialEq, Eq, Structural)]
pub struct RandomFee;

/// The least capacity of an output under the receiver's lock.
pub open spec fn occupied_by(receiver: Personal) -> Option<u64> {
    occupied_capacity_of(receiver.lock_script.args@.len())
}

/// What a pair of cells holds beyond the least capacity of two outputs of
/// the receiver, or why the pair cannot be spent.
pub open spec fn pair_fee(first: LiveCell, second: LiveCell, receiver: Personal) -> Result<
    u64,
    GenerateError,
> {
    let inputs = first.capacity + second.capacity;
    if inputs > u64::MAX {
        Err(GenerateError::CapacityOverflow)
    } else {
        match occupied_by(receiver) {
            None => Err(GenerateError::CapacityOverflow),
            Some(occupied) => if inputs < 2 * occupied {
                Err(GenerateError::InsufficientCapacity)
            } else {
                Ok((inputs - 2 * occupied) as u64)
            },
        }
    }
}

/// The bound below which the returned part of a fee is drawn.
pub open spec fn draw_bound(fee: u64) -> u64 {
    if fee < 5 {
        5
    } else {
        fee
    }
}

/// What the second output gets beyond its least capacity: nothing of a fee
/// of 0, else the number drawn.
pub open spec fn returned(fee: u64, draw: u64) -> u64 {
    if fee == 0 {
        0
    } else {
        draw
    }
}

/// The unsigned transaction that spends the pair with the number drawn, or
/// why there is none.
pub open spec fn spend_model(
    first: LiveCell,
    second: LiveCell,
    sender: Personal,
    receiver: Personal,
    draw: u64,
) -> Result<TransactionModel, GenerateError> {
    match pair_fee(first, second, receiver) {
        Err(error) => Err(error),
        Ok(fee) => {
            let occupied = occupied_by(receiver).unwrap();
            if occupied + returned(fee, draw) > u64::MAX {
                Err(GenerateError::CapacityOverflow)
            } else {
                Ok(
                    TransactionModel {
                        inputs: seq![first.out_point, second.out_point],
                        outputs: seq![
                            CellOutputModel { capacity: occupied, lock: receiver.lock_script@ },
                            CellOutputModel {
                                capacity: (occupied + returned(fee, draw)) as u64,
                                lock: receiver.lock_script@,
                            },
                        ],
                        dep: sender.dep_out_point,
                        witnesses: Seq::empty(),
                    },
                )
            }
        },
    }
}

/// The transaction is the pair's, for some number that can be drawn for it.
pub open spec fn spends_pair(
    first: LiveCell,
    second: LiveCell,
    sender: Personal,
    receiver: Personal,
    transaction: TransactionModel,
) -> bool {
    exists|draw: u64|
        pair_fee(first, second, receiver) is Ok && draw < draw_bound(
            pair_fee(first, second, receiver).unwrap(),
        ) && #[trigger] spend_model(first, second, sender, receiver, draw) == Ok::<
            TransactionModel,
            GenerateError,
        >(transaction)
}

/// How many of the cells are paired: all of them, but for the last of an
/// odd number.
pub open spec fn paired_len(cells: Seq<LiveCell>) -> int {
    cells.len() - cells.len() % 2
}

/// The cell that is set aside: the last of an odd number, none of an even.
pub open spec fn leftover(cells: Seq<LiveCell>) -> Seq<LiveCell> {
    if cells.len() % 2 == 1 {
        seq![cells.last()]
    } else {
        Seq::empty()
    }
}

/// The first cell of the pair that transaction `k` spends: pairs are taken
/// from the end of the paired cells.
pub open spec fn pair_first(cells: Seq<LiveCell>, k: int) -> LiveCell {
    cells[paired_len(cells) - 1 - 2 * k]
}

/// The second cell of the pair that transaction `k` spends.
pub open spec fn pair_second(cells: Seq<LiveCell>, k: int) -> LiveCell {
    cells[paired_len(cells) - 2 - 2 * k]
}

/// Each of the first `count` pairs can be spent.
pub open spec fn spendable_upto(cells: Seq<LiveCell>, receiver: Personal, count: int) -> bool {
    forall|k: int|
        0 <= k < count ==> #[trigger] pair_fee(
            pair_first(cells, k),
            pair_second(cells, k),
            receiver,
        ) is Ok
}

/// `rest` and `transactions` are what the cells give: the leftover cell,
/// and for each pair, in the order in which they are taken, a transaction
/// that spends it.
pub open spec fn generated(
    cells: Seq<LiveCell>,
    sender: Personal,
    receiver: Personal,
    rest: Seq<LiveCell>,
    transactions: Seq<Transaction>,
) -> bool {
    &&& rest == leftover(cells)
    &&& transactions.len() == cells.len() / 2
    &&& forall|k: int|
        0 <= k < transactions.len() ==> spends_pair(
            pair_first(cells, k),
            pair_second(cells, k),
            sender,
            receiver,
            (#[trigger] transactions[k])@,
        )
}

/// Each of the first `count` pairs can be spent with the number drawn for
/// it.
pub open spec fn spendable_with(
    cells: Seq<LiveCell>,
    sender: Personal,
    receiver: Personal,
    draws: Seq<u64>,
    count: int,
) -> bool {
    forall|k: int|
        0 <= k < count ==> #[trigger] spend_model(
            pair_first(cells, k),
            pair_second(cells, k),
            sender,
            receiver,
            draws[k],
        ) is Ok
}

/// `rest` and `transactions` are what the cells give with these draws: the
/// leftover cell, and for each pair, in the order in which they are taken,
/// the transaction that spends it with the number drawn for it.
pub open spec fn generated_with(
    cells: Seq<LiveCell>,
    sender: Personal,
    receiver: Personal,
    draws: Seq<u64>,
    rest: Seq<LiveCell>,
    transactions: Seq<Transaction>,
) -> bool {
    &&& rest == leftover(cells)
    &&& transactions.len() == cells.len() / 2
    &&& forall|k: int|
        0 <= k < transactions.len() ==> #[trigger] spend_model(
            pair_first(cells, k),
            pair_second(cells, k),
            sender,
            receiver,
            draws[k],
        ) == Ok::<TransactionModel, GenerateError>(transactions[k]@)
}

/// `error` is why the first pair that cannot be spent with the number drawn
/// for it cannot.
pub open spec fn fails_with_draws(
    cells: Seq<LiveCell>,
    sender: Personal,
    receiver: Personal,
    draws: Seq<u64>,
    error: GenerateError,
) -> bool {
    exists|k: int|
        {
            &&& 0 <= k < cells.len() / 2
            &&& spendable_with(cells, sender, receiver, draws, k)
            &&& #[trigger] spend_model(
                pair_first(cells, k),
                pair_second(cells, k),
                sender,
                receiver,
                draws[k],
            ) == Err::<TransactionModel, GenerateError>(error)
        }
}

/// Each of the first `count` draws is below the bound of its pair.
pub open spec fn draws_in_bounds(
    cells: Seq<LiveCell>,
    receiver: Personal,
    draws: Seq<u64>,
    count: int,
) -> bool {
    forall|k: int|
        0 <= k < count ==> draws[k] < draw_bound(
            (#[trigger] pair_fee(pair_first(cells, k), pair_second(cells, k), receiver)).unwrap(),
        )
}

/// `error` is why the first pair that cannot be spent cannot.
pub open spec fn fails_with(cells: Seq<LiveCell>, receiver: Personal, error: GenerateError) -> bool {
    exists|k: int|
        {
            &&& 0 <= k < cells.len() / 2
            &&& spendable_upto(cells, receiver, k)
            &&& #[trigger] pair_fee(pair_first(cells, k), pair_second(cells, k), receiver) == Err::<
                u64,
                GenerateError,
            >(error)
        }
}

/// There is a signature for each of `count` transactions.
pub open spec fn all_signed(signatures: Seq<Option<Vec<u8>>>, count: nat) -> bool {
    &&& signatures.len() == count
    &&& forall|i: int| 0 <= i < count ==> (#[trigger] signatures[i]) is Some
}

/// `signed` are the transactions, in their order, each with its signature
/// as the witness of each of its inputs.
pub open spec fn signed_with(
    transactions: Seq<Transaction>,
    signatures: Seq<Option<Vec<u8>>>,
    signed: Seq<Transaction>,
) -> bool {
    &&& signed.len() == transactions.len()
    &&& forall|i: int|
        0 <= i < signed.len() ==> (#[trigger] signed[i])@ == signed_model(
            transactions[i]@,
            signatures[i].unwrap()@,
        )
}

/// `Rng::gen_range` of rand on `thread_rng()`, from 0 to `bound`: a number
/// below `bound`. Which one is left open.
#[verifier::external_body]
fn random_below(bound: u64) -> (draw: u64)
    requires
        bound > 0,
    ensures
        draw < bound,
{
    rand::thread_rng().gen_range(0, bound)
}

impl RandomFee {
    /// What the pair holds beyond the least capacity of two outputs of the
    /// receiver.
    pub fn fee_of_pair(first: &LiveCell, second: &LiveCell, receiver: &Personal) -> (fee: Result<
        u64,
        GenerateError,
    >)
        ensures
            fee == pair_fee(*first, *second, *receiver),
    {
        let inputs = match capacity_add(first.capacity, second.capacity) {
            None => { return Err(GenerateError::CapacityOverflow); },
            Some(inputs) => inputs,
        };
        let lock = &receiver.lock_script;
        let occupied = match lock_occupied_capacity(&lock.code_hash, lock.hash_type, &lock.args) {
            None => { return Err(GenerateError::CapacityOverflow); },
            Some(occupied) => occupied,
        };
        let after_first = match capacity_sub(inputs, occupied) {
            None => { return Err(GenerateError::InsufficientCapacity); },
            Some(rest) => rest,
        };
        match capacity_sub(after_first, occupied) {
            None => Err(GenerateError::InsufficientCapacity),
            Some(fee) => Ok(fee),
        }
    }

    /// The unsigned transaction that spends the pair into two outputs of
    /// the receiver: the first at its least capacity, the second with
    /// `draw` more where the pair holds more than both need.
    pub fn spend(
        first: &LiveCell,
        second: &LiveCell,
        sender: &Personal,
        receiver: &Personal,
        draw: u64,
    ) -> (result: Result<Transaction, GenerateError>)
        ensures
            result.is_ok() == spend_model(*first, *second, *sender, *receiver, draw).is_ok(),
            result matches Ok(transaction) ==> transaction@ == spend_model(
                *first,
                *second,
                *sender,
                *receiver,
                draw,
            ).unwrap(),
            result matches Err(error) ==> spend_model(*first, *second, *sender, *receiver, draw).err()
                == Some(error),
    {
        let fee = match Self::fee_of_pair(first, second, receiver) {
            Err(error) => { return Err(error); },
            Ok(fee) => fee,
        };
        let lock = &receiver.lock_script;
        let occupied = match lock_occupied_capacity(&lock.code_hash, lock.hash_type, &lock.args) {
            None => { return Err(GenerateError::CapacityOverflow); },
            Some(occupied) => occupied,
        };
        let second_capacity = if fee != 0 {
            match capacity_add(occupied, draw) {
                None => { return Err(GenerateError::CapacityOverflow); },
                Some(capacity) => capacity,
            }
        } else {
            occupied
        };
        let mut inputs: Vec<OutPoint> = Vec::new();
        inputs.push(first.out_point);
        inputs.push(second.out_point);
        let mut outputs: Vec<CellOutput> = Vec::new();
        outputs.push(CellOutput { capacity: occupied, lock: lock.duplicate() });
        outputs.push(CellOutput { capacity: second_capacity, lock: lock.duplicate() });
        let transaction = Transaction {
            inputs,
            outputs,
            dep: sender.dep_out_point,
            witnesses: Vec::new(),
        };
        proof {
            let model = spend_model(*first, *second, *sender, *receiver, draw).unwrap();
            assert(transaction@.inputs =~= model.inputs);
            assert(transaction@.outputs =~= model.outputs);
            assert(transaction@.witnesses =~= model.witnesses);
        }
        Ok(transaction)
    }

    /// Finishes the generated transactions with what the sender's key made
    /// of their signing messages: `signatures[i]` is the signature of
    /// `transactions[i]`, or `None` where signing failed. One signature that
    /// is missing fails the whole batch.
    pub fn attach_signatures(
        transactions: Vec<Transaction>,
        signatures: &Vec<Option<Vec<u8>>>,
    ) -> (result: Result<Vec<Transaction>, GenerateError>)
        ensures
            result.is_ok() == all_signed(signatures@, transactions@.len()),
            result matches Ok(signed) ==> signed_with(transactions@, signatures@, signed@),
            result matches Err(error) ==> error == GenerateError::SigningFailed,
    {
        let count = transactions.len();
        if signatures.len() != count {
            return Err(GenerateError::SigningFailed);
        }
        let mut i: usize = 0;
        while i < count
            invariant
                i <= count,
                count == signatures.len(),
                count == transactions.len(),
                forall|j: int| 0 <= j < i ==> (#[trigger] signatures[j]) is Some,
            decreases count - i,
        {
            if signatures[i].is_none() {
                return Err(GenerateError::SigningFailed);
            }
            i = i + 1;
        }
        let ghost all = transactions@;
        let mut pending = transactions;
        let mut backwards: Vec<Transaction> = Vec::new();
        while pending.len() > 0
            invariant
                count == all.len(),
                all_signed(signatures@, count as nat),
                pending.len() <= count,
                pending@ == all.take(pending.len() as int),
                backwards.len() == count - pending.len(),
                forall|j: int|
                    0 <= j < backwards.len() ==> (#[trigger] backwards[j])@ == signed_model(
                        all[count - 1 - j]@,
                        signatures[count - 1 - j].unwrap()@,
                    ),
            decreases pending.len(),
        {
            let at = pending.len() - 1;
            let ghost before = backwards@;
            if let Some(transaction) = pending.pop() {
                if let Some(signature) = &signatures[at] {
                    backwards.push(transaction.with_signature(signature));
                }
            }
            proof {
                assert(pending@ =~= all.take(pending.len() as int));
                assert forall|j: int| 0 <= j < backwards.len() implies (#[trigger] backwards[j])@
                    == signed_model(all[count - 1 - j]@, signatures[count - 1 - j].unwrap()@) by {
                    if j < before.len() {
                        assert(backwards[j] == before[j]);
                    }
                }
            }
        }
        let ghost reversed = backwards@;
        let mut signed: Vec<Transaction> = Vec::new();
        while backwards.len() > 0
            invariant
                count == reversed.len(),
                backwards.len() <= count,
                backwards@ == reversed.take(backwards.len() as int),
                signed.len() == count - backwards.len(),
                forall|j: int|
                    0 <= j < signed.len() ==> (#[trigger] signed[j]) == reversed[count - 1 - j],
            decreases backwards.len(),
        {
            let ghost before = signed@;
            if let Some(transaction) = backwards.pop() {
                signed.push(transaction);
            }
            proof {
                assert(backwards@ =~= reversed.take(backwards.len() as int));
                assert forall|j: int| 0 <= j < signed.len() implies (#[trigger] signed[j])
                    == reversed[count - 1 - j] by {
                    if j < before.len() {
                        assert(signed[j] == before[j]);
                    }
                }
            }
        }
        Ok(signed)
    }

    /// Spends the live cells in pairs, from the last one down, each pair in
    /// a transaction of its own, unsigned, with `draws[k]` as the number
    /// drawn for the pair taken as the `k`th; the last of an odd number of
    /// cells is set aside first and handed back. Fails, with nothing
    /// generated, where a pair cannot be spent: the error is that of the
    /// first such pair.
    pub fn generate_with_draws(
        &self,
        live_cells: Vec<LiveCell>,
        sender: &Personal,
        receiver: &Personal,
        draws: &Vec<u64>,
    ) -> (result: Result<(Vec<LiveCell>, Vec<Transaction>), GenerateError>)
        requires
            draws.len() == live_cells.len() / 2,
        ensures
            result.is_ok() == spendable_with(
                live_cells@,
                *sender,
                *receiver,
                draws@,
                (live_cells.len() / 2) as int,
            ),
            result matches Ok(made) ==> generated_with(
                live_cells@,
                *sender,
                *receiver,
                draws@,
                made.0@,
                made.1@,
            ),
            result matches Err(error) ==> fails_with_draws(
                live_cells@,
                *sender,
                *receiver,
                draws@,
                error,
            ),
    {
        let ghost all = live_cells@;
        let mut cells = live_cells;
        let mut rest: Vec<LiveCell> = Vec::new();
        if cells.len() % 2 == 1 {
            if let Some(cell) = cells.pop() {
                rest.push(cell);
            }
        }
        proof {
            assert(rest@ =~= leftover(all));
        }
        let paired = cells.len();
        let count = paired / 2;
        let mut transactions: Vec<Transaction> = Vec::new();
        let mut k: usize = 0;
        while k < count
            invariant
                k <= count,
                all == live_cells@,
                rest@ == leftover(all),
                paired == paired_len(all),
                paired == 2 * count,
                draws.len() == count,
                cells@ == all.take(paired as int),
                transactions.len() == k,
                spendable_with(all, *sender, *receiver, draws@, k as int),
                forall|j: int|
                    0 <= j < k ==> #[trigger] spend_model(
                        pair_first(all, j),
                        pair_second(all, j),
                        *sender,
                        *receiver,
                        draws[j],
                    ) == Ok::<TransactionModel, GenerateError>(transactions[j]@),
            decreases count - k,
        {
            let ghost before = transactions@;
            let first = &cells[paired - 1 - 2 * k];
            let second = &cells[paired - 2 - 2 * k];
            proof {
                assert(*first == pair_first(all, k as int));
                assert(*second == pair_second(all, k as int));
            }
            match Self::spend(first, second, sender, receiver, draws[k]) {
                Ok(transaction) => {
                    transactions.push(transaction);
                },
                Err(error) => {
                    return Err(error);
                },
            }
            proof {
                assert forall|j: int| 0 <= j < k + 1 implies #[trigger] spend_model(
                    pair_first(all, j),
                    pair_second(all, j),
                    *sender,
                    *receiver,
                    draws[j],
                ) == Ok::<TransactionModel, GenerateError>(transactions[j]@) by {
                    if j < k {
                        assert(transactions[j] == before[j]);
                    }
                }
            }
            k = k + 1;
        }
        Ok((rest, transactions))
    }

    /// Spends the live cells in pairs, from the last one down, each pair in
    /// a transaction of its own, unsigned, with a number drawn at random
    /// below the pair's bound; the last of an odd number of cells is set
    /// aside first and handed back. Fails, with nothing generated, where a
    /// pair cannot be spent: the error is that of the first such pair.
    pub fn generate(
        &self,
        live_cells: Vec<LiveCell>,
        sender: &Personal,
        receiver: &Personal,
    ) -> (result: Result<(Vec<LiveCell>, Vec<Transaction>), GenerateError>)
        ensures
            result.is_ok() == spendable_upto(live_cells@, *receiver, (live_cells.len() / 2) as int),
            result matches Ok(made) ==> generated(live_cells@, *sender, *receiver, made.0@, made.1@),
            result matches Err(error) ==> fails_with(live_cells@, *receiver, error),
    {
        let ghost all = live_cells@;
        let count = live_cells.len() / 2;
        let paired = 2 * count;
        let mut draws: Vec<u64> = Vec::new();
        let mut k: usize = 0;
        while k < count
            invariant
                k <= count,
                all == live_cells@,
                count == all.len() / 2,
                paired == paired_len(all),
                paired == 2 * count,
                draws.len() == k,
                spendable_upto(all, *receiver, k as int),
                draws_in_bounds(all, *receiver, draws@, k as int),
            decreases count - k,
        {
            let ghost before = draws@;
            let first = &live_cells[paired - 1 - 2 * k];
            let second = &live_cells[paired - 2 - 2 * k];
            proof {
                assert(*first == pair_first(all, k as int));
                assert(*second == pair_second(all, k as int));
            }
            let fee = match Self::fee_of_pair(first, second, receiver) {
                Err(error) => { return Err(error); },
                Ok(fee) => fee,
            };
            let draw = if fee != 0 {
                random_below(if fee < 5 { 5 } else { fee })
            } else {
                0
            };
            draws.push(draw);
            proof {
                assert forall|j: int| 0 <= j < k + 1 implies draws[j] < draw_bound(
                    (#[trigger] pair_fee(
                        pair_first(all, j),
                        pair_second(all, j),
                        *receiver,
                    )).unwrap(),
                ) by {
                    if j < k {
                        assert(draws[j] == before[j]);
                    }
                }
            }
            k = k + 1;
        }
        let result = self.generate_with_draws(live_cells, sender, receiver, &draws);
        proof {
            assert forall|j: int| 0 <= j < count implies #[trigger] spend_model(
                pair_first(all, j),
                pair_second(all, j),
                *sender,
                *receiver,
                draws[j],
            ) is Ok by {
                assert(pair_fee(pair_first(all, j), pair_second(all, j), *receiver) is Ok);
                lemma_draw_is_spendable(
                    pair_first(all, j),
                    pair_second(all, j),
                    *sender,
                    *receiver,
                    draws[j],
                );
            }
            if result is Ok {
                let made = result->Ok_0.1@;
                assert forall|j: int| 0 <= j < made.len() implies spends_pair(
                    pair_first(all, j),
                    pair_second(all, j),
                    *sender,
                    *receiver,
                    (#[trigger] made[j])@,
                ) by {
                    assert(pair_fee(pair_first(all, j), pair_second(all, j), *receiver) is Ok);
                    assert(spend_model(
                        pair_first(all, j),
                        pair_second(all, j),
                        *sender,
                        *receiver,
                        draws[j],
                    ) == Ok::<TransactionModel, GenerateError>(made[j]@));
                }
            }
        }
        result
    }
}

/// A transaction that spends a pair has the pair's two cells as its inputs,
/// in the order in which they were taken, and two outputs.
pub proof fn lemma_spend_shape(
    first: LiveCell,
    second: LiveCell,
    sender: Personal,
    receiver: Personal,
    draw: u64,
)
    requires
        spend_model(first, second, sender, receiver, draw) is Ok,
    ensures
        spend_model(first, second, sender, receiver, draw).unwrap().inputs =~= seq![
            first.out_point,
            second.out_point,
        ],
        spend_model(first, second, sender, receiver, draw).unwrap().outputs.len() == 2,
        spend_model(first, second, sender, receiver, draw).unwrap().dep == sender.dep_out_point,
{
}

/// Capacity is conserved: what the pair held is what the two outputs hold
/// together with the fee that is left to the network, provided that no more
/// was returned than the pair held beyond the outputs' least capacity. (Of
/// such an excess below 5 more can be drawn than there is.)
pub proof fn lemma_spend_conserves_capacity(
    first: LiveCell,
    second: LiveCell,
    sender: Personal,
    receiver: Personal,
    draw: u64,
)
    requires
        spend_model(first, second, sender, receiver, draw) is Ok,
        returned(pair_fee(first, second, receiver).unwrap(), draw) <= pair_fee(
            first,
            second,
            receiver,
        ).unwrap(),
    ensures
        first.capacity + second.capacity == spend_model(
            first,
            second,
            sender,
            receiver,
            draw,
        ).unwrap().outputs[0].capacity + spend_model(
            first,
            second,
            sender,
            receiver,
            draw,
        ).unwrap().outputs[1].capacity + (pair_fee(first, second, receiver).unwrap() - returned(
            pair_fee(first, second, receiver).unwrap(),
            draw,
        )),
{
}

/// Every output of a transaction that spends a pair is locked to the
/// receiver and holds at least the least capacity of a cell under that lock.
pub proof fn lemma_outputs_cover_occupied(
    first: LiveCell,
    second: LiveCell,
    sender: Personal,
    receiver: Personal,
    draw: u64,
    i: int,
)
    requires
        spend_model(first, second, sender, receiver, draw) is Ok,
        0 <= i < 2,
    ensures
        spend_model(first, second, sender, receiver, draw).unwrap().outputs[i].lock
            == receiver.lock_script@,
        occupied_by(receiver) is Some,
        spend_model(first, second, sender, receiver, draw).unwrap().outputs[i].capacity
            >= occupied_by(receiver).unwrap(),
{
}

/// Any number below the bound can be drawn for a pair that can be spent:
/// the second output's capacity does not overflow.
pub proof fn lemma_draw_is_spendable(
    first: LiveCell,
    second: LiveCell,
    sender: Personal,
    receiver: Personal,
    draw: u64,
)
    requires
        pair_fee(first, second, receiver) is Ok,
        draw < draw_bound(pair_fee(first, second, receiver).unwrap()),
    ensures
        spend_model(first, second, sender, receiver, draw) is Ok,
{
}

/// What is generated of the cells: one transaction for every two cells,
/// each with two inputs and two outputs; nothing is left over of an even
/// number of cells.
pub proof fn lemma_generated_counts(
    cells: Seq<LiveCell>,
    sender: Personal,
    receiver: Personal,
    rest: Seq<LiveCell>,
    transactions: Seq<Transaction>,
)
    requires
        generated(cells, sender, receiver, rest, transactions),
    ensures
        transactions.len() == cells.len() / 2,
        cells.len() % 2 == 0 ==> rest.len() == 0,
        rest.len() + 2 * transactions.len() == cells.len(),
        forall|k: int|
            0 <= k < transactions.len() ==> (#[trigger] transactions[k])@.inputs.len() == 2
                && transactions[k]@.outputs.len() == 2,
{
    assert forall|k: int| 0 <= k < transactions.len() implies (#[trigger] transactions[k])@.inputs.len()
        == 2 && transactions[k]@.outputs.len() == 2 by {
        let first = pair_first(cells, k);
        let second = pair_second(cells, k);
        assert(spends_pair(first, second, sender, receiver, transactions[k]@));
        let draw = choose|draw: u64|
            pair_fee(first, second, receiver) is Ok && draw < draw_bound(
                pair_fee(first, second, receiver).unwrap(),
            ) && #[trigger] spend_model(first, second, sender, receiver, draw) == Ok::<
                TransactionModel,
                GenerateError,
            >(transactions[k]@);
        lemma_spend_shape(first, second, sender, receiver, draw);
    }
}

/// Of an odd number of cells the last one is handed back, and no
/// transaction spends it: the inputs of transaction `k` are the cells at
/// the two places before `len - 1 - 2k`.
pub proof fn lemma_leftover_never_spent(
    cells: Seq<LiveCell>,
    sender: Personal,
    receiver: Personal,
    rest: Seq<LiveCell>,
    transactions: Seq<Transaction>,
    k: int,
)
    requires
        cells.len() % 2 == 1,
        generated(cells, sender, receiver, rest, transactions),
        0 <= k < transactions.len(),
    ensures
        rest =~= seq![cells[cells.len() - 1]],
        0 <= cells.len() - 3 - 2 * k,
        transactions[k]@.inputs =~= seq![
            cells[cells.len() - 2 - 2 * k].out_point,
            cells[cells.len() - 3 - 2 * k].out_point,
        ],
{
    let first = pair_first(cells, k);
    let second = pair_second(cells, k);
    assert(spends_pair(first, second, sender, receiver, transactions[k]@));
    let draw = choose|draw: u64|
        pair_fee(first, second, receiver) is Ok && draw < draw_bound(
            pair_fee(first, second, receiver).unwrap(),
        ) && #[trigger] spend_model(first, second, sender, receiver, draw) == Ok::<
            TransactionModel,
            GenerateError,
        >(transactions[k]@);
    lemma_spend_shape(first, second, sender, receiver, draw);
}

} // verus!
