//! The cells, identities and transactions that the generator works on.

use vstd::prelude::*;

verus! {

/// A reference to an output of an earlier transaction.
#[derive(Clone, Copy, Debug, PartialEq, Eq)]
pub struct OutPoint {
    /// Hash of the transaction that made the output.
    pub tx_hash: [u8; 32],
    /// Place of the output among that transaction's outputs.
    pub index: u32,
}

/// A lock predicate: the condition under which a cell may be spent.
#[derive(Clone, Debug, PartialEq, Eq)]
pub struct Script {
    /// Hash of the code that checks the condition.
    pub code_hash: [u8; 32],
    /// How `code_hash` is to be read.
    pub hash_type: u8,
    /// Arguments handed to the code.
    pub args: Vec<u8>,
}

/// The mathematical value of a `Script`.
pub struct ScriptModel {
    pub code_hash: [u8; 32],
    pub hash_type: u8,
    pub args: Seq<u8>,
}

impl View for Script {
    type V = ScriptModel;

    open spec fn view(&self) -> ScriptModel {
        ScriptModel { code_hash: self.code_hash, hash_type: self.hash_type, args: self.args@ }
    }
}

/// A new cell: a capacity under a lock, with no data and no type script.
#[derive(Clone, Debug, PartialEq, Eq)]
pub struct CellOutput {
    /// The cell's capacity, in shannons.
    pub capacity: u64,
    /// The cell's lock.
    pub lock: Script,
}

/// The mathematical value of a `CellOutput`.
pub struct CellOutputModel {
    pub capacity: u64,
    pub lock: ScriptModel,
}

impl View for CellOutput {
    type V = CellOutputModel;

    open spec fn view(&self) -> CellOutputModel {
        CellOutputModel { capacity: self.capacity, lock: self.lock@ }
    }
}

/// An unspent output that the benchmark may spend.
#[derive(Clone, Debug, PartialEq, Eq)]
pub struct LiveCell {
    /// Where the cell was made.
    pub out_point: OutPoint,
    /// The cell's capacity, in shannons.
    pub capacity: u64,
    /// The lock that owns the cell.
    pub lock: Script,
}

/// What the generator reads of a participant. The signing key stays with
/// the caller.
#[derive(Clone, Debug, PartialEq, Eq)]
pub struct Personal {
    /// The lock of the cells that the participant owns.
    pub lock_script: Script,
    /// The cell that holds the code which checks the participant's
    /// signatures.
    pub dep_out_point: OutPoint,
}

/// A transaction that spends cells into new ones.
#[derive(Clone, Debug, PartialEq, Eq)]
pub struct Transaction {
    /// The cells spent.
    pub inputs: Vec<OutPoint>,
    /// The cells made.
    pub outputs: Vec<CellOutput>,
    /// The cell that the signature check depends on.
    pub dep: OutPoint,
    /// One signature for each input; empty while unsigned.
    pub witnesses: Vec<Vec<u8>>,
}

/// The values of the outputs, in order.
pub open spec fn output_views(outputs: Seq<CellOutput>) -> Seq<CellOutputModel> {
    Seq::new(outputs.len(), |i: int| outputs[i]@)
}

/// The bytes of the witnesses, in order.
pub open spec fn witness_views(witnesses: Seq<Vec<u8>>) -> Seq<Seq<u8>> {
    Seq::new(witnesses.len(), |i: int| witnesses[i]@)
}

/// The mathematical value of a `Transaction`.
pub struct TransactionModel {
    pub inputs: Seq<OutPoint>,
    pub outputs: Seq<CellOutputModel>,
    pub dep: OutPoint,
    pub witnesses: Seq<Seq<u8>>,
}

impl View for Transaction {
    type V = TransactionModel;

    open spec fn view(&self) -> TransactionModel {
        TransactionModel {
            inputs: self.inputs@,
            outputs: output_views(self.outputs@),
            dep: self.dep,
            witnesses: witness_views(self.witnesses@),
        }
    }
}

/// A copy of the bytes.
pub fn copy_bytes(bytes: &Vec<u8>) -> (copy: Vec<u8>)
    ensures
        copy@ == bytes@,
{
    let mut copy: Vec<u8> = Vec::new();
    let mut i: usize = 0;
    while i < bytes.len()
        invariant
            i <= bytes.len(),
            copy@ == bytes@.take(i as int),
        decreases bytes.len() - i,
    {
        copy.push(bytes[i]);
        proof {
            assert(copy@ =~= bytes@.take(i + 1));
        }
        i = i + 1;
    }
    proof {
        assert(bytes@.take(bytes.len() as int) =~= bytes@);
    }
    copy
}

impl Script {
    /// A copy of the script.
    pub fn duplicate(&self) -> (copy: Script)
        ensures
            copy@ == self@,
    {
        Script {
            code_hash: self.code_hash,
            hash_type: self.hash_type,
            args: copy_bytes(&self.args),
        }
    }
}

/// The witnesses of a transaction with `count` inputs, each signed with
/// `signature`.
pub open spec fn repeated(signature: Seq<u8>, count: nat) -> Seq<Seq<u8>> {
    Seq::new(count, |i: int| signature)
}

/// The transaction with `signature` as the witness of each of its inputs.
pub open spec fn signed_model(transaction: TransactionModel, signature: Seq<u8>) -> TransactionModel {
    TransactionModel {
        witnesses: repeated(signature, transaction.inputs.len()),
        ..transaction
    }
}

impl Transaction {
    /// The transaction with `signature` as the witness of each of its
    /// inputs, in place of the witnesses it had.
    pub fn with_signature(self, signature: &Vec<u8>) -> (signed: Transaction)
        ensures
            signed@ == signed_model(self@, signature@),
    {
        let mut witnesses: Vec<Vec<u8>> = Vec::new();
        let mut i: usize = 0;
        while i < self.inputs.len()
            invariant
                i <= self.inputs.len(),
                witnesses.len() == i,
                witness_views(witnesses@) == repeated(signature@, i as nat),
            decreases self.inputs.len() - i,
        {
            let ghost before = witnesses@;
            witnesses.push(copy_bytes(signature));
            proof {
                assert forall|k: int| 0 <= k < i + 1 implies witness_views(witnesses@)[k]
                    == signature@ by {
                    if k < i {
                        assert(witnesses@[k] == before[k]);
                        assert(witness_views(before)[k] == signature@);
                    }
                }
                assert(witness_views(witnesses@) =~= repeated(signature@, (i + 1) as nat));
            }
            i = i + 1;
        }
        Transaction { inputs: self.inputs, outputs: self.outputs, dep: self.dep, witnesses }
    }
}

} // verus!
