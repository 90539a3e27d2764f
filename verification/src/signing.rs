//! What the sender signs: the digest of a transaction's hash.

use crate::types::{output_views, CellOutput, CellOutputModel, OutPoint, Transaction};
use ckb_types::packed::{
    CellDep, CellInput, CellOutput as LedgerOutput, OutPoint as LedgerPoint,
    Script as LedgerScript,
};
use ckb_types::prelude::{Builder, Entity, Pack, Unpack};
use vstd::prelude::*;

verus! {

/// The ledger's hash of a transaction without its witnesses: of its inputs,
/// each spendable at once, its outputs, each without data or type script,
/// and the one cell it depends on, as code.
pub uninterp spec fn transaction_hash(
    inputs: Seq<OutPoint>,
    outputs: Seq<CellOutputModel>,
    dep: OutPoint,
) -> Seq<u8>;

/// The ledger's default digest of the bytes: Blake2b with 32 bytes of output
/// and the ledger's personalisation.
pub uninterp spec fn blake2b_256_digest(input: Seq<u8>) -> Seq<u8>;

/// `TransactionView::hash` of ckb-types, on the transaction that its
/// `TransactionBuilder` makes of the parts given: the hash depends on those
/// parts alone.
#[verifier::external_body]
fn raw_transaction_hash(inputs: &Vec<OutPoint>, outputs: &Vec<CellOutput>, dep: &OutPoint) -> (hash:
    [u8; 32])
    ensures
        hash@ == transaction_hash(inputs@, output_views(outputs@), *dep),
{
    ckb_types::core::TransactionBuilder::default()
        .inputs(inputs.iter().map(|p| CellInput::new(LedgerPoint::new(p.tx_hash.pack(), p.index), 0)))
        .outputs(outputs.iter().map(|o| LedgerOutput::new_builder().capacity(o.capacity).lock(
            LedgerScript::new_builder().code_hash(&o.lock.code_hash).hash_type(o.lock.hash_type)
            .args(o.lock.args.pack()).build()).build()))
        .set_outputs_data(vec![Default::default(); outputs.len()])
        .cell_dep(CellDep::new_builder().out_point(LedgerPoint::new(dep.tx_hash.pack(), dep.index)).build())
        .build()
        .hash()
        .unpack()
}

/// `blake2b_256` of ckb-hash: the ledger's default digest of the 32 bytes.
#[verifier::external_body]
fn blake2b_256(input: &[u8; 32]) -> (digest: [u8; 32])
    ensures
        digest@ == blake2b_256_digest(input@),
{
    ckb_hash::blake2b_256(input)
}

impl Transaction {
    /// The transaction's hash; the witnesses have no part in it.
    pub fn hash(&self) -> (hash: [u8; 32])
        ensures
            hash@ == transaction_hash(self@.inputs, self@.outputs, self@.dep),
    {
        raw_transaction_hash(&self.inputs, &self.outputs, &self.dep)
    }

    /// The message that the sender signs for this transaction: the digest
    /// of its hash.
    pub fn signing_message(&self) -> (message: [u8; 32])
        ensures
            message@ == blake2b_256_digest(
                transaction_hash(self@.inputs, self@.outputs, self@.dep),
            ),
    {
        let hash = self.hash();
        blake2b_256(&hash)
    }
}

} // verus!
