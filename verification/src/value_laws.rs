//! What holds of the plain values, of the hashes over them and of their encoded size, told by their
//! fields alone.

use vstd::prelude::*;
use vstd::std_specs::cmp::PartialEqSpec;

use crate::cellbase_verifier::first_witness_valid;
use crate::encoding::{
    cellbase_witness, merkle_root_of, proposals_hash_of, transactions_size, uncle_proposals,
};
use crate::error::{Error, report};
use crate::types::{
    BlockView, Byte32, CellInput, OutPoint, ProposalShortId, TransactionView, UncleBlockView,
    cellbase_input, hash_bytes, id_bytes, null_out_point, tx_hashes, tx_witness_hashes, zero_hash,
};

verus! {

/// A hash and a short id stand for all their bytes, an out point for its hash and its index, and an
/// input for its out point and its since: values that look the same have the same fields.
pub proof fn law_views_tell_all_fields(
    hash: Byte32,
    id: ProposalShortId,
    out_point: OutPoint,
    input: CellInput,
)
    ensures
        hash@ == hash.bytes@,
        id@ == id.bytes@,
        out_point@ == (out_point.tx_hash.bytes@, out_point.index),
        input@ == (
            (input.previous_output.tx_hash.bytes@, input.previous_output.index),
            input.since,
        ),
{
}

/// Hashes, short ids and inputs are equal if and only if they agree in every byte and every number.
pub proof fn law_equal_in_every_field(
    a_hash: Byte32,
    b_hash: Byte32,
    a_id: ProposalShortId,
    b_id: ProposalShortId,
    a_input: CellInput,
    b_input: CellInput,
)
    ensures
        a_hash.eq_spec(&b_hash) <==> forall|i: int|
            0 <= i < 32 ==> a_hash.bytes@[i] == b_hash.bytes@[i],
        a_id.eq_spec(&b_id) <==> forall|i: int| 0 <= i < 10 ==> a_id.bytes@[i] == b_id.bytes@[i],
        a_input.eq_spec(&b_input) <==> {
            &&& forall|i: int|
                0 <= i < 32 ==> a_input.previous_output.tx_hash.bytes@[i]
                    == b_input.previous_output.tx_hash.bytes@[i]
            &&& a_input.previous_output.index == b_input.previous_output.index
            &&& a_input.since == b_input.since
        },
{
    if forall|i: int| 0 <= i < 32 ==> a_hash.bytes@[i] == b_hash.bytes@[i] {
        assert(a_hash.bytes@ =~= b_hash.bytes@);
    }
    if forall|i: int| 0 <= i < 10 ==> a_id.bytes@[i] == b_id.bytes@[i] {
        assert(a_id.bytes@ =~= b_id.bytes@);
    }
    let a_point = a_input.previous_output;
    let b_point = b_input.previous_output;
    if forall|i: int| 0 <= i < 32 ==> a_point.tx_hash.bytes@[i] == b_point.tx_hash.bytes@[i] {
        assert(a_point.tx_hash.bytes@ =~= b_point.tx_hash.bytes@);
    }
}

/// The zero hash is thirty-two zeros. The out point that refers to no output has that hash and the
/// largest index; the input of the cellbase at a height refers to it, and its since is the height.
pub proof fn law_null_values(number: u64)
    ensures
        zero_hash().len() == 32,
        forall|i: int| 0 <= i < 32 ==> zero_hash()[i] == 0,
        null_out_point().0.len() == 32,
        forall|i: int| 0 <= i < 32 ==> null_out_point().0[i] == 0,
        null_out_point().1 == 0xffff_ffff,
        cellbase_input(number).0 == null_out_point(),
        cellbase_input(number).1 == number,
{
}

/// A transaction is a cellbase if and only if it has exactly one input and exactly one witness, and
/// the input refers to the zero hash and the largest index.
pub proof fn law_cellbase_by_fields(tx: TransactionView)
    ensures
        tx.cellbase() <==> {
            &&& tx.inputs@.len() == 1
            &&& tx.witnesses@.len() == 1
            &&& forall|i: int| 0 <= i < 32 ==> tx.inputs@[0].previous_output.tx_hash.bytes@[i] == 0
            &&& tx.inputs@[0].previous_output.index == 0xffff_ffff
        },
{
    let out_point = tx.inputs@[0].previous_output;
    if forall|i: int| 0 <= i < 32 ==> out_point.tx_hash.bytes@[i] == 0 {
        assert(out_point.tx_hash.bytes@ =~= zero_hash());
    }
    assert(forall|i: int| 0 <= i < 32 ==> zero_hash()[i] == 0);
}

/// A transaction that spends an output of some other transaction is no cellbase, whatever its
/// witnesses are.
pub proof fn law_spender_is_no_cellbase(tx: TransactionView, input: int, byte: int)
    requires
        0 <= input < tx.inputs@.len(),
        0 <= byte < 32,
        tx.inputs@[input].previous_output.tx_hash.bytes@[byte] != 0
            || tx.inputs@[input].previous_output.index != 0xffff_ffff,
    ensures
        !tx.cellbase(),
{
    law_cellbase_by_fields(tx);
}

/// The block with number zero is the genesis block, and no other is.
pub proof fn law_genesis_is_number_zero(block: BlockView)
    ensures
        block.genesis() <==> block.header.number == 0,
{
}

/// The first witness of the first transaction, where there is one, is the one that must decode.
pub proof fn law_witness_of_first_transaction(block: BlockView)
    ensures
        first_witness_valid(block) <==> block.transactions@.len() > 0
            && block.transactions@[0].witnesses@.len() > 0 && cellbase_witness(
            block.transactions@[0].witnesses@[0]@,
        ),
{
}

/// Lists of hashes and of ids leave nothing out, add nothing and keep the order.
pub proof fn law_lists_are_complete(
    transactions: Seq<TransactionView>,
    ids: Seq<ProposalShortId>,
    hashes: Seq<Byte32>,
)
    ensures
        tx_hashes(transactions) == transactions.map_values(|tx: TransactionView| tx.hash.bytes@),
        tx_witness_hashes(transactions) == transactions.map_values(
            |tx: TransactionView| tx.witness_hash.bytes@,
        ),
        id_bytes(ids) == ids.map_values(|id: ProposalShortId| id.bytes@),
        hash_bytes(hashes) == hashes.map_values(|hash: Byte32| hash.bytes@),
{
}

/// The root that a block calls for is taken over the hash and the witness hash of every one of its
/// transactions: whichever way they are listed, as long as the lists have as many leaves as the
/// block has transactions, in their order.
pub proof fn law_root_covers_every_transaction(
    block: BlockView,
    hashes: Seq<Seq<u8>>,
    witness_hashes: Seq<Seq<u8>>,
)
    requires
        hashes.len() == block.transactions@.len(),
        witness_hashes.len() == block.transactions@.len(),
        forall|i: int|
            0 <= i < hashes.len() ==> #[trigger] hashes[i] == block.transactions@[i].hash.bytes@,
        forall|i: int|
            0 <= i < witness_hashes.len() ==> #[trigger] witness_hashes[i]
                == block.transactions@[i].witness_hash.bytes@,
    ensures
        block.expected_transactions_root() == merkle_root_of(
            seq![merkle_root_of(hashes), merkle_root_of(witness_hashes)],
        ),
{
    assert(tx_hashes(block.transactions@) =~= hashes);
    assert(tx_witness_hashes(block.transactions@) =~= witness_hashes);
}

/// The hash that the proposals of a block call for is taken over every one of them, in their order.
pub proof fn law_hash_covers_every_proposal(block: BlockView, ids: Seq<Seq<u8>>)
    requires
        ids.len() == block.proposals@.len(),
        forall|i: int| 0 <= i < ids.len() ==> #[trigger] ids[i] == block.proposals@[i].bytes@,
    ensures
        block.expected_proposals_hash() == proposals_hash_of(ids),
{
    assert(id_bytes(block.proposals@) =~= ids);
}

proof fn lemma_transactions_size(transactions: Seq<TransactionView>)
    ensures
        transactions_size(transactions) == transactions.fold_left(
            0int,
            |size: int, tx: TransactionView| size + tx.data@.len() + 4,
        ),
    decreases transactions.len(),
{
    reveal_with_fuel(Seq::fold_left, 2);
    if transactions.len() > 0 {
        lemma_transactions_size(transactions.drop_last());
    }
}

proof fn lemma_uncle_proposals(uncles: Seq<UncleBlockView>)
    ensures
        uncle_proposals(uncles) == uncles.fold_left(
            0int,
            |ids: int, uncle: UncleBlockView| ids + uncle.proposals@.len(),
        ),
    decreases uncles.len(),
{
    reveal_with_fuel(Seq::fold_left, 2);
    if uncles.len() > 0 {
        lemma_uncle_proposals(uncles.drop_last());
    }
}

/// The size of a block is that of an empty one and of each of its parts, whatever the parts hold:
/// its encoding and four bytes for a transaction, a fixed number of bytes for an uncle and for an
/// id. What the uncles propose counts in the whole size, by which a block can be encoded or not, and
/// not in the size that is limited.
pub proof fn law_size_adds_up(block: BlockView)
    ensures
        block.size_without_uncle_proposals() == 240 + 228 * block.uncles@.len() + 10
            * block.proposals@.len() + block.transactions@.fold_left(
            0int,
            |size: int, tx: TransactionView| size + tx.data@.len() + 4,
        ),
        block.encoded_size() == block.size_without_uncle_proposals() + 10
            * block.uncles@.fold_left(
            0int,
            |ids: int, uncle: UncleBlockView| ids + uncle.proposals@.len(),
        ),
        block.encodable() <==> block.encoded_size() <= 0xffff_ffff,
{
    lemma_transactions_size(block.transactions@);
    lemma_uncle_proposals(block.uncles@);
}

/// One transaction more makes a block larger by its encoding and four bytes, one id more by ten.
pub proof fn law_size_grows_with_parts(
    block: BlockView,
    larger: BlockView,
    tx: TransactionView,
    id: ProposalShortId,
)
    requires
        larger.uncles@ == block.uncles@,
    ensures
        larger.transactions@ == block.transactions@.push(tx) && larger.proposals@
            == block.proposals@ ==> larger.size_without_uncle_proposals()
            == block.size_without_uncle_proposals() + tx.data@.len() + 4,
        larger.transactions@ == block.transactions@ && larger.proposals@ == block.proposals@.push(
            id,
        ) ==> larger.size_without_uncle_proposals() == block.size_without_uncle_proposals() + 10,
{
    assert(block.transactions@.push(tx).drop_last() =~= block.transactions@);
}

/// A verifier that finds a fault reports that fault, and one that finds none succeeds.
pub proof fn law_fault_is_reported(fault: Option<Error>)
    ensures
        report(fault) is Ok <==> fault is None,
        forall|error: Error| report(fault) == Err::<(), Error>(error) <==> fault == Some(error),
{
}

} // verus!
