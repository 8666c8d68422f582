//! What holds of the verifiers and of the start of a node as a whole.

use vstd::prelude::*;

use crate::block_verifier::{
    block_bytes_fault, block_fault, merkle_root_fault, proposals_limit_fault,
};
use crate::cellbase_verifier::{
    cellbase_count, cellbase_fault, first_witness_valid, type_scripts_absent,
};
use crate::duplicate_verifier::duplicate_fault;
use crate::encoding::{merkle_root_of, proposals_hash_of, script_hash_of};
use crate::error::{BlockErrorKind, CellbaseError, Error};
use crate::specs::{
    ProposalAction, ProposalEvent, ProposalPhase, TemplateFault, follows, hex, hex_digits,
    is_outcome, shown_ids, unexpected_proposals_message,
};
use crate::startup::{
    ExitCode, MinerDecision, MinerPlan, RunAction, RunArgs, RunEvent, RunFault, RunPhase,
    ScriptHashType, exit_code_of, expected, genesis_encodable, genesis_fault, holds_lock_code,
    miner_plan, transition, type_hashes,
};
use crate::types::{
    BlockView, Byte32, CellOutput, Consensus, ProposalShortId, TransactionView, id_bytes, tx_hashes,
};
use crate::value_laws::{
    law_cellbase_by_fields, law_hash_covers_every_proposal, law_lists_are_complete,
    law_root_covers_every_transaction, law_spender_is_no_cellbase,
};

verus! {

proof fn lemma_no_cellbases(transactions: Seq<TransactionView>)
    ensures
        cellbase_count(transactions) == 0 <==> forall|i: int|
            0 <= i < transactions.len() ==> !(#[trigger] transactions[i]).cellbase(),
    decreases transactions.len(),
{
    reveal(Seq::filter);
    if transactions.len() > 0 {
        let rest = transactions.drop_last();
        lemma_no_cellbases(rest);
        assert(forall|i: int| 0 <= i < rest.len() ==> rest[i] == transactions[i]);
        assert(transactions.last() == transactions[transactions.len() - 1]);
        if cellbase_count(transactions) == 0 {
            assert forall|i: int| 0 <= i < transactions.len() implies !(
            #[trigger] transactions[i]).cellbase() by {
                if i < rest.len() {
                    assert(!rest[i].cellbase());
                }
            }
        }
    }
}

proof fn lemma_one_leading_cellbase(transactions: Seq<TransactionView>)
    requires
        transactions.len() > 0,
        transactions[0].cellbase(),
    ensures
        cellbase_count(transactions) == 1 <==> forall|i: int|
            0 < i < transactions.len() ==> !(#[trigger] transactions[i]).cellbase(),
{
    let is_cellbase = |tx: TransactionView| tx.cellbase();
    let head = transactions.take(1);
    let rest = transactions.skip(1);
    assert(transactions =~= head + rest);
    Seq::filter_distributes_over_add(head, rest, is_cellbase);
    reveal_with_fuel(Seq::filter, 2);
    assert(head.drop_last() =~= Seq::empty());
    assert(cellbase_count(head) == 1);
    lemma_no_cellbases(rest);
    assert(forall|i: int| 0 <= i < rest.len() ==> rest[i] == transactions[i + 1]);
    if cellbase_count(rest) == 0 {
        assert forall|i: int| 0 < i < transactions.len() implies !(
        #[trigger] transactions[i]).cellbase() by {
            assert(!rest[i - 1].cellbase());
        }
    }
}

/// The rules on the cellbase, as a whole. A block other than the genesis block passes if and only
/// if its first transaction has one input, which refers to no output, and one witness, no other
/// transaction has, the first has as many outputs as output data and at most one of each, the data
/// is empty, the witness decodes, no output has a type script, and the since of the input is the
/// number of the block.
pub proof fn law_cellbase_rules(block: BlockView, witness_valid: bool)
    requires
        block.header.number != 0,
    ensures
        cellbase_fault(block, witness_valid) is None <==> {
            let transactions = block.transactions@;
            let cellbase = transactions[0];
            &&& transactions.len() > 0
            &&& cellbase.inputs@.len() == 1
            &&& cellbase.witnesses@.len() == 1
            &&& forall|k: int|
                0 <= k < 32 ==> cellbase.inputs@[0].previous_output.tx_hash.bytes@[k] == 0
            &&& cellbase.inputs@[0].previous_output.index == 0xffff_ffff
            &&& forall|i: int|
                0 < i < transactions.len() ==> !({
                    let inputs = (#[trigger] transactions[i]).inputs@;
                    &&& inputs.len() == 1
                    &&& transactions[i].witnesses@.len() == 1
                    &&& forall|k: int|
                        0 <= k < 32 ==> inputs[0].previous_output.tx_hash.bytes@[k] == 0
                    &&& inputs[0].previous_output.index == 0xffff_ffff
                })
            &&& cellbase.outputs@.len() == cellbase.outputs_data@.len() <= 1
            &&& forall|i: int|
                0 <= i < cellbase.outputs_data@.len() ==> (
                #[trigger] cellbase.outputs_data@[i])@.len() == 0
            &&& witness_valid
            &&& forall|i: int|
                0 <= i < cellbase.outputs@.len() ==> (#[trigger] cellbase.outputs@[i]).type_ is None
            &&& cellbase.inputs@[0].since == block.header.number
        },
{
    let transactions = block.transactions@;
    assert forall|i: int| 0 <= i < transactions.len() implies (
    #[trigger] transactions[i]).cellbase() == ({
        let inputs = transactions[i].inputs@;
        &&& inputs.len() == 1
        &&& transactions[i].witnesses@.len() == 1
        &&& forall|k: int| 0 <= k < 32 ==> inputs[0].previous_output.tx_hash.bytes@[k] == 0
        &&& inputs[0].previous_output.index == 0xffff_ffff
    }) by {
        law_cellbase_by_fields(transactions[i]);
    }
    if transactions.len() > 0 && transactions[0].cellbase() {
        lemma_one_leading_cellbase(transactions);
    } else if transactions.len() == 0 {
        reveal(Seq::filter);
    }
    if cellbase_fault(block, witness_valid) is None {
        let cellbase = transactions[0];
        assert forall|i: int| 0 <= i < cellbase.outputs_data@.len() implies (
        #[trigger] cellbase.outputs_data@[i])@.len() == 0 by {
            assert(i == 0);
        }
    }
}

proof fn lemma_one_cellbase(transactions: Seq<TransactionView>)
    ensures
        cellbase_count(transactions) == 1 <==> exists|i: int|
            {
                &&& 0 <= i < transactions.len()
                &&& (#[trigger] transactions[i]).cellbase()
                &&& forall|j: int|
                    0 <= j < transactions.len() && j != i ==> !(
                    #[trigger] transactions[j]).cellbase()
            },
{
    lemma_no_cellbases(transactions);
    assert forall|i: int| 0 <= i < transactions.len() && (#[trigger] transactions[i]).cellbase()
        implies (cellbase_count(transactions) == 1 <==> forall|j: int|
        0 <= j < transactions.len() && j != i ==> !(#[trigger] transactions[j]).cellbase()) by {
        let head = transactions.take(i);
        let tail = transactions.skip(i);
        assert(transactions =~= head + tail);
        Seq::filter_distributes_over_add(head, tail, |tx: TransactionView| tx.cellbase());
        lemma_no_cellbases(head);
        lemma_no_cellbases(tail);
        assert(tail[0] == transactions[i]);
        lemma_one_leading_cellbase(tail);
        assert(forall|j: int| 0 <= j < i ==> head[j] == transactions[j]);
        assert(forall|j: int| i < j < transactions.len() ==> transactions[j] == tail[j - i]);
        if cellbase_count(transactions) == 1 {
            assert forall|j: int| 0 <= j < transactions.len() && j != i implies !(
            #[trigger] transactions[j]).cellbase() by {
                if j < i {
                    assert(!head[j].cellbase());
                } else {
                    assert(!tail[j - i].cellbase());
                }
            }
        } else if forall|j: int|
            0 <= j < transactions.len() && j != i ==> !(#[trigger] transactions[j]).cellbase() {
            assert forall|j: int| 0 <= j < head.len() implies !(#[trigger] head[j]).cellbase() by {
                assert(!transactions[j].cellbase());
            }
            assert forall|j: int| 0 < j < tail.len() implies !(#[trigger] tail[j]).cellbase() by {
                assert(!transactions[i + j].cellbase());
            }
        }
    }
}

/// How the cellbase of a block other than the genesis block is searched for: the quantity is wrong
/// unless exactly one transaction has one input, which refers to no output, and one witness, and
/// the position is wrong where that is not the first.
pub proof fn law_lone_cellbase_leads(block: BlockView, witness_valid: bool, lone: int)
    requires
        block.header.number != 0,
    ensures
        cellbase_fault(block, witness_valid) == Some(
            Error::Cellbase(CellbaseError::InvalidQuantity),
        ) <==> !exists|i: int|
            {
                &&& 0 <= i < block.transactions@.len()
                &&& (#[trigger] block.transactions@[i]).inputs@.len() == 1
                &&& block.transactions@[i].witnesses@.len() == 1
                &&& forall|k: int|
                    0 <= k < 32
                        ==> block.transactions@[i].inputs@[0].previous_output.tx_hash.bytes@[k] == 0
                &&& block.transactions@[i].inputs@[0].previous_output.index == 0xffff_ffff
                &&& forall|j: int|
                    0 <= j < block.transactions@.len() && j != i ==> !({
                        let inputs = (#[trigger] block.transactions@[j]).inputs@;
                        &&& inputs.len() == 1
                        &&& block.transactions@[j].witnesses@.len() == 1
                        &&& forall|k: int|
                            0 <= k < 32 ==> inputs[0].previous_output.tx_hash.bytes@[k] == 0
                        &&& inputs[0].previous_output.index == 0xffff_ffff
                    })
            },
        cellbase_fault(block, witness_valid) == Some(
            Error::Cellbase(CellbaseError::InvalidPosition),
        ) ==> block.transactions@.len() > 1,
        0 <= lone < block.transactions@.len() && block.transactions@[lone].cellbase() ==> (
        cellbase_fault(block, witness_valid) == Some(
            Error::Cellbase(CellbaseError::InvalidPosition),
        ) <==> lone > 0 && cellbase_fault(block, witness_valid) != Some(
            Error::Cellbase(CellbaseError::InvalidQuantity),
        )),
{
    let transactions = block.transactions@;
    lemma_one_cellbase(transactions);
    assert forall|i: int| 0 <= i < transactions.len() implies (
    #[trigger] transactions[i]).cellbase() == ({
        let inputs = transactions[i].inputs@;
        &&& inputs.len() == 1
        &&& transactions[i].witnesses@.len() == 1
        &&& forall|k: int| 0 <= k < 32 ==> inputs[0].previous_output.tx_hash.bytes@[k] == 0
        &&& inputs[0].previous_output.index == 0xffff_ffff
    }) by {
        law_cellbase_by_fields(transactions[i]);
    }
    assert(cellbase_fault(block, witness_valid) == Some(
        Error::Cellbase(CellbaseError::InvalidQuantity),
    ) <==> cellbase_count(transactions) != 1);
}

/// What is reported of a cellbase that stands alone and first: the outputs, if they are too many or
/// do not agree with their data in number; else their data, if there is any; else the witness, if
/// it does not decode; else a type script, if an output has one; else the input, if its since is
/// not the number of the block.
pub proof fn law_cellbase_faults_in_order(block: BlockView, witness_valid: bool)
    requires
        block.header.number != 0,
        !(cellbase_fault(block, witness_valid) matches Some(Error::Cellbase(error)) && (error
            == CellbaseError::InvalidQuantity || error == CellbaseError::InvalidPosition)),
    ensures
        ({
            let cellbase = block.transactions@[0];
            let outputs = cellbase.outputs@;
            let data = cellbase.outputs_data@;
            cellbase_fault(block, witness_valid) == if outputs.len() != data.len() || outputs.len()
                > 1 {
                Some(Error::Cellbase(CellbaseError::InvalidOutputQuantity))
            } else if data.len() == 1 && data[0]@.len() > 0 {
                Some(Error::Cellbase(CellbaseError::InvalidOutputData))
            } else if !witness_valid {
                Some(Error::Cellbase(CellbaseError::InvalidWitness))
            } else if outputs.len() == 1 && outputs[0].type_ is Some {
                Some(Error::Cellbase(CellbaseError::InvalidTypeScript))
            } else if cellbase.inputs@[0].since != block.header.number {
                Some(Error::Cellbase(CellbaseError::InvalidInput))
            } else {
                None
            }
        }),
{
    let cellbase = block.transactions@[0];
    assert(cellbase.cellbase());
    if cellbase.outputs@.len() == 1 && cellbase.outputs@[0].type_ is Some {
        assert(!type_scripts_absent(cellbase));
    }
}

/// A transaction that spends an output of some other transaction changes nothing in the verdict on
/// the cellbase, however many follow: it may have one witness or more.
pub proof fn law_transfers_are_no_cellbases(
    block: BlockView,
    longer: BlockView,
    tx: TransactionView,
    input: int,
    byte: int,
    witness_valid: bool,
)
    requires
        longer.header == block.header,
        longer.transactions@ == block.transactions@.push(tx),
        0 <= input < tx.inputs@.len(),
        0 <= byte < 32,
        tx.inputs@[input].previous_output.tx_hash.bytes@[byte] != 0
            || tx.inputs@[input].previous_output.index != 0xffff_ffff,
    ensures
        cellbase_fault(longer, witness_valid) == cellbase_fault(block, witness_valid),
{
    law_spender_is_no_cellbase(tx, input, byte);
    reveal(Seq::filter);
    assert(longer.transactions@.drop_last() =~= block.transactions@);
    assert(cellbase_count(longer.transactions@) == cellbase_count(block.transactions@));
}

/// The cellbases of two blocks at different heights, neither of them the genesis block, that pass
/// do not spend the same input.
pub proof fn law_cellbase_inputs_differ(a: BlockView, b: BlockView, a_valid: bool, b_valid: bool)
    requires
        !a.genesis(),
        !b.genesis(),
        a.header.number != b.header.number,
        cellbase_fault(a, a_valid) is None,
        cellbase_fault(b, b_valid) is None,
    ensures
        a.transactions@[0].inputs@[0]@ != b.transactions@[0].inputs@[0]@,
{
}

/// The genesis block is exempt from the rules on the cellbase and on the size: whatever is wrong
/// with it is the number of its proposals, a duplicate or a hash that its header carries.
pub proof fn law_genesis_exempt(block: BlockView, consensus: Consensus)
    requires
        block.genesis(),
    ensures
        cellbase_fault(block, first_witness_valid(block)) is None,
        block_bytes_fault(
            block.genesis(),
            block.size_without_uncle_proposals(),
            consensus.max_block_bytes,
        ) is None,
        block_fault(block, consensus) matches Some(error) ==> error is Block && error->Block_0
            != BlockErrorKind::ExceededMaximumBlockBytes,
{
}

/// A block may propose as many ids as the limit, and one more is reported.
pub proof fn law_proposals_limit(block: BlockView, limit: u64)
    ensures
        proposals_limit_fault(block, limit) == if block.proposals@.len() > limit {
            Some(Error::Block(BlockErrorKind::ExceededMaximumProposalsLimit))
        } else {
            None
        },
{
}

/// A block other than the genesis block may take as many bytes as the limit, whatever the limit is,
/// and one more is reported. The genesis block may take any number.
pub proof fn law_bytes_limit(block_bytes: nat, limit: u64)
    ensures
        block_bytes_fault(false, block_bytes, limit) is None <==> block_bytes <= limit,
        block_bytes_fault(false, block_bytes, limit) is Some ==> block_bytes_fault(
            false,
            block_bytes,
            limit,
        ) == Some(Error::Block(BlockErrorKind::ExceededMaximumBlockBytes)),
        block_bytes_fault(true, block_bytes, limit) is None,
{
}

/// A header that carries another root than the given one is reported for it, whatever hash it
/// carries; one that carries the root and another hash is reported for the hash.
pub proof fn law_roots_reported(
    block: BlockView,
    transactions_root: Seq<u8>,
    proposals_hash: Seq<u8>,
)
    ensures
        merkle_root_fault(block, transactions_root, proposals_hash) == Some(
            Error::Block(BlockErrorKind::TransactionsRoot),
        ) <==> block.header.transactions_root.bytes@ != transactions_root,
        merkle_root_fault(block, transactions_root, proposals_hash) == Some(
            Error::Block(BlockErrorKind::ProposalTransactionsHash),
        ) <==> block.header.transactions_root.bytes@ == transactions_root
            && block.header.proposals_hash.bytes@ != proposals_hash,
        merkle_root_fault(block, transactions_root, proposals_hash) is None <==>
            block.header.transactions_root.bytes@ == transactions_root
            && block.header.proposals_hash.bytes@ == proposals_hash,
{
}

/// The header of a block that passes commits to every one of its transactions and proposals.
pub proof fn law_header_commits_to_all(block: BlockView, consensus: Consensus)
    requires
        block_fault(block, consensus) is None,
    ensures
        block.header.transactions_root.bytes@ == merkle_root_of(
            seq![
                merkle_root_of(
                    block.transactions@.map_values(|tx: TransactionView| tx.hash.bytes@),
                ),
                merkle_root_of(
                    block.transactions@.map_values(|tx: TransactionView| tx.witness_hash.bytes@),
                ),
            ],
        ),
        block.header.proposals_hash.bytes@ == proposals_hash_of(
            block.proposals@.map_values(|id: ProposalShortId| id.bytes@),
        ),
{
    law_root_covers_every_transaction(
        block,
        block.transactions@.map_values(|tx: TransactionView| tx.hash.bytes@),
        block.transactions@.map_values(|tx: TransactionView| tx.witness_hash.bytes@),
    );
    law_hash_covers_every_proposal(
        block,
        block.proposals@.map_values(|id: ProposalShortId| id.bytes@),
    );
}

/// A block that breaks several rules is reported for the first of them: its proposals come first,
/// then its size, its cellbase, its duplicates and its header.
pub proof fn law_first_fault_reported(block: BlockView, consensus: Consensus)
    ensures
        block_fault(block, consensus) == if block.proposals@.len()
            > consensus.max_block_proposals_limit {
            Some(Error::Block(BlockErrorKind::ExceededMaximumProposalsLimit))
        } else if block.header.number != 0 && block.size_without_uncle_proposals()
            > consensus.max_block_bytes {
            Some(Error::Block(BlockErrorKind::ExceededMaximumBlockBytes))
        } else if block.header.number != 0 && cellbase_fault(
            block,
            first_witness_valid(block),
        ) is Some {
            cellbase_fault(block, first_witness_valid(block))
        } else if !block.transactions@.map_values(
            |tx: TransactionView| tx.hash.bytes@,
        ).no_duplicates() {
            Some(Error::Block(BlockErrorKind::CommitTransactionDuplicate))
        } else if !block.proposals@.map_values(
            |id: ProposalShortId| id.bytes@,
        ).no_duplicates() {
            Some(Error::Block(BlockErrorKind::ProposalTransactionDuplicate))
        } else if block.header.transactions_root.bytes@ != block.expected_transactions_root() {
            Some(Error::Block(BlockErrorKind::TransactionsRoot))
        } else if block.header.proposals_hash.bytes@ != block.expected_proposals_hash() {
            Some(Error::Block(BlockErrorKind::ProposalTransactionsHash))
        } else {
            None
        },
{
    law_lists_are_complete(block.transactions@, block.proposals@, Seq::empty());
}

/// A block passes if and only if it passes each of the five verifiers.
pub proof fn law_block_passes_all(block: BlockView, consensus: Consensus)
    ensures
        block_fault(block, consensus) is None <==> {
            &&& proposals_limit_fault(block, consensus.max_block_proposals_limit) is None
            &&& block_bytes_fault(
                block.genesis(),
                block.size_without_uncle_proposals(),
                consensus.max_block_bytes,
            ) is None
            &&& cellbase_fault(block, first_witness_valid(block)) is None
            &&& duplicate_fault(block) is None
            &&& merkle_root_fault(
                block,
                block.expected_transactions_root(),
                block.expected_proposals_hash(),
            ) is None
        },
{
}

/// The verdict on a block depends on no more of the chain than its two limits.
pub proof fn law_independent_of_context(block: BlockView, a: Consensus, b: Consensus)
    requires
        a.max_block_proposals_limit == b.max_block_proposals_limit,
        a.max_block_bytes == b.max_block_bytes,
    ensures
        block_fault(block, a) == block_fault(block, b),
{
}

/// A block that passes still passes where the limits are raised.
pub proof fn law_limits_monotone(block: BlockView, low: Consensus, high: Consensus)
    requires
        low.max_block_proposals_limit <= high.max_block_proposals_limit,
        low.max_block_bytes <= high.max_block_bytes,
        block_fault(block, low) is None,
    ensures
        block_fault(block, high) is None,
{
}

/// What the uncles propose does not count towards the size of a block.
pub proof fn law_uncle_proposals_do_not_count(a: BlockView, b: BlockView, limit: u64)
    requires
        a.genesis() == b.genesis(),
        a.uncles@.len() == b.uncles@.len(),
        a.transactions@ == b.transactions@,
        a.proposals@ == b.proposals@,
    ensures
        a.size_without_uncle_proposals() == b.size_without_uncle_proposals(),
        block_bytes_fault(a.genesis(), a.size_without_uncle_proposals(), limit)
            == block_bytes_fault(b.genesis(), b.size_without_uncle_proposals(), limit),
{
}

/// No block passes that commits two transactions with one hash or proposes one id twice, and no
/// other block is rejected as a duplicate.
pub proof fn law_duplicates_rejected(block: BlockView)
    ensures
        duplicate_fault(block) is Some <==> {
            ||| exists|i: int, j: int|
                0 <= i < j < block.transactions@.len() && (
                #[trigger] block.transactions@[i]).hash@ == (#[trigger] block.transactions@[j]).hash@
            ||| exists|i: int, j: int|
                0 <= i < j < block.proposals@.len() && (#[trigger] block.proposals@[i])@ == (
                #[trigger] block.proposals@[j])@
        },
{
    let hashes = tx_hashes(block.transactions@);
    let ids = id_bytes(block.proposals@);
    if !hashes.no_duplicates() {
        let (i, j) = choose|i: int, j: int|
            0 <= i < hashes.len() && 0 <= j < hashes.len() && i != j && hashes[i] == hashes[j];
        if i < j {
            assert(block.transactions@[i].hash@ == block.transactions@[j].hash@);
        } else {
            assert(block.transactions@[j].hash@ == block.transactions@[i].hash@);
        }
    } else {
        assert forall|i: int, j: int| 0 <= i < j < block.transactions@.len() implies (
        #[trigger] block.transactions@[i]).hash@ != (#[trigger] block.transactions@[j]).hash@ by {
            assert(hashes[i] != hashes[j]);
        }
    }
    if !ids.no_duplicates() {
        let (i, j) = choose|i: int, j: int|
            0 <= i < ids.len() && 0 <= j < ids.len() && i != j && ids[i] == ids[j];
        if i < j {
            assert(block.proposals@[i]@ == block.proposals@[j]@);
        } else {
            assert(block.proposals@[j]@ == block.proposals@[i]@);
        }
    } else {
        assert forall|i: int, j: int| 0 <= i < j < block.proposals@.len() implies (
        #[trigger] block.proposals@[i])@ != (#[trigger] block.proposals@[j])@ by {
            assert(ids[i] != ids[j]);
        }
    }
}

/// A transaction that is committed twice is reported before an id that is proposed twice.
pub proof fn law_duplicate_transactions_reported_first(block: BlockView)
    ensures
        duplicate_fault(block) == if exists|i: int, j: int|
            0 <= i < j < block.transactions@.len() && (
            #[trigger] block.transactions@[i]).hash.bytes@ == (
            #[trigger] block.transactions@[j]).hash.bytes@ {
            Some(Error::Block(BlockErrorKind::CommitTransactionDuplicate))
        } else if exists|i: int, j: int|
            0 <= i < j < block.proposals@.len() && (#[trigger] block.proposals@[i]).bytes@ == (
            #[trigger] block.proposals@[j]).bytes@ {
            Some(Error::Block(BlockErrorKind::ProposalTransactionDuplicate))
        } else {
            None
        },
{
    let hashes = tx_hashes(block.transactions@);
    let ids = id_bytes(block.proposals@);
    assert(hashes.no_duplicates() <==> !exists|i: int, j: int|
        0 <= i < j < block.transactions@.len() && (#[trigger] block.transactions@[i]).hash.bytes@
            == (#[trigger] block.transactions@[j]).hash.bytes@) by {
        if hashes.no_duplicates() {
            assert forall|i: int, j: int| 0 <= i < j < block.transactions@.len() implies (
            #[trigger] block.transactions@[i]).hash.bytes@ != (
            #[trigger] block.transactions@[j]).hash.bytes@ by {
                assert(hashes[i] != hashes[j]);
            }
        } else {
            let (i, j) = choose|i: int, j: int|
                0 <= i < hashes.len() && 0 <= j < hashes.len() && i != j && hashes[i] == hashes[j];
            assert(block.transactions@[i].hash.bytes@ == block.transactions@[j].hash.bytes@);
            assert(i < j || j < i);
        }
    }
    assert(ids.no_duplicates() <==> !exists|i: int, j: int|
        0 <= i < j < block.proposals@.len() && (#[trigger] block.proposals@[i]).bytes@ == (
        #[trigger] block.proposals@[j]).bytes@) by {
        if ids.no_duplicates() {
            assert forall|i: int, j: int| 0 <= i < j < block.proposals@.len() implies (
            #[trigger] block.proposals@[i]).bytes@ != (#[trigger] block.proposals@[j]).bytes@ by {
                assert(ids[i] != ids[j]);
            }
        } else {
            let (i, j) = choose|i: int, j: int|
                0 <= i < ids.len() && 0 <= j < ids.len() && i != j && ids[i] == ids[j];
            assert(block.proposals@[i].bytes@ == block.proposals@[j].bytes@);
            assert(i < j || j < i);
        }
    }
}

/// Whether a block is rejected as a duplicate, and as which, does not depend on the order of its
/// transactions and proposals.
pub proof fn law_duplicates_ignore_order(a: BlockView, b: BlockView)
    requires
        tx_hashes(a.transactions@).to_multiset() == tx_hashes(b.transactions@).to_multiset(),
        id_bytes(a.proposals@).to_multiset() == id_bytes(b.proposals@).to_multiset(),
    ensures
        duplicate_fault(a) == duplicate_fault(b),
{
    lemma_duplicates_ignore_order(tx_hashes(a.transactions@), tx_hashes(b.transactions@));
    lemma_duplicates_ignore_order(tx_hashes(b.transactions@), tx_hashes(a.transactions@));
    lemma_duplicates_ignore_order(id_bytes(a.proposals@), id_bytes(b.proposals@));
    lemma_duplicates_ignore_order(id_bytes(b.proposals@), id_bytes(a.proposals@));
}

proof fn lemma_duplicates_ignore_order(a: Seq<Seq<u8>>, b: Seq<Seq<u8>>)
    requires
        a.to_multiset() == b.to_multiset(),
    ensures
        a.no_duplicates() ==> b.no_duplicates(),
{
    if a.no_duplicates() {
        a.lemma_multiset_has_no_duplicates();
        b.lemma_multiset_has_no_duplicates_conv();
    }
}

/// A header that carries the root and the hash that its block calls for passes, and no other does.
pub proof fn law_roots_pass(block: BlockView)
    ensures
        merkle_root_fault(
            block,
            block.expected_transactions_root(),
            block.expected_proposals_hash(),
        ) is None <==> {
            &&& block.header.transactions_root@ == block.expected_transactions_root()
            &&& block.header.proposals_hash@ == block.expected_proposals_hash()
        },
{
}

/// The phase after the given events, each of which must be one that may happen when it does.
pub open spec fn phase_after(args: RunArgs, events: Seq<RunEvent>) -> RunPhase {
    if events.len() == 0 {
        RunPhase::OpeningStore
    } else {
        transition(args, events.last()).0
    }
}

/// Each event is one that may happen when it does.
pub open spec fn orderly(args: RunArgs, events: Seq<RunEvent>) -> bool
    decreases events.len(),
{
    events.len() > 0 ==> {
        &&& orderly(args, events.drop_last())
        &&& expected(args, phase_after(args, events.drop_last()), events.last())
    }
}

/// A node verifies its genesis block each time it starts: it gets beyond opening its store, or ends
/// well, only if the genesis block passes.
pub proof fn law_genesis_verified_on_start(args: RunArgs, events: Seq<RunEvent>)
    requires
        orderly(args, events),
    ensures
        phase_after(args, events) != RunPhase::OpeningStore && phase_after(args, events)
            != RunPhase::Finished ==> genesis_fault(args.consensus) is None,
        events.len() > 0 && transition(args, events.last()).1 == RunAction::Exit(Ok(()))
            ==> genesis_fault(args.consensus) is None,
    decreases events.len(),
{
    if events.len() > 0 {
        law_genesis_verified_on_start(args, events.drop_last());
    }
}

/// What is wrong with the genesis block is what the verifiers of blocks find wrong with it.
pub proof fn law_genesis_held_to_block_rules(consensus: Consensus)
    ensures
        genesis_fault(consensus) == block_fault(consensus.genesis_block, consensus),
        genesis_encodable(consensus) <==> consensus.genesis_block.header.number == 0
            || consensus.genesis_block.encodable(),
{
}

/// A genesis block with number zero is valid if and only if it proposes no more ids than the limit,
/// commits no two transactions with one hash, proposes no id twice, and its header carries the root
/// of all its transactions and the hash of all its proposals.
pub proof fn law_valid_genesis(consensus: Consensus)
    requires
        consensus.genesis_block.header.number == 0,
    ensures
        genesis_fault(consensus) is None <==> {
            let genesis = consensus.genesis_block;
            &&& genesis.proposals@.len() <= consensus.max_block_proposals_limit
            &&& forall|i: int, j: int|
                0 <= i < j < genesis.transactions@.len() ==> (
                #[trigger] genesis.transactions@[i]).hash.bytes@ != (
                #[trigger] genesis.transactions@[j]).hash.bytes@
            &&& forall|i: int, j: int|
                0 <= i < j < genesis.proposals@.len() ==> (#[trigger] genesis.proposals@[i]).bytes@
                    != (#[trigger] genesis.proposals@[j]).bytes@
            &&& genesis.header.transactions_root.bytes@ == merkle_root_of(
                seq![
                    merkle_root_of(
                        genesis.transactions@.map_values(|tx: TransactionView| tx.hash.bytes@),
                    ),
                    merkle_root_of(
                        genesis.transactions@.map_values(
                            |tx: TransactionView| tx.witness_hash.bytes@,
                        ),
                    ),
                ],
            )
            &&& genesis.header.proposals_hash.bytes@ == proposals_hash_of(
                genesis.proposals@.map_values(|id: ProposalShortId| id.bytes@),
            )
        },
{
    let genesis = consensus.genesis_block;
    law_duplicate_transactions_reported_first(genesis);
    law_lists_are_complete(genesis.transactions@, genesis.proposals@, Seq::empty());
}

/// The process ends with the code for a faulty configuration where the genesis block is invalid, and
/// with the code for a failure where the store or the cell with the lock cannot be had.
pub proof fn law_exit_codes(error: Error)
    ensures
        exit_code_of(RunFault::Genesis(error)) == ExitCode::Config,
        exit_code_of(RunFault::Store) == ExitCode::Failure,
        exit_code_of(RunFault::LockCell) == ExitCode::Failure,
{
}

/// Where the genesis block is invalid, a node that has opened its store starts nothing and exits
/// with the code for a faulty configuration; and it exits with that code for no other reason.
pub proof fn law_invalid_genesis_exits(args: RunArgs, event: RunEvent)
    ensures
        event is StoreOpened && genesis_fault(args.consensus) is Some ==> {
            &&& transition(args, event).0 == RunPhase::Finished
            &&& transition(args, event).1 matches RunAction::Exit(Err(fault))
            &&& exit_code_of(fault) == ExitCode::Config
        },
        (transition(args, event).1 matches RunAction::Exit(Err(fault)) && exit_code_of(fault)
            == ExitCode::Config) ==> event is StoreOpened && genesis_fault(args.consensus) is Some,
{
}

/// A node that ends well has opened its store, started its chain, loaded the cell with the lock
/// where the plan calls for it, started its services, been asked to end and closed its RPC server,
/// in this order, and has done nothing else.
pub proof fn law_ends_well_after_close(args: RunArgs, events: Seq<RunEvent>)
    requires
        orderly(args, events),
        events.len() > 0,
        transition(args, events.last()).1 == RunAction::Exit(Ok(())),
    ensures
        events.last() is RpcClosed,
        events.len() == if miner_plan(args) == MinerPlan::CheckLock {
            6int
        } else {
            5int
        },
        events[events.len() - 2] is ExitRequested,
        events[events.len() - 3] is ServicesStarted,
        miner_plan(args) == MinerPlan::CheckLock ==> events[2] is LockCellLoaded,
        events[1] is ChainStarted,
        events[0] is StoreOpened,
{
    reveal_with_fuel(orderly, 7);
    let asked = events.drop_last();
    assert(asked.len() > 0 && asked.last() is ExitRequested);
    let served = asked.drop_last();
    assert(served.len() > 0 && served.last() is ServicesStarted);
    let decided = served.drop_last();
    assert(decided.len() > 0);
    let chained = if miner_plan(args) == MinerPlan::CheckLock {
        assert(decided.last() is LockCellLoaded);
        decided.drop_last()
    } else {
        decided
    };
    assert(chained.len() > 0 && chained.last() is ChainStarted);
    let opened = chained.drop_last();
    assert(opened.len() > 0 && opened.last() is StoreOpened);
    assert(opened.drop_last().len() == 0);
    assert(asked.last() == events[events.len() - 2]);
    assert(served.last() == events[events.len() - 3]);
}

/// The miner is started if and only if it is enabled, has a lock, and either the flag for advanced
/// users is set, or the lock is of the recommended format and the first transaction of the genesis
/// block holds its code. With the flag that is decided once the chain has started, without it once
/// the code is loaded.
pub proof fn law_miner_needs_lock(args: RunArgs, phase: RunPhase, event: RunEvent)
    requires
        expected(args, phase, event),
    ensures
        transition(args, event).1 == RunAction::StartServices(MinerDecision::Start) <==> {
            &&& args.miner_enable
            &&& args.block_assembler is Some
            &&& if args.block_assembler_advanced {
                event is ChainStarted
            } else {
                let cellbase = args.consensus.genesis_block.transactions@[0];
                &&& args.block_assembler->0.hash_type == ScriptHashType::Type
                &&& args.block_assembler->0.args@.len() == 1
                &&& args.block_assembler->0.args@[0]@.len() == 20
                &&& event matches RunEvent::LockCellLoaded(lock_code)
                &&& exists|i: int|
                    {
                        &&& 0 <= i < cellbase.outputs@.len()
                        &&& i < cellbase.outputs_data@.len()
                        &&& (#[trigger] cellbase.outputs_data@[i])@ == lock_code@
                        &&& cellbase.outputs@[i].type_ matches Some(script)
                        &&& script_hash_of(script.code_hash.bytes@, script.hash_type, script.args@)
                            == args.block_assembler->0.code_hash.bytes@
                    }
            }
        },
{
    let cellbase = args.consensus.genesis_block.transactions@[0];
    if let RunEvent::LockCellLoaded(lock_code) = event {
        law_lock_code_found(
            cellbase.outputs@,
            cellbase.outputs_data@,
            lock_code@,
            args.block_assembler->0.code_hash@,
        );
    }
}

/// The lock is found if and only if one and the same output holds exactly the code as its data and
/// has a type script with the given hash.
pub proof fn law_lock_code_found(
    outputs: Seq<CellOutput>,
    outputs_data: Seq<Vec<u8>>,
    lock_code: Seq<u8>,
    code_hash: Seq<u8>,
)
    ensures
        holds_lock_code(type_hashes(outputs), outputs_data, lock_code, code_hash) <==> exists|
            i: int,
        |
            {
                &&& 0 <= i < outputs.len()
                &&& i < outputs_data.len()
                &&& (#[trigger] outputs_data[i])@ == lock_code
                &&& outputs[i].type_ matches Some(script)
                &&& script_hash_of(script.code_hash.bytes@, script.hash_type, script.args@)
                    == code_hash
            },
{
    let hashes = type_hashes(outputs);
    if holds_lock_code(hashes, outputs_data, lock_code, code_hash) {
        let i = choose|i: int|
            {
                &&& 0 <= i < hashes.len()
                &&& i < outputs_data.len()
                &&& (#[trigger] outputs_data[i])@ == lock_code
                &&& hashes[i] == Some(code_hash)
            };
        assert(outputs_data[i]@ == lock_code && outputs[i].type_ is Some);
    }
    assert forall|i: int|
        {
            &&& 0 <= i < outputs.len()
            &&& i < outputs_data.len()
            &&& (#[trigger] outputs_data[i])@ == lock_code
            &&& outputs[i].type_ matches Some(script)
            &&& script_hash_of(script.code_hash.bytes@, script.hash_type, script.args@) == code_hash
        } implies holds_lock_code(hashes, outputs_data, lock_code, code_hash) by {
        assert(hashes[i] == Some(code_hash));
    }
}

/// The plan for the miner, told by the arguments. Without the flag for advanced users the cell with
/// the lock is loaded if and only if the lock names its code by a type script and has one argument,
/// of exactly twenty bytes.
pub proof fn law_plan_by_arguments(args: RunArgs)
    ensures
        miner_plan(args) == MinerPlan::Disabled <==> !args.miner_enable
            || args.block_assembler is None,
        miner_plan(args) == MinerPlan::Start <==> args.miner_enable && args.block_assembler is Some
            && args.block_assembler_advanced,
        miner_plan(args) == MinerPlan::CheckLock <==> {
            &&& args.miner_enable
            &&& !args.block_assembler_advanced
            &&& args.block_assembler matches Some(config)
            &&& config.hash_type == ScriptHashType::Type
            &&& config.args@.len() == 1
            &&& config.args@[0]@.len() == 20
        },
        miner_plan(args) == MinerPlan::LockNotRecommended <==> {
            &&& args.miner_enable
            &&& !args.block_assembler_advanced
            &&& args.block_assembler matches Some(config)
            &&& config.hash_type != ScriptHashType::Type || config.args@.len() != 1
                || config.args@[0]@.len() != 20
        },
{
}

/// The cell with the lock is loaded once the chain has started, and only for a lock that names its
/// code by a type script and has one argument, of exactly twenty bytes, where the miner is enabled
/// and the flag for advanced users is not set.
pub proof fn law_lock_cell_needs_format(args: RunArgs, event: RunEvent)
    ensures
        transition(args, event).1 == RunAction::LoadLockCell <==> {
            &&& event is ChainStarted
            &&& args.miner_enable
            &&& !args.block_assembler_advanced
            &&& args.block_assembler matches Some(config)
            &&& config.hash_type == ScriptHashType::Type
            &&& config.args@.len() == 1
            &&& config.args@[0]@.len() == 20
        },
{
}

/// The node does without the miner, and goes on: as disabled, where it is not enabled or has no lock,
/// and as not recommended, where it has a lock that does not do.
pub proof fn law_goes_on_without_miner(args: RunArgs, phase: RunPhase, event: RunEvent)
    requires
        expected(args, phase, event),
    ensures
        transition(args, event).1 == RunAction::StartServices(MinerDecision::Disabled) <==> event
            is ChainStarted && (!args.miner_enable || args.block_assembler is None),
        transition(args, event).1 == RunAction::StartServices(MinerDecision::LockNotRecommended)
            ==> args.miner_enable && args.block_assembler is Some && !args.block_assembler_advanced,
        transition(args, event).1 is StartServices <==> (event is LockCellLoaded || (event
            is ChainStarted && transition(args, event).1 != RunAction::LoadLockCell)),
        transition(args, event).1 is StartServices <==> transition(args, event).0
            == RunPhase::StartingServices,
{
}

/// Each event has its phase: what is reported in another is not taken for it.
pub proof fn law_each_event_in_its_phase(args: RunArgs, phase: RunPhase, event: RunEvent)
    ensures
        expected(args, phase, event) <==> {
            ||| phase is OpeningStore && (event is StoreOpened || event is StoreFailed)
            ||| phase is StartingChain && event is ChainStarted
            ||| {
                &&& phase is LoadingLockCell
                &&& event is LockCellLoaded || event is LockCellFailed
                &&& transition(args, RunEvent::ChainStarted).1 == RunAction::LoadLockCell
            }
            ||| phase is StartingServices && event is ServicesStarted
            ||| phase is Running && event is ExitRequested
            ||| phase is Closing && event is RpcClosed
        },
{
}

/// What is to be done next is what the phase that follows waits for: whichever event comes next is
/// one that reports it done or failed, and each such event is taken. Once the process is to end,
/// none is.
pub proof fn law_each_action_is_awaited(
    args: RunArgs,
    phase: RunPhase,
    event: RunEvent,
    next: RunEvent,
)
    requires
        expected(args, phase, event),
    ensures
        expected(args, transition(args, event).0, next) <==> match transition(args, event).1 {
            RunAction::OpenStore => false,
            RunAction::StartChain => next is ChainStarted,
            RunAction::LoadLockCell => next is LockCellLoaded || next is LockCellFailed,
            RunAction::StartServices(_) => next is ServicesStarted,
            RunAction::WaitForExit => next is ExitRequested,
            RunAction::CloseRpc => next is RpcClosed,
            RunAction::Exit(_) => false,
        },
        transition(args, event).1 is Exit <==> transition(args, event).0 == RunPhase::Finished,
{
}

/// A node goes from its store to its chain, to the cell with the lock or straight to its services,
/// and from there to its end; and it stops short where the store or the cell cannot be had or the
/// genesis block is invalid.
pub proof fn law_way_of_a_node(args: RunArgs, lock_code: Vec<u8>)
    ensures
        transition(args, RunEvent::StoreOpened) == match block_fault(
            args.consensus.genesis_block,
            args.consensus,
        ) {
            None => (RunPhase::StartingChain, RunAction::StartChain),
            Some(error) => (RunPhase::Finished, RunAction::Exit(Err(RunFault::Genesis(error)))),
        },
        transition(args, RunEvent::StoreFailed) == (
            RunPhase::Finished,
            RunAction::Exit(Err(RunFault::Store)),
        ),
        transition(args, RunEvent::LockCellFailed) == (
            RunPhase::Finished,
            RunAction::Exit(Err(RunFault::LockCell)),
        ),
        transition(args, RunEvent::LockCellLoaded(lock_code)).0 == RunPhase::StartingServices,
        transition(args, RunEvent::ServicesStarted) == (RunPhase::Running, RunAction::WaitForExit),
        transition(args, RunEvent::ExitRequested) == (RunPhase::Closing, RunAction::CloseRpc),
        transition(args, RunEvent::RpcClosed) == (RunPhase::Finished, RunAction::Exit(Ok(()))),
{
}

/// The flag for advanced users makes any lock do, and nothing need be loaded.
pub proof fn law_advanced_accepts_any_lock(args: RunArgs)
    requires
        args.miner_enable,
        args.block_assembler is Some,
        args.block_assembler_advanced,
    ensures
        transition(args, RunEvent::ChainStarted).1 == RunAction::StartServices(
            MinerDecision::Start,
        ),
{
}

/// The scenario, played through: the uncle that is built is a sibling of the block, one tick later,
/// and proposes exactly the transaction that is built; the block is submitted before the uncle and
/// both before the transaction; and the scenario succeeds if and only if the block that the node
/// creates at the end has that uncle and no other and proposes nothing. Where it has the uncle and
/// proposes something, the ids are reported.
pub proof fn law_scenario_played_through(
    tx_hash: Byte32,
    block: BlockView,
    uncle_hash: Byte32,
    template: BlockView,
    phases: Seq<ProposalPhase>,
    actions: Seq<ProposalAction>,
)
    requires
        phases.len() == 9,
        actions.len() == 8,
        phases[0] == ProposalPhase::GeneratingCells,
        follows(phases[0], ProposalEvent::CellsGenerated, phases[1], actions[0]),
        follows(phases[1], ProposalEvent::TransactionBuilt(tx_hash), phases[2], actions[1]),
        follows(phases[2], ProposalEvent::BlockCreated(block), phases[3], actions[2]),
        follows(phases[3], ProposalEvent::UncleBuilt(uncle_hash), phases[4], actions[3]),
        follows(phases[4], ProposalEvent::BlockSubmitted, phases[5], actions[4]),
        follows(phases[5], ProposalEvent::UncleSubmitted, phases[6], actions[5]),
        follows(phases[6], ProposalEvent::TransactionSubmitted, phases[7], actions[6]),
        follows(phases[7], ProposalEvent::BlockCreated(template), phases[8], actions[7]),
    ensures
        actions[0] == ProposalAction::BuildTransaction,
        actions[1] == ProposalAction::CreateBlock,
        actions[6] == ProposalAction::CreateBlock,
        phases[1] == ProposalPhase::BuildingTransaction,
        phases[2] == (ProposalPhase::CreatingBlock { tx_hash }),
        phases[3] == ProposalPhase::BuildingUncle,
        phases[4] == (ProposalPhase::SubmittingBlock { uncle_hash }),
        phases[5] == (ProposalPhase::SubmittingUncle { uncle_hash }),
        phases[6] == (ProposalPhase::SubmittingTransaction { uncle_hash }),
        phases[7] == (ProposalPhase::CreatingTemplate { uncle_hash }),
        actions[2] matches ProposalAction::BuildUncle {
            number,
            parent_hash,
            timestamp,
            proposal,
        } && number == block.header.number && parent_hash@ == block.header.parent_hash@
            && timestamp == block.header.timestamp + 1 && proposal@ == tx_hash@.take(10),
        actions[2] matches ProposalAction::BuildUncle { proposal, .. } && proposal.bytes@
            == tx_hash.bytes@.take(10),
        actions[3] == ProposalAction::SubmitBlock,
        actions[4] == ProposalAction::SubmitUncle,
        actions[5] == ProposalAction::SubmitTransaction,
        phases[8] == ProposalPhase::Finished,
        actions[7] matches ProposalAction::Finish(outcome) && (outcome is Ok <==> (
        template.uncles@.len() == 1 && template.uncles@[0].hash@ == uncle_hash@
            && template.proposals@.len() == 0)),
        template.uncles@.len() == 1 && template.uncles@[0].hash@ == uncle_hash@
            && template.proposals@.len() > 0 ==> (actions[7] matches ProposalAction::Finish(
            Err(TemplateFault::UnexpectedProposals { ids }),
        ) && ids@ == template.proposals@),
{
}

/// Each event of the scenario has its phase: what is reported in another is not taken for it. A new
/// block is awaited twice, once to make the uncle from and once at the end.
pub proof fn law_each_scenario_event_in_its_phase(phase: ProposalPhase, event: ProposalEvent)
    ensures
        crate::specs::expected(phase, event) <==> {
            ||| phase is GeneratingCells && event is CellsGenerated
            ||| phase is BuildingTransaction && event is TransactionBuilt
            ||| phase is CreatingBlock && event is BlockCreated
            ||| phase is BuildingUncle && event is UncleBuilt
            ||| phase is SubmittingBlock && event is BlockSubmitted
            ||| phase is SubmittingUncle && event is UncleSubmitted
            ||| phase is SubmittingTransaction && event is TransactionSubmitted
            ||| phase is CreatingTemplate && event is BlockCreated
        },
{
}

/// The outcome of the scenario, told by the block: the uncles are at fault unless the one uncle is
/// the expected one, whatever is proposed; else the proposals are, if there are any, and all of them
/// are named.
pub proof fn law_outcome_by_fields(
    outcome: Result<(), TemplateFault>,
    block: BlockView,
    uncle_hash: Byte32,
)
    requires
        is_outcome(outcome, block, uncle_hash@),
    ensures
        outcome is Ok <==> block.uncles@.len() == 1 && block.uncles@[0].hash.bytes@
            == uncle_hash.bytes@ && block.proposals@.len() == 0,
        outcome matches Err(TemplateFault::UnexpectedUncles) <==> !(block.uncles@.len() == 1
            && block.uncles@[0].hash.bytes@ == uncle_hash.bytes@),
        outcome matches Err(TemplateFault::UnexpectedProposals { ids }) ==> ids@
            == block.proposals@,
{
}

/// A byte is shown as two digits, the high half first: `0` to `9`, then `a` to `f`.
pub proof fn law_hex_shows_each_byte(bytes: Seq<u8>)
    ensures
        hex(bytes).len() == 2 * bytes.len(),
        forall|i: int|
            #![trigger bytes[i]]
            0 <= i < bytes.len() ==> {
                &&& hex(bytes)[2 * i] as int == if bytes[i] / 16 < 10 {
                    48 + bytes[i] / 16
                } else {
                    87 + bytes[i] / 16
                }
                &&& hex(bytes)[2 * i + 1] as int == if bytes[i] % 16 < 10 {
                    48 + bytes[i] % 16
                } else {
                    87 + bytes[i] % 16
                }
            },
    decreases bytes.len(),
{
    if bytes.len() > 0 {
        let rest = bytes.drop_last();
        law_hex_shows_each_byte(rest);
        assert forall|i: int| #![trigger bytes[i]] 0 <= i < bytes.len() implies {
            &&& hex(bytes)[2 * i] as int == if bytes[i] / 16 < 10 {
                48 + bytes[i] / 16
            } else {
                87 + bytes[i] / 16
            }
            &&& hex(bytes)[2 * i + 1] as int == if bytes[i] % 16 < 10 {
                48 + bytes[i] % 16
            } else {
                87 + bytes[i] % 16
            }
        } by {
            if i < rest.len() {
                assert(rest[i] == bytes[i]);
                assert(hex(bytes)[2 * i] == hex(rest)[2 * i]);
                assert(hex(bytes)[2 * i + 1] == hex(rest)[2 * i + 1]);
            } else {
                assert(hex(bytes)[2 * i] == hex_digits()[bytes[i] as int / 16]);
                assert(hex(bytes)[2 * i + 1] == hex_digits()[bytes[i] as int % 16]);
            }
        }
    }
}

/// What is shown in hexadecimal tells the bytes.
pub proof fn law_hex_tells_bytes(a: Seq<u8>, b: Seq<u8>)
    requires
        hex(a) == hex(b),
    ensures
        a == b,
{
    law_hex_shows_each_byte(a);
    law_hex_shows_each_byte(b);
    assert forall|i: int| 0 <= i < a.len() implies a[i] == b[i] by {
        assert(hex(a)[2 * i] == hex(b)[2 * i]);
        assert(hex(a)[2 * i + 1] == hex(b)[2 * i + 1]);
        assert(a[i] / 16 == b[i] / 16 && a[i] % 16 == b[i] % 16);
    }
    assert(a =~= b);
}

/// The message names every id that is proposed, in order: one more adds its own text to that of the
/// others.
pub proof fn law_message_names_every_id(ids: Seq<Seq<u8>>, id: Seq<u8>)
    ensures
        unexpected_proposals_message(ids) == "expect empty proposals, actual: ["@ + shown_ids(ids)
            + "]"@,
        shown_ids(Seq::empty()) == ""@,
        shown_ids(seq![id]) == "ProposalShortId(0x"@ + hex(id) + ")"@,
        ids.len() > 0 ==> shown_ids(ids.push(id)) == shown_ids(ids) + ", "@ + "ProposalShortId(0x"@
            + hex(id) + ")"@,
{
    reveal_strlit("");
    reveal_strlit("[");
    reveal_strlit("]");
    reveal_strlit("expect empty proposals, actual: ");
    reveal_strlit("expect empty proposals, actual: [");
    reveal_strlit(", ");
    reveal_strlit("ProposalShortId(0x");
    reveal_strlit(", ProposalShortId(0x");
    assert("expect empty proposals, actual: ["@ =~= "expect empty proposals, actual: "@ + "["@);
    assert(", ProposalShortId(0x"@ =~= ", "@ + "ProposalShortId(0x"@);
    assert(ids.push(id).drop_last() =~= ids);
    if ids.len() > 0 {
        assert(shown_ids(ids.push(id)) =~= shown_ids(ids) + ", "@ + "ProposalShortId(0x"@ + hex(id)
            + ")"@);
    }
}

} // verus!
