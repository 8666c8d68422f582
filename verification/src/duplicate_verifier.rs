//! The rule that a block holds nothing twice.

use vstd::prelude::*;

use crate::error::{BlockErrorKind, Error, report};
use crate::id_set::IdSet;
use crate::types::{BlockView, ProposalShortId, TransactionView, id_bytes, tx_hashes};

verus! {

/// The block commits a transaction twice, or else proposes an id twice, or else is sound.
pub open spec fn duplicate_fault(block: BlockView) -> Option<Error> {
    if !tx_hashes(block.transactions@).no_duplicates() {
        Some(Error::Block(BlockErrorKind::CommitTransactionDuplicate))
    } else if !id_bytes(block.proposals@).no_duplicates() {
        Some(Error::Block(BlockErrorKind::ProposalTransactionDuplicate))
    } else {
        None
    }
}

/// Whether the hashes of the given transactions are all different.
fn transactions_differ(transactions: &Vec<TransactionView>) -> (r: bool)
    ensures
        r == tx_hashes(transactions@).no_duplicates(),
{
    let ghost hashes = tx_hashes(transactions@);
    let mut seen = IdSet::new();
    let mut i: usize = 0;
    while i < transactions.len()
        invariant
            i <= transactions@.len(),
            hashes == tx_hashes(transactions@),
            forall|id: Seq<u8>| #[trigger]
                seen@.contains(id) <==> exists|j: int| 0 <= j < i && hashes[j] == id,
            forall|j: int, k: int| 0 <= j < k < i ==> hashes[j] != hashes[k],
        decreases transactions@.len() - i,
    {
        let ghost before = seen@;
        if !seen.insert(transactions[i].hash.bytes.as_slice()) {
            assert(before.contains(hashes[i as int]));
            return false;
        }
        assert(!before.contains(hashes[i as int]));
        i = i + 1;
    }
    true
}

/// Whether the given ids are all different.
fn proposals_differ(proposals: &Vec<ProposalShortId>) -> (r: bool)
    ensures
        r == id_bytes(proposals@).no_duplicates(),
{
    let ghost ids = id_bytes(proposals@);
    let mut seen = IdSet::new();
    let mut i: usize = 0;
    while i < proposals.len()
        invariant
            i <= proposals@.len(),
            ids == id_bytes(proposals@),
            forall|id: Seq<u8>| #[trigger]
                seen@.contains(id) <==> exists|j: int| 0 <= j < i && ids[j] == id,
            forall|j: int, k: int| 0 <= j < k < i ==> ids[j] != ids[k],
        decreases proposals@.len() - i,
    {
        let ghost before = seen@;
        if !seen.insert(proposals[i].bytes.as_slice()) {
            assert(before.contains(ids[i as int]));
            return false;
        }
        assert(!before.contains(ids[i as int]));
        i = i + 1;
    }
    true
}

/// DuplicateVerifier
///
/// Invalidating duplicate transaction or proposal
#[derive(Clone)]
pub struct DuplicateVerifier {}

impl DuplicateVerifier {
    /// Constructs a DuplicateVerifier
    pub fn new() -> (r: DuplicateVerifier)
        ensures
            r == (DuplicateVerifier {  }),
    {
        DuplicateVerifier {  }
    }

    /// Checks that the block commits no transaction and proposes no id twice.
    pub fn verify(&self, block: &BlockView) -> (r: Result<(), Error>)
        ensures
            r == report(duplicate_fault(*block)),
            r is Ok <==> {
                &&& block.transactions@.map_values(
                    |tx: TransactionView| tx.hash.bytes@,
                ).no_duplicates()
                &&& block.proposals@.map_values(
                    |id: ProposalShortId| id.bytes@,
                ).no_duplicates()
            },
            r == Err::<(), Error>(Error::Block(BlockErrorKind::CommitTransactionDuplicate)) <==>
                !block.transactions@.map_values(
                |tx: TransactionView| tx.hash.bytes@,
            ).no_duplicates(),
    {
        assert(tx_hashes(block.transactions@) =~= block.transactions@.map_values(
            |tx: TransactionView| tx.hash.bytes@,
        ));
        assert(id_bytes(block.proposals@) =~= block.proposals@.map_values(
            |id: ProposalShortId| id.bytes@,
        ));
        if !transactions_differ(&block.transactions) {
            return Err(Error::from(BlockErrorKind::CommitTransactionDuplicate));
        }
        if !proposals_differ(&block.proposals) {
            return Err(Error::from(BlockErrorKind::ProposalTransactionDuplicate));
        }
        Ok(())
    }
}

} // verus!
