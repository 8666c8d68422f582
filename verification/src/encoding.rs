//! What the `ckb-types` crate computes over plain values: hashes, roots and encoded sizes.

use vstd::prelude::*;

use ckb_types::packed;
use ckb_types::prelude::{Builder, Entity, Pack, PackVec, Unpack};

use crate::types::{
    BlockView, Byte32, ProposalShortId, Script, TransactionView, UncleBlockView, hash_bytes,
    id_bytes, tx_hashes, tx_witness_hashes, zero_hash,
};

verus! {

/// Whether `ckb_types::packed::CellbaseWitness::from_slice` accepts the given bytes.
pub uninterp spec fn cellbase_witness(data: Seq<u8>) -> bool;

/// What `ckb_types::utilities::merkle_root` returns for the given leaves.
pub uninterp spec fn merkle_root_of(leaves: Seq<Seq<u8>>) -> Seq<u8>;

/// What `ckb_types::packed::ProposalShortIdVec::calc_proposals_hash` returns for the given ids.
pub uninterp spec fn proposals_hash_of(ids: Seq<Seq<u8>>) -> Seq<u8>;

/// What `ckb_types::packed::Script::calc_script_hash` returns for the script with the given
/// fields.
pub uninterp spec fn script_hash_of(code_hash: Seq<u8>, hash_type: u8, args: Seq<u8>) -> Seq<u8>;

/// Calls `ckb_types::packed::CellbaseWitness::from_slice`, and says whether it accepts the bytes.
/// The claim is only that the answer depends on the bytes alone.
#[verifier::external_body]
pub(crate) fn is_cellbase_witness(data: &[u8]) -> (r: bool)
    ensures
        r == cellbase_witness(data@),
{
    packed::CellbaseWitness::from_slice(data).is_ok()
}

/// Calls `ckb_types::utilities::merkle_root`. The claim is that the root depends on the leaves, in
/// their order, alone, that it is the zero hash where there are none, and that it is the leaf where
/// there is one.
#[verifier::external_body]
pub(crate) fn merkle_root(leaves: &Vec<Byte32>) -> (r: Byte32)
    ensures
        r@ == merkle_root_of(hash_bytes(leaves@)),
        leaves@.len() == 0 ==> r@ == zero_hash(),
        leaves@.len() == 1 ==> r@ == leaves@[0]@,
{
    let leaves: Vec<packed::Byte32> = leaves.iter().map(|leaf| leaf.bytes.pack()).collect();
    Byte32 { bytes: ckb_types::utilities::merkle_root(&leaves).unpack() }
}

/// Calls `ckb_types::packed::ProposalShortIdVec::calc_proposals_hash`. The claim is that the hash
/// depends on the ids, in their order, alone, and that it is the zero hash where there are none.
#[verifier::external_body]
pub(crate) fn proposals_hash(proposals: &Vec<ProposalShortId>) -> (r: Byte32)
    ensures
        r@ == proposals_hash_of(id_bytes(proposals@)),
        proposals@.len() == 0 ==> r@ == zero_hash(),
{
    let ids: packed::ProposalShortIdVec = proposals.iter().map(|id| id.bytes.pack()).pack();
    Byte32 { bytes: ids.calc_proposals_hash().unpack() }
}

/// Calls `ckb_types::packed::Script::calc_script_hash`. The claim is only that the hash depends on
/// the fields of the script alone.
#[verifier::external_body]
pub(crate) fn script_hash(script: &Script) -> (r: Byte32)
    ensures
        r@ == script_hash_of(script.code_hash@, script.hash_type, script.args@),
{
    let script = packed::Script::new_builder()
        .code_hash(script.code_hash.bytes.pack())
        .hash_type(script.hash_type.into())
        .args(script.args.as_slice().pack())
        .build();
    Byte32 { bytes: script.calc_script_hash().unpack() }
}

/// The bytes that the transactions take in the encoding of a block: each its own encoding and an
/// offset of four bytes.
pub open spec fn transactions_size(transactions: Seq<TransactionView>) -> nat
    decreases transactions.len(),
{
    if transactions.len() == 0 {
        0
    } else {
        transactions_size(transactions.drop_last()) + transactions.last().data@.len() + 4
    }
}

/// The number of ids that the uncles propose.
pub open spec fn uncle_proposals(uncles: Seq<UncleBlockView>) -> nat
    decreases uncles.len(),
{
    if uncles.len() == 0 {
        0
    } else {
        uncle_proposals(uncles.drop_last()) + uncles.last().proposals@.len()
    }
}

proof fn lemma_transactions_size_grows(transactions: Seq<TransactionView>, n: int)
    requires
        0 <= n <= transactions.len(),
    ensures
        transactions_size(transactions.take(n)) <= transactions_size(transactions),
    decreases transactions.len() - n,
{
    if n < transactions.len() {
        lemma_transactions_size_grows(transactions, n + 1);
        assert(transactions.take(n + 1).drop_last() =~= transactions.take(n));
    } else {
        assert(transactions.take(n) =~= transactions);
    }
}

proof fn lemma_uncle_proposals_grow(uncles: Seq<UncleBlockView>, n: int)
    requires
        0 <= n <= uncles.len(),
    ensures
        uncle_proposals(uncles.take(n)) <= uncle_proposals(uncles),
    decreases uncles.len() - n,
{
    if n < uncles.len() {
        lemma_uncle_proposals_grow(uncles, n + 1);
        assert(uncles.take(n + 1).drop_last() =~= uncles.take(n));
    } else {
        assert(uncles.take(n) =~= uncles);
    }
}

impl BlockView {
    /// The size of the encoded block, the ids that its uncles propose left out.
    ///
    /// The header of the table takes 20 bytes, the block header 208, and each of the three vectors
    /// has a length of 4. An uncle takes 228 bytes: an offset, the header of its table, its block
    /// header and the length of its proposals. An id takes 10.
    pub open spec fn size_without_uncle_proposals(self) -> nat {
        (240 + 228 * self.uncles@.len() + transactions_size(self.transactions@) + 10
            * self.proposals@.len()) as nat
    }

    /// The size of the encoded block.
    pub open spec fn encoded_size(self) -> nat {
        (self.size_without_uncle_proposals() + 10 * uncle_proposals(self.uncles@)) as nat
    }

    /// The encoding writes sizes as 32-bit numbers: no block is larger than they can tell.
    pub open spec fn encodable(self) -> bool {
        self.encoded_size() <= u32::MAX
    }

    /// Whether the encoding can tell the size of the block.
    pub fn is_encodable(&self) -> (r: bool)
        ensures
            r == self.encodable(),
    {
        let limit: u128 = 0xffff_ffff;
        let mut size: u128 = 0;
        let mut i: usize = 0;
        while i < self.transactions.len()
            invariant
                i <= self.transactions@.len(),
                limit == u32::MAX,
                size == transactions_size(self.transactions@.take(i as int)),
                size <= limit,
            decreases self.transactions@.len() - i,
        {
            size = size + self.transactions[i].data.len() as u128 + 4;
            i = i + 1;
            proof {
                assert(self.transactions@.take(i as int).drop_last() =~= self.transactions@.take(
                    i - 1,
                ));
                lemma_transactions_size_grows(self.transactions@, i as int);
            }
            if size > limit {
                return false;
            }
        }
        assert(self.transactions@.take(i as int) =~= self.transactions@);
        let mut ids: u128 = 0;
        let mut k: usize = 0;
        while k < self.uncles.len()
            invariant
                k <= self.uncles@.len(),
                limit == u32::MAX,
                ids == uncle_proposals(self.uncles@.take(k as int)),
                ids <= limit,
            decreases self.uncles@.len() - k,
        {
            ids = ids + self.uncles[k].proposals.len() as u128;
            k = k + 1;
            proof {
                assert(self.uncles@.take(k as int).drop_last() =~= self.uncles@.take(k - 1));
                lemma_uncle_proposals_grow(self.uncles@, k as int);
            }
            if ids > limit {
                return false;
            }
        }
        assert(self.uncles@.take(k as int) =~= self.uncles@);
        let fixed: u128 = 240 + 228 * (self.uncles.len() as u128) + 10 * (
        self.proposals.len() as u128);
        fixed + size + 10 * ids <= limit
    }

    /// Encodes the uncles, transactions and proposals as a block, its headers left blank since their
    /// size is fixed, and calls `ckb_types::packed::Block::serialized_size_without_uncle_proposals`
    /// on it. The claim is that the result is the size stated above. A larger block than the
    /// encoding can tell is left out: its offsets would be cut off, and the call could panic.
    #[verifier::external_body]
    pub(crate) fn serialized_size_without_uncle_proposals(&self) -> (r: usize)
        requires
            self.encodable(),
        ensures
            r == self.size_without_uncle_proposals(),
    {
        let uncles = self.uncles.iter().map(|uncle| {
            let ids = uncle.proposals.iter().map(|id| id.bytes.pack()).pack();
            packed::UncleBlock::new_builder().proposals(ids).build()
        });
        let txs = self.transactions.iter();
        let txs = txs.map(|tx| packed::Transaction::new_unchecked(tx.data.clone().into()));
        packed::Block::new_builder()
            .uncles(uncles.pack())
            .transactions(txs.pack())
            .proposals(self.proposals.iter().map(|id| id.bytes.pack()).pack())
            .build()
            .serialized_size_without_uncle_proposals()
    }
}

impl BlockView {
    /// The root that the transactions of the block call for: that of the root of their hashes and
    /// the root of their witness hashes.
    pub open spec fn expected_transactions_root(self) -> Seq<u8> {
        merkle_root_of(
            seq![
                merkle_root_of(tx_hashes(self.transactions@)),
                merkle_root_of(tx_witness_hashes(self.transactions@)),
            ],
        )
    }

    /// The hash that the proposals of the block call for.
    pub open spec fn expected_proposals_hash(self) -> Seq<u8> {
        proposals_hash_of(id_bytes(self.proposals@))
    }

    /// Calculates the root of the transactions with their witnesses. Of no transactions it is that
    /// of two zero hashes, of one transaction that of its two hashes.
    pub fn calc_transactions_root(&self) -> (r: Byte32)
        ensures
            r@ == self.expected_transactions_root(),
            r@ == merkle_root_of(
                seq![
                    merkle_root_of(
                        self.transactions@.map_values(|tx: TransactionView| tx.hash.bytes@),
                    ),
                    merkle_root_of(
                        self.transactions@.map_values(|tx: TransactionView| tx.witness_hash.bytes@),
                    ),
                ],
            ),
            self.transactions@.len() == 0 ==> r@ == merkle_root_of(
                seq![zero_hash(), zero_hash()],
            ),
            self.transactions@.len() == 1 ==> r@ == merkle_root_of(
                seq![self.transactions@[0].hash@, self.transactions@[0].witness_hash@],
            ),
    {
        let mut hashes: Vec<Byte32> = Vec::new();
        let mut witness_hashes: Vec<Byte32> = Vec::new();
        let mut i: usize = 0;
        while i < self.transactions.len()
            invariant
                i <= self.transactions@.len(),
                hashes@.len() == i,
                witness_hashes@.len() == i,
                forall|j: int| 0 <= j < i ==> hashes@[j] == self.transactions@[j].hash,
                forall|j: int|
                    0 <= j < i ==> witness_hashes@[j] == self.transactions@[j].witness_hash,
            decreases self.transactions@.len() - i,
        {
            hashes.push(self.transactions[i].hash);
            witness_hashes.push(self.transactions[i].witness_hash);
            i = i + 1;
        }
        let raw_transactions_root = merkle_root(&hashes);
        let witnesses_root = merkle_root(&witness_hashes);
        let mut roots: Vec<Byte32> = Vec::new();
        roots.push(raw_transactions_root);
        roots.push(witnesses_root);
        assert(hash_bytes(hashes@) =~= tx_hashes(self.transactions@));
        assert(hash_bytes(witness_hashes@) =~= tx_witness_hashes(self.transactions@));
        assert(hash_bytes(hashes@) =~= self.transactions@.map_values(
            |tx: TransactionView| tx.hash.bytes@,
        ));
        assert(hash_bytes(witness_hashes@) =~= self.transactions@.map_values(
            |tx: TransactionView| tx.witness_hash.bytes@,
        ));
        assert(hash_bytes(roots@) =~= seq![raw_transactions_root@, witnesses_root@]);
        merkle_root(&roots)
    }

    /// Calculates the hash of the proposals, which is the zero hash where there are none.
    pub fn calc_proposals_hash(&self) -> (r: Byte32)
        ensures
            r@ == self.expected_proposals_hash(),
            r@ == proposals_hash_of(self.proposals@.map_values(|id: ProposalShortId| id.bytes@)),
            self.proposals@.len() == 0 ==> r@ == zero_hash(),
    {
        assert(id_bytes(self.proposals@) =~= self.proposals@.map_values(
            |id: ProposalShortId| id.bytes@,
        ));
        proposals_hash(&self.proposals)
    }
}

} // verus!
