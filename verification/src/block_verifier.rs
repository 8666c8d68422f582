//! The checks on a block that need no context, and the resolution of the header before it.

use vstd::prelude::*;

use crate::cellbase_verifier::{CellbaseVerifier, cellbase_fault, first_witness_valid};
use crate::duplicate_verifier::{DuplicateVerifier, duplicate_fault};
use crate::error::{BlockErrorKind, Error, report};
use crate::types::{BlockView, Byte32, Consensus, HeaderView, TransactionView, zero_hash};

verus! {

/// The block proposes more ids than the limit.
pub open spec fn proposals_limit_fault(block: BlockView, limit: u64) -> Option<Error> {
    if block.proposals@.len() <= limit {
        None
    } else {
        Some(Error::Block(BlockErrorKind::ExceededMaximumProposalsLimit))
    }
}

/// A block other than the genesis block takes more bytes than the limit.
pub open spec fn block_bytes_fault(genesis: bool, block_bytes: nat, limit: u64) -> Option<Error> {
    if genesis || block_bytes <= limit {
        None
    } else {
        Some(Error::Block(BlockErrorKind::ExceededMaximumBlockBytes))
    }
}

/// The header of the block carries another transactions root than the given one, or else another
/// proposals hash.
pub open spec fn merkle_root_fault(
    block: BlockView,
    transactions_root: Seq<u8>,
    proposals_hash: Seq<u8>,
) -> Option<Error> {
    if block.header.transactions_root@ != transactions_root {
        Some(Error::Block(BlockErrorKind::TransactionsRoot))
    } else if block.header.proposals_hash@ != proposals_hash {
        Some(Error::Block(BlockErrorKind::ProposalTransactionsHash))
    } else {
        None
    }
}

/// The first of two faults.
pub open spec fn first_fault(first: Option<Error>, second: Option<Error>) -> Option<Error> {
    if first is Some {
        first
    } else {
        second
    }
}

/// The first rule that the block breaks: on the number of its proposals, on its size, on its
/// cellbase, on duplicates, on the hashes that its header carries.
pub open spec fn block_fault(block: BlockView, consensus: Consensus) -> Option<Error> {
    first_fault(
        proposals_limit_fault(block, consensus.max_block_proposals_limit),
        first_fault(
            block_bytes_fault(
                block.genesis(),
                block.size_without_uncle_proposals(),
                consensus.max_block_bytes,
            ),
            first_fault(
                cellbase_fault(block, first_witness_valid(block)),
                first_fault(
                    duplicate_fault(block),
                    merkle_root_fault(
                        block,
                        block.expected_transactions_root(),
                        block.expected_proposals_hash(),
                    ),
                ),
            ),
        ),
    )
}

/// Block verifier that are independent of context.
///
/// Contains:
/// - [`CellbaseVerifier`]
/// - [`BlockBytesVerifier`]
/// - [`BlockProposalsLimitVerifier`]
/// - [`DuplicateVerifier`]
/// - [`MerkleRootVerifier`]
#[derive(Clone)]
pub struct BlockVerifier<'a> {
    consensus: &'a Consensus,
}

impl<'a> BlockVerifier<'a> {
    /// The parameters that the block is held to.
    pub closed spec fn parameters(&self) -> Consensus {
        *self.consensus
    }

    /// Constructs a BlockVerifier
    pub fn new(consensus: &'a Consensus) -> (r: BlockVerifier<'a>)
        ensures
            r.parameters() == *consensus,
    {
        BlockVerifier { consensus }
    }

    /// Checks the block, and reports the first rule that it breaks.
    pub fn verify(&self, target: &BlockView) -> (r: Result<(), Error>)
        requires
            target.genesis() || target.encodable(),
        ensures
            r == report(block_fault(*target, self.parameters())),
            r is Ok && target.proposals@.len() == 0 ==> target.header.proposals_hash@
                == zero_hash(),
    {
        let max_block_proposals_limit = self.consensus.max_block_proposals_limit;
        let max_block_bytes = self.consensus.max_block_bytes;
        let checked = BlockProposalsLimitVerifier::new(max_block_proposals_limit).verify(target);
        if checked.is_err() {
            return checked;
        }
        let checked = BlockBytesVerifier::new(max_block_bytes).verify(target);
        if checked.is_err() {
            return checked;
        }
        let checked = CellbaseVerifier::new().verify(target);
        if checked.is_err() {
            return checked;
        }
        let checked = DuplicateVerifier::new().verify(target);
        if checked.is_err() {
            return checked;
        }
        MerkleRootVerifier::new().verify(target)
    }
}

/// MerkleRootVerifier
///
/// Check the merkle root
#[derive(Clone)]
pub struct MerkleRootVerifier {}

impl Default for MerkleRootVerifier {
    fn default() -> (r: MerkleRootVerifier)
        ensures
            r == (MerkleRootVerifier {  }),
    {
        MerkleRootVerifier {  }
    }
}

impl MerkleRootVerifier {
    /// Constructs a MerkleRootVerifier
    pub fn new() -> (r: MerkleRootVerifier)
        ensures
            r == (MerkleRootVerifier {  }),
    {
        MerkleRootVerifier::default()
    }

    /// Checks that the header carries the root of the transactions and the hash of the proposals.
    pub fn verify(&self, block: &BlockView) -> (r: Result<(), Error>)
        ensures
            r == report(
                merkle_root_fault(
                    *block,
                    block.expected_transactions_root(),
                    block.expected_proposals_hash(),
                ),
            ),
            r is Ok && block.proposals@.len() == 0 ==> block.header.proposals_hash@ == zero_hash(),
    {
        let transactions_root = block.calc_transactions_root();
        let proposals_hash = block.calc_proposals_hash();
        self.verify_with_roots(block, &transactions_root, &proposals_hash)
    }

    /// Checks that the header carries the given root and the given hash.
    pub fn verify_with_roots(
        &self,
        block: &BlockView,
        transactions_root: &Byte32,
        proposals_hash: &Byte32,
    ) -> (r: Result<(), Error>)
        ensures
            r == report(merkle_root_fault(*block, transactions_root@, proposals_hash@)),
            r is Ok <==> block.header.transactions_root.bytes@ == transactions_root.bytes@
                && block.header.proposals_hash.bytes@ == proposals_hash.bytes@,
            r == Err::<(), Error>(Error::Block(BlockErrorKind::TransactionsRoot)) <==>
                block.header.transactions_root.bytes@ != transactions_root.bytes@,
    {
        if block.header.transactions_root != *transactions_root {
            return Err(Error::from(BlockErrorKind::TransactionsRoot));
        }
        if block.header.proposals_hash != *proposals_hash {
            return Err(Error::from(BlockErrorKind::ProposalTransactionsHash));
        }
        Ok(())
    }
}

/// Context wrapper for Context-dependent HeaderVerifier.
///
/// By "context", only mean the previous block headers here.
pub struct HeaderResolverWrapper<'a> {
    header: &'a HeaderView,
    parent: Option<HeaderView>,
}

impl<'a> HeaderResolverWrapper<'a> {
    /// The header that is wrapped.
    pub closed spec fn wrapped(&self) -> HeaderView {
        *self.header
    }

    /// The header before it, where it is known.
    pub closed spec fn resolved(&self) -> Option<HeaderView> {
        self.parent
    }

    /// Constructs a wrapper from store interface: the header before the given one is whatever the
    /// store holds under its parent hash.
    pub fn new<S: Fn(&Byte32) -> Option<HeaderView>>(
        header: &'a HeaderView,
        get_block_header: S,
    ) -> (r: HeaderResolverWrapper<'a>)
        requires
            call_requires(get_block_header, (&header.parent_hash,)),
        ensures
            r.wrapped() == *header,
            call_ensures(get_block_header, (&header.parent_hash,), r.resolved()),
    {
        let parent = get_block_header(&header.parent_hash);
        HeaderResolverWrapper { header, parent }
    }

    /// Constructs a wrapper from specified previous header
    pub fn build(header: &'a HeaderView, parent: Option<HeaderView>) -> (r: HeaderResolverWrapper<
        'a,
    >)
        ensures
            r.wrapped() == *header,
            r.resolved() == parent,
    {
        HeaderResolverWrapper { header, parent }
    }

    /// The header that is wrapped.
    pub fn header(&self) -> (r: &HeaderView)
        ensures
            *r == self.wrapped(),
    {
        self.header
    }

    /// The header before it, where it is known.
    pub fn parent(&self) -> (r: Option<&HeaderView>)
        ensures
            r is Some <==> self.resolved() is Some,
            r matches Some(parent) ==> self.resolved() == Some(*parent),
    {
        self.parent.as_ref()
    }
}

/// BlockProposalsLimitVerifier.
///
/// Check block proposal limit.
#[derive(Clone)]
pub struct BlockProposalsLimitVerifier {
    block_proposals_limit: u64,
}

impl BlockProposalsLimitVerifier {
    /// The number of ids that a block may propose.
    pub closed spec fn limit(&self) -> u64 {
        self.block_proposals_limit
    }

    /// Constructs a BlockProposalsLimitVerifier
    pub fn new(block_proposals_limit: u64) -> (r: BlockProposalsLimitVerifier)
        ensures
            r.limit() == block_proposals_limit,
    {
        BlockProposalsLimitVerifier { block_proposals_limit }
    }

    /// Checks that the block proposes no more ids than the limit.
    pub fn verify(&self, block: &BlockView) -> (r: Result<(), Error>)
        ensures
            r == report(proposals_limit_fault(*block, self.limit())),
            r is Ok <==> block.proposals@.len() <= self.limit(),
            r matches Err(error) ==> error == Error::Block(
                BlockErrorKind::ExceededMaximumProposalsLimit,
            ),
    {
        let proposals_len = block.proposals.len() as u64;
        if proposals_len <= self.block_proposals_limit {
            Ok(())
        } else {
            Err(Error::from(BlockErrorKind::ExceededMaximumProposalsLimit))
        }
    }
}

/// BlockBytesVerifier.
///
/// Check block size limit.
#[derive(Clone)]
pub struct BlockBytesVerifier {
    block_bytes_limit: u64,
}

impl BlockBytesVerifier {
    /// The number of bytes that a block may take.
    pub closed spec fn limit(&self) -> u64 {
        self.block_bytes_limit
    }

    /// Constructs a BlockBytesVerifier
    pub fn new(block_bytes_limit: u64) -> (r: BlockBytesVerifier)
        ensures
            r.limit() == block_bytes_limit,
    {
        BlockBytesVerifier { block_bytes_limit }
    }

    /// Checks that the block takes no more bytes than the limit. The genesis block is exempt.
    pub fn verify(&self, block: &BlockView) -> (r: Result<(), Error>)
        requires
            block.genesis() || block.encodable(),
        ensures
            r == report(
                block_bytes_fault(
                    block.genesis(),
                    block.size_without_uncle_proposals(),
                    self.limit(),
                ),
            ),
            r is Ok <==> block.header.number == 0 || block.size_without_uncle_proposals()
                <= self.limit(),
            r matches Err(error) ==> error == Error::Block(
                BlockErrorKind::ExceededMaximumBlockBytes,
            ),
    {
        // Skip bytes limit on genesis block
        if block.is_genesis() {
            return Ok(());
        }
        let block_bytes = block.serialized_size_without_uncle_proposals() as u64;
        if block_bytes <= self.block_bytes_limit {
            Ok(())
        } else {
            Err(Error::from(BlockErrorKind::ExceededMaximumBlockBytes))
        }
    }
}

/// Context-independent verification checks for block transactions
///
/// Basic checks that don't depend on any context
pub struct NonContextualBlockTxsVerifier<'a> {
    consensus: &'a Consensus,
}

impl<'a> NonContextualBlockTxsVerifier<'a> {
    /// The parameters that the transactions are held to.
    pub closed spec fn parameters(&self) -> Consensus {
        *self.consensus
    }

    /// Creates a new NonContextualBlockTxsVerifier
    pub fn new(consensus: &'a Consensus) -> (r: NonContextualBlockTxsVerifier<'a>)
        ensures
            r.parameters() == *consensus,
    {
        NonContextualBlockTxsVerifier { consensus }
    }

    /// Perform context-independent verification checks for block transactions: the given check on
    /// each, in order, up to the first that it rejects.
    pub fn verify<E, C: Fn(&TransactionView, &Consensus) -> Result<(), E>>(
        &self,
        block: &BlockView,
        verify_transaction: C,
    ) -> (r: Result<Vec<()>, E>)
        requires
            forall|i: int|
                0 <= i < block.transactions@.len() ==> call_requires(
                    verify_transaction,
                    (&#[trigger] block.transactions@[i], &self.parameters()),
                ),
        ensures
            match r {
                Ok(passed) => {
                    &&& passed@.len() == block.transactions@.len()
                    &&& forall|i: int|
                        0 <= i < block.transactions@.len() ==> call_ensures(
                            verify_transaction,
                            (&#[trigger] block.transactions@[i], &self.parameters()),
                            Ok(()),
                        )
                },
                Err(error) => exists|i: int|
                    {
                        &&& 0 <= i < block.transactions@.len()
                        &&& call_ensures(
                            verify_transaction,
                            (&#[trigger] block.transactions@[i], &self.parameters()),
                            Err(error),
                        )
                        &&& forall|j: int|
                            0 <= j < i ==> call_ensures(
                                verify_transaction,
                                (&#[trigger] block.transactions@[j], &self.parameters()),
                                Ok(()),
                            )
                    },
            },
    {
        let mut passed: Vec<()> = Vec::new();
        let mut i: usize = 0;
        while i < block.transactions.len()
            invariant
                i <= block.transactions@.len(),
                passed@.len() == i,
                forall|j: int|
                    0 <= j < block.transactions@.len() ==> call_requires(
                        verify_transaction,
                        (&#[trigger] block.transactions@[j], &self.parameters()),
                    ),
                forall|j: int|
                    0 <= j < i ==> call_ensures(
                        verify_transaction,
                        (&#[trigger] block.transactions@[j], &self.parameters()),
                        Ok(()),
                    ),
            decreases block.transactions@.len() - i,
        {
            match verify_transaction(&block.transactions[i], self.consensus) {
                Ok(unit) => {
                    passed.push(unit);
                },
                Err(error) => {
                    return Err(error);
                },
            }
            i = i + 1;
        }
        Ok(passed)
    }
}

} // verus!
