//! The reasons for which a block is rejected.

use vstd::prelude::*;

verus! {

/// What is wrong with the cellbase of a block.
#[derive(Clone, Copy, Debug, PartialEq, Eq, Structural)]
pub enum CellbaseError {
    /// The block does not hold exactly one cellbase.
    InvalidQuantity,
    /// The cellbase is not the first transaction.
    InvalidPosition,
    /// The cellbase has more than one output, or its outputs and their data differ in number.
    InvalidOutputQuantity,
    /// The output of the cellbase holds data.
    InvalidOutputData,
    /// The witness of the cellbase is not a cellbase witness.
    InvalidWitness,
    /// The output of the cellbase has a type script.
    InvalidTypeScript,
    /// The input of the cellbase is not that of a cellbase at the height of the block.
    InvalidInput,
}

/// What is wrong with a block, its cellbase aside.
#[derive(Clone, Copy, Debug, PartialEq, Eq, Structural)]
pub enum BlockErrorKind {
    /// The block commits a transaction twice.
    CommitTransactionDuplicate,
    /// The block proposes an id twice.
    ProposalTransactionDuplicate,
    /// The header does not carry the root of the transactions.
    TransactionsRoot,
    /// The header does not carry the hash of the proposals.
    ProposalTransactionsHash,
    /// The block proposes more ids than the chain allows.
    ExceededMaximumProposalsLimit,
    /// The block is larger than the chain allows.
    ExceededMaximumBlockBytes,
}

/// Why a block is rejected.
#[derive(Clone, Copy, Debug, PartialEq, Eq, Structural)]
pub enum Error {
    Cellbase(CellbaseError),
    Block(BlockErrorKind),
}

impl From<CellbaseError> for Error {
    fn from(error: CellbaseError) -> (r: Error) {
        Error::Cellbase(error)
    }
}

impl vstd::std_specs::convert::FromSpecImpl<CellbaseError> for Error {
    open spec fn obeys_from_spec() -> bool {
        true
    }

    open spec fn from_spec(error: CellbaseError) -> Error {
        Error::Cellbase(error)
    }
}

impl From<BlockErrorKind> for Error {
    fn from(kind: BlockErrorKind) -> (r: Error) {
        Error::Block(kind)
    }
}

impl vstd::std_specs::convert::FromSpecImpl<BlockErrorKind> for Error {
    open spec fn obeys_from_spec() -> bool {
        true
    }

    open spec fn from_spec(kind: BlockErrorKind) -> Error {
        Error::Block(kind)
    }
}

/// The result that reports the given fault, or success where there is none.
pub open spec fn report(fault: Option<Error>) -> Result<(), Error> {
    match fault {
        Some(error) => Err(error),
        None => Ok(()),
    }
}

} // verus!
