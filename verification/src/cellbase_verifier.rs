//! The rules on the cellbase of a block.

use vstd::prelude::*;

use crate::encoding::{cellbase_witness, is_cellbase_witness};
use crate::error::{CellbaseError, Error, report};
use crate::types::{BlockView, CellInput, TransactionView, cellbase_input};

verus! {

/// The number of cellbases among the given transactions.
pub open spec fn cellbase_count(transactions: Seq<TransactionView>) -> nat {
    transactions.filter(|tx: TransactionView| tx.cellbase()).len()
}

/// The cellbase has at most one output, and its outputs and their data agree in number.
pub open spec fn output_quantity_valid(tx: TransactionView) -> bool {
    tx.outputs@.len() == tx.outputs_data@.len() && tx.outputs@.len() <= 1
}

/// The first output, where there is one, holds no data.
pub open spec fn output_data_valid(tx: TransactionView) -> bool {
    tx.outputs_data@.len() > 0 ==> tx.outputs_data@[0]@.len() == 0
}

/// No output has a type script.
pub open spec fn type_scripts_absent(tx: TransactionView) -> bool {
    forall|i: int| 0 <= i < tx.outputs@.len() ==> (#[trigger] tx.outputs@[i]).type_ is None
}

/// Whether the first transaction of the block has a first witness that decodes as a cellbase
/// witness.
pub open spec fn first_witness_valid(block: BlockView) -> bool {
    &&& block.transactions@.len() > 0
    &&& block.transactions@[0].witnesses@.len() > 0
    &&& cellbase_witness(block.transactions@[0].witnesses@[0]@)
}

/// The first rule on the cellbase that the block breaks, given whether its witness decodes. The
/// genesis block is exempt.
pub open spec fn cellbase_fault(block: BlockView, witness_valid: bool) -> Option<Error> {
    let cellbase = block.transactions@[0];
    if block.genesis() {
        None
    } else if cellbase_count(block.transactions@) != 1 {
        Some(Error::Cellbase(CellbaseError::InvalidQuantity))
    } else if !cellbase.cellbase() {
        Some(Error::Cellbase(CellbaseError::InvalidPosition))
    } else if !output_quantity_valid(cellbase) {
        Some(Error::Cellbase(CellbaseError::InvalidOutputQuantity))
    } else if !output_data_valid(cellbase) {
        Some(Error::Cellbase(CellbaseError::InvalidOutputData))
    } else if !witness_valid {
        Some(Error::Cellbase(CellbaseError::InvalidWitness))
    } else if !type_scripts_absent(cellbase) {
        Some(Error::Cellbase(CellbaseError::InvalidTypeScript))
    } else if cellbase.inputs@[0]@ != cellbase_input(block.header.number) {
        Some(Error::Cellbase(CellbaseError::InvalidInput))
    } else {
        None
    }
}

/// Counts the cellbases among the given transactions.
fn count_cellbases(transactions: &Vec<TransactionView>) -> (r: usize)
    ensures
        r == cellbase_count(transactions@),
{
    let ghost is_cellbase = |tx: TransactionView| tx.cellbase();
    let mut count: usize = 0;
    let mut i: usize = 0;
    proof {
        reveal(Seq::filter);
    }
    while i < transactions.len()
        invariant
            i <= transactions@.len(),
            count <= i,
            is_cellbase == (|tx: TransactionView| tx.cellbase()),
            count == transactions@.take(i as int).filter(is_cellbase).len(),
        decreases transactions@.len() - i,
    {
        proof {
            reveal(Seq::filter);
            assert(transactions@.take(i + 1).drop_last() =~= transactions@.take(i as int));
        }
        if transactions[i].is_cellbase() {
            count = count + 1;
        }
        i = i + 1;
    }
    assert(transactions@.take(i as int) =~= transactions@);
    count
}

/// Whether any output has a type script.
fn has_type_script(tx: &TransactionView) -> (r: bool)
    ensures
        r == !type_scripts_absent(*tx),
{
    let mut i: usize = 0;
    while i < tx.outputs.len()
        invariant
            i <= tx.outputs@.len(),
            forall|j: int| 0 <= j < i ==> (#[trigger] tx.outputs@[j]).type_ is None,
        decreases tx.outputs@.len() - i,
    {
        if tx.outputs[i].type_.is_some() {
            assert(tx.outputs@[i as int].type_ is Some);
            return true;
        }
        i = i + 1;
    }
    false
}

/// Cellbase verifier
///
/// First transaction must be cellbase, the rest must not be.
/// Cellbase outputs/outputs_data len must le 1
/// Cellbase output data must be empty
/// Cellbase output type_ must be empty
/// Cellbase has only one dummy input. The since must be set to the block number.
#[derive(Clone)]
pub struct CellbaseVerifier {}

impl CellbaseVerifier {
    /// Constructs a CellbaseVerifier
    pub fn new() -> (r: CellbaseVerifier)
        ensures
            r == (CellbaseVerifier {  }),
    {
        CellbaseVerifier {  }
    }

    /// Checks the cellbase of the block.
    pub fn verify(&self, block: &BlockView) -> (r: Result<(), Error>)
        ensures
            r == report(cellbase_fault(*block, first_witness_valid(*block))),
    {
        let witness_valid = block.transactions.len() > 0 && block.transactions[0].witnesses.len()
            > 0 && is_cellbase_witness(block.transactions[0].witnesses[0].as_slice());
        self.verify_with_witness(block, witness_valid)
    }

    /// Checks the cellbase of the block, given whether its witness decodes.
    pub fn verify_with_witness(&self, block: &BlockView, witness_valid: bool) -> (r: Result<
        (),
        Error,
    >)
        ensures
            r == report(cellbase_fault(*block, witness_valid)),
    {
        if block.is_genesis() {
            return Ok(());
        }
        let cellbase_len = count_cellbases(&block.transactions);
        // The block is not empty: it holds a cellbase.
        if cellbase_len != 1 {
            return Err(Error::from(CellbaseError::InvalidQuantity));
        }
        proof {
            reveal(Seq::filter);
        }
        let cellbase = &block.transactions[0];
        if !cellbase.is_cellbase() {
            return Err(Error::from(CellbaseError::InvalidPosition));
        }
        if cellbase.outputs.len() > 1 || cellbase.outputs_data.len() > 1 || cellbase.outputs.len()
            != cellbase.outputs_data.len() {
            return Err(Error::from(CellbaseError::InvalidOutputQuantity));
        }
        if cellbase.outputs_data.len() > 0 && cellbase.outputs_data[0].len() != 0 {
            return Err(Error::from(CellbaseError::InvalidOutputData));
        }
        if !witness_valid {
            return Err(Error::from(CellbaseError::InvalidWitness));
        }
        if has_type_script(cellbase) {
            return Err(Error::from(CellbaseError::InvalidTypeScript));
        }
        if cellbase.inputs[0] != CellInput::new_cellbase_input(block.header.number) {
            return Err(Error::from(CellbaseError::InvalidInput));
        }
        Ok(())
    }
}

} // verus!
