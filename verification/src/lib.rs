//! Verification of blocks of the CKB chain that needs no context, and of the start of a node.
//!
//! A block is a plain value ([`types`]). Its verifiers ([`block_verifier`], [`cellbase_verifier`],
//! [`duplicate_verifier`]) report the first rule that it breaks ([`error`]). What `ckb-types`
//! computes for them stands in [`encoding`]. [`startup`] decides what a node does when it starts,
//! [`specs`] what is asked of nodes in scenarios. [`laws`] states what holds of the verifiers, the
//! start and the scenarios, [`value_laws`] what holds of the values.

pub mod block_verifier;
pub mod cellbase_verifier;
pub mod duplicate_verifier;
pub mod encoding;
pub mod error;
pub mod id_set;
pub mod laws;
pub mod specs;
pub mod startup;
pub mod types;
pub mod value_laws;
