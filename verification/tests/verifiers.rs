use ckb_block_verifier::block_verifier::{
    BlockBytesVerifier, BlockProposalsLimitVerifier, BlockVerifier, MerkleRootVerifier,
    NonContextualBlockTxsVerifier,
};
use ckb_block_verifier::cellbase_verifier::CellbaseVerifier;
use ckb_block_verifier::duplicate_verifier::DuplicateVerifier;
use ckb_block_verifier::error::{BlockErrorKind, CellbaseError, Error};
use ckb_block_verifier::types::{
    BlockView, Byte32, CellInput, CellOutput, Consensus, HeaderView, OutPoint, ProposalShortId,
    Script, TransactionView, UncleBlockView,
};
use ckb_types::packed;
use ckb_types::prelude::{Builder, Entity, Pack, Unpack};

fn byte32(hash: &packed::Byte32) -> Byte32 {
    Byte32 { bytes: hash.unpack() }
}

fn script(script: &packed::Script) -> Script {
    Script {
        code_hash: byte32(&script.code_hash()),
        hash_type: script.hash_type().into(),
        args: script.args().raw_data().to_vec(),
    }
}

fn transaction(tx: &ckb_types::core::TransactionView) -> TransactionView {
    TransactionView {
        data: tx.data().as_slice().to_vec(),
        hash: byte32(&tx.hash()),
        witness_hash: byte32(&tx.witness_hash()),
        inputs: tx
            .inputs()
            .into_iter()
            .map(|input| CellInput {
                previous_output: OutPoint {
                    tx_hash: byte32(&input.previous_output().tx_hash()),
                    index: input.previous_output().index().unpack(),
                },
                since: input.since().unpack(),
            })
            .collect(),
        outputs: tx
            .outputs()
            .into_iter()
            .map(|output| CellOutput {
                capacity: output.capacity().unpack(),
                lock: script(&output.lock()),
                type_: output.type_().to_opt().map(|type_| script(&type_)),
            })
            .collect(),
        outputs_data: tx
            .outputs_data()
            .into_iter()
            .map(|data| data.raw_data().to_vec())
            .collect(),
        witnesses: tx
            .witnesses()
            .into_iter()
            .map(|witness| witness.raw_data().to_vec())
            .collect(),
    }
}

fn short_ids(ids: packed::ProposalShortIdVec) -> Vec<ProposalShortId> {
    ids.into_iter()
        .map(|id| ProposalShortId { bytes: id.unpack() })
        .collect()
}

fn block(block: &ckb_types::core::BlockView) -> BlockView {
    let header = block.header();
    BlockView {
        header: HeaderView {
            hash: byte32(&header.hash()),
            version: header.version(),
            compact_target: header.compact_target(),
            timestamp: header.timestamp(),
            number: header.number(),
            epoch: header.epoch().full_value(),
            parent_hash: byte32(&header.parent_hash()),
            transactions_root: byte32(&header.transactions_root()),
            proposals_hash: byte32(&header.proposals_hash()),
            uncles_hash: byte32(&header.uncles_hash()),
            dao: byte32(&header.dao()),
            nonce: header.nonce(),
        },
        uncles: block
            .uncles()
            .into_iter()
            .map(|uncle| UncleBlockView {
                hash: byte32(&uncle.hash()),
                proposals: short_ids(uncle.data().proposals()),
            })
            .collect(),
        transactions: block.transactions().iter().map(transaction).collect(),
        proposals: short_ids(block.data().proposals()),
    }
}

fn id(n: u8) -> packed::ProposalShortId {
    packed::ProposalShortId::new([n; 10])
}

fn witness() -> packed::Bytes {
    packed::Script::default().into_witness()
}

fn plain_output() -> packed::CellOutput {
    packed::CellOutput::new_builder().build()
}

fn cellbase_builder(number: u64) -> ckb_types::core::TransactionBuilder {
    ckb_types::core::TransactionBuilder::default()
        .input(packed::CellInput::new_cellbase_input(number))
        .output(plain_output())
        .output_data(packed::Bytes::default())
        .witness(witness())
}

fn spending(n: u8) -> ckb_types::core::TransactionView {
    ckb_types::core::TransactionBuilder::default()
        .input(packed::CellInput::new(
            packed::OutPoint::new(packed::Byte32::new([n; 32]), 0),
            0,
        ))
        .output(plain_output())
        .output_data(packed::Bytes::default())
        .build()
}

fn block_builder(number: u64) -> ckb_types::core::BlockBuilder {
    ckb_types::core::BlockBuilder::default().number(number.pack())
}

/// A block that nothing is wrong with.
fn sound_block(number: u64) -> ckb_types::core::BlockView {
    block_builder(number)
        .transaction(cellbase_builder(number).build())
        .transaction(spending(1))
        .transaction(spending(2))
        .proposal(id(1))
        .proposal(id(2))
        .build()
}

fn consensus(max_block_proposals_limit: u64, max_block_bytes: u64) -> Consensus {
    Consensus {
        max_block_proposals_limit,
        max_block_bytes,
        genesis_block: block(&ckb_types::core::BlockBuilder::default().build()),
    }
}

fn cellbase_verdict(view: &ckb_types::core::BlockView) -> Result<(), Error> {
    CellbaseVerifier::new().verify(&block(view))
}

fn with_cellbase(number: u64, cellbase: ckb_types::core::TransactionBuilder) -> ckb_types::core::BlockView {
    block_builder(number).transaction(cellbase.build()).build()
}

#[test]
fn zero_hash_is_zero() {
    assert!(Byte32::zero().is_zero());
    assert!(Byte32 { bytes: [0; 32] } == Byte32::zero());
    assert!(!Byte32 { bytes: [1; 32] }.is_zero());
}

#[test]
fn out_point_null() {
    assert!(OutPoint::null().is_null());
    assert!(!OutPoint { tx_hash: Byte32::zero(), index: 0 }.is_null());
    assert!(!OutPoint { tx_hash: Byte32 { bytes: [1; 32] }, index: u32::MAX }.is_null());
}

#[test]
fn cellbase_input_agrees_with_encoding() {
    let expected = packed::CellInput::new_cellbase_input(9);
    let actual = CellInput::new_cellbase_input(9);
    assert_eq!(actual.since, 9);
    assert!(byte32(&expected.previous_output().tx_hash()) == actual.previous_output.tx_hash);
    let index: u32 = expected.previous_output().index().unpack();
    assert_eq!(index, actual.previous_output.index);
    assert!(CellInput::new_cellbase_input(9) == actual);
    assert!(CellInput::new_cellbase_input(8) != actual);
}

#[test]
fn is_cellbase_agrees_with_encoding() {
    let txs = vec![
        cellbase_builder(3).build(),
        spending(1),
        cellbase_builder(3).witness(witness()).build(),
        cellbase_builder(3).input(packed::CellInput::new_cellbase_input(3)).build(),
        ckb_types::core::TransactionBuilder::default().build(),
    ];
    let expected = [true, false, false, false, false];
    for (tx, expected) in txs.iter().zip(expected.iter()) {
        assert_eq!(tx.is_cellbase(), *expected);
        assert_eq!(transaction(tx).is_cellbase(), *expected);
    }
}

#[test]
fn proposal_short_id_is_leading_bytes() {
    let tx = spending(7);
    let expected: [u8; 10] = tx.proposal_short_id().unpack();
    assert_eq!(transaction(&tx).proposal_short_id().bytes, expected);
    let mut hash = [0u8; 32];
    for (i, byte) in hash.iter_mut().enumerate() {
        *byte = i as u8;
    }
    assert_eq!(
        ProposalShortId::from_tx_hash(&Byte32 { bytes: hash }).bytes,
        [0, 1, 2, 3, 4, 5, 6, 7, 8, 9]
    );
}

#[test]
fn cellbase_sound() {
    assert_eq!(cellbase_verdict(&sound_block(5)), Ok(()));
}

#[test]
fn cellbase_without_outputs_is_sound() {
    let cellbase = ckb_types::core::TransactionBuilder::default()
        .input(packed::CellInput::new_cellbase_input(5))
        .witness(witness());
    assert_eq!(cellbase_verdict(&with_cellbase(5, cellbase)), Ok(()));
}

#[test]
fn cellbase_genesis_exempt() {
    assert_eq!(cellbase_verdict(&block_builder(0).build()), Ok(()));
    assert_eq!(
        cellbase_verdict(&block_builder(0).transaction(spending(1)).build()),
        Ok(())
    );
}

#[test]
fn cellbase_quantity() {
    let expected = Err(Error::Cellbase(CellbaseError::InvalidQuantity));
    assert_eq!(cellbase_verdict(&block_builder(5).build()), expected);
    assert_eq!(
        cellbase_verdict(&block_builder(5).transaction(spending(1)).build()),
        expected
    );
    let two = block_builder(5)
        .transaction(cellbase_builder(5).build())
        .transaction(cellbase_builder(5).build())
        .build();
    assert_eq!(cellbase_verdict(&two), expected);
}

#[test]
fn cellbase_position() {
    let second = block_builder(5)
        .transaction(spending(1))
        .transaction(cellbase_builder(5).build())
        .build();
    assert_eq!(
        cellbase_verdict(&second),
        Err(Error::Cellbase(CellbaseError::InvalidPosition))
    );
}

#[test]
fn cellbase_output_quantity() {
    let expected = Err(Error::Cellbase(CellbaseError::InvalidOutputQuantity));
    let two = cellbase_builder(5)
        .output(plain_output())
        .output_data(packed::Bytes::default());
    assert_eq!(cellbase_verdict(&with_cellbase(5, two)), expected);
    let unequal = ckb_types::core::TransactionBuilder::default()
        .input(packed::CellInput::new_cellbase_input(5))
        .output(plain_output())
        .witness(witness());
    assert_eq!(cellbase_verdict(&with_cellbase(5, unequal)), expected);
    let data_alone = ckb_types::core::TransactionBuilder::default()
        .input(packed::CellInput::new_cellbase_input(5))
        .output_data(packed::Bytes::default())
        .witness(witness());
    assert_eq!(cellbase_verdict(&with_cellbase(5, data_alone)), expected);
}

#[test]
fn cellbase_output_data() {
    let cellbase = ckb_types::core::TransactionBuilder::default()
        .input(packed::CellInput::new_cellbase_input(5))
        .output(plain_output())
        .output_data([1u8].pack())
        .witness(witness());
    assert_eq!(
        cellbase_verdict(&with_cellbase(5, cellbase)),
        Err(Error::Cellbase(CellbaseError::InvalidOutputData))
    );
}

#[test]
fn cellbase_witness_must_decode() {
    for bad in vec![vec![], vec![0u8], vec![0u8; 64]] {
        let cellbase = ckb_types::core::TransactionBuilder::default()
            .input(packed::CellInput::new_cellbase_input(5))
            .output(plain_output())
            .output_data(packed::Bytes::default())
            .witness(bad.as_slice().pack());
        assert_eq!(
            cellbase_verdict(&with_cellbase(5, cellbase)),
            Err(Error::Cellbase(CellbaseError::InvalidWitness))
        );
    }
}

#[test]
fn cellbase_witness_verdict_is_used() {
    let view = block(&sound_block(5));
    let verifier = CellbaseVerifier::new();
    assert_eq!(verifier.verify_with_witness(&view, true), Ok(()));
    assert_eq!(
        verifier.verify_with_witness(&view, false),
        Err(Error::Cellbase(CellbaseError::InvalidWitness))
    );
}

#[test]
fn cellbase_type_script() {
    let output = packed::CellOutput::new_builder()
        .type_(Some(packed::Script::default()).pack())
        .build();
    let cellbase = ckb_types::core::TransactionBuilder::default()
        .input(packed::CellInput::new_cellbase_input(5))
        .output(output)
        .output_data(packed::Bytes::default())
        .witness(witness());
    assert_eq!(
        cellbase_verdict(&with_cellbase(5, cellbase)),
        Err(Error::Cellbase(CellbaseError::InvalidTypeScript))
    );
}

#[test]
fn cellbase_since_is_block_number() {
    assert_eq!(
        cellbase_verdict(&with_cellbase(5, cellbase_builder(4))),
        Err(Error::Cellbase(CellbaseError::InvalidInput))
    );
    assert_eq!(cellbase_verdict(&with_cellbase(4, cellbase_builder(4))), Ok(()));
}

#[test]
fn cellbase_inputs_differ_by_height() {
    let low = block(&sound_block(5));
    let high = block(&sound_block(6));
    assert!(low.transactions[0].inputs[0] != high.transactions[0].inputs[0]);
}

#[test]
fn duplicate_transaction() {
    let twice = block_builder(5)
        .transaction(cellbase_builder(5).build())
        .transaction(spending(1))
        .transaction(spending(2))
        .transaction(spending(1))
        .build();
    assert_eq!(
        DuplicateVerifier::new().verify(&block(&twice)),
        Err(Error::Block(BlockErrorKind::CommitTransactionDuplicate))
    );
}

#[test]
fn duplicate_proposal() {
    let twice = block_builder(5).proposal(id(1)).proposal(id(2)).proposal(id(1)).build();
    assert_eq!(
        DuplicateVerifier::new().verify(&block(&twice)),
        Err(Error::Block(BlockErrorKind::ProposalTransactionDuplicate))
    );
}

#[test]
fn duplicate_transaction_is_reported_first() {
    let both = block_builder(5)
        .transaction(spending(1))
        .transaction(spending(1))
        .proposal(id(1))
        .proposal(id(1))
        .build();
    assert_eq!(
        DuplicateVerifier::new().verify(&block(&both)),
        Err(Error::Block(BlockErrorKind::CommitTransactionDuplicate))
    );
}

#[test]
fn duplicates_ignore_order() {
    let mut view = block(&sound_block(5));
    assert_eq!(DuplicateVerifier::new().verify(&view), Ok(()));
    view.transactions.reverse();
    view.proposals.reverse();
    assert_eq!(DuplicateVerifier::new().verify(&view), Ok(()));
}

#[test]
fn ids_with_one_prefix_differ() {
    let mut first = [3u8; 10];
    let mut second = [3u8; 10];
    first[9] = 1;
    second[9] = 2;
    let view = block_builder(5)
        .proposal(packed::ProposalShortId::new(first))
        .proposal(packed::ProposalShortId::new(second))
        .build();
    assert_eq!(DuplicateVerifier::new().verify(&block(&view)), Ok(()));
    let twice = view
        .as_advanced_builder()
        .proposal(packed::ProposalShortId::new(first))
        .build();
    assert_eq!(
        DuplicateVerifier::new().verify(&block(&twice)),
        Err(Error::Block(BlockErrorKind::ProposalTransactionDuplicate))
    );
}

#[test]
fn many_transactions_differ() {
    let mut builder = block_builder(5);
    for n in 0..=255u8 {
        builder = builder.transaction(spending(n)).proposal(id(n));
    }
    assert_eq!(DuplicateVerifier::new().verify(&block(&builder.build())), Ok(()));
}

#[test]
fn roots_agree_with_encoding() {
    for view in vec![
        block_builder(0).build(),
        block_builder(1).transaction(spending(1)).build(),
        sound_block(5),
    ] {
        let plain = block(&view);
        assert!(plain.calc_transactions_root() == byte32(&view.calc_transactions_root()));
        assert!(plain.calc_proposals_hash() == byte32(&view.calc_proposals_hash()));
        assert_eq!(MerkleRootVerifier::new().verify(&plain), Ok(()));
    }
}

#[test]
fn proposals_hash_value() {
    let view = block_builder(5).proposal(id(1)).proposal(id(2)).build();
    assert_eq!(
        block(&view).calc_proposals_hash().bytes,
        [
            0xd1, 0x67, 0x0e, 0x45, 0xaf, 0x1d, 0xeb, 0x9c, 0xc0, 0x09, 0x51, 0xd7, 0x1c, 0x09,
            0xce, 0x80, 0x93, 0x2e, 0x7d, 0xdf, 0x9f, 0xb1, 0x51, 0xd7, 0x44, 0x43, 0x6b, 0xd0,
            0x4a, 0xc4, 0xa5, 0x62
        ]
    );
}

#[test]
fn no_proposals_hash_to_zero() {
    let view = block(&block_builder(5).build());
    assert!(view.calc_proposals_hash().is_zero());
}

#[test]
fn root_of_one_transaction_joins_its_hashes() {
    let tx = spending(1);
    let view = block_builder(5).transaction(tx.clone()).build();
    let joined = ckb_types::utilities::merkle_root(&[tx.hash(), tx.witness_hash()]);
    assert!(block(&view).calc_transactions_root() == byte32(&joined));
}

#[test]
fn root_of_no_transactions_joins_zero_hashes() {
    let joined = ckb_types::utilities::merkle_root(&[packed::Byte32::zero(), packed::Byte32::zero()]);
    assert!(block(&block_builder(5).build()).calc_transactions_root() == byte32(&joined));
}

#[test]
fn wrong_transactions_root() {
    let view = sound_block(5)
        .as_advanced_builder()
        .transactions_root(packed::Byte32::zero())
        .build_unchecked();
    assert_eq!(
        MerkleRootVerifier::default().verify(&block(&view)),
        Err(Error::Block(BlockErrorKind::TransactionsRoot))
    );
}

#[test]
fn wrong_proposals_hash() {
    let view = sound_block(5)
        .as_advanced_builder()
        .proposals_hash(packed::Byte32::zero())
        .build_unchecked();
    assert_eq!(
        MerkleRootVerifier::new().verify(&block(&view)),
        Err(Error::Block(BlockErrorKind::ProposalTransactionsHash))
    );
}

#[test]
fn given_roots_are_compared() {
    let view = block(&sound_block(5));
    let verifier = MerkleRootVerifier::new();
    let root = view.header.transactions_root;
    let hash = view.header.proposals_hash;
    assert_eq!(verifier.verify_with_roots(&view, &root, &hash), Ok(()));
    assert_eq!(
        verifier.verify_with_roots(&view, &hash, &hash),
        Err(Error::Block(BlockErrorKind::TransactionsRoot))
    );
    assert_eq!(
        verifier.verify_with_roots(&view, &root, &root),
        Err(Error::Block(BlockErrorKind::ProposalTransactionsHash))
    );
}

#[test]
fn proposals_limit() {
    let view = block(&block_builder(5).proposal(id(1)).proposal(id(2)).build());
    assert_eq!(BlockProposalsLimitVerifier::new(2).verify(&view), Ok(()));
    assert_eq!(BlockProposalsLimitVerifier::new(3).verify(&view), Ok(()));
    assert_eq!(
        BlockProposalsLimitVerifier::new(1).verify(&view),
        Err(Error::Block(BlockErrorKind::ExceededMaximumProposalsLimit))
    );
}

fn bytes_limit_is_exact(view: &ckb_types::core::BlockView, size: u64) {
    assert_eq!(view.data().serialized_size_without_uncle_proposals() as u64, size);
    let plain = block(view);
    assert!(plain.is_encodable());
    assert_eq!(BlockBytesVerifier::new(size).verify(&plain), Ok(()));
    assert_eq!(
        BlockBytesVerifier::new(size - 1).verify(&plain),
        Err(Error::Block(BlockErrorKind::ExceededMaximumBlockBytes))
    );
}

#[test]
fn block_bytes_values() {
    bytes_limit_is_exact(&block_builder(5).build(), 240);
    bytes_limit_is_exact(&block_builder(5).proposal(id(1)).proposal(id(2)).build(), 260);
    let tx = spending(1);
    let size = tx.data().as_slice().len() as u64;
    bytes_limit_is_exact(&block_builder(5).transaction(tx).build(), 244 + size);
}

#[test]
fn block_bytes_leave_uncle_proposals_out() {
    let bare = block_builder(4).build().as_uncle();
    let proposing = block_builder(4).proposal(id(1)).proposal(id(2)).build().as_uncle();
    bytes_limit_is_exact(&block_builder(5).uncle(bare.clone()).build(), 468);
    bytes_limit_is_exact(&block_builder(5).uncle(proposing.clone()).build(), 468);
    bytes_limit_is_exact(&block_builder(5).uncle(bare).uncle(proposing).build(), 696);
}

#[test]
fn block_bytes_genesis_exempt() {
    let genesis = block(&block_builder(0).transaction(spending(1)).build());
    assert_eq!(BlockBytesVerifier::new(0).verify(&genesis), Ok(()));
}

#[test]
fn block_passes_all_verifiers() {
    let view = sound_block(5);
    let size = view.data().serialized_size_without_uncle_proposals() as u64;
    let plain = block(&view);
    assert_eq!(BlockVerifier::new(&consensus(2, size)).verify(&plain), Ok(()));
    assert_eq!(BlockVerifier::new(&consensus(20, size + 1)).verify(&plain), Ok(()));
}

#[test]
fn block_reports_first_fault() {
    let view = block_builder(5)
        .transaction(spending(1))
        .transaction(spending(1))
        .proposal(id(1))
        .proposal(id(1))
        .transactions_root(packed::Byte32::zero())
        .build_unchecked();
    let mut plain = block(&view);
    assert_eq!(
        BlockVerifier::new(&consensus(1, 0)).verify(&plain),
        Err(Error::Block(BlockErrorKind::ExceededMaximumProposalsLimit))
    );
    assert_eq!(
        BlockVerifier::new(&consensus(2, 0)).verify(&plain),
        Err(Error::Block(BlockErrorKind::ExceededMaximumBlockBytes))
    );
    let generous = consensus(2, 10_000);
    assert_eq!(
        BlockVerifier::new(&generous).verify(&plain),
        Err(Error::Cellbase(CellbaseError::InvalidQuantity))
    );
    plain.transactions.insert(0, transaction(&cellbase_builder(5).build()));
    assert_eq!(
        BlockVerifier::new(&generous).verify(&plain),
        Err(Error::Block(BlockErrorKind::CommitTransactionDuplicate))
    );
    plain.transactions.pop();
    assert_eq!(
        BlockVerifier::new(&generous).verify(&plain),
        Err(Error::Block(BlockErrorKind::ProposalTransactionDuplicate))
    );
    plain.proposals.pop();
    assert_eq!(
        BlockVerifier::new(&generous).verify(&plain),
        Err(Error::Block(BlockErrorKind::TransactionsRoot))
    );
    plain.header.transactions_root = plain.calc_transactions_root();
    assert_eq!(
        BlockVerifier::new(&generous).verify(&plain),
        Err(Error::Block(BlockErrorKind::ProposalTransactionsHash))
    );
    plain.header.proposals_hash = plain.calc_proposals_hash();
    assert_eq!(BlockVerifier::new(&generous).verify(&plain), Ok(()));
}

#[test]
fn block_verdict_ignores_rest_of_chain() {
    let plain = block(&sound_block(5));
    let mut other = consensus(2, 10_000);
    other.genesis_block = block(&sound_block(7));
    assert_eq!(
        BlockVerifier::new(&other).verify(&plain),
        BlockVerifier::new(&consensus(2, 10_000)).verify(&plain)
    );
}

#[test]
fn genesis_block_needs_no_cellbase_and_no_limit() {
    let genesis = block(&block_builder(0).transaction(spending(1)).build());
    assert_eq!(BlockVerifier::new(&consensus(0, 0)).verify(&genesis), Ok(()));
}

#[test]
fn errors_convert() {
    assert_eq!(
        Error::from(CellbaseError::InvalidInput),
        Error::Cellbase(CellbaseError::InvalidInput)
    );
    assert_eq!(
        Error::from(BlockErrorKind::TransactionsRoot),
        Error::Block(BlockErrorKind::TransactionsRoot)
    );
}

#[test]
fn transactions_all_checked() {
    let parameters = consensus(2, 77);
    let plain = block(&sound_block(5));
    let verifier = NonContextualBlockTxsVerifier::new(&parameters);
    let passed: Result<Vec<()>, u64> = verifier.verify(&plain, |_, _| Ok(()));
    assert_eq!(passed, Ok(vec![(), (), ()]));
}

#[test]
fn transactions_first_error_reported() {
    let parameters = consensus(2, 77);
    let plain = block(&sound_block(5));
    let verifier = NonContextualBlockTxsVerifier::new(&parameters);
    let result = verifier.verify(&plain, |tx: &TransactionView, c: &Consensus| {
        if tx.is_cellbase() {
            Ok(())
        } else {
            Err((tx.hash.bytes, c.max_block_bytes))
        }
    });
    assert_eq!(result, Err((plain.transactions[1].hash.bytes, 77)));
}
