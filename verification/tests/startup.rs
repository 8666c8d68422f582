use ckb_block_verifier::error::{BlockErrorKind, Error};
use ckb_block_verifier::startup::{
    any_output_holds, check_lock_code_hash, plan_miner, start, step, verify_genesis,
    BlockAssemblerConfig, ExitCode, MinerDecision, MinerPlan, RunAction, RunArgs, RunEvent,
    RunFault, RunPhase, ScriptHashType,
};
use ckb_block_verifier::types::{
    BlockView, Byte32, CellOutput, Consensus, HeaderView, Script, TransactionView,
};

/// The hash of the script all of whose fields are empty.
const EMPTY_SCRIPT_HASH: [u8; 32] = [
    0x77, 0xc9, 0x3b, 0x06, 0x32, 0xb5, 0xb6, 0xc3, 0xef, 0x92, 0x2c, 0x5b, 0x7c, 0xea, 0x20, 0x8f,
    0xb0, 0xa7, 0xc4, 0x27, 0xa1, 0x3d, 0x50, 0xe1, 0x3d, 0x3f, 0xef, 0xad, 0x17, 0xe0, 0xc5, 0x90,
];

/// The hash of the script whose only argument byte is one.
const ONE_ARG_SCRIPT_HASH: [u8; 32] = [
    0x67, 0x95, 0x1b, 0x34, 0xbc, 0xe2, 0x0c, 0xb7, 0x1b, 0x7e, 0x23, 0x5c, 0x1f, 0x8c, 0xda, 0x25,
    0x96, 0x28, 0xd9, 0x9d, 0x94, 0x82, 0x5b, 0xff, 0xe5, 0x49, 0xc2, 0x3b, 0x4d, 0xd2, 0x93, 0x0f,
];

fn script(args: Vec<u8>) -> Script {
    Script { code_hash: Byte32::zero(), hash_type: 0, args }
}

fn output(type_: Option<Script>) -> CellOutput {
    CellOutput { capacity: 0, lock: script(vec![]), type_ }
}

fn cellbase() -> TransactionView {
    TransactionView {
        data: vec![],
        hash: Byte32 { bytes: [5; 32] },
        witness_hash: Byte32 { bytes: [6; 32] },
        inputs: vec![],
        outputs: vec![output(None), output(Some(script(vec![]))), output(Some(script(vec![1])))],
        outputs_data: vec![vec![1, 2, 3], vec![1, 2, 3], vec![4]],
        witnesses: vec![],
    }
}

fn genesis() -> BlockView {
    let mut block = BlockView {
        header: HeaderView {
            hash: Byte32::zero(),
            number: 0,
            version: 0,
            compact_target: 0,
            epoch: 0,
            timestamp: 0,
            parent_hash: Byte32::zero(),
            transactions_root: Byte32::zero(),
            proposals_hash: Byte32::zero(),
            uncles_hash: Byte32::zero(),
            dao: Byte32::zero(),
            nonce: 0,
        },
        uncles: vec![],
        transactions: vec![cellbase()],
        proposals: vec![],
    };
    block.header.transactions_root = block.calc_transactions_root();
    block
}

fn recommended(code_hash: [u8; 32]) -> BlockAssemblerConfig {
    BlockAssemblerConfig {
        code_hash: Byte32 { bytes: code_hash },
        hash_type: ScriptHashType::Type,
        args: vec![vec![0; 20]],
    }
}

fn args(miner_enable: bool, block_assembler: Option<BlockAssemblerConfig>) -> RunArgs {
    RunArgs {
        consensus: Consensus {
            max_block_proposals_limit: 10,
            max_block_bytes: 1000,
            genesis_block: genesis(),
        },
        miner_enable,
        block_assembler,
        block_assembler_advanced: false,
    }
}

#[test]
fn genesis_verified() {
    assert_eq!(verify_genesis(&args(false, None).consensus), Ok(()));
}

#[test]
fn genesis_rejected() {
    let mut bad = args(false, None);
    bad.consensus.genesis_block.header.transactions_root = Byte32::zero();
    let fault = RunFault::Genesis(Error::Block(BlockErrorKind::TransactionsRoot));
    assert_eq!(verify_genesis(&bad.consensus), Err(fault));
    assert_eq!(fault.exit_code(), ExitCode::Config);
    assert_eq!(
        step(&bad, RunPhase::OpeningStore, &RunEvent::StoreOpened),
        Some((RunPhase::Finished, RunAction::Exit(Err(fault))))
    );
}

#[test]
fn exit_codes() {
    assert_eq!(RunFault::Store.exit_code(), ExitCode::Failure);
    assert_eq!(RunFault::LockCell.exit_code(), ExitCode::Failure);
}

#[test]
fn lock_code_hash_found() {
    let tx = cellbase();
    let empty = Byte32 { bytes: EMPTY_SCRIPT_HASH };
    let one_arg = Byte32 { bytes: ONE_ARG_SCRIPT_HASH };
    assert!(check_lock_code_hash(&tx, &[1, 2, 3], &empty));
    assert!(check_lock_code_hash(&tx, &[4], &one_arg));
    assert!(!check_lock_code_hash(&tx, &[4], &empty));
    assert!(!check_lock_code_hash(&tx, &[1, 2], &empty));
    assert!(!check_lock_code_hash(&tx, &[1, 2, 3], &Byte32::zero()));
}

#[test]
fn lock_code_needs_both_output_and_data() {
    let mut tx = cellbase();
    tx.outputs_data.pop();
    assert!(!check_lock_code_hash(&tx, &[4], &Byte32 { bytes: ONE_ARG_SCRIPT_HASH }));
    let mut tx = cellbase();
    tx.outputs.pop();
    assert!(!check_lock_code_hash(&tx, &[4], &Byte32 { bytes: ONE_ARG_SCRIPT_HASH }));
}

#[test]
fn lock_code_among_known_hashes() {
    let hash = Byte32 { bytes: [9; 32] };
    let data = vec![vec![7], vec![7], vec![8]];
    assert!(any_output_holds(&vec![None, Some(hash)], &data, &[7], &hash));
    assert!(!any_output_holds(&vec![Some(hash)], &data, &[8], &hash));
    assert!(!any_output_holds(&vec![None, None, None], &data, &[7], &hash));
}

#[test]
fn miner_plans() {
    assert_eq!(plan_miner(&args(false, None)), MinerPlan::Disabled);
    assert_eq!(plan_miner(&args(true, None)), MinerPlan::Disabled);
    assert_eq!(plan_miner(&args(false, Some(recommended([0; 32])))), MinerPlan::Disabled);
    assert_eq!(plan_miner(&args(true, Some(recommended([0; 32])))), MinerPlan::CheckLock);
    let mut other = recommended([0; 32]);
    other.hash_type = ScriptHashType::Data;
    assert_eq!(plan_miner(&args(true, Some(other))), MinerPlan::LockNotRecommended);
    let mut other = recommended([0; 32]);
    other.args = vec![vec![0; 19]];
    assert_eq!(plan_miner(&args(true, Some(other))), MinerPlan::LockNotRecommended);
    let mut other = recommended([0; 32]);
    other.args = vec![vec![0; 20], vec![]];
    let mut given = args(true, Some(other));
    assert_eq!(plan_miner(&given), MinerPlan::LockNotRecommended);
    given.block_assembler_advanced = true;
    assert_eq!(plan_miner(&given), MinerPlan::Start);
    given.miner_enable = false;
    assert_eq!(plan_miner(&given), MinerPlan::Disabled);
}

#[test]
fn run_through_with_miner() {
    let given = args(true, Some(recommended(EMPTY_SCRIPT_HASH)));
    let (mut phase, mut action) = start();
    let mut actions = vec![action];
    for event in vec![
        RunEvent::StoreOpened,
        RunEvent::ChainStarted,
        RunEvent::LockCellLoaded(vec![1, 2, 3]),
        RunEvent::ServicesStarted,
        RunEvent::ExitRequested,
        RunEvent::RpcClosed,
    ] {
        let next = step(&given, phase, &event).unwrap();
        phase = next.0;
        action = next.1;
        actions.push(action);
    }
    assert_eq!(phase, RunPhase::Finished);
    assert_eq!(
        actions,
        vec![
            RunAction::OpenStore,
            RunAction::StartChain,
            RunAction::LoadLockCell,
            RunAction::StartServices(MinerDecision::Start),
            RunAction::WaitForExit,
            RunAction::CloseRpc,
            RunAction::Exit(Ok(())),
        ]
    );
}

#[test]
fn run_stops_without_store() {
    assert_eq!(
        step(&args(false, None), RunPhase::OpeningStore, &RunEvent::StoreFailed),
        Some((RunPhase::Finished, RunAction::Exit(Err(RunFault::Store))))
    );
}

#[test]
fn run_stops_without_lock_cell() {
    let given = args(true, Some(recommended(EMPTY_SCRIPT_HASH)));
    assert_eq!(
        step(&given, RunPhase::LoadingLockCell, &RunEvent::LockCellFailed),
        Some((RunPhase::Finished, RunAction::Exit(Err(RunFault::LockCell))))
    );
}

#[test]
fn run_without_miner() {
    let started = |decision| Some((RunPhase::StartingServices, RunAction::StartServices(decision)));
    assert_eq!(
        step(&args(false, None), RunPhase::StartingChain, &RunEvent::ChainStarted),
        started(MinerDecision::Disabled)
    );
    let given = args(true, Some(recommended([1; 32])));
    assert_eq!(
        step(&given, RunPhase::LoadingLockCell, &RunEvent::LockCellLoaded(vec![1, 2, 3])),
        started(MinerDecision::LockNotRecommended)
    );
    let mut other = recommended([1; 32]);
    other.hash_type = ScriptHashType::Data;
    assert_eq!(
        step(&args(true, Some(other)), RunPhase::StartingChain, &RunEvent::ChainStarted),
        started(MinerDecision::LockNotRecommended)
    );
}

#[test]
fn run_takes_no_unexpected_event() {
    let given = args(false, None);
    assert_eq!(step(&given, RunPhase::OpeningStore, &RunEvent::RpcClosed), None);
    assert_eq!(step(&given, RunPhase::Finished, &RunEvent::StoreOpened), None);
    assert_eq!(step(&given, RunPhase::LoadingLockCell, &RunEvent::LockCellFailed), None);
}
