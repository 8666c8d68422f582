//! The start of a node: what is done in which order, when it stops short, and whether the miner
//! runs.

use vstd::prelude::*;

use crate::block_verifier::{BlockVerifier, block_fault};
use crate::encoding::{script_hash, script_hash_of};
use crate::error::Error;
use crate::types::{Byte32, CellOutput, Consensus, TransactionView, bytes_equal};

verus! {

/// The length of the only argument of the recommended lock.
pub const SECP256K1_BLAKE160_SIGHASH_ALL_ARG_LEN: usize = 20;

/// How a script names its code: by the hash of the code, or by the hash of the type script of the
/// cell that holds it.
#[derive(Clone, Copy, Debug, PartialEq, Eq, Structural)]
pub enum ScriptHashType {
    Data,
    Type,
}

/// The lock that the miner is to put on its rewards.
#[derive(Clone, Debug)]
pub struct BlockAssemblerConfig {
    pub code_hash: Byte32,
    pub hash_type: ScriptHashType,
    pub args: Vec<Vec<u8>>,
}

/// What a node is started with.
#[derive(Clone, Debug)]
pub struct RunArgs {
    pub consensus: Consensus,
    /// Whether the miner interface is enabled.
    pub miner_enable: bool,
    pub block_assembler: Option<BlockAssemblerConfig>,
    /// Whether to accept any lock.
    pub block_assembler_advanced: bool,
}

/// The code with which the process ends.
#[derive(Clone, Copy, Debug, PartialEq, Eq, Structural)]
pub enum ExitCode {
    Config,
    Failure,
}

/// Why the start of a node stops short.
#[derive(Clone, Copy, Debug, PartialEq, Eq, Structural)]
pub enum RunFault {
    /// The store cannot be opened.
    Store,
    /// The genesis block is invalid.
    Genesis(Error),
    /// The cell that holds the recommended lock cannot be loaded.
    LockCell,
}

/// The exit code for a fault.
pub open spec fn exit_code_of(fault: RunFault) -> ExitCode {
    if fault is Genesis {
        ExitCode::Config
    } else {
        ExitCode::Failure
    }
}

impl RunFault {
    /// The exit code for the fault: an invalid genesis block is a fault of the configuration.
    pub fn exit_code(&self) -> (r: ExitCode)
        ensures
            r == exit_code_of(*self),
            r == ExitCode::Config <==> self is Genesis,
    {
        match self {
            RunFault::Genesis(_) => ExitCode::Config,
            RunFault::Store => ExitCode::Failure,
            RunFault::LockCell => ExitCode::Failure,
        }
    }
}

/// What is wrong with the genesis block.
pub open spec fn genesis_fault(consensus: Consensus) -> Option<Error> {
    block_fault(consensus.genesis_block, consensus)
}

/// The genesis block is one that can be verified.
pub open spec fn genesis_encodable(consensus: Consensus) -> bool {
    consensus.genesis_block.genesis() || consensus.genesis_block.encodable()
}

/// Verifies the genesis block of the chain.
pub fn verify_genesis(consensus: &Consensus) -> (r: Result<(), RunFault>)
    requires
        genesis_encodable(*consensus),
    ensures
        r == (match genesis_fault(*consensus) {
            Some(error) => Err(RunFault::Genesis(error)),
            None => Ok(()),
        }),
        r == (match block_fault(consensus.genesis_block, *consensus) {
            Some(error) => Err(RunFault::Genesis(error)),
            None => Ok(()),
        }),
{
    match BlockVerifier::new(consensus).verify(&consensus.genesis_block) {
        Ok(()) => Ok(()),
        Err(error) => Err(RunFault::Genesis(error)),
    }
}

/// The hash of the type script of each output that has one.
pub open spec fn type_hashes(outputs: Seq<CellOutput>) -> Seq<Option<Seq<u8>>> {
    Seq::new(
        outputs.len(),
        |i: int|
            match outputs[i].type_ {
                Some(script) => Some(
                    script_hash_of(script.code_hash@, script.hash_type, script.args@),
                ),
                None => None,
            },
    )
}

/// The same, of hashes at hand.
pub open spec fn known_hashes(hashes: Seq<Option<Byte32>>) -> Seq<Option<Seq<u8>>> {
    Seq::new(
        hashes.len(),
        |i: int|
            match hashes[i] {
                Some(hash) => Some(hash@),
                None => None,
            },
    )
}

/// Some output holds exactly the code of the recommended lock and has a type script with the given
/// hash.
pub open spec fn holds_lock_code(
    hashes: Seq<Option<Seq<u8>>>,
    outputs_data: Seq<Vec<u8>>,
    lock_code: Seq<u8>,
    code_hash: Seq<u8>,
) -> bool {
    exists|i: int|
        {
            &&& 0 <= i < hashes.len()
            &&& i < outputs_data.len()
            &&& (#[trigger] outputs_data[i])@ == lock_code
            &&& hashes[i] == Some(code_hash)
        }
}

/// Whether some output holds exactly the given code and has a type script with the given hash,
/// where the hashes of the type scripts are known.
pub fn any_output_holds(
    hashes: &Vec<Option<Byte32>>,
    outputs_data: &Vec<Vec<u8>>,
    lock_code: &[u8],
    code_hash: &Byte32,
) -> (r: bool)
    ensures
        r == holds_lock_code(known_hashes(hashes@), outputs_data@, lock_code@, code_hash@),
        r <==> exists|i: int|
            {
                &&& 0 <= i < hashes@.len()
                &&& i < outputs_data@.len()
                &&& (#[trigger] outputs_data@[i])@ == lock_code@
                &&& hashes@[i] matches Some(hash)
                &&& hash.bytes@ == code_hash.bytes@
            },
{
    let mut i: usize = 0;
    while i < hashes.len() && i < outputs_data.len()
        invariant
            i <= hashes@.len(),
            i <= outputs_data@.len(),
            forall|j: int|
                0 <= j < i ==> !((#[trigger] outputs_data@[j])@ == lock_code@ && known_hashes(
                    hashes@,
                )[j] == Some(code_hash@)),
        decreases hashes@.len() - i,
    {
        if bytes_equal(outputs_data[i].as_slice(), lock_code) {
            if let Some(hash) = &hashes[i] {
                if *hash == *code_hash {
                    assert(outputs_data@[i as int]@ == lock_code@);
                    assert(known_hashes(hashes@)[i as int] == Some(code_hash@));
                    return true;
                }
            }
        }
        i = i + 1;
    }
    false
}

/// Whether some output of the genesis cellbase holds exactly the given code and has a type script
/// with the given hash.
pub fn check_lock_code_hash(
    genesis_cellbase: &TransactionView,
    lock_code: &[u8],
    code_hash: &Byte32,
) -> (r: bool)
    ensures
        r == holds_lock_code(
            type_hashes(genesis_cellbase.outputs@),
            genesis_cellbase.outputs_data@,
            lock_code@,
            code_hash@,
        ),
        r <==> exists|i: int|
            {
                &&& 0 <= i < genesis_cellbase.outputs@.len()
                &&& i < genesis_cellbase.outputs_data@.len()
                &&& (#[trigger] genesis_cellbase.outputs_data@[i])@ == lock_code@
                &&& genesis_cellbase.outputs@[i].type_ matches Some(script)
                &&& script_hash_of(script.code_hash.bytes@, script.hash_type, script.args@)
                    == code_hash.bytes@
            },
{
    let mut hashes: Vec<Option<Byte32>> = Vec::new();
    let mut i: usize = 0;
    while i < genesis_cellbase.outputs.len()
        invariant
            i <= genesis_cellbase.outputs@.len(),
            hashes@.len() == i,
            forall|j: int|
                0 <= j < i ==> #[trigger] known_hashes(hashes@)[j] == type_hashes(
                    genesis_cellbase.outputs@,
                )[j],
        decreases genesis_cellbase.outputs@.len() - i,
    {
        let ghost before = hashes@;
        let hash = match &genesis_cellbase.outputs[i].type_ {
            Some(script) => Some(script_hash(script)),
            None => None,
        };
        hashes.push(hash);
        proof {
            assert forall|j: int| 0 <= j < i + 1 implies #[trigger] known_hashes(hashes@)[j]
                == type_hashes(genesis_cellbase.outputs@)[j] by {
                if j < i {
                    assert(known_hashes(before)[j] == type_hashes(genesis_cellbase.outputs@)[j]);
                }
            }
        }
        i = i + 1;
    }
    assert(known_hashes(hashes@) =~= type_hashes(genesis_cellbase.outputs@));
    any_output_holds(&hashes, &genesis_cellbase.outputs_data, lock_code, code_hash)
}

/// Whether the miner runs, as far as the arguments tell.
#[derive(Clone, Copy, Debug, PartialEq, Eq, Structural)]
pub enum MinerPlan {
    /// It does.
    Start,
    /// It does if the genesis block holds the lock.
    CheckLock,
    /// It does not: the lock is not of the recommended format.
    LockNotRecommended,
    /// It does not: it is not enabled or has no lock.
    Disabled,
}

/// The lock names its code by a type script and has one argument of the right length.
pub open spec fn recommended_format(config: BlockAssemblerConfig) -> bool {
    &&& config.hash_type == ScriptHashType::Type
    &&& config.args@.len() == 1
    &&& config.args@[0]@.len() == SECP256K1_BLAKE160_SIGHASH_ALL_ARG_LEN
}

/// Whether the miner runs, as far as the arguments tell.
pub open spec fn miner_plan(args: RunArgs) -> MinerPlan {
    match args.block_assembler {
        Some(config) if args.miner_enable => if args.block_assembler_advanced {
            MinerPlan::Start
        } else if recommended_format(config) {
            MinerPlan::CheckLock
        } else {
            MinerPlan::LockNotRecommended
        },
        _ => MinerPlan::Disabled,
    }
}

/// Decides whether the miner runs, as far as the arguments tell.
pub fn plan_miner(args: &RunArgs) -> (r: MinerPlan)
    ensures
        r == miner_plan(*args),
        r == MinerPlan::Disabled <==> !args.miner_enable || args.block_assembler is None,
        r == MinerPlan::Start <==> args.miner_enable && args.block_assembler is Some
            && args.block_assembler_advanced,
        r == MinerPlan::CheckLock <==> {
            &&& args.miner_enable
            &&& !args.block_assembler_advanced
            &&& args.block_assembler matches Some(config)
            &&& config.hash_type == ScriptHashType::Type
            &&& config.args@.len() == 1
            &&& config.args@[0]@.len() == 20
        },
{
    if !args.miner_enable {
        return MinerPlan::Disabled;
    }
    match &args.block_assembler {
        Some(config) => {
            if args.block_assembler_advanced {
                MinerPlan::Start
            } else if config.hash_type == ScriptHashType::Type && config.args.len() == 1
                && config.args[0].len() == SECP256K1_BLAKE160_SIGHASH_ALL_ARG_LEN {
                MinerPlan::CheckLock
            } else {
                MinerPlan::LockNotRecommended
            }
        },
        None => MinerPlan::Disabled,
    }
}

/// Whether the miner runs.
#[derive(Clone, Copy, Debug, PartialEq, Eq, Structural)]
pub enum MinerDecision {
    Start,
    LockNotRecommended,
    Disabled,
}

/// How far the start has come.
#[derive(Clone, Copy, Debug, PartialEq, Eq, Structural)]
pub enum RunPhase {
    OpeningStore,
    StartingChain,
    LoadingLockCell,
    StartingServices,
    Running,
    Closing,
    Finished,
}

/// What has happened.
#[derive(Debug)]
pub enum RunEvent {
    StoreOpened,
    StoreFailed,
    ChainStarted,
    LockCellLoaded(Vec<u8>),
    LockCellFailed,
    ServicesStarted,
    ExitRequested,
    RpcClosed,
}

/// What is to be done next.
#[derive(Clone, Copy, Debug, PartialEq, Eq)]
pub enum RunAction {
    /// Open the store.
    OpenStore,
    /// Start the notifier and the chain.
    StartChain,
    /// Load the cell that holds the recommended lock.
    LoadLockCell,
    /// Start the miner or not, then the network and the RPC server.
    StartServices(MinerDecision),
    /// Wait until the process is asked to end.
    WaitForExit,
    /// Close the RPC server.
    CloseRpc,
    /// End the process.
    Exit(Result<(), RunFault>),
}

/// The event is one that may happen in the phase. The cell that holds the lock is loaded only where
/// the plan calls for it.
pub open spec fn expected(args: RunArgs, phase: RunPhase, event: RunEvent) -> bool {
    match event {
        RunEvent::StoreOpened | RunEvent::StoreFailed => phase == RunPhase::OpeningStore,
        RunEvent::ChainStarted => phase == RunPhase::StartingChain,
        RunEvent::LockCellLoaded(_) | RunEvent::LockCellFailed => phase
            == RunPhase::LoadingLockCell && miner_plan(args) == MinerPlan::CheckLock,
        RunEvent::ServicesStarted => phase == RunPhase::StartingServices,
        RunEvent::ExitRequested => phase == RunPhase::Running,
        RunEvent::RpcClosed => phase == RunPhase::Closing,
    }
}

/// The decision once the cell that holds the lock is loaded.
pub open spec fn lock_decision(args: RunArgs, lock_code: Seq<u8>) -> MinerDecision {
    let cellbase = args.consensus.genesis_block.transactions@[0];
    if holds_lock_code(
        type_hashes(cellbase.outputs@),
        cellbase.outputs_data@,
        lock_code,
        args.block_assembler->0.code_hash@,
    ) {
        MinerDecision::Start
    } else {
        MinerDecision::LockNotRecommended
    }
}

/// The phase that follows an expected event, and what is to be done in it.
pub open spec fn transition(args: RunArgs, event: RunEvent) -> (RunPhase, RunAction) {
    match event {
        RunEvent::StoreOpened => match genesis_fault(args.consensus) {
            None => (RunPhase::StartingChain, RunAction::StartChain),
            Some(error) => (RunPhase::Finished, RunAction::Exit(Err(RunFault::Genesis(error)))),
        },
        RunEvent::StoreFailed => (RunPhase::Finished, RunAction::Exit(Err(RunFault::Store))),
        RunEvent::ChainStarted => match miner_plan(args) {
            MinerPlan::CheckLock => (RunPhase::LoadingLockCell, RunAction::LoadLockCell),
            MinerPlan::Start => (
                RunPhase::StartingServices,
                RunAction::StartServices(MinerDecision::Start),
            ),
            MinerPlan::LockNotRecommended => (
                RunPhase::StartingServices,
                RunAction::StartServices(MinerDecision::LockNotRecommended),
            ),
            MinerPlan::Disabled => (
                RunPhase::StartingServices,
                RunAction::StartServices(MinerDecision::Disabled),
            ),
        },
        RunEvent::LockCellLoaded(lock_code) => (
            RunPhase::StartingServices,
            RunAction::StartServices(lock_decision(args, lock_code@)),
        ),
        RunEvent::LockCellFailed => (RunPhase::Finished, RunAction::Exit(Err(RunFault::LockCell))),
        RunEvent::ServicesStarted => (RunPhase::Running, RunAction::WaitForExit),
        RunEvent::ExitRequested => (RunPhase::Closing, RunAction::CloseRpc),
        RunEvent::RpcClosed => (RunPhase::Finished, RunAction::Exit(Ok(()))),
    }
}

/// The first phase, and what is to be done in it.
pub fn start() -> (r: (RunPhase, RunAction))
    ensures
        r == (RunPhase::OpeningStore, RunAction::OpenStore),
{
    (RunPhase::OpeningStore, RunAction::OpenStore)
}

/// Decides what follows an event: the phase after it, and what is to be done in it. There is none
/// where the event is not one that may happen in the phase.
///
/// The lock is looked for in the first transaction of the genesis block, which must be there.
pub fn step(args: &RunArgs, phase: RunPhase, event: &RunEvent) -> (r: Option<(RunPhase, RunAction)>)
    requires
        event is StoreOpened ==> genesis_encodable(args.consensus),
        event is LockCellLoaded ==> args.consensus.genesis_block.transactions@.len() > 0,
    ensures
        r == (if expected(*args, phase, *event) {
            Some(transition(*args, *event))
        } else {
            None
        }),
{
    match (phase, event) {
        (RunPhase::OpeningStore, RunEvent::StoreOpened) => match verify_genesis(&args.consensus) {
            Ok(()) => Some((RunPhase::StartingChain, RunAction::StartChain)),
            Err(fault) => Some((RunPhase::Finished, RunAction::Exit(Err(fault)))),
        },
        (RunPhase::OpeningStore, RunEvent::StoreFailed) => Some(
            (RunPhase::Finished, RunAction::Exit(Err(RunFault::Store))),
        ),
        (RunPhase::StartingChain, RunEvent::ChainStarted) => match plan_miner(args) {
            MinerPlan::CheckLock => Some((RunPhase::LoadingLockCell, RunAction::LoadLockCell)),
            MinerPlan::Start => Some(
                (RunPhase::StartingServices, RunAction::StartServices(MinerDecision::Start)),
            ),
            MinerPlan::LockNotRecommended => Some(
                (
                    RunPhase::StartingServices,
                    RunAction::StartServices(MinerDecision::LockNotRecommended),
                ),
            ),
            MinerPlan::Disabled => Some(
                (RunPhase::StartingServices, RunAction::StartServices(MinerDecision::Disabled)),
            ),
        },
        (RunPhase::LoadingLockCell, RunEvent::LockCellLoaded(lock_code)) => {
            match (plan_miner(args), &args.block_assembler) {
                (MinerPlan::CheckLock, Some(config)) => {
                    let decision = if check_lock_code_hash(
                        &args.consensus.genesis_block.transactions[0],
                        lock_code.as_slice(),
                        &config.code_hash,
                    ) {
                        MinerDecision::Start
                    } else {
                        MinerDecision::LockNotRecommended
                    };
                    Some((RunPhase::StartingServices, RunAction::StartServices(decision)))
                },
                _ => None,
            }
        },
        (RunPhase::LoadingLockCell, RunEvent::LockCellFailed) => match plan_miner(args) {
            MinerPlan::CheckLock => Some(
                (RunPhase::Finished, RunAction::Exit(Err(RunFault::LockCell))),
            ),
            _ => None,
        },
        (RunPhase::StartingServices, RunEvent::ServicesStarted) => Some(
            (RunPhase::Running, RunAction::WaitForExit),
        ),
        (RunPhase::Running, RunEvent::ExitRequested) => Some(
            (RunPhase::Closing, RunAction::CloseRpc),
        ),
        (RunPhase::Closing, RunEvent::RpcClosed) => Some(
            (RunPhase::Finished, RunAction::Exit(Ok(()))),
        ),
        _ => None,
    }
}

} // verus!
