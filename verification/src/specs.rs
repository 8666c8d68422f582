//! Scenarios that are played against running nodes: what is asked of the nodes in which order, and
//! what is expected of their answers.

use vstd::prelude::*;

use crate::types::{BlockView, Byte32, ProposalShortId, id_bytes};

verus! {

/// A scenario that always fails, to show that failures are noticed.
pub struct TestFailedOnCI;

impl TestFailedOnCI {
    /// The number of nodes that the scenario runs.
    pub fn num_nodes(&self) -> (r: usize)
        ensures
            r == 4,
    {
        4
    }

    /// Fails, and says why.
    pub fn run(&self) -> (r: Result<(), &'static str>)
        ensures
            r is Err,
            r->Err_0@ == "panic to test failed integration tests on ci"@,
    {
        Err("panic to test failed integration tests on ci")
    }
}

/// A scenario on an improvement for miners that is not a validation rule: transactions that were
/// already proposed within the uncles are not proposed again.
///
/// 1. Submit `tx` into mempool, and `uncle` which proposed `tx` as an candidate uncle
/// 2. Get block template, expect empty proposals cause we already proposed `tx` within `uncle`
pub struct AvoidDuplicatedProposalsWithUncles;

/// How far the scenario has come.
#[derive(Clone, Copy, Debug)]
pub enum ProposalPhase {
    GeneratingCells,
    BuildingTransaction,
    CreatingBlock { tx_hash: Byte32 },
    BuildingUncle,
    SubmittingBlock { uncle_hash: Byte32 },
    SubmittingUncle { uncle_hash: Byte32 },
    SubmittingTransaction { uncle_hash: Byte32 },
    CreatingTemplate { uncle_hash: Byte32 },
    Finished,
}

/// What the node has done.
#[derive(Debug)]
pub enum ProposalEvent {
    CellsGenerated,
    /// The transaction is built and has the given hash.
    TransactionBuilt(Byte32),
    /// The node has created a block.
    BlockCreated(BlockView),
    /// The uncle is built and has the given hash.
    UncleBuilt(Byte32),
    BlockSubmitted,
    UncleSubmitted,
    TransactionSubmitted,
}

/// What is to be done next.
#[derive(Debug)]
pub enum ProposalAction {
    /// Generate so many cells that can be spent.
    GenerateCells(usize),
    /// Build a transaction that spends the cells and creates their like, with no data.
    BuildTransaction,
    /// Ask the node for a new block.
    CreateBlock,
    /// Build a block like the one created, with its number and its parent, but with the given
    /// timestamp and with the given proposal and no other.
    BuildUncle { number: u64, parent_hash: Byte32, timestamp: u64, proposal: ProposalShortId },
    /// Submit the block that was created.
    SubmitBlock,
    /// Submit the uncle.
    SubmitUncle,
    /// Submit the transaction.
    SubmitTransaction,
    /// End the scenario.
    Finish(Result<(), TemplateFault>),
}

/// What is wrong with the block that the node creates at the end.
#[derive(Clone, Debug)]
pub enum TemplateFault {
    /// The uncle is not its only uncle.
    UnexpectedUncles,
    /// It proposes transactions, under these ids.
    UnexpectedProposals { ids: Vec<ProposalShortId> },
}

/// The block has the given uncle and no other.
pub open spec fn has_only_uncle(block: BlockView, uncle_hash: Seq<u8>) -> bool {
    block.uncles@.len() == 1 && block.uncles@[0].hash@ == uncle_hash
}

/// The outcome is the one for a block that should have the given uncle alone and propose nothing.
pub open spec fn is_outcome(
    outcome: Result<(), TemplateFault>,
    block: BlockView,
    uncle_hash: Seq<u8>,
) -> bool {
    match outcome {
        Ok(()) => has_only_uncle(block, uncle_hash) && block.proposals@.len() == 0,
        Err(TemplateFault::UnexpectedUncles) => !has_only_uncle(block, uncle_hash),
        Err(TemplateFault::UnexpectedProposals { ids }) => {
            &&& has_only_uncle(block, uncle_hash)
            &&& block.proposals@.len() > 0
            &&& ids@ == block.proposals@
        },
    }
}

/// The digits of hexadecimal numbers.
pub open spec fn hex_digits() -> Seq<char> {
    seq!['0', '1', '2', '3', '4', '5', '6', '7', '8', '9', 'a', 'b', 'c', 'd', 'e', 'f']
}

/// The bytes in hexadecimal, two digits each.
pub open spec fn hex(bytes: Seq<u8>) -> Seq<char>
    decreases bytes.len(),
{
    if bytes.len() == 0 {
        Seq::empty()
    } else {
        hex(bytes.drop_last()).push(hex_digits()[bytes.last() as int / 16]).push(
            hex_digits()[bytes.last() as int % 16],
        )
    }
}

/// The ids as they are shown, with commas between them.
pub open spec fn shown_ids(ids: Seq<Seq<u8>>) -> Seq<char>
    decreases ids.len(),
{
    if ids.len() == 0 {
        Seq::empty()
    } else if ids.len() == 1 {
        "ProposalShortId(0x"@ + hex(ids[0]) + ")"@
    } else {
        shown_ids(ids.drop_last()) + ", ProposalShortId(0x"@ + hex(ids.last()) + ")"@
    }
}

/// What is said of a block that proposes the given ids and should propose none.
pub open spec fn unexpected_proposals_message(ids: Seq<Seq<u8>>) -> Seq<char> {
    "expect empty proposals, actual: "@ + "["@ + shown_ids(ids) + "]"@
}

/// The digit for a number below sixteen.
fn hex_digit(n: u8) -> (r: &'static str)
    requires
        n < 16,
    ensures
        r@ == seq![hex_digits()[n as int]],
{
    proof {
        reveal_strlit("0");
        reveal_strlit("1");
        reveal_strlit("2");
        reveal_strlit("3");
        reveal_strlit("4");
        reveal_strlit("5");
        reveal_strlit("6");
        reveal_strlit("7");
        reveal_strlit("8");
        reveal_strlit("9");
        reveal_strlit("a");
        reveal_strlit("b");
        reveal_strlit("c");
        reveal_strlit("d");
        reveal_strlit("e");
        reveal_strlit("f");
    }
    match n {
        0 => "0",
        1 => "1",
        2 => "2",
        3 => "3",
        4 => "4",
        5 => "5",
        6 => "6",
        7 => "7",
        8 => "8",
        9 => "9",
        10 => "a",
        11 => "b",
        12 => "c",
        13 => "d",
        14 => "e",
        _ => "f",
    }
}

/// Appends the bytes in hexadecimal.
fn append_hex(text: &mut String, bytes: &[u8])
    ensures
        final(text)@ == old(text)@ + hex(bytes@),
{
    let mut i: usize = 0;
    while i < bytes.len()
        invariant
            i <= bytes@.len(),
            text@ == old(text)@ + hex(bytes@.take(i as int)),
        decreases bytes@.len() - i,
    {
        assert(bytes@.take(i + 1).drop_last() =~= bytes@.take(i as int));
        text.append(hex_digit(bytes[i] / 16));
        text.append(hex_digit(bytes[i] % 16));
        i = i + 1;
        assert(text@ =~= old(text)@ + hex(bytes@.take(i as int)));
    }
    assert(bytes@.take(i as int) =~= bytes@);
}

impl TemplateFault {
    /// What is said of the fault. Of uncles nothing is: they are compared with the expected one,
    /// and the comparison shows both.
    pub fn message(&self) -> (r: Option<String>)
        ensures
            r is Some <==> self is UnexpectedProposals,
            self matches TemplateFault::UnexpectedProposals { ids } ==> r->0@
                == unexpected_proposals_message(id_bytes(ids@)),
            r is Some ==> "expect empty proposals, actual: "@.is_prefix_of(r->0@),
    {
        match self {
            TemplateFault::UnexpectedUncles => None,
            TemplateFault::UnexpectedProposals { ids } => {
                let mut text = String::new();
                text.append("expect empty proposals, actual: ");
                text.append("[");
                let ghost opening = text@;
                let ghost all = id_bytes(ids@);
                let mut i: usize = 0;
                while i < ids.len()
                    invariant
                        i <= ids@.len(),
                        all == id_bytes(ids@),
                        text@ == opening + shown_ids(all.take(i as int)),
                    decreases ids@.len() - i,
                {
                    assert(all.take(i + 1).drop_last() =~= all.take(i as int));
                    if i == 0 {
                        text.append("ProposalShortId(0x");
                    } else {
                        text.append(", ProposalShortId(0x");
                    }
                    append_hex(&mut text, ids[i].bytes.as_slice());
                    text.append(")");
                    i = i + 1;
                    assert(text@ =~= opening + shown_ids(all.take(i as int)));
                }
                assert(all.take(i as int) =~= all);
                text.append("]");
                assert(text@ =~= unexpected_proposals_message(all));
                Some(text)
            },
        }
    }
}

/// The event is one that may happen in the phase.
pub open spec fn expected(phase: ProposalPhase, event: ProposalEvent) -> bool {
    match event {
        ProposalEvent::CellsGenerated => phase is GeneratingCells,
        ProposalEvent::TransactionBuilt(_) => phase is BuildingTransaction,
        ProposalEvent::BlockCreated(_) => phase is CreatingBlock || phase is CreatingTemplate,
        ProposalEvent::UncleBuilt(_) => phase is BuildingUncle,
        ProposalEvent::BlockSubmitted => phase is SubmittingBlock,
        ProposalEvent::UncleSubmitted => phase is SubmittingUncle,
        ProposalEvent::TransactionSubmitted => phase is SubmittingTransaction,
    }
}

/// The phase and the action are those that follow an expected event.
pub open spec fn follows(
    phase: ProposalPhase,
    event: ProposalEvent,
    next: ProposalPhase,
    action: ProposalAction,
) -> bool {
    match (phase, event) {
        (ProposalPhase::GeneratingCells, _) => {
            &&& next == ProposalPhase::BuildingTransaction
            &&& action == ProposalAction::BuildTransaction
        },
        (ProposalPhase::BuildingTransaction, ProposalEvent::TransactionBuilt(tx_hash)) => {
            &&& next == (ProposalPhase::CreatingBlock { tx_hash })
            &&& action == ProposalAction::CreateBlock
        },
        (ProposalPhase::CreatingBlock { tx_hash }, ProposalEvent::BlockCreated(block)) => {
            &&& next == ProposalPhase::BuildingUncle
            &&& action matches ProposalAction::BuildUncle {
                number,
                parent_hash,
                timestamp,
                proposal,
            }
            &&& number == block.header.number
            &&& parent_hash@ == block.header.parent_hash@
            &&& timestamp == block.header.timestamp + 1
            &&& proposal@ == tx_hash@.take(10)
        },
        (ProposalPhase::BuildingUncle, ProposalEvent::UncleBuilt(uncle_hash)) => {
            &&& next == (ProposalPhase::SubmittingBlock { uncle_hash })
            &&& action == ProposalAction::SubmitBlock
        },
        (ProposalPhase::SubmittingBlock { uncle_hash }, _) => {
            &&& next == (ProposalPhase::SubmittingUncle { uncle_hash })
            &&& action == ProposalAction::SubmitUncle
        },
        (ProposalPhase::SubmittingUncle { uncle_hash }, _) => {
            &&& next == (ProposalPhase::SubmittingTransaction { uncle_hash })
            &&& action == ProposalAction::SubmitTransaction
        },
        (ProposalPhase::SubmittingTransaction { uncle_hash }, _) => {
            &&& next == (ProposalPhase::CreatingTemplate { uncle_hash })
            &&& action == ProposalAction::CreateBlock
        },
        (ProposalPhase::CreatingTemplate { uncle_hash }, ProposalEvent::BlockCreated(block)) => {
            &&& next == ProposalPhase::Finished
            &&& action matches ProposalAction::Finish(outcome)
            &&& is_outcome(outcome, block, uncle_hash@)
        },
        _ => false,
    }
}

impl AvoidDuplicatedProposalsWithUncles {
    /// The first phase, and what is to be done in it.
    pub fn start(&self) -> (r: (ProposalPhase, ProposalAction))
        ensures
            r == (ProposalPhase::GeneratingCells, ProposalAction::GenerateCells(1)),
    {
        (ProposalPhase::GeneratingCells, ProposalAction::GenerateCells(1))
    }

    /// Decides what follows an event. There is nothing where the event is not one that may happen
    /// in the phase.
    ///
    /// The uncle is one tick later than the block that it is made from, so that block cannot be at
    /// the end of time.
    pub fn step(&self, phase: &ProposalPhase, event: &ProposalEvent) -> (r: Option<
        (ProposalPhase, ProposalAction),
    >)
        requires
            phase is CreatingBlock ==> (event matches ProposalEvent::BlockCreated(block)
                ==> block.header.timestamp < u64::MAX),
        ensures
            r is Some <==> expected(*phase, *event),
            r matches Some((next, action)) ==> follows(*phase, *event, next, action),
    {
        match (phase, event) {
            (ProposalPhase::GeneratingCells, ProposalEvent::CellsGenerated) => Some(
                (ProposalPhase::BuildingTransaction, ProposalAction::BuildTransaction),
            ),
            (ProposalPhase::BuildingTransaction, ProposalEvent::TransactionBuilt(tx_hash)) => Some(
                (ProposalPhase::CreatingBlock { tx_hash: *tx_hash }, ProposalAction::CreateBlock),
            ),
            (ProposalPhase::CreatingBlock { tx_hash }, ProposalEvent::BlockCreated(block)) => {
                let timestamp = block.header.timestamp + 1;
                let proposal = ProposalShortId::from_tx_hash(tx_hash);
                Some(
                    (
                        ProposalPhase::BuildingUncle,
                        ProposalAction::BuildUncle {
                            number: block.header.number,
                            parent_hash: block.header.parent_hash,
                            timestamp,
                            proposal,
                        },
                    ),
                )
            },
            (ProposalPhase::BuildingUncle, ProposalEvent::UncleBuilt(uncle_hash)) => Some(
                (
                    ProposalPhase::SubmittingBlock { uncle_hash: *uncle_hash },
                    ProposalAction::SubmitBlock,
                ),
            ),
            (
                ProposalPhase::SubmittingBlock { uncle_hash },
                ProposalEvent::BlockSubmitted,
            ) => Some(
                (
                    ProposalPhase::SubmittingUncle { uncle_hash: *uncle_hash },
                    ProposalAction::SubmitUncle,
                ),
            ),
            (
                ProposalPhase::SubmittingUncle { uncle_hash },
                ProposalEvent::UncleSubmitted,
            ) => Some(
                (
                    ProposalPhase::SubmittingTransaction { uncle_hash: *uncle_hash },
                    ProposalAction::SubmitTransaction,
                ),
            ),
            (
                ProposalPhase::SubmittingTransaction { uncle_hash },
                ProposalEvent::TransactionSubmitted,
            ) => Some(
                (
                    ProposalPhase::CreatingTemplate { uncle_hash: *uncle_hash },
                    ProposalAction::CreateBlock,
                ),
            ),
            (
                ProposalPhase::CreatingTemplate { uncle_hash },
                ProposalEvent::BlockCreated(block),
            ) => Some(
                (
                    ProposalPhase::Finished,
                    ProposalAction::Finish(self.check_template(block, uncle_hash)),
                ),
            ),
            _ => None,
        }
    }

    /// Checks that the block has the given uncle, no other, and proposes nothing.
    pub fn check_template(&self, block: &BlockView, uncle_hash: &Byte32) -> (r: Result<
        (),
        TemplateFault,
    >)
        ensures
            is_outcome(r, *block, uncle_hash@),
            r matches Err(TemplateFault::UnexpectedUncles) <==> !(block.uncles@.len() == 1
                && block.uncles@[0].hash.bytes@ == uncle_hash.bytes@),
            r is Ok <==> block.uncles@.len() == 1 && block.uncles@[0].hash.bytes@
                == uncle_hash.bytes@ && block.proposals@.len() == 0,
            r matches Err(TemplateFault::UnexpectedProposals { ids }) ==> ids@ == block.proposals@,
    {
        if block.uncles.len() != 1 || block.uncles[0].hash != *uncle_hash {
            return Err(TemplateFault::UnexpectedUncles);
        }
        if block.proposals.len() != 0 {
            let ids = block.proposals.clone();
            assert(ids@ =~= block.proposals@);
            return Err(TemplateFault::UnexpectedProposals { ids });
        }
        Ok(())
    }
}

} // verus!
