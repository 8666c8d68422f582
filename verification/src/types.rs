//! The chain data that the verifiers read, as plain values.

use vstd::prelude::*;

verus! {

/// A 32-byte hash.
#[derive(Clone, Copy, Debug)]
pub struct Byte32 {
    pub bytes: [u8; 32],
}

/// The short id under which a transaction is proposed: ten bytes.
#[derive(Clone, Copy, Debug)]
pub struct ProposalShortId {
    pub bytes: [u8; 10],
}

/// The hash all of whose bits are zeros.
pub open spec fn zero_hash() -> Seq<u8> {
    Seq::new(32, |i: int| 0u8)
}

/// Whether two slices hold the same bytes.
pub fn bytes_equal(a: &[u8], b: &[u8]) -> (r: bool)
    ensures
        r == (a@ == b@),
{
    if a.len() != b.len() {
        return false;
    }
    let mut i: usize = 0;
    while i < a.len()
        invariant
            i <= a@.len(),
            a@.len() == b@.len(),
            forall|j: int| 0 <= j < i ==> a@[j] == b@[j],
        decreases a@.len() - i,
    {
        if a[i] != b[i] {
            return false;
        }
        i = i + 1;
    }
    assert(a@ =~= b@);
    true
}

impl View for Byte32 {
    type V = Seq<u8>;

    open spec fn view(&self) -> Seq<u8> {
        self.bytes@
    }
}

impl Byte32 {
    /// The hash all of whose bits are zeros.
    pub fn zero() -> (r: Byte32)
        ensures
            r@ == zero_hash(),
            forall|i: int| 0 <= i < 32 ==> r.bytes@[i] == 0,
    {
        let r = Byte32 { bytes: [0u8; 32] };
        assert(r@ =~= zero_hash());
        r
    }

    /// Whether all bits are zeros.
    pub fn is_zero(&self) -> (r: bool)
        ensures
            r == (self@ == zero_hash()),
            r == (forall|i: int| 0 <= i < 32 ==> self.bytes@[i] == 0),
    {
        assert((forall|i: int| 0 <= i < 32 ==> self.bytes@[i] == 0) ==> self@ =~= zero_hash());
        assert(forall|i: int| 0 <= i < 32 ==> zero_hash()[i] == 0);
        *self == Byte32::zero()
    }
}

impl PartialEq for Byte32 {
    fn eq(&self, other: &Byte32) -> (r: bool) {
        bytes_equal(self.bytes.as_slice(), other.bytes.as_slice())
    }
}

impl vstd::std_specs::cmp::PartialEqSpecImpl for Byte32 {
    open spec fn obeys_eq_spec() -> bool {
        true
    }

    open spec fn eq_spec(&self, other: &Byte32) -> bool {
        self@ == other@
    }
}

impl View for ProposalShortId {
    type V = Seq<u8>;

    open spec fn view(&self) -> Seq<u8> {
        self.bytes@
    }
}

impl ProposalShortId {
    /// The short id of the transaction with the given hash: its first ten bytes.
    pub fn from_tx_hash(hash: &Byte32) -> (r: ProposalShortId)
        ensures
            r@ == hash@.take(10),
            forall|i: int| 0 <= i < 10 ==> r.bytes@[i] == hash.bytes@[i],
    {
        let mut bytes: [u8; 10] = [0u8; 10];
        let mut i: usize = 0;
        while i < 10
            invariant
                i <= 10,
                forall|j: int| 0 <= j < i ==> bytes@[j] == hash@[j],
            decreases 10 - i,
        {
            bytes[i] = hash.bytes[i];
            i = i + 1;
        }
        assert(bytes@ =~= hash@.take(10));
        ProposalShortId { bytes }
    }
}

impl PartialEq for ProposalShortId {
    fn eq(&self, other: &ProposalShortId) -> (r: bool) {
        bytes_equal(self.bytes.as_slice(), other.bytes.as_slice())
    }
}

impl vstd::std_specs::cmp::PartialEqSpecImpl for ProposalShortId {
    open spec fn obeys_eq_spec() -> bool {
        true
    }

    open spec fn eq_spec(&self, other: &ProposalShortId) -> bool {
        self@ == other@
    }
}

/// A reference to an output of a transaction.
#[derive(Clone, Copy, Debug)]
pub struct OutPoint {
    pub tx_hash: Byte32,
    pub index: u32,
}

impl View for OutPoint {
    type V = (Seq<u8>, u32);

    open spec fn view(&self) -> (Seq<u8>, u32) {
        (self.tx_hash@, self.index)
    }
}

/// The out point that refers to no output.
pub open spec fn null_out_point() -> (Seq<u8>, u32) {
    (zero_hash(), u32::MAX)
}

impl OutPoint {
    /// The out point that refers to no output.
    pub fn null() -> (r: OutPoint)
        ensures
            r@ == null_out_point(),
            forall|i: int| 0 <= i < 32 ==> r.tx_hash.bytes@[i] == 0,
            r.index == 0xffff_ffff,
    {
        OutPoint { tx_hash: Byte32::zero(), index: u32::MAX }
    }

    /// Whether this out point refers to no output.
    pub fn is_null(&self) -> (r: bool)
        ensures
            r == (self@ == null_out_point()),
            r <==> (forall|i: int| 0 <= i < 32 ==> self.tx_hash.bytes@[i] == 0) && self.index
                == 0xffff_ffff,
    {
        self.tx_hash.is_zero() && self.index == u32::MAX
    }
}

/// An input of a transaction.
#[derive(Clone, Copy, Debug)]
pub struct CellInput {
    pub previous_output: OutPoint,
    pub since: u64,
}

impl View for CellInput {
    type V = ((Seq<u8>, u32), u64);

    open spec fn view(&self) -> ((Seq<u8>, u32), u64) {
        (self.previous_output@, self.since)
    }
}

/// The only input of the cellbase of the block with the given number.
pub open spec fn cellbase_input(number: u64) -> ((Seq<u8>, u32), u64) {
    (null_out_point(), number)
}

impl CellInput {
    /// The only input of the cellbase of the block with the given number.
    pub fn new_cellbase_input(block_number: u64) -> (r: CellInput)
        ensures
            r@ == cellbase_input(block_number),
            forall|i: int| 0 <= i < 32 ==> r.previous_output.tx_hash.bytes@[i] == 0,
            r.previous_output.index == 0xffff_ffff,
            r.since == block_number,
    {
        CellInput { previous_output: OutPoint::null(), since: block_number }
    }
}

impl PartialEq for CellInput {
    fn eq(&self, other: &CellInput) -> (r: bool) {
        self.previous_output.tx_hash == other.previous_output.tx_hash
            && self.previous_output.index == other.previous_output.index && self.since
            == other.since
    }
}

impl vstd::std_specs::cmp::PartialEqSpecImpl for CellInput {
    open spec fn obeys_eq_spec() -> bool {
        true
    }

    open spec fn eq_spec(&self, other: &CellInput) -> bool {
        self@ == other@
    }
}

/// A lock or type script.
#[derive(Clone, Debug)]
pub struct Script {
    pub code_hash: Byte32,
    pub hash_type: u8,
    pub args: Vec<u8>,
}

/// An output of a transaction.
#[derive(Clone, Debug)]
pub struct CellOutput {
    pub capacity: u64,
    pub lock: Script,
    pub type_: Option<Script>,
}

/// A transaction, its encoding and its hashes.
#[derive(Clone, Debug)]
pub struct TransactionView {
    /// The molecule encoding of the transaction.
    pub data: Vec<u8>,
    pub hash: Byte32,
    pub witness_hash: Byte32,
    pub inputs: Vec<CellInput>,
    pub outputs: Vec<CellOutput>,
    pub outputs_data: Vec<Vec<u8>>,
    pub witnesses: Vec<Vec<u8>>,
}

impl TransactionView {
    /// A cellbase has one witness and one input, which refers to no output.
    pub open spec fn cellbase(self) -> bool {
        &&& self.inputs@.len() == 1
        &&& self.witnesses@.len() == 1
        &&& self.inputs@[0].previous_output@ == null_out_point()
    }

    /// Whether the transaction is a cellbase.
    pub fn is_cellbase(&self) -> (r: bool)
        ensures
            r == self.cellbase(),
            r <==> {
                &&& self.inputs@.len() == 1
                &&& self.witnesses@.len() == 1
                &&& forall|i: int|
                    0 <= i < 32 ==> self.inputs@[0].previous_output.tx_hash.bytes@[i] == 0
                &&& self.inputs@[0].previous_output.index == 0xffff_ffff
            },
    {
        self.inputs.len() == 1 && self.witnesses.len() == 1
            && self.inputs[0].previous_output.is_null()
    }

    /// The id under which the transaction is proposed.
    pub fn proposal_short_id(&self) -> (r: ProposalShortId)
        ensures
            r@ == self.hash@.take(10),
            forall|i: int| 0 <= i < 10 ==> r.bytes@[i] == self.hash.bytes@[i],
    {
        ProposalShortId::from_tx_hash(&self.hash)
    }
}

/// A block header and its hash.
#[derive(Clone, Debug)]
pub struct HeaderView {
    pub hash: Byte32,
    pub version: u32,
    pub compact_target: u32,
    pub timestamp: u64,
    pub number: u64,
    /// The number of the epoch, the index in it and its length, as one number.
    pub epoch: u64,
    pub parent_hash: Byte32,
    pub transactions_root: Byte32,
    pub proposals_hash: Byte32,
    pub uncles_hash: Byte32,
    pub dao: Byte32,
    pub nonce: u128,
}

/// An uncle of a block.
#[derive(Clone, Debug)]
pub struct UncleBlockView {
    pub hash: Byte32,
    pub proposals: Vec<ProposalShortId>,
}

/// A block.
#[derive(Clone, Debug)]
pub struct BlockView {
    pub header: HeaderView,
    pub uncles: Vec<UncleBlockView>,
    pub transactions: Vec<TransactionView>,
    pub proposals: Vec<ProposalShortId>,
}

/// The hashes of the given transactions, in order.
pub open spec fn tx_hashes(transactions: Seq<TransactionView>) -> Seq<Seq<u8>> {
    Seq::new(transactions.len(), |i: int| transactions[i].hash@)
}

/// The witness hashes of the given transactions, in order.
pub open spec fn tx_witness_hashes(transactions: Seq<TransactionView>) -> Seq<Seq<u8>> {
    Seq::new(transactions.len(), |i: int| transactions[i].witness_hash@)
}

/// The bytes of the given short ids, in order.
pub open spec fn id_bytes(ids: Seq<ProposalShortId>) -> Seq<Seq<u8>> {
    Seq::new(ids.len(), |i: int| ids[i]@)
}

/// The bytes of the given hashes, in order.
pub open spec fn hash_bytes(hashes: Seq<Byte32>) -> Seq<Seq<u8>> {
    Seq::new(hashes.len(), |i: int| hashes[i]@)
}

impl BlockView {
    /// The block with number zero is the genesis block.
    pub open spec fn genesis(self) -> bool {
        self.header.number == 0
    }

    /// Whether the block is the genesis block.
    pub fn is_genesis(&self) -> (r: bool)
        ensures
            r == self.genesis(),
            r == (self.header.number == 0),
    {
        self.header.number == 0
    }
}

/// The parameters of the chain that the verifiers read.
#[derive(Clone, Debug)]
pub struct Consensus {
    pub max_block_proposals_limit: u64,
    pub max_block_bytes: u64,
    pub genesis_block: BlockView,
}

} // verus!
