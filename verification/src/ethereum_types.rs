use vstd::prelude::*;

verus! {

/// 256-bit hash (32 bytes), as Ethereum uses for block and transaction hashes.
#[derive(Clone, Copy, Debug, Default)]
pub struct H256(pub [u8; 32]);

impl PartialEq for H256 {
    fn eq(&self, other: &Self) -> (r: bool) {
        let mut i: usize = 0;
        while i < 32
            invariant
                0 <= i <= 32,
                forall|j: int| 0 <= j < i ==> self.0[j] == other.0[j],
            decreases 32 - i,
        {
            if self.0[i] != other.0[i] {
                return false;
            }
            i = i + 1;
        }
        assert(self.0 =~= other.0);
        true
    }
}

impl vstd::std_specs::cmp::PartialEqSpecImpl for H256 {
    open spec fn obeys_eq_spec() -> bool {
        true
    }

    open spec fn eq_spec(&self, other: &H256) -> bool {
        *self == *other
    }
}

impl Eq for H256 {}

/// 160-bit Ethereum account address.
#[derive(Clone, Copy, Debug, PartialEq, Eq)]
pub struct Address(pub [u8; 20]);

/// 2048-bit log bloom filter of a header or receipt.
#[derive(Clone, Copy, Debug, PartialEq, Eq)]
pub struct Bloom(pub [u8; 256]);

/// 256-bit unsigned integer, as four 64-bit limbs, least significant first.
#[derive(Clone, Copy, Debug, PartialEq, Eq)]
pub struct U256(pub [u64; 4]);

impl U256 {
    /// The number that the limbs stand for.
    pub open spec fn value(&self) -> nat {
        (self.0[0] + self.0[1] * 0x1_0000_0000_0000_0000nat + self.0[2]
            * 0x1_0000_0000_0000_0000_0000_0000_0000_0000nat + self.0[3]
            * 0x1_0000_0000_0000_0000_0000_0000_0000_0000_0000_0000_0000_0000nat) as nat
    }

    /// The number fits into 64 bits.
    pub open spec fn fits_u64(&self) -> bool {
        self.0[1] == 0 && self.0[2] == 0 && self.0[3] == 0
    }

    /// The number as a `u64`; it must fit.
    pub fn as_u64(&self) -> (r: u64)
        requires
            self.fits_u64(),
        ensures
            r == self.value(),
    {
        self.0[0]
    }
}

/// Ethereum header, with the fields that the relay reads or forwards.
#[derive(Clone, Debug, PartialEq, Eq)]
pub struct Header {
    /// Hash of the header; filled for every header that the node has sealed.
    pub hash: Option<H256>,
    /// Hash of the parent header.
    pub parent_hash: H256,
    /// Hash of the uncles list.
    pub uncles_hash: H256,
    /// Author (miner) of the block.
    pub author: Address,
    /// State root after the block.
    pub state_root: H256,
    /// Root of the transactions trie.
    pub transactions_root: H256,
    /// Root of the receipts trie.
    pub receipts_root: H256,
    /// Number of the header; filled for every header that the node has sealed.
    pub number: Option<u64>,
    /// Gas used by the block.
    pub gas_used: U256,
    /// Gas limit of the block.
    pub gas_limit: U256,
    /// Extra data of the header.
    pub extra_data: Vec<u8>,
    /// Log bloom of the block.
    pub logs_bloom: Bloom,
    /// Timestamp of the block.
    pub timestamp: U256,
    /// Difficulty of the block.
    pub difficulty: U256,
    /// Seal fields of the header.
    pub seal_fields: Vec<Vec<u8>>,
}

/// Log entry of an Ethereum transaction receipt.
#[derive(Clone, Debug, PartialEq, Eq)]
pub struct Log {
    /// Address of the contract that emitted the entry.
    pub address: Address,
    /// Topics of the entry.
    pub topics: Vec<H256>,
    /// Data of the entry.
    pub data: Vec<u8>,
}

/// Ethereum transaction receipt, with the fields that the relay forwards.
#[derive(Clone, Debug, PartialEq, Eq)]
pub struct Receipt {
    /// Gas used by the transaction; filled for every mined transaction.
    pub gas_used: Option<U256>,
    /// Log bloom of the receipt.
    pub logs_bloom: Bloom,
    /// Logs of the receipt.
    pub logs: Vec<Log>,
}

/// Ethereum header Id: its number and its hash.
#[derive(Clone, Copy, Debug)]
pub struct HeaderId(pub u64, pub H256);

impl PartialEq for HeaderId {
    fn eq(&self, other: &Self) -> (r: bool) {
        self.0 == other.0 && self.1 == other.1
    }
}

impl vstd::std_specs::cmp::PartialEqSpecImpl for HeaderId {
    open spec fn obeys_eq_spec() -> bool {
        true
    }

    open spec fn eq_spec(&self, other: &HeaderId) -> bool {
        *self == *other
    }
}

impl Eq for HeaderId {}

impl HeaderId {
    /// Id of a header whose number and hash are filled.
    pub fn from_header(header: &Header) -> (r: HeaderId)
        requires
            header.number is Some,
            header.hash is Some,
        ensures
            r == HeaderId(header.number->0, header.hash->0),
    {
        HeaderId(header.number.unwrap(), header.hash.unwrap())
    }
}

/// Ethereum header synchronization status.
#[derive(Clone, Copy, Debug, PartialEq, Eq, Structural)]
pub enum HeaderStatus {
    /// Header is unknown.
    Unknown,
    /// Header is in MaybeOrphan queue.
    MaybeOrphan,
    /// Header is in Orphan queue.
    Orphan,
    /// Header is in MaybeReceipts queue.
    MaybeReceipts,
    /// Header is in Receipts queue.
    Receipts,
    /// Header is in Ready queue.
    Ready,
    /// Header has been recently submitted to the Substrate runtime.
    Submitted,
    /// Header is known to the Substrate runtime.
    Synced,
}

/// Header as it waits in the relay's queues, with the receipts of its transactions once
/// they are known.
#[derive(Clone, Debug, PartialEq, Eq)]
pub struct QueuedHeader {
    header: Header,
    receipts: Option<Vec<Receipt>>,
}

impl QueuedHeader {
    /// The header itself.
    pub closed spec fn spec_header(&self) -> Header {
        self.header
    }

    /// The receipts of the header's transactions, once known.
    pub closed spec fn spec_receipts(&self) -> Option<Vec<Receipt>> {
        self.receipts
    }

    /// Both the number and the hash of the header are filled.
    pub open spec fn has_id(&self) -> bool {
        self.spec_header().number is Some && self.spec_header().hash is Some
    }

    /// The header has both its id and a parent (its number is not zero).
    pub open spec fn has_parent(&self) -> bool {
        self.has_id() && self.spec_header().number->0 >= 1
    }

    /// Id of the header.
    pub open spec fn spec_id(&self) -> HeaderId {
        HeaderId(self.spec_header().number->0, self.spec_header().hash->0)
    }

    /// Id of the parent header.
    pub open spec fn spec_parent_id(&self) -> HeaderId {
        HeaderId((self.spec_header().number->0 - 1) as u64, self.spec_header().parent_hash)
    }

    /// Creates new queued header.
    pub fn new(header: Header) -> (r: Self)
        ensures
            r.spec_header() == header,
            r.spec_receipts() is None,
    {
        QueuedHeader { header, receipts: None }
    }

    /// Returns ID of header.
    pub fn id(&self) -> (r: HeaderId)
        requires
            self.has_id(),
        ensures
            r == self.spec_id(),
    {
        HeaderId::from_header(&self.header)
    }

    /// Returns ID of parent header.
    pub fn parent_id(&self) -> (r: HeaderId)
        requires
            self.spec_header().number is Some,
            self.spec_header().number->0 >= 1,
        ensures
            r == self.spec_parent_id(),
    {
        HeaderId(self.header.number.unwrap() - 1, self.header.parent_hash)
    }

    /// Returns reference to header.
    pub fn header(&self) -> (r: &Header)
        ensures
            *r == self.spec_header(),
    {
        &self.header
    }

    /// Returns reference to associated transactions receipts.
    pub fn receipts(&self) -> (r: &Option<Vec<Receipt>>)
        ensures
            *r == self.spec_receipts(),
    {
        &self.receipts
    }

    /// Set associated transaction receipts.
    pub fn set_receipts(self, receipts: Vec<Receipt>) -> (r: Self)
        ensures
            r.spec_header() == self.spec_header(),
            r.spec_receipts() == Some(receipts),
    {
        QueuedHeader { header: self.header, receipts: Some(receipts) }
    }

    /// The header's number is one above its parent's.
    pub proof fn lemma_parent_precedes(&self)
        requires
            self.has_parent(),
        ensures
            self.spec_parent_id().0 + 1 == self.spec_id().0,
    {
    }

    /// Splits the queued header into the header and its receipts.
    pub fn extract(self) -> (r: (Header, Option<Vec<Receipt>>))
        ensures
            r.0 == self.spec_header(),
            r.1 == self.spec_receipts(),
    {
        (self.header, self.receipts)
    }
}

} // verus!
