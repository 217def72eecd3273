use vstd::prelude::*;

pub use crate::ethereum_types::{Address, Bloom, H256, U256};
use crate::ethereum_types::{Header as EthereumHeader, Log as EthereumLog, Receipt as EthereumReceipt};
use crate::scale_codec::{
    bytes_encoding, compact_length, le_bytes, limbs_encoding, scale_encode_address,
    scale_encode_bloom, scale_encode_bytes, scale_encode_hash, scale_encode_length,
    scale_encode_limbs, scale_encode_u64,
};

verus! {

/// Hash of a Substrate transaction.
pub type TransactionHash = H256;

/// Ethereum header as the Substrate runtime imports it.
#[derive(Clone, Debug, PartialEq, Eq)]
pub struct SubstrateEthereumHeader {
    /// Hash of the parent header.
    pub parent_hash: H256,
    /// Timestamp of the block.
    pub timestamp: u64,
    /// Number of the block.
    pub number: u64,
    /// Author of the block.
    pub author: Address,
    /// Root of the transactions trie.
    pub transactions_root: H256,
    /// Hash of the uncles list.
    pub uncles_hash: H256,
    /// Extra data of the header.
    pub extra_data: Vec<u8>,
    /// State root after the block.
    pub state_root: H256,
    /// Root of the receipts trie.
    pub receipts_root: H256,
    /// Log bloom of the block.
    pub log_bloom: Bloom,
    /// Gas used by the block.
    pub gas_used: U256,
    /// Gas limit of the block.
    pub gas_limit: U256,
    /// Difficulty of the block.
    pub difficulty: U256,
    /// Seal of the header.
    pub seal: Vec<Vec<u8>>,
}

/// Log entry of a transaction receipt, as the Substrate runtime imports it.
#[derive(Clone, Debug, PartialEq, Eq)]
pub struct SubstrateEthereumLogEntry {
    /// Address of the contract that emitted the entry.
    pub address: Address,
    /// Topics of the entry.
    pub topics: Vec<H256>,
    /// Data of the entry.
    pub data: Vec<u8>,
}

/// Outcome of a transaction, as the Substrate runtime imports it.
#[derive(Clone, Copy, Debug, PartialEq, Eq)]
pub enum SubstrateEthereumTransactionOutcome {
    /// Status and state root are unknown under EIP-98 rules.
    Unknown,
    /// State root is known. Pre EIP-98 and EIP-658 rules.
    StateRoot(H256),
    /// Status code is known. EIP-658 rules.
    StatusCode(u8),
}

/// Transaction receipt, as the Substrate runtime imports it.
#[derive(Clone, Debug, PartialEq, Eq)]
pub struct SubstrateEthereumReceipt {
    /// Gas used by the transaction.
    pub gas_used: U256,
    /// Log bloom of the receipt.
    pub log_bloom: Bloom,
    /// Logs of the receipt.
    pub logs: Vec<SubstrateEthereumLogEntry>,
    /// Outcome of the transaction.
    pub outcome: SubstrateEthereumTransactionOutcome,
}

/// The header for Substrate made of the Ethereum header `header`.
pub open spec fn substrate_header(header: EthereumHeader) -> SubstrateEthereumHeader {
    SubstrateEthereumHeader {
        parent_hash: header.parent_hash,
        timestamp: header.timestamp.value() as u64,
        number: header.number->0,
        author: header.author,
        transactions_root: header.transactions_root,
        uncles_hash: header.uncles_hash,
        extra_data: header.extra_data,
        state_root: header.state_root,
        receipts_root: header.receipts_root,
        log_bloom: header.logs_bloom,
        gas_used: header.gas_used,
        gas_limit: header.gas_limit,
        difficulty: header.difficulty,
        seal: header.seal_fields,
    }
}

/// `converted` carries the fields of the Ethereum header `header`.
pub open spec fn header_converted(converted: SubstrateEthereumHeader, header: EthereumHeader) -> bool {
    &&& converted.parent_hash == header.parent_hash
    &&& converted.timestamp == header.timestamp.value()
    &&& converted.number == header.number->0
    &&& converted.author == header.author
    &&& converted.transactions_root == header.transactions_root
    &&& converted.uncles_hash == header.uncles_hash
    &&& converted.extra_data == header.extra_data
    &&& converted.state_root == header.state_root
    &&& converted.receipts_root == header.receipts_root
    &&& converted.log_bloom == header.logs_bloom
    &&& converted.gas_used == header.gas_used
    &&& converted.gas_limit == header.gas_limit
    &&& converted.difficulty == header.difficulty
    &&& converted.seal == header.seal_fields
}

/// `entry` carries the fields of the Ethereum log entry `log`.
pub open spec fn log_entry_converted(entry: SubstrateEthereumLogEntry, log: EthereumLog) -> bool {
    &&& entry.address == log.address
    &&& entry.topics == log.topics
    &&& entry.data == log.data
}

/// `converted` carries the fields of the Ethereum receipt `receipt`, with an unknown outcome.
pub open spec fn receipt_converted(
    converted: SubstrateEthereumReceipt,
    receipt: EthereumReceipt,
) -> bool {
    &&& converted.gas_used == receipt.gas_used->0
    &&& converted.log_bloom == receipt.logs_bloom
    &&& converted.logs@.len() == receipt.logs@.len()
    &&& forall|k: int|
        0 <= k < receipt.logs@.len() ==> log_entry_converted(
            #[trigger] converted.logs@[k],
            receipt.logs@[k],
        )
    &&& converted.outcome == SubstrateEthereumTransactionOutcome::Unknown
}

/// Every receipt of `receipts` has its gas usage filled.
pub open spec fn receipts_have_gas_used(receipts: Seq<EthereumReceipt>) -> bool {
    forall|i: int| 0 <= i < receipts.len() ==> (#[trigger] receipts[i]).gas_used is Some
}

/// Convert Ethereum header into Ethereum header for Substrate.
pub fn into_substrate_ethereum_header(header: EthereumHeader) -> (r: SubstrateEthereumHeader)
    requires
        header.number is Some,
        header.timestamp.fits_u64(),
    ensures
        header_converted(r, header),
        r == substrate_header(header),
{
    SubstrateEthereumHeader {
        parent_hash: header.parent_hash,
        timestamp: header.timestamp.as_u64(),
        number: header.number.unwrap(),
        author: header.author,
        transactions_root: header.transactions_root,
        uncles_hash: header.uncles_hash,
        extra_data: header.extra_data,
        state_root: header.state_root,
        receipts_root: header.receipts_root,
        log_bloom: header.logs_bloom,
        gas_used: header.gas_used,
        gas_limit: header.gas_limit,
        difficulty: header.difficulty,
        seal: header.seal_fields,
    }
}

/// Convert the log entries of an Ethereum receipt into log entries for Substrate.
fn into_substrate_ethereum_log_entries(logs: Vec<EthereumLog>) -> (r: Vec<
    SubstrateEthereumLogEntry,
>)
    ensures
        r@.len() == logs@.len(),
        forall|k: int| 0 <= k < logs@.len() ==> log_entry_converted(#[trigger] r@[k], logs@[k]),
{
    let mut converted: Vec<SubstrateEthereumLogEntry> = Vec::new();
    for log_entry in it: logs.into_iter()
        invariant
            converted@.len() == it.index(),
            forall|k: int|
                0 <= k < it.index() ==> log_entry_converted(#[trigger] converted@[k], it.seq()[k]),
    {
        converted.push(
            SubstrateEthereumLogEntry {
                address: log_entry.address,
                topics: log_entry.topics,
                data: log_entry.data,
            },
        );
    }
    converted
}

/// Convert Ethereum transactions receipts into Ethereum transactions receipts for Substrate.
pub fn into_substrate_ethereum_receipts(receipts: Option<Vec<EthereumReceipt>>) -> (r: Option<
    Vec<SubstrateEthereumReceipt>,
>)
    requires
        receipts is Some ==> receipts_have_gas_used(receipts->0@),
    ensures
        r is Some <==> receipts is Some,
        r is Some ==> r->0@.len() == receipts->0@.len(),
        r is Some ==> forall|i: int|
            0 <= i < receipts->0@.len() ==> receipt_converted(
                #[trigger] r->0@[i],
                receipts->0@[i],
            ),
{
    match receipts {
        None => None,
        Some(receipts) => {
            let mut converted: Vec<SubstrateEthereumReceipt> = Vec::new();
            for receipt in it: receipts.into_iter()
                invariant
                    receipts_have_gas_used(receipts@),
                    converted@.len() == it.index(),
                    forall|i: int|
                        0 <= i < it.index() ==> receipt_converted(
                            #[trigger] converted@[i],
                            it.seq()[i],
                        ),
            {
                converted.push(
                    SubstrateEthereumReceipt {
                        gas_used: receipt.gas_used.unwrap(),
                        log_bloom: receipt.logs_bloom,
                        logs: into_substrate_ethereum_log_entries(receipt.logs),
                        outcome: SubstrateEthereumTransactionOutcome::Unknown,
                    },
                );
            }
            Some(converted)
        },
    }
}

/// SCALE encoding of the byte strings `items`, one after the other, each with its length.
pub open spec fn byte_strings_encoding(items: Seq<Vec<u8>>) -> Seq<u8>
    decreases items.len(),
{
    if items.len() == 0 {
        Seq::empty()
    } else {
        byte_strings_encoding(items.drop_last()) + bytes_encoding(items.last()@)
    }
}

/// SCALE encoding of the hashes `items`, one after the other.
pub open spec fn hashes_encoding(items: Seq<H256>) -> Seq<u8>
    decreases items.len(),
{
    if items.len() == 0 {
        Seq::empty()
    } else {
        hashes_encoding(items.drop_last()) + items.last().0@
    }
}

/// SCALE encoding of a log entry: address, topics with their count, data with its length.
pub open spec fn log_entry_encoding(entry: SubstrateEthereumLogEntry) -> Seq<u8> {
    entry.address.0@ + compact_length(entry.topics@.len()) + hashes_encoding(entry.topics@)
        + bytes_encoding(entry.data@)
}

/// SCALE encoding of the log entries `items`, one after the other.
pub open spec fn log_entries_encoding(items: Seq<SubstrateEthereumLogEntry>) -> Seq<u8>
    decreases items.len(),
{
    if items.len() == 0 {
        Seq::empty()
    } else {
        log_entries_encoding(items.drop_last()) + log_entry_encoding(items.last())
    }
}

/// SCALE encoding of a transaction outcome: the index of its variant, then its field.
pub open spec fn outcome_encoding(outcome: SubstrateEthereumTransactionOutcome) -> Seq<u8> {
    match outcome {
        SubstrateEthereumTransactionOutcome::Unknown => seq![0u8],
        SubstrateEthereumTransactionOutcome::StateRoot(root) => seq![1u8] + root.0@,
        SubstrateEthereumTransactionOutcome::StatusCode(code) => seq![2u8, code],
    }
}

/// SCALE encoding of a receipt for Substrate: its fields in order.
pub open spec fn receipt_encoding(receipt: SubstrateEthereumReceipt) -> Seq<u8> {
    limbs_encoding(receipt.gas_used.0) + receipt.log_bloom.0@ + compact_length(receipt.logs@.len())
        + log_entries_encoding(receipt.logs@) + outcome_encoding(receipt.outcome)
}

/// SCALE encoding of a header for Substrate: its fields in order.
pub open spec fn header_encoding(header: SubstrateEthereumHeader) -> Seq<u8> {
    header.parent_hash.0@ + le_bytes(header.timestamp as nat, 8) + le_bytes(header.number as nat, 8)
        + header.author.0@ + header.transactions_root.0@ + header.uncles_hash.0@ + bytes_encoding(
        header.extra_data@,
    ) + header.state_root.0@ + header.receipts_root.0@ + header.log_bloom.0@ + limbs_encoding(
        header.gas_used.0,
    ) + limbs_encoding(header.gas_limit.0) + limbs_encoding(header.difficulty.0) + compact_length(
        header.seal@.len(),
    ) + byte_strings_encoding(header.seal@)
}

/// Every collection of the header fits the 32-bit length of SCALE.
pub open spec fn header_encodable(header: SubstrateEthereumHeader) -> bool {
    &&& header.extra_data@.len() <= u32::MAX
    &&& header.seal@.len() <= u32::MAX
    &&& forall|i: int| 0 <= i < header.seal@.len() ==> (#[trigger] header.seal@[i])@.len() <= u32::MAX
}

/// Every collection of the log entry fits the 32-bit length of SCALE.
pub open spec fn log_entry_encodable(entry: SubstrateEthereumLogEntry) -> bool {
    entry.topics@.len() <= u32::MAX && entry.data@.len() <= u32::MAX
}

/// Every collection of the receipt fits the 32-bit length of SCALE.
pub open spec fn receipt_encodable(receipt: SubstrateEthereumReceipt) -> bool {
    &&& receipt.logs@.len() <= u32::MAX
    &&& forall|i: int| 0 <= i < receipt.logs@.len() ==> log_entry_encodable(#[trigger] receipt.logs@[i])
}

/// Appends the encoding of `items` to `out`.
fn append_byte_strings(out: &mut Vec<u8>, items: &Vec<Vec<u8>>)
    requires
        forall|i: int| 0 <= i < items@.len() ==> (#[trigger] items@[i])@.len() <= u32::MAX,
    ensures
        final(out)@ == old(out)@ + byte_strings_encoding(items@),
{
    let ghost start = out@;
    for i in 0..items.len()
        invariant
            forall|j: int| 0 <= j < items@.len() ==> (#[trigger] items@[j])@.len() <= u32::MAX,
            out@ == start + byte_strings_encoding(items@.take(i as int)),
    {
        let mut encoded = scale_encode_bytes(items[i].as_slice());
        let ghost before = out@;
        out.append(&mut encoded);
        proof {
            assert(items@.take(i + 1).drop_last() =~= items@.take(i as int));
            assert(out@ =~= start + byte_strings_encoding(items@.take(i + 1)));
        }
    }
    assert(items@.take(items@.len() as int) =~= items@);
}

/// Appends the encoding of `items` to `out`.
fn append_hashes(out: &mut Vec<u8>, items: &Vec<H256>)
    ensures
        final(out)@ == old(out)@ + hashes_encoding(items@),
{
    let ghost start = out@;
    for i in 0..items.len()
        invariant
            out@ == start + hashes_encoding(items@.take(i as int)),
    {
        let mut encoded = scale_encode_hash(&items[i].0);
        out.append(&mut encoded);
        proof {
            assert(items@.take(i + 1).drop_last() =~= items@.take(i as int));
            assert(out@ =~= start + hashes_encoding(items@.take(i + 1)));
        }
    }
    assert(items@.take(items@.len() as int) =~= items@);
}

/// Appends the encoding of `entry` to `out`.
fn append_log_entry(out: &mut Vec<u8>, entry: &SubstrateEthereumLogEntry)
    requires
        log_entry_encodable(*entry),
    ensures
        final(out)@ == old(out)@ + log_entry_encoding(*entry),
{
    let ghost start = out@;
    let mut part = scale_encode_address(&entry.address.0);
    out.append(&mut part);
    let mut part = scale_encode_length(entry.topics.len());
    out.append(&mut part);
    append_hashes(out, &entry.topics);
    let mut part = scale_encode_bytes(entry.data.as_slice());
    out.append(&mut part);
    assert(out@ =~= start + log_entry_encoding(*entry));
}

/// Appends the encoding of `items` to `out`.
fn append_log_entries(out: &mut Vec<u8>, items: &Vec<SubstrateEthereumLogEntry>)
    requires
        forall|i: int| 0 <= i < items@.len() ==> log_entry_encodable(#[trigger] items@[i]),
    ensures
        final(out)@ == old(out)@ + log_entries_encoding(items@),
{
    let ghost start = out@;
    for i in 0..items.len()
        invariant
            forall|j: int| 0 <= j < items@.len() ==> log_entry_encodable(#[trigger] items@[j]),
            out@ == start + log_entries_encoding(items@.take(i as int)),
    {
        append_log_entry(out, &items[i]);
        proof {
            assert(items@.take(i + 1).drop_last() =~= items@.take(i as int));
            assert(out@ =~= start + log_entries_encoding(items@.take(i + 1)));
        }
    }
    assert(items@.take(items@.len() as int) =~= items@);
}

/// SCALE encoding of a header for Substrate, as the runtime API and the import call take it.
pub fn encode_substrate_header(header: &SubstrateEthereumHeader) -> (r: Vec<u8>)
    requires
        header_encodable(*header),
    ensures
        r@ == header_encoding(*header),
{
    let mut out = scale_encode_hash(&header.parent_hash.0);
    let mut part = scale_encode_u64(header.timestamp);
    out.append(&mut part);
    let mut part = scale_encode_u64(header.number);
    out.append(&mut part);
    let mut part = scale_encode_address(&header.author.0);
    out.append(&mut part);
    let mut part = scale_encode_hash(&header.transactions_root.0);
    out.append(&mut part);
    let mut part = scale_encode_hash(&header.uncles_hash.0);
    out.append(&mut part);
    let mut part = scale_encode_bytes(header.extra_data.as_slice());
    out.append(&mut part);
    let mut part = scale_encode_hash(&header.state_root.0);
    out.append(&mut part);
    let mut part = scale_encode_hash(&header.receipts_root.0);
    out.append(&mut part);
    let mut part = scale_encode_bloom(&header.log_bloom.0);
    out.append(&mut part);
    let mut part = scale_encode_limbs(&header.gas_used.0);
    out.append(&mut part);
    let mut part = scale_encode_limbs(&header.gas_limit.0);
    out.append(&mut part);
    let mut part = scale_encode_limbs(&header.difficulty.0);
    out.append(&mut part);
    let mut part = scale_encode_length(header.seal.len());
    out.append(&mut part);
    append_byte_strings(&mut out, &header.seal);
    assert(out@ =~= header_encoding(*header));
    out
}

/// SCALE encoding of a receipt for Substrate, as the import call takes it.
pub fn encode_substrate_receipt(receipt: &SubstrateEthereumReceipt) -> (r: Vec<u8>)
    requires
        receipt_encodable(*receipt),
    ensures
        r@ == receipt_encoding(*receipt),
{
    let mut out = scale_encode_limbs(&receipt.gas_used.0);
    let mut part = scale_encode_bloom(&receipt.log_bloom.0);
    out.append(&mut part);
    let mut part = scale_encode_length(receipt.logs.len());
    out.append(&mut part);
    append_log_entries(&mut out, &receipt.logs);
    match receipt.outcome {
        SubstrateEthereumTransactionOutcome::Unknown => {
            out.push(0u8);
        },
        SubstrateEthereumTransactionOutcome::StateRoot(root) => {
            out.push(1u8);
            let mut part = scale_encode_hash(&root.0);
            out.append(&mut part);
        },
        SubstrateEthereumTransactionOutcome::StatusCode(code) => {
            out.push(2u8);
            out.push(code);
        },
    }
    assert(out@ =~= receipt_encoding(*receipt));
    out
}

} // verus!
