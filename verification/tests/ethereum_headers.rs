use ethereum_poa_relay::ethereum_headers::QueuedHeaders;
use ethereum_poa_relay::ethereum_types::{
    Address, Bloom, Header, HeaderId, HeaderStatus, Log, QueuedHeader, Receipt, H256, U256,
};

fn hash(number: u64) -> H256 {
    H256(web3::types::H256::from_low_u64_le(number).0)
}

fn id(number: u64) -> HeaderId {
    HeaderId(number, hash(number))
}

fn raw_header(number: u64) -> Header {
    Header {
        hash: Some(hash(number)),
        parent_hash: if number == 0 { H256::default() } else { hash(number - 1) },
        uncles_hash: H256::default(),
        author: Address([0u8; 20]),
        state_root: H256::default(),
        transactions_root: H256::default(),
        receipts_root: H256::default(),
        number: Some(number),
        gas_used: U256([0; 4]),
        gas_limit: U256([0; 4]),
        extra_data: Vec::new(),
        logs_bloom: Bloom([0u8; 256]),
        timestamp: U256([0; 4]),
        difficulty: U256([0; 4]),
        seal_fields: Vec::new(),
    }
}

fn receipt(gas: u64) -> Receipt {
    Receipt {
        gas_used: Some(U256([gas, 0, 0, 0])),
        logs_bloom: Bloom([1u8; 256]),
        logs: vec![Log { address: Address([2u8; 20]), topics: vec![hash(7)], data: vec![1, 2, 3] }],
    }
}

#[test]
fn hashes_compare_by_all_their_bytes() {
    assert_eq!(hash(1), hash(1));
    assert_ne!(hash(1), hash(2));
    let mut bytes = [0u8; 32];
    bytes[31] = 1;
    assert_ne!(H256(bytes), H256::default());
    assert_eq!(id(5), HeaderId(5, hash(5)));
    assert_ne!(id(5), HeaderId(5, hash(6)));
    assert_ne!(id(5), HeaderId(6, hash(5)));
}

#[test]
fn queued_header_ids() {
    let header = QueuedHeader::new(raw_header(10));
    assert_eq!(header.id(), id(10));
    assert_eq!(header.parent_id(), id(9));
    assert_eq!(HeaderId::from_header(&raw_header(10)), id(10));
    assert_eq!(header.header(), &raw_header(10));
    assert_eq!(header.receipts(), &None);
    let header = header.set_receipts(vec![receipt(21000)]);
    assert_eq!(header.receipts(), &Some(vec![receipt(21000)]));
    let (extracted, receipts) = header.extract();
    assert_eq!(extracted, raw_header(10));
    assert_eq!(receipts, Some(vec![receipt(21000)]));
}

#[test]
fn u256_as_u64_reads_the_low_limb() {
    assert_eq!(U256([42, 0, 0, 0]).as_u64(), 42);
    assert_eq!(U256([u64::MAX, 0, 0, 0]).as_u64(), u64::MAX);
}

#[test]
fn new_header_status_follows_its_parent() {
    let mut headers = QueuedHeaders::new();
    // parent unknown
    headers.header_response(raw_header(10));
    assert_eq!(headers.status(&id(10)), HeaderStatus::MaybeOrphan);
    // parent may be an orphan
    headers.header_response(raw_header(11));
    assert_eq!(headers.status(&id(11)), HeaderStatus::MaybeOrphan);
    // parent known to Substrate
    headers.substrate_best_header_response(&id(20));
    headers.header_response(raw_header(21));
    assert_eq!(headers.status(&id(21)), HeaderStatus::MaybeReceipts);
    // parent waiting for receipts
    headers.header_response(raw_header(22));
    assert_eq!(headers.status(&id(22)), HeaderStatus::MaybeReceipts);
    // parent an orphan
    headers.maybe_orphan_response(&id(9), false);
    assert_eq!(headers.status(&id(10)), HeaderStatus::Orphan);
    assert_eq!(headers.status(&id(11)), HeaderStatus::MaybeOrphan);
    headers.header_response(QueuedHeader::new(raw_header(11)).header().clone());
    assert_eq!(headers.total_headers(), 4);
    assert_eq!(headers.status(&id(99)), HeaderStatus::Unknown);
}

#[test]
fn known_header_is_not_queued_twice() {
    let mut headers = QueuedHeaders::new();
    headers.header_response(raw_header(10));
    headers.header_response(raw_header(10));
    assert_eq!(headers.total_headers(), 1);
    assert_eq!(headers.headers_in_status(HeaderStatus::MaybeOrphan), 1);
}

#[test]
fn known_parent_adopts_the_whole_orphan_chain() {
    let mut headers = QueuedHeaders::new();
    for number in (10..15).rev() {
        headers.header_response(raw_header(number));
    }
    // a header on another chain stays where it is
    let mut side = raw_header(12);
    side.hash = Some(hash(5012));
    side.parent_hash = hash(5011);
    headers.header_response(side);
    headers.maybe_orphan_response(&id(9), false);
    assert_eq!(headers.headers_in_status(HeaderStatus::Orphan), 1);
    headers.maybe_orphan_response(&id(9), true);
    assert_eq!(headers.headers_in_status(HeaderStatus::MaybeReceipts), 5);
    assert_eq!(headers.status(&HeaderId(12, hash(5012))), HeaderStatus::MaybeOrphan);
    assert_eq!(headers.header(HeaderStatus::MaybeReceipts), Some(&QueuedHeader::new(raw_header(10))));
}

#[test]
fn receipts_travel_with_the_header() {
    let mut headers = QueuedHeaders::new();
    headers.substrate_best_header_response(&id(9));
    headers.header_response(raw_header(10));
    headers.maybe_receipts_response(&id(10), true);
    assert_eq!(headers.status(&id(10)), HeaderStatus::Receipts);
    assert_eq!(headers.header(HeaderStatus::Ready), None);
    headers.receipts_response(&id(10), vec![receipt(1)]);
    assert_eq!(headers.status(&id(10)), HeaderStatus::Ready);
    assert_eq!(
        headers.header(HeaderStatus::Ready),
        Some(&QueuedHeader::new(raw_header(10)).set_receipts(vec![receipt(1)]))
    );
    // a response for a header in another queue changes nothing
    headers.receipts_response(&id(10), vec![receipt(2)]);
    headers.maybe_receipts_response(&id(10), false);
    assert_eq!(headers.status(&id(10)), HeaderStatus::Ready);
    headers.header_submitted(&id(10));
    assert_eq!(headers.status(&id(10)), HeaderStatus::Submitted);
    assert_eq!(headers.headers_in_submit_status(), 1);
    headers.substrate_best_header_response(&id(10));
    assert_eq!(headers.status(&id(10)), HeaderStatus::Synced);
    assert_eq!(headers.total_headers(), 0);
    assert_eq!(headers.best_queued_number(), 0);
}

#[test]
fn oldest_header_is_selected_first() {
    let mut headers = QueuedHeaders::new();
    headers.header_response(raw_header(30));
    headers.header_response(raw_header(20));
    headers.header_response(raw_header(25));
    assert_eq!(headers.header(HeaderStatus::MaybeOrphan), Some(&QueuedHeader::new(raw_header(20))));
    assert_eq!(headers.best_queued_number(), 30);
    assert_eq!(headers.header(HeaderStatus::Ready), None);
}
