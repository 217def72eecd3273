use ethereum_poa_relay::ethereum_sync::{HeadersSync, HeadersSyncParams};
use ethereum_poa_relay::ethereum_types::{
    Address, Bloom, Header, HeaderId, HeaderStatus, QueuedHeader, H256, U256,
};

fn hash(number: u64) -> H256 {
    H256(web3::types::H256::from_low_u64_le(number).0)
}

fn side_hash(number: u64) -> H256 {
    hash(1000 + number)
}

fn id(number: u64) -> HeaderId {
    HeaderId(number, hash(number))
}

fn header(number: u64) -> QueuedHeader {
    QueuedHeader::new(Header {
        hash: Some(hash(number)),
        parent_hash: if number == 0 { H256::default() } else { hash(number - 1) },
        uncles_hash: H256::default(),
        author: Address([0u8; 20]),
        state_root: H256::default(),
        transactions_root: H256::default(),
        receipts_root: H256::default(),
        number: Some(number),
        gas_used: U256([0; 4]),
        gas_limit: U256([0; 4]),
        extra_data: Vec::new(),
        logs_bloom: Bloom([0u8; 256]),
        timestamp: U256([0; 4]),
        difficulty: U256([0; 4]),
        seal_fields: Vec::new(),
    })
}

#[test]
fn select_new_header_to_download_works() {
    let mut eth_sync = HeadersSync::default();

    // both best && target headers are unknown
    assert_eq!(eth_sync.select_new_header_to_download(), None);

    // best header is known, target header is unknown
    eth_sync.best_header = Some(HeaderId(0, Default::default()));
    assert_eq!(eth_sync.select_new_header_to_download(), None);

    // target header is known, best header is unknown
    eth_sync.best_header = None;
    eth_sync.target_header_number = Some(100);
    assert_eq!(eth_sync.select_new_header_to_download(), None);

    // when our best block has the same number as the target
    eth_sync.best_header = Some(HeaderId(100, Default::default()));
    assert_eq!(eth_sync.select_new_header_to_download(), None);

    // when we actually need a new header
    eth_sync.target_header_number = Some(101);
    assert_eq!(eth_sync.select_new_header_to_download(), Some(101));

    // when there are too many headers scheduled for submitting
    for i in 1..1000 {
        eth_sync.headers.header_response(header(i).header().clone());
    }
    assert_eq!(eth_sync.select_new_header_to_download(), None);
}

#[test]
fn sync_without_reorgs_works() {
    let mut eth_sync = HeadersSync::default();
    eth_sync.params.max_headers_in_submitted_status = 1;

    // ethereum reports best header #102
    eth_sync.ethereum_best_header_number_response(102);

    // substrate reports that it is at block #100
    eth_sync.substrate_best_header_response(id(100));

    // block #101 is downloaded first
    assert_eq!(eth_sync.select_new_header_to_download(), Some(101));
    eth_sync.headers.header_response(header(101).header().clone());

    // now header #101 is ready to be submitted
    assert_eq!(eth_sync.headers.header(HeaderStatus::MaybeReceipts), Some(&header(101)));
    eth_sync.headers.maybe_receipts_response(&id(101), false);
    assert_eq!(eth_sync.headers.header(HeaderStatus::Ready), Some(&header(101)));
    assert_eq!(eth_sync.select_header_to_submit(), Some(&header(101)));

    // and header #102 is ready to be downloaded
    assert_eq!(eth_sync.select_new_header_to_download(), Some(102));
    eth_sync.headers.header_response(header(102).header().clone());

    // receive submission confirmation
    eth_sync.headers.header_submitted(&id(101));

    // we have nothing to submit because previous header hasn't been confirmed yet
    // (and we allow max 1 submit transaction in the wild)
    assert_eq!(eth_sync.headers.header(HeaderStatus::MaybeReceipts), Some(&header(102)));
    eth_sync.headers.maybe_receipts_response(&id(102), false);
    assert_eq!(eth_sync.headers.header(HeaderStatus::Ready), Some(&header(102)));
    assert_eq!(eth_sync.select_header_to_submit(), None);

    // substrate reports that it has imported block #101
    eth_sync.substrate_best_header_response(id(101));

    // and we are ready to submit #102
    assert_eq!(eth_sync.select_header_to_submit(), Some(&header(102)));
    eth_sync.headers.header_submitted(&id(102));

    // substrate reports that it has imported block #102
    eth_sync.substrate_best_header_response(id(102));

    // and we have nothing to download
    assert_eq!(eth_sync.select_new_header_to_download(), None);
}

#[test]
fn sync_with_orphan_headers_work() {
    let mut eth_sync = HeadersSync::default();

    // ethereum reports best header #102
    eth_sync.ethereum_best_header_number_response(102);

    // substrate reports that it is at block #100, but it isn't part of best chain
    eth_sync.substrate_best_header_response(HeaderId(100, side_hash(100)));

    // block #101 is downloaded first
    assert_eq!(eth_sync.select_new_header_to_download(), Some(101));
    eth_sync.headers.header_response(header(101).header().clone());

    // we can't submit header #101, because its parent status is unknown
    assert_eq!(eth_sync.select_header_to_submit(), None);

    // instead we are trying to determine status of its parent (#100)
    assert_eq!(eth_sync.headers.header(HeaderStatus::MaybeOrphan), Some(&header(101)));

    // and the status is still unknown
    eth_sync.headers.maybe_orphan_response(&id(100), false);

    // so we consider #101 orphaned now && will download its parent - #100
    assert_eq!(eth_sync.headers.header(HeaderStatus::Orphan), Some(&header(101)));
    eth_sync.headers.header_response(header(100).header().clone());

    // we can't submit header #100, because its parent status is unknown
    assert_eq!(eth_sync.select_header_to_submit(), None);

    // instead we are trying to determine status of its parent (#99)
    assert_eq!(eth_sync.headers.header(HeaderStatus::MaybeOrphan), Some(&header(100)));

    // and the status is known, so we move previously orphaned #100 and #101 to ready queue
    eth_sync.headers.maybe_orphan_response(&id(99), true);

    // and we are ready to submit #100
    assert_eq!(eth_sync.headers.header(HeaderStatus::MaybeReceipts), Some(&header(100)));
    eth_sync.headers.maybe_receipts_response(&id(100), false);
    assert_eq!(eth_sync.select_header_to_submit(), Some(&header(100)));
    eth_sync.headers.header_submitted(&id(100));

    // and we are ready to submit #101
    assert_eq!(eth_sync.headers.header(HeaderStatus::MaybeReceipts), Some(&header(101)));
    eth_sync.headers.maybe_receipts_response(&id(101), false);
    assert_eq!(eth_sync.select_header_to_submit(), Some(&header(101)));
    eth_sync.headers.header_submitted(&id(101));
}

#[test]
fn default_params_limit_downloads_and_submissions() {
    let params = HeadersSyncParams::default();
    assert_eq!(params.max_future_headers_to_download, 128);
    assert_eq!(params.max_headers_in_submitted_status, 8);
    let eth_sync = HeadersSync::default();
    assert_eq!(eth_sync.params.max_future_headers_to_download, 128);
    assert_eq!(eth_sync.params.max_headers_in_submitted_status, 8);
    assert_eq!(eth_sync.target_header_number, None);
    assert_eq!(eth_sync.best_header, None);
    assert_eq!(eth_sync.unconfirmed_best_header_number, 0);
    assert_eq!(eth_sync.headers().total_headers(), 0);
}

#[test]
fn almost_synced_needs_both_headers_and_a_gap_below_four() {
    let mut eth_sync = HeadersSync::default();
    assert!(!eth_sync.is_almost_synced());
    eth_sync.ethereum_best_header_number_response(110);
    assert!(!eth_sync.is_almost_synced());
    eth_sync.substrate_best_header_response(id(106));
    assert!(!eth_sync.is_almost_synced());
    eth_sync.substrate_best_header_response(id(107));
    assert!(eth_sync.is_almost_synced());
    eth_sync.substrate_best_header_response(id(120));
    assert!(eth_sync.is_almost_synced());
    assert!(eth_sync.is_header_submitted_recently());
}

#[test]
fn download_continues_after_best_queued_header() {
    let mut eth_sync = HeadersSync::default();
    eth_sync.ethereum_best_header_number_response(200);
    eth_sync.substrate_best_header_response(id(100));
    eth_sync.headers_mut().header_response(header(101).header().clone());
    eth_sync.headers_mut().header_response(header(102).header().clone());
    assert_eq!(eth_sync.headers().best_queued_number(), 102);
    assert_eq!(eth_sync.select_new_header_to_download(), Some(103));
    // a best header of Substrate above every queued header wins
    eth_sync.substrate_best_header_response(id(150));
    assert_eq!(eth_sync.select_new_header_to_download(), Some(151));
}

#[test]
fn download_stops_at_the_queue_limit() {
    let mut eth_sync = HeadersSync::default();
    eth_sync.params.max_future_headers_to_download = 2;
    eth_sync.ethereum_best_header_number_response(200);
    eth_sync.substrate_best_header_response(id(100));
    eth_sync.headers.header_response(header(101).header().clone());
    assert_eq!(eth_sync.select_new_header_to_download(), Some(102));
    eth_sync.headers.header_response(header(102).header().clone());
    assert_eq!(eth_sync.select_new_header_to_download(), None);
}

#[test]
fn same_substrate_best_header_twice_changes_nothing() {
    let mut eth_sync = HeadersSync::default();
    eth_sync.substrate_best_header_response(id(100));
    assert_eq!(eth_sync.headers.status(&id(100)), HeaderStatus::Synced);
    assert_eq!(eth_sync.best_header, Some(id(100)));
    eth_sync.substrate_best_header_response(id(100));
    assert_eq!(eth_sync.best_header, Some(id(100)));
    assert_eq!(eth_sync.headers.status(&id(100)), HeaderStatus::Synced);
    assert_eq!(eth_sync.headers.total_headers(), 0);
}

#[test]
fn submission_is_limited_by_submitted_headers() {
    let mut eth_sync = HeadersSync::default();
    eth_sync.params.max_headers_in_submitted_status = 2;
    eth_sync.substrate_best_header_response(id(100));
    for number in 101..104 {
        eth_sync.headers.header_response(header(number).header().clone());
        eth_sync.headers.maybe_receipts_response(&id(number), false);
    }
    assert_eq!(eth_sync.select_header_to_submit(), Some(&header(101)));
    eth_sync.headers.header_submitted(&id(101));
    assert_eq!(eth_sync.select_header_to_submit(), Some(&header(102)));
    eth_sync.headers.header_submitted(&id(102));
    assert_eq!(eth_sync.headers.headers_in_submit_status(), 2);
    assert_eq!(eth_sync.select_header_to_submit(), None);
    eth_sync.substrate_best_header_response(id(101));
    assert_eq!(eth_sync.headers.headers_in_submit_status(), 1);
    assert_eq!(eth_sync.select_header_to_submit(), Some(&header(103)));
}

#[test]
fn ethereum_best_header_number_replaces_target() {
    let mut eth_sync = HeadersSync::default();
    eth_sync.ethereum_best_header_number_response(5);
    eth_sync.ethereum_best_header_number_response(3);
    assert_eq!(eth_sync.target_header_number, Some(3));
    eth_sync.tick();
    assert_eq!(eth_sync.target_header_number, Some(3));
}

#[test]
fn sync_selects_what_to_ask_next() {
    let mut eth_sync = HeadersSync::default();
    assert_eq!(eth_sync.select_orphan_parent_to_check(), None);
    assert_eq!(eth_sync.select_orphan_parent_to_download(), None);
    assert_eq!(eth_sync.select_header_to_check_receipts(), None);
    assert_eq!(eth_sync.select_receipts_to_download(), None);

    eth_sync.headers.header_response(header(101).header().clone());
    assert_eq!(eth_sync.select_orphan_parent_to_check(), Some(id(100)));
    eth_sync.headers.maybe_orphan_response(&id(100), false);
    assert_eq!(eth_sync.select_orphan_parent_to_check(), None);
    assert_eq!(eth_sync.select_orphan_parent_to_download(), Some(100));
    eth_sync.headers.maybe_orphan_response(&id(100), true);
    assert_eq!(eth_sync.select_orphan_parent_to_download(), None);
    assert_eq!(eth_sync.select_header_to_check_receipts(), Some(&header(101)));
    eth_sync.headers.maybe_receipts_response(&id(101), true);
    assert_eq!(eth_sync.select_header_to_check_receipts(), None);
    assert_eq!(eth_sync.select_receipts_to_download(), Some(id(101)));
}

#[test]
fn download_stops_at_the_ethereum_best_header() {
    let mut eth_sync = HeadersSync::default();
    eth_sync.ethereum_best_header_number_response(5);
    // Substrate is ahead of the Ethereum node: there is nothing the node could send
    eth_sync.substrate_best_header_response(id(10));
    assert_eq!(eth_sync.select_new_header_to_download(), None);
    eth_sync.best_header = Some(HeaderId(u64::MAX, Default::default()));
    assert_eq!(eth_sync.select_new_header_to_download(), None);
    eth_sync.ethereum_best_header_number_response(u64::MAX);
    assert_eq!(eth_sync.select_new_header_to_download(), None);
    eth_sync.substrate_best_header_response(id(4));
    eth_sync.ethereum_best_header_number_response(5);
    assert_eq!(eth_sync.select_new_header_to_download(), Some(5));
}

#[test]
fn reported_best_header_syncs_its_queued_ancestors() {
    let mut eth_sync = HeadersSync::default();
    eth_sync.params.max_headers_in_submitted_status = 1;
    eth_sync.ethereum_best_header_number_response(110);
    eth_sync.substrate_best_header_response(id(100));
    for number in 101..104 {
        eth_sync.headers.header_response(header(number).header().clone());
        eth_sync.headers.maybe_receipts_response(&id(number), false);
    }
    eth_sync.headers.header_submitted(&id(101));
    eth_sync.headers.header_submitted(&id(102));
    assert_eq!(eth_sync.select_header_to_submit(), None);
    // Substrate imported #102, and with it #101
    eth_sync.substrate_best_header_response(id(102));
    assert_eq!(eth_sync.headers.status(&id(101)), HeaderStatus::Synced);
    assert_eq!(eth_sync.headers.status(&id(102)), HeaderStatus::Synced);
    assert_eq!(eth_sync.headers.headers_in_submit_status(), 0);
    assert_eq!(eth_sync.select_header_to_submit(), Some(&header(103)));
}
