use ethereum_poa_relay::ethereum_types::{
    Address, Bloom, Header, HeaderId, Log, QueuedHeader, Receipt, H256, U256,
};
use ethereum_poa_relay::substrate_client::{
    account_index_from_u64, best_ethereum_block_call, best_ethereum_block_response, decode_best_ethereum_block,
    decode_answer, decode_bool, decode_hash, encode_hash, hex_param, ethereum_header_known_call, ethereum_header_known_response,
    ethereum_receipts_required_call, ethereum_receipts_required_response, headers_ids,
    import_headers_arguments, HeadersSubmission, RpcError, SubmissionProgress, SubmissionRequest,
    SubmissionResponse, SubmissionStage, ACCOUNT_NEXT_INDEX_METHOD, BLOCK_HASH_METHOD,
    STATE_CALL_METHOD, SUBMIT_EXTRINSIC_METHOD,
};
use ethereum_poa_relay::substrate_types::{
    encode_substrate_header, encode_substrate_receipt, into_substrate_ethereum_header, into_substrate_ethereum_receipts, SubstrateEthereumLogEntry,
    SubstrateEthereumReceipt, SubstrateEthereumTransactionOutcome,
};

fn answer(bytes: &[u8]) -> Result<Option<String>, RpcError> {
    let digits: String = bytes.iter().map(|byte| format!("{:02x}", byte)).collect();
    Ok(Some(format!("0x{}", digits)))
}

fn hash_of(byte: u8) -> H256 {
    H256([byte; 32])
}

fn header(number: u64) -> Header {
    Header {
        hash: Some(hash_of(number as u8)),
        parent_hash: hash_of(number as u8 - 1),
        uncles_hash: hash_of(201),
        author: Address([202u8; 20]),
        state_root: hash_of(203),
        transactions_root: hash_of(204),
        receipts_root: hash_of(205),
        number: Some(number),
        gas_used: U256([1, 0, 0, 0]),
        gas_limit: U256([2, 0, 0, 0]),
        extra_data: vec![9, 8, 7],
        logs_bloom: Bloom([206u8; 256]),
        timestamp: U256([1_577_836_800, 0, 0, 0]),
        difficulty: U256([3, 4, 0, 0]),
        seal_fields: vec![vec![1], vec![2, 3]],
    }
}

fn receipt(gas: u64) -> Receipt {
    Receipt {
        gas_used: Some(U256([gas, 0, 0, 0])),
        logs_bloom: Bloom([7u8; 256]),
        logs: vec![
            Log { address: Address([1u8; 20]), topics: vec![hash_of(1), hash_of(2)], data: vec![5] },
            Log { address: Address([2u8; 20]), topics: vec![], data: vec![] },
        ],
    }
}

#[test]
fn substrate_header_keeps_every_field() {
    let converted = into_substrate_ethereum_header(header(10));
    assert_eq!(converted.parent_hash, hash_of(9));
    assert_eq!(converted.timestamp, 1_577_836_800);
    assert_eq!(converted.number, 10);
    assert_eq!(converted.author, Address([202u8; 20]));
    assert_eq!(converted.transactions_root, hash_of(204));
    assert_eq!(converted.uncles_hash, hash_of(201));
    assert_eq!(converted.extra_data, vec![9, 8, 7]);
    assert_eq!(converted.state_root, hash_of(203));
    assert_eq!(converted.receipts_root, hash_of(205));
    assert_eq!(converted.log_bloom, Bloom([206u8; 256]));
    assert_eq!(converted.gas_used, U256([1, 0, 0, 0]));
    assert_eq!(converted.gas_limit, U256([2, 0, 0, 0]));
    assert_eq!(converted.difficulty, U256([3, 4, 0, 0]));
    assert_eq!(converted.seal, vec![vec![1], vec![2, 3]]);
}

#[test]
fn substrate_receipts_keep_their_logs() {
    assert_eq!(into_substrate_ethereum_receipts(None), None);
    assert_eq!(into_substrate_ethereum_receipts(Some(vec![])), Some(vec![]));
    let converted = into_substrate_ethereum_receipts(Some(vec![receipt(21000), receipt(5)])).unwrap();
    assert_eq!(converted.len(), 2);
    assert_eq!(
        converted[0],
        SubstrateEthereumReceipt {
            gas_used: U256([21000, 0, 0, 0]),
            log_bloom: Bloom([7u8; 256]),
            logs: vec![
                SubstrateEthereumLogEntry {
                    address: Address([1u8; 20]),
                    topics: vec![hash_of(1), hash_of(2)],
                    data: vec![5],
                },
                SubstrateEthereumLogEntry { address: Address([2u8; 20]), topics: vec![], data: vec![] },
            ],
            outcome: SubstrateEthereumTransactionOutcome::Unknown,
        }
    );
    assert_eq!(converted[1].gas_used, U256([5, 0, 0, 0]));
}

#[test]
fn best_block_is_decoded_from_number_and_hash() {
    let mut encoded = 0x0102u64.to_le_bytes().to_vec();
    encoded.extend_from_slice(&[9u8; 32]);
    assert_eq!(decode_best_ethereum_block(&encoded), Ok(HeaderId(0x0102, hash_of(9))));
    // trailing bytes are left unread
    encoded.push(1);
    assert_eq!(decode_best_ethereum_block(&encoded), Ok(HeaderId(0x0102, hash_of(9))));
    assert_eq!(decode_best_ethereum_block(&encoded[..39]), Err(RpcError::ResponseParseFailed));
    assert_eq!(best_ethereum_block_response(answer(&encoded[..40])), Ok(HeaderId(0x0102, hash_of(9))));
    assert_eq!(
        best_ethereum_block_response(Err(RpcError::RequestNotFound)),
        Err(RpcError::RequestNotFound)
    );
    let call = best_ethereum_block_call();
    assert_eq!(call.function, "EthereumHeadersApi_best_block");
    assert!(call.data.is_empty());
}

#[test]
fn booleans_are_decoded_from_one_byte() {
    assert_eq!(decode_bool(&[0]), Ok(false));
    assert_eq!(decode_bool(&[1, 7]), Ok(true));
    assert_eq!(decode_bool(&[2]), Err(RpcError::ResponseParseFailed));
    assert_eq!(decode_bool(&[]), Err(RpcError::ResponseParseFailed));
}

#[test]
fn hashes_round_trip_through_their_encoding() {
    let mut bytes = [0u8; 32];
    for (i, byte) in bytes.iter_mut().enumerate() {
        *byte = i as u8;
    }
    let encoded = encode_hash(&H256(bytes));
    assert_eq!(encoded, bytes.to_vec());
    assert_eq!(decode_hash(&encoded), Ok(H256(bytes)));
    assert_eq!(decode_hash(&encoded[..31]), Err(RpcError::ResponseParseFailed));
}

#[test]
fn header_queries_carry_the_header() {
    let id = HeaderId(10, hash_of(10));
    let call = ethereum_header_known_call(&id);
    assert_eq!(call.function, "EthereumHeadersApi_is_known_block");
    assert_eq!(call.data, vec![10u8; 32]);
    assert_eq!(ethereum_header_known_response(id, answer(&[1])), Ok((id, true)));
    assert_eq!(ethereum_header_known_response(id, answer(&[0])), Ok((id, false)));
    assert_eq!(ethereum_header_known_response(id, answer(&[3])), Err(RpcError::ResponseParseFailed));
    assert_eq!(
        ethereum_header_known_response(id, Err(RpcError::ResponseRetrievalFailed("closed".to_string()))),
        Err(RpcError::ResponseRetrievalFailed("closed".to_string()))
    );
    let call = ethereum_receipts_required_call(QueuedHeader::new(header(10)));
    assert_eq!(call.function, "EthereumHeadersApi_is_import_requires_receipts");
    assert_eq!(call.data, encode_substrate_header(&into_substrate_ethereum_header(header(10))));
    assert_eq!(ethereum_receipts_required_response(id, answer(&[1])), Ok((id, true)));
    assert_eq!(ethereum_receipts_required_response(id, answer(&[])), Err(RpcError::ResponseParseFailed));
    assert_eq!(
        ethereum_receipts_required_response(id, Err(RpcError::StartRequestFailed("refused".to_string()))),
        Err(RpcError::StartRequestFailed("refused".to_string()))
    );
}

#[test]
fn rpc_methods() {
    assert_eq!(STATE_CALL_METHOD, "state_call");
    assert_eq!(BLOCK_HASH_METHOD, "chain_getBlockHash");
    assert_eq!(ACCOUNT_NEXT_INDEX_METHOD, "system_accountNextIndex");
    assert_eq!(SUBMIT_EXTRINSIC_METHOD, "author_submitExtrinsic");
}

#[test]
fn account_index_keeps_the_low_32_bits() {
    assert_eq!(account_index_from_u64(5), 5);
    assert_eq!(account_index_from_u64(0x1_0000_0005), 5);
}

#[test]
fn submission_runs_through_its_requests() {
    let headers = vec![QueuedHeader::new(header(10)), QueuedHeader::new(header(11))];
    assert_eq!(headers_ids(&headers), vec![HeaderId(10, hash_of(10)), HeaderId(11, hash_of(11))]);
    let (submission, request) = HeadersSubmission::start(&headers);
    assert_eq!(request, SubmissionRequest::BlockHash(0));
    let (submission, request) = match submission.on_response(SubmissionResponse::BlockHash(answer(&[3u8; 32]))) {
        SubmissionProgress::Request(submission, request) => (submission, request),
        SubmissionProgress::Finished(_) => panic!("submission must go on"),
    };
    assert_eq!(request, SubmissionRequest::AccountIndex);
    let (submission, request) = match submission.on_response(SubmissionResponse::AccountIndex(Ok(7))) {
        SubmissionProgress::Request(submission, request) => (submission, request),
        SubmissionProgress::Finished(_) => panic!("submission must go on"),
    };
    assert_eq!(request, SubmissionRequest::SubmitTransaction { genesis_hash: hash_of(3), index: 7 });
    assert!(matches!(submission.stage, SubmissionStage::AwaitTransactionHash));
    match submission.on_response(SubmissionResponse::TransactionHash(answer(&[4u8; 32]))) {
        SubmissionProgress::Finished(result) => assert_eq!(
            result,
            Ok((hash_of(4), vec![HeaderId(10, hash_of(10)), HeaderId(11, hash_of(11))]))
        ),
        SubmissionProgress::Request(..) => panic!("submission must be over"),
    }
}

#[test]
fn submission_stops_at_the_first_error() {
    let headers = vec![QueuedHeader::new(header(10))];
    let (submission, _) = HeadersSubmission::start(&headers);
    match submission.on_response(SubmissionResponse::BlockHash(answer(&[1u8; 31]))) {
        SubmissionProgress::Finished(result) => assert_eq!(result, Err(RpcError::ResponseParseFailed)),
        SubmissionProgress::Request(..) => panic!("submission must be over"),
    }
    let (submission, _) = HeadersSubmission::start(&headers);
    let submission = match submission.on_response(SubmissionResponse::BlockHash(answer(&[1u8; 32]))) {
        SubmissionProgress::Request(submission, _) => submission,
        SubmissionProgress::Finished(_) => panic!("submission must go on"),
    };
    match submission.on_response(SubmissionResponse::AccountIndex(Err(RpcError::RequestNotFound))) {
        SubmissionProgress::Finished(result) => assert_eq!(result, Err(RpcError::RequestNotFound)),
        SubmissionProgress::Request(..) => panic!("submission must be over"),
    }
}

#[test]
fn import_arguments_pair_headers_with_receipts() {
    let headers = vec![
        QueuedHeader::new(header(10)).set_receipts(vec![receipt(3)]),
        QueuedHeader::new(header(11)),
    ];
    let arguments = import_headers_arguments(headers);
    assert_eq!(arguments.len(), 2);
    assert_eq!(arguments[0].0, into_substrate_ethereum_header(header(10)));
    assert_eq!(arguments[0].1, into_substrate_ethereum_receipts(Some(vec![receipt(3)])));
    assert_eq!(arguments[1].0.number, 11);
    assert_eq!(arguments[1].1, None);
}

#[test]
fn substrate_header_is_scale_encoded_field_by_field() {
    let converted = into_substrate_ethereum_header(header(10));
    let mut expected = vec![9u8; 32];
    expected.extend_from_slice(&1_577_836_800u64.to_le_bytes());
    expected.extend_from_slice(&10u64.to_le_bytes());
    expected.extend_from_slice(&[202u8; 20]);
    expected.extend_from_slice(&[204u8; 32]);
    expected.extend_from_slice(&[201u8; 32]);
    expected.extend_from_slice(&[12, 9, 8, 7]);
    expected.extend_from_slice(&[203u8; 32]);
    expected.extend_from_slice(&[205u8; 32]);
    expected.extend_from_slice(&[206u8; 256]);
    for limbs in [[1u64, 0, 0, 0], [2, 0, 0, 0], [3, 4, 0, 0]] {
        for limb in limbs {
            expected.extend_from_slice(&limb.to_le_bytes());
        }
    }
    expected.extend_from_slice(&[8, 4, 1, 8, 2, 3]);
    assert_eq!(encode_substrate_header(&converted), expected);
}

#[test]
fn long_extra_data_gets_a_two_byte_length() {
    let mut long = header(10);
    long.extra_data = vec![5u8; 64];
    let encoded = encode_substrate_header(&into_substrate_ethereum_header(long));
    let offset = 32 + 8 + 8 + 20 + 32 + 32;
    assert_eq!(&encoded[offset..offset + 2], &[0x01, 0x01]);
    assert_eq!(&encoded[offset + 2..offset + 66], &[5u8; 64][..]);
}

#[test]
fn substrate_receipt_is_scale_encoded_field_by_field() {
    let mut converted = into_substrate_ethereum_receipts(Some(vec![receipt(21000)])).unwrap().remove(0);
    let mut expected = Vec::new();
    for limb in [21000u64, 0, 0, 0] {
        expected.extend_from_slice(&limb.to_le_bytes());
    }
    expected.extend_from_slice(&[7u8; 256]);
    expected.push(8);
    expected.extend_from_slice(&[1u8; 20]);
    expected.push(8);
    expected.extend_from_slice(&[1u8; 32]);
    expected.extend_from_slice(&[2u8; 32]);
    expected.extend_from_slice(&[4, 5]);
    expected.extend_from_slice(&[2u8; 20]);
    expected.extend_from_slice(&[0, 0]);
    let mut unknown = expected.clone();
    unknown.push(0);
    assert_eq!(encode_substrate_receipt(&converted), unknown);
    converted.outcome = SubstrateEthereumTransactionOutcome::StatusCode(1);
    let mut status = expected.clone();
    status.extend_from_slice(&[2, 1]);
    assert_eq!(encode_substrate_receipt(&converted), status);
    converted.outcome = SubstrateEthereumTransactionOutcome::StateRoot(hash_of(3));
    let mut root = expected;
    root.push(1);
    root.extend_from_slice(&[3u8; 32]);
    assert_eq!(encode_substrate_receipt(&converted), root);
}

#[test]
fn receipts_are_not_sent_with_the_receipts_question() {
    let without = ethereum_receipts_required_call(QueuedHeader::new(header(10)));
    let with = ethereum_receipts_required_call(QueuedHeader::new(header(10)).set_receipts(vec![receipt(1)]));
    assert_eq!(without.data, with.data);
    assert_eq!(without.function, with.function);
}

#[test]
fn answers_are_read_as_prefixed_hex() {
    let text = |text: &str| Ok(Some(text.to_string()));
    assert_eq!(decode_answer(text("0x0aFf")), Ok(vec![0x0a, 0xff]));
    assert_eq!(decode_answer(text("0x")), Ok(vec![]));
    assert_eq!(decode_answer(text("0x0a ff\n")), Ok(vec![0x0a, 0xff]));
    assert_eq!(decode_answer(text("0x0af")), Err(RpcError::ResponseParseFailed));
    assert_eq!(decode_answer(text("0x0g")), Err(RpcError::ResponseParseFailed));
    assert_eq!(decode_answer(text("0a")), Err(RpcError::ResponseParseFailed));
    assert_eq!(decode_answer(text("é")), Err(RpcError::ResponseParseFailed));
    assert_eq!(decode_answer(Ok(None)), Err(RpcError::ResponseParseFailed));
    assert_eq!(decode_answer(Err(RpcError::RequestNotFound)), Err(RpcError::RequestNotFound));
    assert_eq!(
        best_ethereum_block_response(text("0x01")),
        Err(RpcError::ResponseParseFailed)
    );
    assert_eq!(
        ethereum_header_known_response(HeaderId(1, hash_of(1)), text("01")),
        Err(RpcError::ResponseParseFailed)
    );
}

#[test]
fn request_bytes_are_written_as_prefixed_lower_hex() {
    assert_eq!(hex_param(&[]), "0x");
    assert_eq!(hex_param(&[0x0a, 0xff, 0x00]), "0x0aff00");
    let call = ethereum_header_known_call(&HeaderId(1, hash_of(0xab)));
    let (function, data) = call.params();
    assert_eq!(function, "EthereumHeadersApi_is_known_block");
    assert_eq!(data, format!("0x{}", "ab".repeat(32)));
}
