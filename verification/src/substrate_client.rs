use vstd::prelude::*;

use crate::ethereum_types::{HeaderId, QueuedHeader, H256};
use crate::rpc_text::{
    answer_bytes, decode_answer_bytes, encode_hex_text, hex_text, prefix_is_cut_at_char,
};
use crate::scale_codec::{
    le_u64, scale_decode_bool, scale_decode_hash, scale_decode_number_and_hash, scale_encode_hash,
};
use crate::substrate_types::{
    encode_substrate_header, header_converted, header_encodable, header_encoding,
    into_substrate_ethereum_header, into_substrate_ethereum_receipts, receipt_converted,
    receipts_have_gas_used, substrate_header, SubstrateEthereumHeader, SubstrateEthereumReceipt,
    TransactionHash,
};

verus! {

/// All possible errors that can occur during interacting with Substrate node.
#[derive(Debug, PartialEq, Eq)]
pub enum RpcError {
    /// Request start failed (with the description of the transport error).
    StartRequestFailed(String),
    /// Request not found (should never occur?).
    RequestNotFound,
    /// Failed to receive response (with the description of the client error).
    ResponseRetrievalFailed(String),
    /// Failed to parse response.
    ResponseParseFailed,
}

/// RPC method that calls a function of the runtime API.
pub const STATE_CALL_METHOD: &'static str = "state_call";

/// RPC method that returns the hash of a block by its number.
pub const BLOCK_HASH_METHOD: &'static str = "chain_getBlockHash";

/// RPC method that returns the next index (nonce) of an account.
pub const ACCOUNT_NEXT_INDEX_METHOD: &'static str = "system_accountNextIndex";

/// RPC method that submits a transaction.
pub const SUBMIT_EXTRINSIC_METHOD: &'static str = "author_submitExtrinsic";

/// Decodes the answer of the runtime to the query of its best Ethereum block.
pub fn decode_best_ethereum_block(encoded: &[u8]) -> (r: Result<HeaderId, RpcError>)
    ensures
        encoded@.len() >= 40 ==> r is Ok && r->Ok_0.0 == le_u64(encoded@.subrange(0, 8))
            && r->Ok_0.1.0@ == encoded@.subrange(8, 40),
        encoded@.len() < 40 ==> r == Err::<HeaderId, RpcError>(RpcError::ResponseParseFailed),
{
    match scale_decode_number_and_hash(encoded) {
        Ok((number, hash)) => Ok(HeaderId(number, H256(hash))),
        Err(_) => Err(RpcError::ResponseParseFailed),
    }
}

/// Decodes a boolean answer of the runtime.
pub fn decode_bool(encoded: &[u8]) -> (r: Result<bool, RpcError>)
    ensures
        (encoded@.len() >= 1 && encoded@[0] <= 1) ==> r == Ok::<bool, RpcError>(encoded@[0] == 1),
        !(encoded@.len() >= 1 && encoded@[0] <= 1) ==> r == Err::<bool, RpcError>(
            RpcError::ResponseParseFailed,
        ),
{
    match scale_decode_bool(encoded) {
        Ok(value) => Ok(value),
        Err(_) => Err(RpcError::ResponseParseFailed),
    }
}

/// The bytes of the 32-byte hash that `encoded` starts with, if it is long enough.
pub open spec fn decoded_hash(encoded: Seq<u8>) -> Option<Seq<u8>> {
    if encoded.len() >= 32 {
        Some(encoded.subrange(0, 32))
    } else {
        None
    }
}

/// Decodes a 32-byte hash answered by the node.
pub fn decode_hash(encoded: &[u8]) -> (r: Result<H256, RpcError>)
    ensures
        decoded_hash(encoded@) is Some ==> r is Ok && r->Ok_0.0@ == decoded_hash(encoded@)->0,
        decoded_hash(encoded@) is None ==> r == Err::<H256, RpcError>(
            RpcError::ResponseParseFailed,
        ),
{
    match scale_decode_hash(encoded) {
        Ok(hash) => Ok(H256(hash)),
        Err(_) => Err(RpcError::ResponseParseFailed),
    }
}

/// Decoding the encoding of a hash gives the hash back.
pub proof fn lemma_hash_encoding_round_trip(hash: H256)
    ensures
        decoded_hash(hash.0@) == Some(hash.0@),
{
    assert(hash.0@.subrange(0, 32) =~= hash.0@);
}

/// Encodes the hash of a header for the query whether the runtime knows it.
pub fn encode_hash(hash: &H256) -> (r: Vec<u8>)
    ensures
        r@ == hash.0@,
{
    scale_encode_hash(&hash.0)
}

/// The answer of the node to an RPC that returns bytes: the result as text when it is a JSON
/// string, `None` when it is another JSON value, or the error of the call.
pub open spec fn answer_result(answer: Result<Option<String>, RpcError>) -> Result<Seq<u8>, RpcError> {
    match answer {
        Err(err) => Err(err),
        Ok(None) => Err(RpcError::ResponseParseFailed),
        Ok(Some(text)) => match answer_bytes(text@) {
            Some(bytes) => Ok(bytes),
            None => Err(RpcError::ResponseParseFailed),
        },
    }
}

/// The text of the answer, if any, can be read without a panic.
pub open spec fn answer_readable(answer: Result<Option<String>, RpcError>) -> bool {
    answer matches Ok(Some(text)) ==> prefix_is_cut_at_char(text@)
}

/// Reads the bytes of the node's answer: an error stays, and an answer that is not a string
/// of `0x`-prefixed hexadecimal digits is a parse failure.
pub fn decode_answer(answer: Result<Option<String>, RpcError>) -> (r: Result<Vec<u8>, RpcError>)
    requires
        answer_readable(answer),
    ensures
        answer_result(answer) is Ok ==> r is Ok && r->Ok_0@ == answer_result(answer)->Ok_0,
        answer_result(answer) is Err ==> r == Err::<Vec<u8>, RpcError>(
            answer_result(answer)->Err_0,
        ),
{
    match answer {
        Err(err) => Err(err),
        Ok(None) => Err(RpcError::ResponseParseFailed),
        Ok(Some(text)) => match decode_answer_bytes(text.as_str()) {
            Some(bytes) => Ok(bytes),
            None => Err(RpcError::ResponseParseFailed),
        },
    }
}

/// Writes bytes as an RPC parameter: `0x` and two lower-case hexadecimal digits per byte.
pub fn hex_param(bytes: &[u8]) -> (r: String)
    ensures
        r@ == hex_text(bytes@),
{
    encode_hex_text(bytes)
}

/// A call of a function of the runtime API, made with the `state_call` RPC method: the name of
/// the function and its SCALE-encoded argument.
pub struct StateCall {
    /// Name of the runtime API function.
    pub function: &'static str,
    /// SCALE-encoded argument of the function.
    pub data: Vec<u8>,
}

impl StateCall {
    /// The parameters of the `state_call` RPC: the function's name and its argument in
    /// hexadecimal.
    pub fn params(&self) -> (r: (String, String))
        ensures
            r.0@ == self.function@,
            r.1@ == hex_text(self.data@),
    {
        (self.function.to_string(), hex_param(self.data.as_slice()))
    }
}

/// The call that asks the runtime for the best Ethereum block that it knows of.
pub fn best_ethereum_block_call() -> (r: StateCall)
    ensures
        r.function@ == "EthereumHeadersApi_best_block"@,
        r.data@ == Seq::<u8>::empty(),
{
    StateCall { function: "EthereumHeadersApi_best_block", data: Vec::new() }
}

/// Returns best Ethereum block that Substrate runtime knows of, from the answer to
/// [`best_ethereum_block_call`].
pub fn best_ethereum_block_response(answer: Result<Option<String>, RpcError>) -> (r: Result<
    HeaderId,
    RpcError,
>)
    requires
        answer_readable(answer),
    ensures
        answer_result(answer) is Err ==> r == Err::<HeaderId, RpcError>(
            answer_result(answer)->Err_0,
        ),
        answer_result(answer) is Ok && answer_result(answer)->Ok_0.len() >= 40 ==> r is Ok
            && r->Ok_0.0 == le_u64(answer_result(answer)->Ok_0.subrange(0, 8)) && r->Ok_0.1.0@
            == answer_result(answer)->Ok_0.subrange(8, 40),
        answer_result(answer) is Ok && answer_result(answer)->Ok_0.len() < 40 ==> r == Err::<
            HeaderId,
            RpcError,
        >(RpcError::ResponseParseFailed),
{
    match decode_answer(answer) {
        Ok(encoded) => decode_best_ethereum_block(encoded.as_slice()),
        Err(err) => Err(err),
    }
}

/// Argument of the call that asks whether importing `header` needs receipts: the SCALE
/// encoding of the header converted for Substrate.
pub open spec fn receipts_required_call_data(header: QueuedHeader) -> Seq<u8> {
    header_encoding(substrate_header(header.spec_header()))
}

/// Receipts are never sent when asking whether they are needed: two queued headers with the
/// same header, whatever their receipts, give the same call argument and the same id, so
/// the same request and, for the same answer, the same result.
pub proof fn lemma_receipts_required_call_ignores_receipts(first: QueuedHeader, second: QueuedHeader)
    requires
        first.spec_header() == second.spec_header(),
    ensures
        receipts_required_call_data(first) == receipts_required_call_data(second),
        first.spec_id() == second.spec_id(),
{
}

/// The call that asks the runtime whether importing `header` needs the receipts of its
/// transactions: its argument is the SCALE encoding of the header converted for Substrate.
pub fn ethereum_receipts_required_call(header: QueuedHeader) -> (r: StateCall)
    requires
        header.spec_header().number is Some,
        header.spec_header().timestamp.fits_u64(),
        header_encodable(substrate_header(header.spec_header())),
    ensures
        r.function@ == "EthereumHeadersApi_is_import_requires_receipts"@,
        r.data@ == receipts_required_call_data(header),
{
    let (header, _) = header.extract();
    let header = into_substrate_ethereum_header(header);
    StateCall {
        function: "EthereumHeadersApi_is_import_requires_receipts",
        data: encode_substrate_header(&header),
    }
}

/// Returns whether transactions receipts are required for the submission of the header `id`,
/// from the answer to [`ethereum_receipts_required_call`].
pub fn ethereum_receipts_required_response(
    id: HeaderId,
    answer: Result<Option<String>, RpcError>,
) -> (r: Result<(HeaderId, bool), RpcError>)
    requires
        answer_readable(answer),
    ensures
        answer_result(answer) is Err ==> r == Err::<(HeaderId, bool), RpcError>(
            answer_result(answer)->Err_0,
        ),
        answer_result(answer) is Ok ==> r == match decode_bool_spec(answer_result(answer)->Ok_0) {
            Some(required) => Ok::<(HeaderId, bool), RpcError>((id, required)),
            None => Err(RpcError::ResponseParseFailed),
        },
{
    match decode_answer(answer) {
        Ok(encoded) => match decode_bool(encoded.as_slice()) {
            Ok(required) => Ok((id, required)),
            Err(err) => Err(err),
        },
        Err(err) => Err(err),
    }
}

/// The call that asks the runtime whether it knows the Ethereum header `id`.
pub fn ethereum_header_known_call(id: &HeaderId) -> (r: StateCall)
    ensures
        r.function@ == "EthereumHeadersApi_is_known_block"@,
        r.data@ == id.1.0@,
{
    StateCall { function: "EthereumHeadersApi_is_known_block", data: encode_hash(&id.1) }
}

/// Returns whether the Ethereum header `id` is known to Substrate runtime, from the answer to
/// [`ethereum_header_known_call`].
pub fn ethereum_header_known_response(
    id: HeaderId,
    answer: Result<Option<String>, RpcError>,
) -> (r: Result<(HeaderId, bool), RpcError>)
    requires
        answer_readable(answer),
    ensures
        answer_result(answer) is Err ==> r == Err::<(HeaderId, bool), RpcError>(
            answer_result(answer)->Err_0,
        ),
        answer_result(answer) is Ok ==> r == match decode_bool_spec(answer_result(answer)->Ok_0) {
            Some(known) => Ok::<(HeaderId, bool), RpcError>((id, known)),
            None => Err(RpcError::ResponseParseFailed),
        },
{
    match decode_answer(answer) {
        Ok(encoded) => match decode_bool(encoded.as_slice()) {
            Ok(known) => Ok((id, known)),
            Err(err) => Err(err),
        },
        Err(err) => Err(err),
    }
}

/// The boolean that `encoded` starts with, if it does.
pub open spec fn decode_bool_spec(encoded: Seq<u8>) -> Option<bool> {
    if encoded.len() >= 1 && encoded[0] <= 1 {
        Some(encoded[0] == 1)
    } else {
        None
    }
}

/// Account index (nonce) of Substrate, from the number that the node answers.
pub fn account_index_from_u64(index: u64) -> (r: u32)
    ensures
        r == index % 0x1_0000_0000,
{
    let r = #[verifier::truncate] (index as u32);
    assert(r == index % 0x1_0000_0000) by (bit_vector)
        requires
            r == #[verifier::truncate] (index as u32),
    ;
    r
}

/// Ids of the headers, in their order.
pub fn headers_ids(headers: &Vec<QueuedHeader>) -> (r: Vec<HeaderId>)
    requires
        forall|i: int| 0 <= i < headers@.len() ==> (#[trigger] headers@[i]).has_id(),
    ensures
        r@.len() == headers@.len(),
        forall|i: int| 0 <= i < headers@.len() ==> #[trigger] r@[i] == headers@[i].spec_id(),
{
    let mut ids: Vec<HeaderId> = Vec::new();
    for i in 0..headers.len()
        invariant
            forall|j: int| 0 <= j < headers@.len() ==> (#[trigger] headers@[j]).has_id(),
            ids@.len() == i,
            forall|j: int| 0 <= j < i ==> #[trigger] ids@[j] == headers@[j].spec_id(),
    {
        ids.push(headers[i].id());
    }
    ids
}

/// A queued header can be converted for the Substrate runtime: number filled, timestamp
/// within 64 bits, and gas usage filled in every receipt.
pub open spec fn is_importable(header: QueuedHeader) -> bool {
    &&& header.spec_header().number is Some
    &&& header.spec_header().timestamp.fits_u64()
    &&& header.spec_receipts() is Some ==> receipts_have_gas_used(header.spec_receipts()->0@)
}

/// `argument` is the queued header `header` with its receipts, both converted for Substrate.
pub open spec fn import_argument_converted(
    argument: (SubstrateEthereumHeader, Option<Vec<SubstrateEthereumReceipt>>),
    header: QueuedHeader,
) -> bool {
    &&& header_converted(argument.0, header.spec_header())
    &&& argument.1 is Some == header.spec_receipts() is Some
    &&& argument.1 is Some ==> {
        &&& argument.1->0@.len() == header.spec_receipts()->0@.len()
        &&& forall|k: int|
            0 <= k < argument.1->0@.len() ==> receipt_converted(
                #[trigger] argument.1->0@[k],
                header.spec_receipts()->0@[k],
            )
    }
}

/// Arguments of the runtime call that imports `headers`: every header with its receipts, both
/// converted for Substrate, in the order of `headers`.
pub fn import_headers_arguments(headers: Vec<QueuedHeader>) -> (r: Vec<
    (SubstrateEthereumHeader, Option<Vec<SubstrateEthereumReceipt>>),
>)
    requires
        forall|i: int| 0 <= i < headers@.len() ==> is_importable(#[trigger] headers@[i]),
    ensures
        r@.len() == headers@.len(),
        forall|i: int|
            0 <= i < headers@.len() ==> import_argument_converted(#[trigger] r@[i], headers@[i]),
{
    let mut arguments: Vec<(SubstrateEthereumHeader, Option<Vec<SubstrateEthereumReceipt>>)> =
        Vec::new();
    for header in it: headers.into_iter()
        invariant
            forall|i: int| 0 <= i < headers@.len() ==> is_importable(#[trigger] headers@[i]),
            arguments@.len() == it.index(),
            forall|i: int|
                0 <= i < it.index() ==> import_argument_converted(
                    #[trigger] arguments@[i],
                    it.seq()[i],
                ),
    {
        let (header, receipts) = header.extract();
        arguments.push(
            (into_substrate_ethereum_header(header), into_substrate_ethereum_receipts(receipts)),
        );
    }
    arguments
}

/// Stage of the submission of headers to the Substrate runtime.
pub enum SubmissionStage {
    /// Waiting for the hash of the genesis block of Substrate.
    AwaitGenesisHash,
    /// Waiting for the next index (nonce) of the submitting account.
    AwaitAccountIndex {
        /// Hash of the genesis block of Substrate.
        genesis_hash: H256,
    },
    /// Waiting for the hash of the submitted transaction.
    AwaitTransactionHash,
}

/// Request that the submission of headers needs answered.
#[derive(Debug, PartialEq, Eq)]
pub enum SubmissionRequest {
    /// Hash of the Substrate block with this number.
    BlockHash(u64),
    /// Next index (nonce) of the submitting account.
    AccountIndex,
    /// Submit the transaction that imports the headers, signed for Substrate.
    SubmitTransaction {
        /// Hash of the genesis block of Substrate.
        genesis_hash: H256,
        /// Index (nonce) of the submitting account.
        index: u32,
    },
}

/// Answer to a [`SubmissionRequest`].
pub enum SubmissionResponse {
    /// The answer with the SCALE-encoded hash of a block.
    BlockHash(Result<Option<String>, RpcError>),
    /// The next index of the submitting account, or the error of its RPC.
    AccountIndex(Result<u64, RpcError>),
    /// The answer with the SCALE-encoded hash of the submitted transaction.
    TransactionHash(Result<Option<String>, RpcError>),
}

/// Submission of Ethereum headers to Substrate runtime: the ids of the headers and the stage
/// it has reached.
pub struct HeadersSubmission {
    /// Ids of the submitted headers.
    pub ids: Vec<HeaderId>,
    /// Stage of the submission.
    pub stage: SubmissionStage,
}

/// What follows a response in the submission of headers.
pub enum SubmissionProgress {
    /// The submission goes on with this request.
    Request(HeadersSubmission, SubmissionRequest),
    /// The submission is over: the transaction hash and the ids of the headers, or the error.
    Finished(Result<(TransactionHash, Vec<HeaderId>), RpcError>),
}

/// The response answers a request of the stage.
pub open spec fn response_fits_stage(stage: SubmissionStage, response: SubmissionResponse) -> bool {
    match stage {
        SubmissionStage::AwaitGenesisHash => response is BlockHash,
        SubmissionStage::AwaitAccountIndex { .. } => response is AccountIndex,
        SubmissionStage::AwaitTransactionHash => response is TransactionHash,
    }
}

/// The text of the response, if any, can be read without a panic.
pub open spec fn response_readable(response: SubmissionResponse) -> bool {
    match response {
        SubmissionResponse::BlockHash(answer) => answer_readable(answer),
        SubmissionResponse::AccountIndex(_) => true,
        SubmissionResponse::TransactionHash(answer) => answer_readable(answer),
    }
}

/// `progress` finishes with `err`.
pub open spec fn finished_with_error(progress: SubmissionProgress, err: RpcError) -> bool {
    progress == SubmissionProgress::Finished(Err(err))
}

/// `progress` asks for the account index, having kept `ids` and learnt the genesis hash
/// `genesis_hash`.
pub open spec fn requests_account_index(
    progress: SubmissionProgress,
    ids: Vec<HeaderId>,
    genesis_hash: Seq<u8>,
) -> bool {
    match progress {
        SubmissionProgress::Request(next, request) => {
            &&& next.ids == ids
            &&& request == SubmissionRequest::AccountIndex
            &&& match next.stage {
                SubmissionStage::AwaitAccountIndex { genesis_hash: hash } => hash.0@ == genesis_hash,
                _ => false,
            }
        },
        _ => false,
    }
}

/// `progress` asks to submit the transaction with `genesis_hash` and `index`, having kept
/// `ids`.
pub open spec fn requests_transaction(
    progress: SubmissionProgress,
    ids: Vec<HeaderId>,
    genesis_hash: H256,
    index: u32,
) -> bool {
    match progress {
        SubmissionProgress::Request(next, request) => {
            &&& next.ids == ids
            &&& next.stage == SubmissionStage::AwaitTransactionHash
            &&& request == (SubmissionRequest::SubmitTransaction { genesis_hash, index })
        },
        _ => false,
    }
}

/// `progress` ends the submission with the transaction hash `hash` and the ids `ids`.
pub open spec fn finished_with_hash(progress: SubmissionProgress, hash: Seq<u8>, ids: Vec<HeaderId>) -> bool {
    match progress {
        SubmissionProgress::Finished(Ok((transaction_hash, submitted))) => {
            &&& transaction_hash.0@ == hash
            &&& submitted == ids
        },
        _ => false,
    }
}

impl HeadersSubmission {
    /// Starts the submission of `headers`: its first request is the hash of the genesis block.
    pub fn start(headers: &Vec<QueuedHeader>) -> (r: (HeadersSubmission, SubmissionRequest))
        requires
            forall|i: int| 0 <= i < headers@.len() ==> (#[trigger] headers@[i]).has_id(),
        ensures
            r.0.ids@.len() == headers@.len(),
            forall|i: int| 0 <= i < headers@.len() ==> #[trigger] r.0.ids@[i] == headers@[i].spec_id(),
            r.0.stage == SubmissionStage::AwaitGenesisHash,
            r.1 == SubmissionRequest::BlockHash(0),
    {
        (
            HeadersSubmission { ids: headers_ids(headers), stage: SubmissionStage::AwaitGenesisHash },
            SubmissionRequest::BlockHash(0),
        )
    }

    /// Takes the answer to the last request: an error ends the submission with that error;
    /// the genesis hash leads to the request of the account index, the account index to the
    /// transaction, and the transaction hash ends the submission with the ids of the headers.
    pub fn on_response(self, response: SubmissionResponse) -> (r: SubmissionProgress)
        requires
            response_fits_stage(self.stage, response),
            response_readable(response),
        ensures
            match response {
                SubmissionResponse::BlockHash(answer) => match answer_result(answer) {
                    Err(err) => finished_with_error(r, err),
                    Ok(encoded) => if encoded.len() >= 32 {
                        requests_account_index(r, self.ids, encoded.subrange(0, 32))
                    } else {
                        finished_with_error(r, RpcError::ResponseParseFailed)
                    },
                },
                SubmissionResponse::AccountIndex(Err(err)) => finished_with_error(r, err),
                SubmissionResponse::AccountIndex(Ok(index)) => requests_transaction(
                    r,
                    self.ids,
                    self.stage->genesis_hash,
                    (index % 0x1_0000_0000) as u32,
                ),
                SubmissionResponse::TransactionHash(answer) => match answer_result(answer) {
                    Err(err) => finished_with_error(r, err),
                    Ok(encoded) => if encoded.len() >= 32 {
                        finished_with_hash(r, encoded.subrange(0, 32), self.ids)
                    } else {
                        finished_with_error(r, RpcError::ResponseParseFailed)
                    },
                },
            },
    {
        match response {
            SubmissionResponse::BlockHash(answer) => match decode_answer(answer) {
                Ok(encoded) => match decode_hash(encoded.as_slice()) {
                    Ok(genesis_hash) => SubmissionProgress::Request(
                        HeadersSubmission {
                            ids: self.ids,
                            stage: SubmissionStage::AwaitAccountIndex { genesis_hash },
                        },
                        SubmissionRequest::AccountIndex,
                    ),
                    Err(err) => SubmissionProgress::Finished(Err(err)),
                },
                Err(err) => SubmissionProgress::Finished(Err(err)),
            },
            SubmissionResponse::AccountIndex(Ok(index)) => {
                let genesis_hash = match self.stage {
                    SubmissionStage::AwaitAccountIndex { genesis_hash } => genesis_hash,
                    _ => H256([0u8; 32]),
                };
                SubmissionProgress::Request(
                    HeadersSubmission { ids: self.ids, stage: SubmissionStage::AwaitTransactionHash },
                    SubmissionRequest::SubmitTransaction {
                        genesis_hash,
                        index: account_index_from_u64(index),
                    },
                )
            },
            SubmissionResponse::AccountIndex(Err(err)) => SubmissionProgress::Finished(Err(err)),
            SubmissionResponse::TransactionHash(answer) => match decode_answer(answer) {
                Ok(encoded) => match decode_hash(encoded.as_slice()) {
                    Ok(hash) => SubmissionProgress::Finished(Ok((hash, self.ids))),
                    Err(err) => SubmissionProgress::Finished(Err(err)),
                },
                Err(err) => SubmissionProgress::Finished(Err(err)),
            },
        }
    }
}

} // verus!
