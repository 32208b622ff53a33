//! The JSON-RPC interface: the wire types and what each method answers.
//!
//! A call that needs nothing but the current block is answered at once. One that hands a
//! transaction to the sequencer or asks the database stops there, and goes on when the caller
//! brings the outcome.
use crate::json::{Json, JsonNumber, JsonView};
use crate::ledger::{Digest, Pubkey, Signature, Transaction, TransactionView};
use crate::rollupdb::{FrontendMessage, FrontendMessageView};
use crate::service::{RollupDBMessage, RollupDBMessageView};
use crate::solana::{
    base64_decode, hash_from_text, hash_signature, hash_to_text, pubkey_from_text,
    signature_from_text, signature_to_text, transaction_from_bytes,
};
use crate::text::decimal_text;
use std::collections::VecDeque;
use vstd::prelude::*;
use vstd::string::StringExecFns;

verus! {

/// The block that the node stands at.
#[derive(Debug, Clone, Copy, PartialEq, Eq)]
pub struct BlockInfo {
    pub blockhash: Digest,
    pub slot: u64,
    pub last_valid_block_height: u64,
    pub block_height: u64,
}

/// What a [`BlockInfo`] holds.
pub struct BlockInfoView {
    pub blockhash: Seq<u8>,
    pub slot: u64,
    pub last_valid_block_height: u64,
    pub block_height: u64,
}

impl View for BlockInfo {
    type V = BlockInfoView;

    open spec fn view(&self) -> BlockInfoView {
        BlockInfoView {
            blockhash: self.blockhash@,
            slot: self.slot,
            last_valid_block_height: self.last_valid_block_height,
            block_height: self.block_height,
        }
    }
}

/// One call.
#[derive(Debug, PartialEq, Eq)]
pub struct RpcRequest {
    pub jsonrpc: Option<String>,
    pub id: Option<Json>,
    pub method: String,
    pub params: Json,
}

/// What an [`RpcRequest`] holds.
pub struct RpcRequestView {
    pub jsonrpc: Option<Seq<char>>,
    pub id: Option<JsonView>,
    pub method: Seq<char>,
    pub params: JsonView,
}

impl View for RpcRequest {
    type V = RpcRequestView;

    open spec fn view(&self) -> RpcRequestView {
        RpcRequestView {
            jsonrpc: self.jsonrpc.deep_view(),
            id: self.id.deep_view(),
            method: self.method@,
            params: self.params@,
        }
    }
}

impl DeepView for RpcRequest {
    type V = RpcRequestView;

    open spec fn deep_view(&self) -> RpcRequestView {
        self@
    }
}

/// What one body asks for.
#[derive(Debug, PartialEq, Eq)]
pub enum RpcCall {
    Single(RpcRequest),
    Batch(Vec<RpcRequest>),
}

/// What an [`RpcCall`] holds.
pub enum RpcCallView {
    Single(RpcRequestView),
    Batch(Seq<RpcRequestView>),
}

impl View for RpcCall {
    type V = RpcCallView;

    open spec fn view(&self) -> RpcCallView {
        match self {
            RpcCall::Single(request) => RpcCallView::Single(request@),
            RpcCall::Batch(requests) => RpcCallView::Batch(requests.deep_view()),
        }
    }
}

impl DeepView for RpcCall {
    type V = RpcCallView;

    open spec fn deep_view(&self) -> RpcCallView {
        self@
    }
}

/// Why a call was not answered with a result.
#[derive(Debug, PartialEq, Eq)]
pub struct RpcError {
    pub code: i64,
    pub message: String,
    pub data: Option<Json>,
}

/// What an [`RpcError`] holds.
pub struct RpcErrorView {
    pub code: i64,
    pub message: Seq<char>,
    pub data: Option<JsonView>,
}

impl View for RpcError {
    type V = RpcErrorView;

    open spec fn view(&self) -> RpcErrorView {
        RpcErrorView { code: self.code, message: self.message@, data: self.data.deep_view() }
    }
}

impl DeepView for RpcError {
    type V = RpcErrorView;

    open spec fn deep_view(&self) -> RpcErrorView {
        self@
    }
}

/// The answer to one call.
#[derive(Debug, PartialEq, Eq)]
pub struct RpcResponse {
    pub jsonrpc: &'static str,
    pub id: Option<Json>,
    pub result: Option<Json>,
    pub error: Option<RpcError>,
}

/// What an [`RpcResponse`] holds.
pub struct RpcResponseView {
    pub jsonrpc: Seq<char>,
    pub id: Option<JsonView>,
    pub result: Option<JsonView>,
    pub error: Option<RpcErrorView>,
}

impl View for RpcResponse {
    type V = RpcResponseView;

    open spec fn view(&self) -> RpcResponseView {
        RpcResponseView {
            jsonrpc: self.jsonrpc@,
            id: self.id.deep_view(),
            result: self.result.deep_view(),
            error: self.error.deep_view(),
        }
    }
}

impl DeepView for RpcResponse {
    type V = RpcResponseView;

    open spec fn deep_view(&self) -> RpcResponseView {
        self@
    }
}

/// The text of the body is no call.
pub const PARSE_ERROR: i64 = -32700;

/// There is no method of that name.
pub const METHOD_NOT_FOUND: i64 = -32601;

/// The parameters do not fit the method.
pub const INVALID_PARAMS: i64 = -32602;

/// The transaction cannot be taken.
pub const SERVER_ERROR: i64 = -32000;

impl RpcResponseView {
    /// The answer that gives a result.
    pub open spec fn ok(id: Option<JsonView>, result: JsonView) -> Self {
        RpcResponseView { jsonrpc: "2.0"@, id, result: Some(result), error: None }
    }

    /// The answer that tells of an error.
    pub open spec fn err(
        id: Option<JsonView>,
        code: i64,
        message: Seq<char>,
        data: Option<JsonView>,
    ) -> Self {
        RpcResponseView {
            jsonrpc: "2.0"@,
            id,
            result: None,
            error: Some(RpcErrorView { code, message, data }),
        }
    }
}

/// The answer that gives a result.
pub fn ok(id: Option<Json>, result: Json) -> (response: RpcResponse)
    ensures
        response@ == RpcResponseView::ok(id.deep_view(), result@),
{
    RpcResponse { jsonrpc: "2.0", id, result: Some(result), error: None }
}

/// The answer that tells of an error.
pub fn err(id: Option<Json>, code: i64, message: String, data: Option<Json>) -> (response:
    RpcResponse)
    ensures
        response@ == RpcResponseView::err(id.deep_view(), code, message@, data.deep_view()),
{
    RpcResponse { jsonrpc: "2.0", id, result: None, error: Some(RpcError { code, message, data }) }
}

/// The parameter at position `idx`, which has to be a string, or else what to say about it.
pub open spec fn string_param(params: JsonView, idx: nat) -> Result<Seq<char>, Seq<char>> {
    match params.at(idx as int) {
        Some(JsonView::Str(text)) => Ok(text),
        _ => Err("param["@ + crate::text::decimal(idx) + "] must be string"@),
    }
}

/// The strings among the elements of the parameter at position `idx`, which has to be an array, or
/// else what to say about it.
pub open spec fn strings_param(params: JsonView, idx: nat) -> Result<Seq<Seq<char>>, Seq<char>> {
    match params.at(idx as int) {
        Some(JsonView::Array(items)) => Ok(strings_of(items)),
        _ => Err("param["@ + crate::text::decimal(idx) + "] must be array of strings"@),
    }
}

/// The texts of the strings among the values, in their order.
pub open spec fn strings_of(items: Seq<JsonView>) -> Seq<Seq<char>> {
    items.filter(|item: JsonView| item is Str).map_values(|item: JsonView| item->Str_0)
}

/// Reads the parameter at position `idx`, which has to be a string.
pub fn parse_string(params: &Json, idx: usize) -> (parsed: Result<String, String>)
    ensures
        match parsed {
            Ok(text) => string_param(params@, idx as nat) == Ok::<Seq<char>, Seq<char>>(text@),
            Err(message) => string_param(params@, idx as nat) == Err::<Seq<char>, Seq<char>>(
                message@,
            ),
        },
{
    if let Some(param) = params.at(idx) {
        if let Some(text) = param.as_str() {
            return Ok(text.clone());
        }
    }
    Err("param[".to_owned().concat(decimal_text(idx).as_str()).concat("] must be string"))
}

/// Reads the parameter at position `idx`, which has to be an array; what is no string in it is
/// passed over.
pub fn parse_vec_strings(params: &Json, idx: usize) -> (parsed: Result<Vec<String>, String>)
    ensures
        match parsed {
            Ok(texts) => strings_param(params@, idx as nat) == Ok::<Seq<Seq<char>>, Seq<char>>(
                texts.deep_view(),
            ),
            Err(message) => strings_param(params@, idx as nat) == Err::<
                Seq<Seq<char>>,
                Seq<char>,
            >(message@),
        },
{
    if let Some(param) = params.at(idx) {
        if let Some(items) = param.as_array() {
            let ghost models = items.deep_view();
            let mut texts: Vec<String> = Vec::new();
            let mut i: usize = 0;
            proof {
                reveal(Seq::filter);
                assert(texts.deep_view() =~= strings_of(models.take(0)));
            }
            while i < items.len()
                invariant
                    i <= items@.len(),
                    models == items.deep_view(),
                    texts.deep_view() == strings_of(models.take(i as int)),
                decreases items@.len() - i,
            {
                let ghost before = texts.deep_view();
                proof {
                    assert(models.take(i + 1).drop_last() =~= models.take(i as int));
                    assert(models.take(i + 1).last() == items@[i as int]@);
                    reveal(Seq::filter);
                }
                match items[i].as_str() {
                    Some(text) => {
                        texts.push(text.clone());
                        assert(texts.deep_view() =~= before.push(text@));
                        assert(strings_of(models.take(i + 1)) =~= before.push(text@));
                    },
                    None => {
                        assert(strings_of(models.take(i + 1)) =~= before);
                    },
                }
                i = i + 1;
            }
            assert(models.take(i as int) =~= models);
            return Ok(texts);
        }
    }
    Err("param[".to_owned().concat(decimal_text(idx).as_str()).concat("] must be array of strings"))
}

/// A number from zero up.
pub open spec fn number(n: u64) -> JsonView {
    JsonView::Number(JsonNumber::PosInt(n))
}

/// A value together with the slot that it belongs to.
pub open spec fn in_context(slot: u64, value: JsonView) -> JsonView {
    JsonView::Object(
        seq![
            ("context"@, JsonView::Object(seq![("slot"@, number(slot))])),
            ("value"@, value),
        ],
    )
}

fn number_json(n: u64) -> (json: Json)
    ensures
        json@ == number(n),
{
    Json::Number(JsonNumber::PosInt(n))
}

fn text_json(text: &str) -> (json: Json)
    ensures
        json@ == JsonView::Str(text@),
{
    Json::Str(text.to_owned())
}

fn context_json(slot: u64, value: Json) -> (json: Json)
    ensures
        json@ == in_context(slot, value@),
{
    let context = Json::object().with("slot", number_json(slot));
    let json = Json::object().with("context", context).with("value", value);
    assert(json@->Object_0 =~= in_context(slot, value@)->Object_0);
    json
}

/// An object whose only field is a text.
pub open spec fn text_field(name: Seq<char>, text: Seq<char>) -> JsonView {
    JsonView::Object(seq![(name, JsonView::Str(text))])
}

fn text_field_json(name: &str, text: String) -> (json: Json)
    ensures
        json@ == text_field(name@, text@),
{
    Json::object().with(name, Json::Str(text))
}

/// The answer to `getVersion`.
pub open spec fn version_response(info: BlockInfoView, id: Option<JsonView>) -> RpcResponseView {
    RpcResponseView::ok(
        id,
        JsonView::Object(
            seq![
                ("solana-core"@, JsonView::Str("rollup-0.1"@)),
                ("feature-set"@, number(0)),
                ("slot"@, number(info.slot)),
            ],
        ),
    )
}

/// Answers `getVersion`.
pub fn method_get_version(info: &BlockInfo, id: Option<Json>) -> (response: RpcResponse)
    ensures
        response@ == version_response(info@, id.deep_view()),
{
    let version = Json::object().with("solana-core", text_json("rollup-0.1")).with(
        "feature-set",
        number_json(0),
    ).with("slot", number_json(info.slot));
    assert(version@->Object_0 =~= version_response(info@, None).result->0->Object_0);
    ok(id, version)
}

/// The answer to `getLatestBlockhash` where `blockhash` is the text of the current hash.
pub open spec fn latest_blockhash_response(
    info: BlockInfoView,
    id: Option<JsonView>,
    blockhash: Seq<char>,
) -> RpcResponseView {
    RpcResponseView::ok(
        id,
        in_context(
            info.slot,
            JsonView::Object(
                seq![
                    ("blockhash"@, JsonView::Str(blockhash)),
                    ("lastValidBlockHeight"@, number(info.last_valid_block_height)),
                ],
            ),
        ),
    )
}

/// Answers `getLatestBlockhash` where `blockhash` is the text of the current hash.
pub fn answer_latest_blockhash(info: &BlockInfo, id: Option<Json>, blockhash: String) -> (response:
    RpcResponse)
    ensures
        response@ == latest_blockhash_response(info@, id.deep_view(), blockhash@),
{
    let value = Json::object().with("blockhash", Json::Str(blockhash)).with(
        "lastValidBlockHeight",
        number_json(info.last_valid_block_height),
    );
    assert(value@->Object_0 =~= seq![
        ("blockhash"@, JsonView::Str(blockhash@)),
        ("lastValidBlockHeight"@, number(info.last_valid_block_height)),
    ]);
    ok(id, context_json(info.slot, value))
}

/// Answers `getLatestBlockhash`. The text that it gives denotes the current hash.
pub fn method_get_latest_blockhash(info: &BlockInfo, id: Option<Json>) -> (response: RpcResponse)
    ensures
        response@ == latest_blockhash_response(
            info@,
            id.deep_view(),
            crate::solana::hash_text(info@.blockhash),
        ),
        crate::solana::hash_of_text(crate::solana::hash_text(info@.blockhash)) == Some(
            info@.blockhash,
        ),
{
    answer_latest_blockhash(info, id, hash_to_text(&info.blockhash))
}

/// The answer to `isBlockhashValid` for `asked`, where `parsed` is the hash that it denotes and
/// `current` is the text of the current hash.
pub open spec fn blockhash_validity_response(
    info: BlockInfoView,
    id: Option<JsonView>,
    asked: Seq<char>,
    parsed: Option<Seq<u8>>,
    current: Seq<char>,
) -> RpcResponseView {
    RpcResponseView::ok(
        id,
        in_context(info.slot, JsonView::Bool(parsed is Some && asked == current)),
    )
}

/// Answers `isBlockhashValid` for `asked`, where `parsed` is the hash that it denotes and `current`
/// is the text of the current hash.
pub fn answer_blockhash_validity(
    info: &BlockInfo,
    id: Option<Json>,
    asked: String,
    parsed: Option<Digest>,
    current: String,
) -> (response: RpcResponse)
    ensures
        response@ == blockhash_validity_response(
            info@,
            id.deep_view(),
            asked@,
            parsed.deep_view(),
            current@,
        ),
{
    let valid = parsed.is_some() && asked == current;
    ok(id, context_json(info.slot, Json::Bool(valid)))
}

/// What `isBlockhashValid` answers.
pub open spec fn is_blockhash_valid(
    info: BlockInfoView,
    id: Option<JsonView>,
    params: JsonView,
) -> RpcResponseView {
    match string_param(params, 0) {
        Ok(asked) => blockhash_validity_response(
            info,
            id,
            asked,
            crate::solana::hash_of_text(asked),
            crate::solana::hash_text(info.blockhash),
        ),
        Err(message) => RpcResponseView::err(id, INVALID_PARAMS, message, None),
    }
}

/// Answers `isBlockhashValid`. The text that `getLatestBlockhash` gives is valid as long as its
/// block is the current one.
pub fn method_is_blockhash_valid(info: &BlockInfo, id: Option<Json>, params: Json) -> (response:
    RpcResponse)
    ensures
        response@ == is_blockhash_valid(info@, id.deep_view(), params@),
        string_param(params@, 0) == Ok::<Seq<char>, Seq<char>>(
            crate::solana::hash_text(info@.blockhash),
        ) ==> response@ == RpcResponseView::ok(
            id.deep_view(),
            in_context(info@.slot, JsonView::Bool(true)),
        ),
        crate::solana::hash_of_text(crate::solana::hash_text(info@.blockhash)) == Some(
            info@.blockhash,
        ),
{
    let current = hash_to_text(&info.blockhash);
    let asked = match parse_string(&params, 0) {
        Ok(asked) => asked,
        Err(message) => return err(id, INVALID_PARAMS, message, None),
    };
    let parsed = hash_from_text(asked.as_str());
    answer_blockhash_validity(info, id, asked, parsed, current)
}

/// The key that a method is called with, as far as it can be read: the first parameter has to be
/// the text of a public key.
pub open spec fn key_param(params: JsonView) -> Result<Seq<u8>, Seq<char>> {
    match string_param(params, 0) {
        Ok(text) => match crate::solana::pubkey_of_text(text) {
            Some(key) => Ok(key),
            None => Err("invalid pubkey"@),
        },
        Err(message) => Err(message),
    }
}

fn parse_pubkey(params: &Json) -> (parsed: Result<Pubkey, String>)
    ensures
        match parsed {
            Ok(key) => key_param(params@) == Ok::<Seq<u8>, Seq<char>>(key@),
            Err(message) => key_param(params@) == Err::<Seq<u8>, Seq<char>>(message@),
        },
{
    match parse_string(params, 0) {
        Ok(text) => match pubkey_from_text(text.as_str()) {
            Some(key) => Ok(key),
            None => Err("invalid pubkey".to_owned()),
        },
        Err(message) => Err(message),
    }
}

/// The answer to `getBalance`, where `key` tells whether the key could be read: no account has any
/// lamports.
pub open spec fn balance_response(
    info: BlockInfoView,
    id: Option<JsonView>,
    key: Result<Seq<u8>, Seq<char>>,
) -> RpcResponseView {
    match key {
        Ok(_) => RpcResponseView::ok(id, in_context(info.slot, number(0))),
        Err(message) => RpcResponseView::err(id, INVALID_PARAMS, message, None),
    }
}

/// Answers `getBalance`, where `key` tells whether the key could be read.
pub fn answer_balance(info: &BlockInfo, id: Option<Json>, key: Result<Pubkey, String>) -> (response:
    RpcResponse)
    ensures
        response@ == balance_response(
            info@,
            id.deep_view(),
            match key {
                Ok(key) => Ok(key@),
                Err(message) => Err(message@),
            },
        ),
{
    match key {
        Ok(_) => ok(id, context_json(info.slot, number_json(0))),
        Err(message) => err(id, INVALID_PARAMS, message, None),
    }
}

/// Answers `getBalance`.
pub fn method_get_balance(info: &BlockInfo, id: Option<Json>, params: Json) -> (response:
    RpcResponse)
    ensures
        response@ == balance_response(info@, id.deep_view(), key_param(params@)),
{
    answer_balance(info, id, parse_pubkey(&params))
}

/// What `getAccountInfo` shows of every account: an empty account of the system program.
pub open spec fn empty_account() -> JsonView {
    JsonView::Object(
        seq![
            ("lamports"@, number(0)),
            ("owner"@, JsonView::Str("11111111111111111111111111111111"@)),
            ("executable"@, JsonView::Bool(false)),
            ("rentEpoch"@, number(0)),
            ("data"@, JsonView::Array(seq![JsonView::Str(""@), JsonView::Str("base64"@)])),
        ],
    )
}

fn empty_account_json() -> (json: Json)
    ensures
        json@ == empty_account(),
{
    let data = Json::Array(vec![text_json(""), text_json("base64")]);
    assert(data@->Array_0 =~= seq![JsonView::Str(""@), JsonView::Str("base64"@)]);
    let json = Json::object().with("lamports", number_json(0)).with(
        "owner",
        text_json("11111111111111111111111111111111"),
    ).with("executable", Json::Bool(false)).with("rentEpoch", number_json(0)).with("data", data);
    assert(json@->Object_0 =~= empty_account()->Object_0);
    json
}

/// The answer to `getAccountInfo`, where `key` tells whether the key could be read.
pub open spec fn account_info_response(
    info: BlockInfoView,
    id: Option<JsonView>,
    key: Result<Seq<u8>, Seq<char>>,
) -> RpcResponseView {
    match key {
        Ok(_) => RpcResponseView::ok(id, in_context(info.slot, empty_account())),
        Err(message) => RpcResponseView::err(id, INVALID_PARAMS, message, None),
    }
}

/// Answers `getAccountInfo`, where `key` tells whether the key could be read.
pub fn answer_account_info(
    info: &BlockInfo,
    id: Option<Json>,
    key: Result<Pubkey, String>,
) -> (response: RpcResponse)
    ensures
        response@ == account_info_response(
            info@,
            id.deep_view(),
            match key {
                Ok(key) => Ok(key@),
                Err(message) => Err(message@),
            },
        ),
{
    match key {
        Ok(_) => ok(id, context_json(info.slot, empty_account_json())),
        Err(message) => err(id, INVALID_PARAMS, message, None),
    }
}

/// Answers `getAccountInfo`.
pub fn method_get_account_info(info: &BlockInfo, id: Option<Json>, params: Json) -> (response:
    RpcResponse)
    ensures
        response@ == account_info_response(info@, id.deep_view(), key_param(params@)),
{
    answer_account_info(info, id, parse_pubkey(&params))
}

/// The answer to `getMinimumBalanceForRentExemption`: no rent is charged, but the size has to be
/// given.
pub open spec fn min_rent_response(id: Option<JsonView>, params: JsonView) -> RpcResponseView {
    match params.at(0) {
        Some(JsonView::Number(JsonNumber::PosInt(_))) => RpcResponseView::ok(id, number(0)),
        _ => RpcResponseView::err(id, INVALID_PARAMS, "param[0] must be u64"@, None),
    }
}

/// Answers `getMinimumBalanceForRentExemption`.
pub fn method_get_min_rent(id: Option<Json>, params: Json) -> (response: RpcResponse)
    ensures
        response@ == min_rent_response(id.deep_view(), params@),
{
    if let Some(param) = params.at(0) {
        if param.as_u64().is_some() {
            return ok(id, number_json(0));
        }
    }
    err(id, INVALID_PARAMS, "param[0] must be u64".to_owned(), None)
}

/// Answers `getSlot`.
pub fn method_get_slot(info: &BlockInfo, id: Option<Json>) -> (response: RpcResponse)
    ensures
        response@ == RpcResponseView::ok(id.deep_view(), number(info@.slot)),
{
    ok(id, number_json(info.slot))
}

/// Answers `getBlockHeight`.
pub fn method_get_block_height(info: &BlockInfo, id: Option<Json>) -> (response: RpcResponse)
    ensures
        response@ == RpcResponseView::ok(id.deep_view(), number(info@.block_height)),
{
    ok(id, number_json(info.block_height))
}

/// A call of `sendTransaction` whose transaction is being handed to the sequencer.
#[derive(Debug, PartialEq, Eq)]
pub struct Sending {
    pub id: Option<Json>,
    /// The text of the transaction's first signature.
    pub signature: String,
}

/// What a [`Sending`] holds.
pub struct SendingView {
    pub id: Option<JsonView>,
    pub signature: Seq<char>,
}

impl View for Sending {
    type V = SendingView;

    open spec fn view(&self) -> SendingView {
        SendingView { id: self.id.deep_view(), signature: self.signature@ }
    }
}

/// A call of `getSignatureStatuses` that waits for the database to answer the question for one
/// signature: the signatures behind that one, and the statuses of those before it.
#[derive(Debug, PartialEq, Eq)]
pub struct Statuses {
    pub id: Option<Json>,
    pub rest: VecDeque<String>,
    pub statuses: Vec<Json>,
}

/// What a [`Statuses`] holds.
pub struct StatusesView {
    pub id: Option<JsonView>,
    pub rest: Seq<Seq<char>>,
    pub statuses: Seq<JsonView>,
}

impl View for Statuses {
    type V = StatusesView;

    open spec fn view(&self) -> StatusesView {
        StatusesView {
            id: self.id.deep_view(),
            rest: texts_of(self.rest@),
            statuses: self.statuses.deep_view(),
        }
    }
}

/// What the texts hold.
pub open spec fn texts_of(texts: Seq<String>) -> Seq<Seq<char>> {
    texts.map_values(|text: String| text@)
}

/// How far a call has come.
#[derive(Debug, PartialEq, Eq)]
pub enum Progress {
    /// It is answered.
    Done(RpcResponse),
    /// The transaction is to be handed to the sequencer.
    Enqueue(Transaction, Sending),
    /// The message is to be sent to the database, and its answer to be awaited.
    Query(RollupDBMessage, Statuses),
}

/// What a [`Progress`] holds.
pub enum ProgressView {
    Done(RpcResponseView),
    Enqueue(TransactionView, SendingView),
    Query(RollupDBMessageView, StatusesView),
}

impl View for Progress {
    type V = ProgressView;

    open spec fn view(&self) -> ProgressView {
        match self {
            Progress::Done(response) => ProgressView::Done(response@),
            Progress::Enqueue(tx, sending) => ProgressView::Enqueue(tx@, sending@),
            Progress::Query(message, statuses) => ProgressView::Query(message@, statuses@),
        }
    }
}

/// Whether the text that the caller of `sendTransaction` will be given denotes the first signature
/// of the transaction.
pub open spec fn names_its_signature(progress: ProgressView) -> bool {
    progress matches ProgressView::Enqueue(tx, sending) ==> crate::solana::signature_of_text(
        sending.signature,
    ) == Some(tx.signatures[0])
}

/// What comes of `sendTransaction` once its bytes were read as a transaction, or were not.
pub open spec fn send_decoded(
    id: Option<JsonView>,
    decoded: Result<TransactionView, Seq<char>>,
) -> ProgressView {
    match decoded {
        Ok(tx) => if tx.signatures.len() == 0 {
            ProgressView::Done(RpcResponseView::err(id, SERVER_ERROR, "missing signature"@, None))
        } else {
            ProgressView::Enqueue(
                tx,
                SendingView { id, signature: crate::solana::signature_text(tx.signatures[0]) },
            )
        },
        Err(detail) => ProgressView::Done(
            RpcResponseView::err(
                id,
                INVALID_PARAMS,
                "only legacy Transaction supported for now"@,
                Some(text_field("detail"@, detail)),
            ),
        ),
    }
}

/// Goes on with `sendTransaction` once its bytes were read as a transaction, or were not.
pub fn send_decoded_transaction(
    id: Option<Json>,
    decoded: Result<Transaction, String>,
) -> (progress: Progress)
    ensures
        progress@ == send_decoded(
            id.deep_view(),
            match decoded {
                Ok(tx) => Ok(tx@),
                Err(detail) => Err(detail@),
            },
        ),
        names_its_signature(progress@),
{
    let tx = match decoded {
        Ok(tx) => tx,
        Err(detail) => {
            let message = "only legacy Transaction supported for now".to_owned();
            let data = Some(text_field_json("detail", detail));
            return Progress::Done(err(id, INVALID_PARAMS, message, data));
        },
    };
    if tx.signatures.len() == 0 {
        return Progress::Done(err(id, SERVER_ERROR, "missing signature".to_owned(), None));
    }
    let signature = signature_to_text(&tx.signatures[0]);
    Progress::Enqueue(tx, Sending { id, signature })
}

/// What comes of `sendTransaction` once its parameter was read as base64, or was not.
pub open spec fn send_bytes(
    id: Option<JsonView>,
    decoded: Result<Seq<u8>, Seq<char>>,
) -> ProgressView {
    match decoded {
        Ok(bytes) => send_decoded(id, crate::solana::transaction_of_bytes(bytes)),
        Err(detail) => ProgressView::Done(
            RpcResponseView::err(
                id,
                INVALID_PARAMS,
                "invalid base64"@,
                Some(text_field("detail"@, detail)),
            ),
        ),
    }
}

/// Goes on with `sendTransaction` once its parameter was read as base64, or was not.
pub fn send_transaction_bytes(id: Option<Json>, decoded: Result<Vec<u8>, String>) -> (progress:
    Progress)
    ensures
        progress@ == send_bytes(
            id.deep_view(),
            match decoded {
                Ok(bytes) => Ok(bytes@),
                Err(detail) => Err(detail@),
            },
        ),
        names_its_signature(progress@),
{
    match decoded {
        Ok(bytes) => send_decoded_transaction(id, transaction_from_bytes(bytes.as_slice())),
        Err(detail) => {
            let data = Some(text_field_json("detail", detail));
            Progress::Done(err(id, INVALID_PARAMS, "invalid base64".to_owned(), data))
        },
    }
}

/// What comes of `sendTransaction`.
pub open spec fn send_transaction(id: Option<JsonView>, params: JsonView) -> ProgressView {
    match string_param(params, 0) {
        Ok(text) => send_bytes(id, crate::solana::base64_decoded(text)),
        Err(message) => ProgressView::Done(
            RpcResponseView::err(id, INVALID_PARAMS, message, None),
        ),
    }
}

/// Begins `sendTransaction`.
pub fn method_send_transaction(id: Option<Json>, params: Json) -> (progress: Progress)
    ensures
        progress@ == send_transaction(id.deep_view(), params@),
        names_its_signature(progress@),
{
    match parse_string(&params, 0) {
        Ok(text) => send_transaction_bytes(id, base64_decode(text.as_str())),
        Err(message) => Progress::Done(err(id, INVALID_PARAMS, message, None)),
    }
}

impl SendingView {
    /// The answer once the sequencer took the transaction, or did not.
    pub open spec fn enqueued(self, outcome: Result<(), Seq<char>>) -> RpcResponseView {
        match outcome {
            Ok(_) => RpcResponseView::ok(self.id, JsonView::Str(self.signature)),
            Err(detail) => RpcResponseView::err(
                self.id,
                SERVER_ERROR,
                "enqueue failed"@,
                Some(text_field("detail"@, detail)),
            ),
        }
    }
}

impl Sending {
    /// Answers once the sequencer took the transaction, or did not.
    pub fn enqueued(self, outcome: Result<(), String>) -> (response: RpcResponse)
        ensures
            response@ == self@.enqueued(
                match outcome {
                    Ok(_) => Ok(()),
                    Err(detail) => Err(detail@),
                },
            ),
    {
        match outcome {
            Ok(_) => ok(self.id, Json::Str(self.signature)),
            Err(detail) => {
                let data = Some(text_field_json("detail", detail));
                err(self.id, SERVER_ERROR, "enqueue failed".to_owned(), data)
            },
        }
    }
}

/// The status of a transaction that the database knows.
pub open spec fn processed_status() -> JsonView {
    JsonView::Object(
        seq![
            ("slot"@, JsonView::Null),
            ("confirmations"@, JsonView::Null),
            ("err"@, JsonView::Null),
            ("confirmationStatus"@, JsonView::Str("processed"@)),
        ],
    )
}

/// The status that an answer of the database shows, where `None` is no answer in time: that of a
/// transaction that it found, and nothing otherwise.
pub open spec fn status_of(answer: Option<FrontendMessageView>) -> JsonView {
    match answer {
        Some(message) => match message.transaction {
            Some(_) => processed_status(),
            None => JsonView::Null,
        },
        None => JsonView::Null,
    }
}

/// The status that an answer of the database shows, where `None` is no answer in time.
pub fn status_json(answer: &Option<FrontendMessage>) -> (status: Json)
    ensures
        status@ == status_of(answer.deep_view()),
{
    if let Some(message) = answer {
        if message.transaction.is_some() {
            let status = Json::object().with("slot", Json::Null).with(
                "confirmations",
                Json::Null,
            ).with("err", Json::Null).with("confirmationStatus", text_json("processed"));
            assert(status@->Object_0 =~= processed_status()->Object_0);
            return status;
        }
    }
    Json::Null
}

impl RollupDBMessageView {
    /// The question for the transaction of that hash.
    pub open spec fn get_transaction(hash: Seq<u8>) -> Self {
        RollupDBMessageView { frontend_get_tx: Some(hash), ..RollupDBMessageView::empty() }
    }
}

/// The hash under which the database is asked for the transaction of a text: that of the signature
/// that the text denotes, or else the hash that it denotes itself.
pub open spec fn status_hash(text: Seq<char>) -> Option<Seq<u8>> {
    match crate::solana::signature_of_text(text) {
        Some(signature) => Some(crate::solana::signature_hash(signature)),
        None => crate::solana::hash_of_text(text),
    }
}

/// The hash under which the database is asked for the transaction of a text, where `signature` and
/// `hash` are the signature and the hash that the text denotes, if it denotes one.
pub fn status_digest(signature: Option<Signature>, hash: Option<Digest>) -> (digest: Option<Digest>)
    ensures
        digest.deep_view() == match signature {
            Some(signature) => Some(crate::solana::signature_hash(signature@)),
            None => hash.deep_view(),
        },
{
    match signature {
        Some(signature) => Some(hash_signature(&signature)),
        None => hash,
    }
}

/// The question for the transaction of that hash; without a hash there is none.
pub fn status_question(hash: Option<Digest>) -> (question: Option<RollupDBMessage>)
    ensures
        match (hash, question) {
            (Some(hash), Some(message)) => message@ == RollupDBMessageView::get_transaction(hash@),
            (None, None) => true,
            _ => false,
        },
{
    match hash {
        Some(hash) => {
            let mut message = RollupDBMessage::empty();
            message.frontend_get_tx = Some(hash);
            Some(message)
        },
        None => None,
    }
}

/// Goes on with `getSignatureStatuses`: texts that denote neither a signature nor a hash have no
/// status, up to the first that does denote one, for which the database is asked.
pub open spec fn statuses_onward(
    id: Option<JsonView>,
    rest: Seq<Seq<char>>,
    statuses: Seq<JsonView>,
    slot: u64,
) -> ProgressView
    decreases rest.len(),
{
    if rest.len() == 0 {
        ProgressView::Done(
            RpcResponseView::ok(id, in_context(slot, JsonView::Array(statuses))),
        )
    } else {
        match status_hash(rest[0]) {
            Some(hash) => ProgressView::Query(
                RollupDBMessageView::get_transaction(hash),
                StatusesView { id, rest: rest.drop_first(), statuses },
            ),
            None => statuses_onward(id, rest.drop_first(), statuses.push(JsonView::Null), slot),
        }
    }
}

fn go_on_with_statuses(
    info: &BlockInfo,
    id: Option<Json>,
    signatures: VecDeque<String>,
    known: Vec<Json>,
) -> (progress: Progress)
    ensures
        progress@ == statuses_onward(
            id.deep_view(),
            texts_of(signatures@),
            known.deep_view(),
            info@.slot,
        ),
        !(progress@ is Enqueue),
{
    let ghost wanted = statuses_onward(
        id.deep_view(),
        texts_of(signatures@),
        known.deep_view(),
        info@.slot,
    );
    let mut rest: VecDeque<String> = signatures;
    let mut statuses: Vec<Json> = known;
    while rest.len() > 0
        invariant
            wanted == statuses_onward(
                id.deep_view(),
                texts_of(signatures@),
                known.deep_view(),
                info@.slot,
            ),
            wanted == statuses_onward(
                id.deep_view(),
                texts_of(rest@),
                statuses.deep_view(),
                info@.slot,
            ),
        decreases rest@.len(),
    {
        let ghost before = rest@;
        let ghost shown = statuses.deep_view();
        if let Some(signature) = rest.pop_front() {
            assert(texts_of(before)[0] == signature@);
            assert(texts_of(before).drop_first() =~= texts_of(rest@));
            let digest = status_digest(
                signature_from_text(signature.as_str()),
                hash_from_text(signature.as_str()),
            );
            match status_question(digest) {
                Some(message) => {
                    return Progress::Query(message, Statuses { id, rest, statuses });
                },
                None => {
                    statuses.push(Json::Null);
                    assert(statuses.deep_view() =~= shown.push(JsonView::Null));
                },
            }
        }
    }
    let value = Json::Array(statuses);
    assert(value@->Array_0 =~= statuses.deep_view());
    Progress::Done(ok(id, context_json(info.slot, value)))
}

/// What comes of `getSignatureStatuses`.
pub open spec fn get_signature_statuses(
    info: BlockInfoView,
    id: Option<JsonView>,
    params: JsonView,
) -> ProgressView {
    match strings_param(params, 0) {
        Ok(signatures) => statuses_onward(id, signatures, Seq::empty(), info.slot),
        Err(message) => ProgressView::Done(
            RpcResponseView::err(id, INVALID_PARAMS, message, None),
        ),
    }
}

/// Begins `getSignatureStatuses`.
pub fn method_get_signature_statuses(info: &BlockInfo, id: Option<Json>, params: Json) -> (progress:
    Progress)
    ensures
        progress@ == get_signature_statuses(info@, id.deep_view(), params@),
        !(progress@ is Enqueue),
{
    let signatures = match parse_vec_strings(&params, 0) {
        Ok(signatures) => signatures,
        Err(message) => return Progress::Done(err(id, INVALID_PARAMS, message, None)),
    };
    let mut rest: VecDeque<String> = VecDeque::new();
    for signature in it: signatures
        invariant
            it.seq() == signatures@,
            rest@ == signatures@.take(it.index()),
    {
        rest.push_back(signature);
        assert(signatures@.take(it.index() + 1) =~= signatures@.take(it.index()).push(signature));
    }
    assert(rest@ =~= signatures@);
    assert(texts_of(rest@) =~= signatures.deep_view());
    let statuses: Vec<Json> = Vec::new();
    assert(statuses.deep_view() =~= Seq::empty());
    go_on_with_statuses(info, id, rest, statuses)
}

impl StatusesView {
    /// What comes of the call once the database has answered, or has not in time.
    pub open spec fn answered(
        self,
        info: BlockInfoView,
        answer: Option<FrontendMessageView>,
    ) -> ProgressView {
        statuses_onward(self.id, self.rest, self.statuses.push(status_of(answer)), info.slot)
    }
}

impl Statuses {
    /// Goes on with the call once the database has answered, or has not in time.
    pub fn answered(self, info: &BlockInfo, answer: Option<FrontendMessage>) -> (progress: Progress)
        ensures
            progress@ == self@.answered(info@, answer.deep_view()),
    {
        let Statuses { id, rest, statuses } = self;
        let mut statuses: Vec<Json> = statuses;
        let ghost shown = statuses.deep_view();
        statuses.push(status_json(&answer));
        assert(statuses.deep_view() =~= shown.push(status_of(answer.deep_view())));
        go_on_with_statuses(info, id, rest, statuses)
    }
}

/// What comes of a call.
pub open spec fn dispatched(info: BlockInfoView, request: RpcRequestView) -> ProgressView {
    let id = request.id;
    let params = request.params;
    if request.method == "getVersion"@ {
        ProgressView::Done(version_response(info, id))
    } else if request.method == "getLatestBlockhash"@ {
        ProgressView::Done(
            latest_blockhash_response(info, id, crate::solana::hash_text(info.blockhash)),
        )
    } else if request.method == "isBlockhashValid"@ {
        ProgressView::Done(is_blockhash_valid(info, id, params))
    } else if request.method == "sendTransaction"@ {
        send_transaction(id, params)
    } else if request.method == "getSignatureStatuses"@ {
        get_signature_statuses(info, id, params)
    } else if request.method == "getBalance"@ {
        ProgressView::Done(balance_response(info, id, key_param(params)))
    } else if request.method == "getAccountInfo"@ {
        ProgressView::Done(account_info_response(info, id, key_param(params)))
    } else if request.method == "getMinimumBalanceForRentExemption"@ {
        ProgressView::Done(min_rent_response(id, params))
    } else if request.method == "getSlot"@ {
        ProgressView::Done(RpcResponseView::ok(id, number(info.slot)))
    } else if request.method == "getBlockHeight"@ {
        ProgressView::Done(RpcResponseView::ok(id, number(info.block_height)))
    } else {
        ProgressView::Done(
            RpcResponseView::err(
                id,
                METHOD_NOT_FOUND,
                "method not found"@,
                Some(text_field("method"@, request.method)),
            ),
        )
    }
}

fn is_named(method: &String, name: &str) -> (same: bool)
    ensures
        same == (method@ == name@),
{
    *method == name.to_owned()
}

/// Begins a call.
pub fn dispatch(info: &BlockInfo, request: RpcRequest) -> (progress: Progress)
    ensures
        progress@ == dispatched(info@, request@),
        names_its_signature(progress@),
{
    let RpcRequest { jsonrpc: _, id, method, params } = request;
    if is_named(&method, "getVersion") {
        Progress::Done(method_get_version(info, id))
    } else if is_named(&method, "getLatestBlockhash") {
        Progress::Done(method_get_latest_blockhash(info, id))
    } else if is_named(&method, "isBlockhashValid") {
        Progress::Done(method_is_blockhash_valid(info, id, params))
    } else if is_named(&method, "sendTransaction") {
        method_send_transaction(id, params)
    } else if is_named(&method, "getSignatureStatuses") {
        method_get_signature_statuses(info, id, params)
    } else if is_named(&method, "getBalance") {
        Progress::Done(method_get_balance(info, id, params))
    } else if is_named(&method, "getAccountInfo") {
        Progress::Done(method_get_account_info(info, id, params))
    } else if is_named(&method, "getMinimumBalanceForRentExemption") {
        Progress::Done(method_get_min_rent(id, params))
    } else if is_named(&method, "getSlot") {
        Progress::Done(method_get_slot(info, id))
    } else if is_named(&method, "getBlockHeight") {
        Progress::Done(method_get_block_height(info, id))
    } else {
        let data = Some(text_field_json("method", method));
        Progress::Done(err(id, METHOD_NOT_FOUND, "method not found".to_owned(), data))
    }
}

/// What the current block and a call hold is what they are made of.
pub proof fn law_call_views(info: BlockInfo, request: RpcRequest, calls: Vec<RpcRequest>, i: int)
    ensures
        info@.blockhash == info.blockhash.0@,
        info@.slot == info.slot,
        info@.last_valid_block_height == info.last_valid_block_height,
        info@.block_height == info.block_height,
        request.jsonrpc is None ==> request@.jsonrpc is None,
        request.jsonrpc is Some ==> request@.jsonrpc == Some(request.jsonrpc->0@),
        request.id is None ==> request@.id is None,
        request.id is Some ==> request@.id == Some(request.id->0@),
        request@.method == request.method@,
        request@.params == request.params@,
        RpcCall::Single(request)@ == RpcCallView::Single(request@),
        RpcCall::Batch(calls)@ is Batch,
        RpcCall::Batch(calls)@->Batch_0.len() == calls@.len(),
        0 <= i < calls@.len() ==> RpcCall::Batch(calls)@->Batch_0[i] == calls@[i]@,
{
}

/// What an answer holds is what it is made of.
pub proof fn law_response_view(response: RpcResponse)
    ensures
        response@.jsonrpc == response.jsonrpc@,
        response.id is None ==> response@.id is None,
        response.id is Some ==> response@.id == Some(response.id->0@),
        response.result is None ==> response@.result is None,
        response.result is Some ==> response@.result == Some(response.result->0@),
        response.error is None ==> response@.error is None,
        response.error is Some ==> {
            &&& response@.error is Some
            &&& response@.error->0.code == response.error->0.code
            &&& response@.error->0.message == response.error->0.message@
            &&& response.error->0.data is None ==> response@.error->0.data is None
            &&& response.error->0.data is Some ==> response@.error->0.data == Some(
                response.error->0.data->0@,
            )
        },
{
}

/// How far a call has come is what it is made of.
pub proof fn law_progress_view(progress: Progress, i: int)
    ensures
        progress is Done ==> progress@ == ProgressView::Done(progress->Done_0@),
        progress is Enqueue ==> {
            &&& progress@ is Enqueue
            &&& progress@->Enqueue_0 == progress->Enqueue_0@
            &&& progress@->Enqueue_1.signature == progress->Enqueue_1.signature@
            &&& progress->Enqueue_1.id is None ==> progress@->Enqueue_1.id is None
            &&& progress->Enqueue_1.id is Some ==> progress@->Enqueue_1.id == Some(
                progress->Enqueue_1.id->0@,
            )
        },
        progress is Query ==> {
            &&& progress@ is Query
            &&& progress@->Query_0 == progress->Query_0@
            &&& progress->Query_1.id is None ==> progress@->Query_1.id is None
            &&& progress->Query_1.id is Some ==> progress@->Query_1.id == Some(
                progress->Query_1.id->0@,
            )
            &&& progress@->Query_1.rest.len() == progress->Query_1.rest@.len()
            &&& progress@->Query_1.statuses.len() == progress->Query_1.statuses@.len()
            &&& 0 <= i < progress->Query_1.rest@.len() ==> progress@->Query_1.rest[i]
                == progress->Query_1.rest@[i]@
            &&& 0 <= i < progress->Query_1.statuses@.len() ==> progress@->Query_1.statuses[i]
                == progress->Query_1.statuses@[i]@
        },
{
}

} // verus!
