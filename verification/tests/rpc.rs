use base64::Engine;
use rollup_core::json::{Json, JsonNumber};
use rollup_core::ledger::{
    CompiledInstruction, Digest, Message, MessageHeader, Pubkey, Signature, Transaction,
};
use rollup_core::rollupdb::FrontendMessage;
use rollup_core::rpc::{
    answer_account_info, answer_balance, answer_blockhash_validity, answer_latest_blockhash,
    dispatch, err, method_get_signature_statuses, ok, parse_string, parse_vec_strings,
    send_decoded_transaction, send_transaction_bytes, status_digest, status_json, status_question,
    BlockInfo, Progress, RpcCall, RpcError, RpcRequest, RpcResponse, Sending, INVALID_PARAMS,
    METHOD_NOT_FOUND, PARSE_ERROR, SERVER_ERROR,
};
use rollup_core::rpc_session::{RpcAction, RpcEvent, RpcReply, RpcSession};
use rollup_core::service::{Action, Event, Request, RollupDBMessage, RollupService};
use rollup_core::solana::hash_transaction;

fn info() -> BlockInfo {
    BlockInfo {
        blockhash: Digest([3; 32]),
        slot: 42,
        last_valid_block_height: 150,
        block_height: 40,
    }
}

fn number(n: u64) -> Json {
    Json::Number(JsonNumber::PosInt(n))
}

fn string(text: &str) -> Json {
    Json::Str(text.to_string())
}

fn object(fields: Vec<(&str, Json)>) -> Json {
    Json::Object(fields.into_iter().map(|(name, value)| (name.to_string(), value)).collect())
}

fn in_context(slot: u64, value: Json) -> Json {
    object(vec![("context", object(vec![("slot", number(slot))])), ("value", value)])
}

fn request(method: &str, params: Json) -> RpcRequest {
    RpcRequest {
        jsonrpc: Some("2.0".to_string()),
        id: Some(number(1)),
        method: method.to_string(),
        params,
    }
}

fn call(method: &str, params: Json) -> RpcResponse {
    match dispatch(&info(), request(method, params)) {
        Progress::Done(response) => response,
        other => panic!("not answered: {:?}", other),
    }
}

fn result(value: Json) -> RpcResponse {
    RpcResponse { jsonrpc: "2.0", id: Some(number(1)), result: Some(value), error: None }
}

fn error(code: i64, message: &str, data: Option<Json>) -> RpcResponse {
    RpcResponse {
        jsonrpc: "2.0",
        id: Some(number(1)),
        result: None,
        error: Some(RpcError { code, message: message.to_string(), data }),
    }
}

fn blockhash_text() -> String {
    solana_sdk::hash::Hash::new_from_array([3; 32]).to_string()
}

fn transaction(signatures: Vec<u8>) -> Transaction {
    Transaction {
        signatures: signatures.into_iter().map(|n| Signature([n; 64])).collect(),
        message: Message {
            header: MessageHeader {
                num_required_signatures: 1,
                num_readonly_signed_accounts: 2,
                num_readonly_unsigned_accounts: 3,
            },
            account_keys: vec![Pubkey([5; 32]), Pubkey([6; 32])],
            recent_blockhash: Digest([7; 32]),
            instructions: vec![CompiledInstruction {
                program_id_index: 1,
                accounts: vec![0, 1],
                data: vec![9, 8, 7],
            }],
        },
    }
}

fn sdk_transaction(signatures: Vec<u8>) -> solana_sdk::transaction::Transaction {
    solana_sdk::transaction::Transaction {
        signatures: signatures
            .into_iter()
            .map(|n| solana_sdk::signature::Signature::from([n; 64]))
            .collect(),
        message: solana_sdk::message::Message {
            header: solana_sdk::message::MessageHeader {
                num_required_signatures: 1,
                num_readonly_signed_accounts: 2,
                num_readonly_unsigned_accounts: 3,
            },
            account_keys: vec![
                solana_sdk::pubkey::Pubkey::new_from_array([5; 32]),
                solana_sdk::pubkey::Pubkey::new_from_array([6; 32]),
            ],
            recent_blockhash: solana_sdk::hash::Hash::new_from_array([7; 32]),
            instructions: vec![solana_sdk::instruction::CompiledInstruction {
                program_id_index: 1,
                accounts: vec![0, 1],
                data: vec![9, 8, 7],
            }],
        },
    }
}

fn base64_of(bytes: &[u8]) -> String {
    base64::engine::general_purpose::STANDARD.encode(bytes)
}

fn wire(signatures: Vec<u8>) -> String {
    base64_of(&bincode::serialize(&sdk_transaction(signatures)).unwrap())
}

fn signature_text(n: u8) -> String {
    solana_sdk::signature::Signature::from([n; 64]).to_string()
}

fn frontend(transaction: Option<Transaction>) -> FrontendMessage {
    FrontendMessage {
        get_tx: None,
        transaction,
        transactions: None,
        total: None,
        has_more: None,
        error: None,
    }
}

fn processed() -> Json {
    object(vec![
        ("slot", Json::Null),
        ("confirmations", Json::Null),
        ("err", Json::Null),
        ("confirmationStatus", string("processed")),
    ])
}

fn hash_text(n: u8) -> String {
    solana_sdk::hash::Hash::new_from_array([n; 32]).to_string()
}

fn question(n: u8) -> RollupDBMessage {
    let mut message = RollupDBMessage::empty();
    message.frontend_get_tx = Some(Digest([n; 32]));
    message
}

#[test]
fn responses_have_a_result_or_an_error() {
    assert_eq!(
        ok(None, Json::Null),
        RpcResponse { jsonrpc: "2.0", id: None, result: Some(Json::Null), error: None }
    );
    assert_eq!(
        err(Some(string("x")), -1, "no".to_string(), Some(Json::Null)),
        RpcResponse {
            jsonrpc: "2.0",
            id: Some(string("x")),
            result: None,
            error: Some(RpcError { code: -1, message: "no".to_string(), data: Some(Json::Null) }),
        }
    );
}

#[test]
fn string_parameters_are_read() {
    let params = Json::Array(vec![string("a"), number(1)]);
    assert_eq!(parse_string(&params, 0), Ok("a".to_string()));
    assert_eq!(parse_string(&params, 1), Err("param[1] must be string".to_string()));
    assert_eq!(parse_string(&params, 20), Err("param[20] must be string".to_string()));
    assert_eq!(parse_string(&Json::Null, 0), Err("param[0] must be string".to_string()));
    assert_eq!(parse_string(&string("a"), 0), Err("param[0] must be string".to_string()));
}

#[test]
fn arrays_of_strings_are_read() {
    let mixed = Json::Array(vec![string("a"), Json::Null, string("b"), number(1)]);
    let params = Json::Array(vec![mixed, string("c"), Json::Array(vec![])]);
    assert_eq!(parse_vec_strings(&params, 0), Ok(vec!["a".to_string(), "b".to_string()]));
    assert_eq!(
        parse_vec_strings(&params, 1),
        Err("param[1] must be array of strings".to_string())
    );
    assert_eq!(parse_vec_strings(&params, 2), Ok(vec![]));
    assert_eq!(
        parse_vec_strings(&params, 3),
        Err("param[3] must be array of strings".to_string())
    );
}

#[test]
fn version_is_told() {
    assert_eq!(
        call("getVersion", Json::Null),
        result(object(vec![
            ("solana-core", string("rollup-0.1")),
            ("feature-set", number(0)),
            ("slot", number(42)),
        ]))
    );
}

#[test]
fn latest_blockhash_is_told() {
    let expected = |text: &str| {
        result(in_context(
            42,
            object(vec![("blockhash", string(text)), ("lastValidBlockHeight", number(150))]),
        ))
    };
    assert_eq!(call("getLatestBlockhash", Json::Null), expected(&blockhash_text()));
    assert_eq!(
        answer_latest_blockhash(&info(), Some(number(1)), "abc".to_string()),
        expected("abc")
    );
}

#[test]
fn current_blockhash_is_valid() {
    let ask = |text: &str| call("isBlockhashValid", Json::Array(vec![string(text)]));
    assert_eq!(ask(&blockhash_text()), result(in_context(42, Json::Bool(true))));
    assert_eq!(ask(&hash_text(4)), result(in_context(42, Json::Bool(false))));
    assert_eq!(ask("not a hash"), result(in_context(42, Json::Bool(false))));
    assert_eq!(ask(""), result(in_context(42, Json::Bool(false))));
    assert_eq!(
        call("isBlockhashValid", Json::Null),
        error(INVALID_PARAMS, "param[0] must be string", None)
    );
}

#[test]
fn blockhash_is_valid_while_it_is_current() {
    let given = match call("getLatestBlockhash", Json::Null).result {
        Some(value) => value.field("value").unwrap().field("blockhash").unwrap().as_str().cloned(),
        None => None,
    };
    let given = given.unwrap();
    let ask = |block: &BlockInfo| {
        let params = Json::Array(vec![string(&given)]);
        match dispatch(block, request("isBlockhashValid", params)) {
            Progress::Done(response) => response,
            other => panic!("{:?}", other),
        }
    };
    let same = BlockInfo { slot: 43, ..info() };
    assert_eq!(ask(&same), result(in_context(43, Json::Bool(true))));
    let next = BlockInfo { blockhash: Digest([4; 32]), slot: 44, ..info() };
    assert_eq!(ask(&next), result(in_context(44, Json::Bool(false))));
}

#[test]
fn blockhash_is_valid_only_if_it_is_a_hash_and_the_same() {
    let answer = |asked: &str, parsed: Option<Digest>| {
        answer_blockhash_validity(
            &info(),
            Some(number(1)),
            asked.to_string(),
            parsed,
            "current".to_string(),
        )
    };
    let valid = |valid: bool| result(in_context(42, Json::Bool(valid)));
    assert_eq!(answer("current", Some(Digest([3; 32]))), valid(true));
    assert_eq!(answer("current", None), valid(false));
    assert_eq!(answer("other", Some(Digest([3; 32]))), valid(false));
}

#[test]
fn transaction_is_decoded_and_enqueued() {
    let params = Json::Array(vec![string(&wire(vec![1, 2])), object(vec![])]);
    match dispatch(&info(), request("sendTransaction", params)) {
        Progress::Enqueue(tx, sending) => {
            assert_eq!(tx, transaction(vec![1, 2]));
            assert_eq!(sending.signature, signature_text(1));
            assert_eq!(sending.enqueued(Ok(())), result(string(&signature_text(1))));
        }
        other => panic!("{:?}", other),
    }
}

#[test]
fn failure_to_enqueue_is_told() {
    let sending = Sending { id: Some(number(1)), signature: "s".to_string() };
    assert_eq!(
        sending.enqueued(Err("closed".to_string())),
        error(SERVER_ERROR, "enqueue failed", Some(object(vec![("detail", string("closed"))])))
    );
    let sending = Sending { id: Some(number(1)), signature: "s".to_string() };
    assert_eq!(sending.enqueued(Ok(())), result(string("s")));
}

#[test]
fn bad_transactions_are_refused() {
    let send = |text: Json| call("sendTransaction", Json::Array(vec![text]));
    let detail = |text: String| Some(object(vec![("detail", Json::Str(text))]));
    assert_eq!(send(number(1)), error(INVALID_PARAMS, "param[0] must be string", None));
    let decode = base64::engine::general_purpose::STANDARD.decode("%%%").unwrap_err();
    assert_eq!(
        send(string("%%%")),
        error(INVALID_PARAMS, "invalid base64", detail(decode.to_string()))
    );
    let bytes = vec![1u8, 2, 3];
    let decode =
        bincode::deserialize::<solana_sdk::transaction::Transaction>(&bytes).unwrap_err();
    assert_eq!(
        send(string(&base64_of(&bytes))),
        error(
            INVALID_PARAMS,
            "only legacy Transaction supported for now",
            detail(decode.to_string())
        )
    );
    assert_eq!(send(string(&wire(vec![]))), error(SERVER_ERROR, "missing signature", None));
}

#[test]
fn decoding_is_followed_step_by_step() {
    let id = || Some(number(1));
    let detail = |text: &str| Some(object(vec![("detail", string(text))]));
    assert_eq!(
        send_transaction_bytes(id(), Err("bad".to_string())),
        Progress::Done(error(INVALID_PARAMS, "invalid base64", detail("bad")))
    );
    let bytes = bincode::serialize(&sdk_transaction(vec![4])).unwrap();
    let sending = || Sending { id: id(), signature: signature_text(4) };
    assert_eq!(
        send_transaction_bytes(id(), Ok(bytes)),
        Progress::Enqueue(transaction(vec![4]), sending())
    );
    assert_eq!(
        send_decoded_transaction(id(), Ok(transaction(vec![4]))),
        Progress::Enqueue(transaction(vec![4]), sending())
    );
    assert_eq!(
        send_decoded_transaction(id(), Err("short".to_string())),
        Progress::Done(error(
            INVALID_PARAMS,
            "only legacy Transaction supported for now",
            detail("short")
        ))
    );
    assert_eq!(
        send_decoded_transaction(id(), Ok(transaction(vec![]))),
        Progress::Done(error(SERVER_ERROR, "missing signature", None))
    );
}

#[test]
fn statuses_of_other_texts_are_null() {
    let shortened = signature_text(1)[1..].to_string();
    let texts = Json::Array(vec![string("x"), number(3), string(&shortened)]);
    assert_eq!(
        call("getSignatureStatuses", Json::Array(vec![texts])),
        result(in_context(42, Json::Array(vec![Json::Null, Json::Null])))
    );
    assert_eq!(
        call("getSignatureStatuses", Json::Array(vec![Json::Array(vec![])])),
        result(in_context(42, Json::Array(vec![])))
    );
    assert_eq!(
        call("getSignatureStatuses", Json::Array(vec![string("x")])),
        error(INVALID_PARAMS, "param[0] must be array of strings", None)
    );
}

#[test]
fn statuses_come_from_the_database() {
    let mut texts = vec![string(&hash_text(1)), string("x")];
    texts.push(string(&hash_text(2)));
    texts.push(string(&hash_text(5)));
    let params = Json::Array(vec![Json::Array(texts)]);
    let statuses = match method_get_signature_statuses(&info(), Some(number(1)), params) {
        Progress::Query(message, statuses) => {
            assert_eq!(message, question(1));
            statuses
        }
        other => panic!("{:?}", other),
    };
    let statuses = match statuses.answered(&info(), Some(frontend(Some(transaction(vec![1]))))) {
        Progress::Query(message, statuses) => {
            assert_eq!(message, question(2));
            statuses
        }
        other => panic!("{:?}", other),
    };
    let statuses = match statuses.answered(&info(), Some(frontend(None))) {
        Progress::Query(message, statuses) => {
            assert_eq!(message, question(5));
            statuses
        }
        other => panic!("{:?}", other),
    };
    let later = BlockInfo { slot: 50, ..info() };
    assert_eq!(
        statuses.answered(&later, None),
        Progress::Done(result(in_context(
            50,
            Json::Array(vec![processed(), Json::Null, Json::Null, Json::Null])
        )))
    );
}

#[test]
fn status_is_that_of_the_answer() {
    assert_eq!(status_json(&None), Json::Null);
    assert_eq!(status_json(&Some(frontend(None))), Json::Null);
    assert_eq!(status_json(&Some(frontend(Some(transaction(vec![]))))), processed());
    assert_eq!(status_digest(None, None), None);
    assert_eq!(status_digest(None, Some(Digest([8; 32]))), Some(Digest([8; 32])));
    let filed = hash_transaction(&transaction(vec![1]));
    assert_eq!(status_digest(Some(Signature([1; 64])), None), Some(filed));
    assert_eq!(status_digest(Some(Signature([1; 64])), Some(Digest([8; 32]))), Some(filed));
    assert_eq!(status_question(None), None);
    assert_eq!(status_question(Some(Digest([8; 32]))), Some(question(8)));
}

#[test]
fn balance_is_zero() {
    let key = solana_sdk::pubkey::Pubkey::new_from_array([9; 32]).to_string();
    let ask = |params: Vec<Json>| call("getBalance", Json::Array(params));
    assert_eq!(ask(vec![string(&key)]), result(in_context(42, number(0))));
    assert_eq!(ask(vec![string("xyz")]), error(INVALID_PARAMS, "invalid pubkey", None));
    assert_eq!(ask(vec![]), error(INVALID_PARAMS, "param[0] must be string", None));
    assert_eq!(
        answer_balance(&info(), Some(number(1)), Ok(Pubkey([1; 32]))),
        result(in_context(42, number(0)))
    );
    assert_eq!(
        answer_balance(&info(), Some(number(1)), Err("why".to_string())),
        error(INVALID_PARAMS, "why", None)
    );
}

#[test]
fn accounts_are_shown_empty() {
    let empty = || {
        result(in_context(
            42,
            object(vec![
                ("lamports", number(0)),
                ("owner", string("11111111111111111111111111111111")),
                ("executable", Json::Bool(false)),
                ("rentEpoch", number(0)),
                ("data", Json::Array(vec![string(""), string("base64")])),
            ]),
        ))
    };
    let key = solana_sdk::pubkey::Pubkey::new_from_array([9; 32]).to_string();
    let ask = |params: Vec<Json>| call("getAccountInfo", Json::Array(params));
    assert_eq!(ask(vec![string(&key)]), empty());
    assert_eq!(ask(vec![string("0")]), error(INVALID_PARAMS, "invalid pubkey", None));
    assert_eq!(ask(vec![Json::Null]), error(INVALID_PARAMS, "param[0] must be string", None));
    assert_eq!(answer_account_info(&info(), Some(number(1)), Ok(Pubkey([1; 32]))), empty());
    assert_eq!(
        answer_account_info(&info(), Some(number(1)), Err("why".to_string())),
        error(INVALID_PARAMS, "why", None)
    );
}

#[test]
fn no_rent_is_charged() {
    let ask = |params: Json| call("getMinimumBalanceForRentExemption", params);
    let refused = || error(INVALID_PARAMS, "param[0] must be u64", None);
    assert_eq!(ask(Json::Array(vec![number(128)])), result(number(0)));
    assert_eq!(ask(Json::Array(vec![Json::Number(JsonNumber::NegInt(-1))])), refused());
    assert_eq!(
        ask(Json::Array(vec![Json::Number(JsonNumber::Float(1.0f64.to_bits()))])),
        refused()
    );
    assert_eq!(ask(Json::Array(vec![string("128")])), refused());
    assert_eq!(ask(Json::Null), refused());
}

#[test]
fn slot_and_height_are_told() {
    assert_eq!(call("getSlot", Json::Null), result(number(42)));
    assert_eq!(call("getBlockHeight", Json::Null), result(number(40)));
}

#[test]
fn unknown_methods_are_refused() {
    for name in ["getslot", "", "getSlot "] {
        assert_eq!(
            call(name, Json::Null),
            error(
                METHOD_NOT_FOUND,
                "method not found",
                Some(object(vec![("method", string(name))]))
            )
        );
    }
}

#[test]
fn error_codes_are_those_of_json_rpc() {
    assert_eq!(PARSE_ERROR, -32700);
    assert_eq!(METHOD_NOT_FOUND, -32601);
    assert_eq!(INVALID_PARAMS, -32602);
    assert_eq!(SERVER_ERROR, -32000);
}

#[test]
fn body_that_is_no_call_is_a_parse_error() {
    let mut session = RpcSession::begin(None);
    assert_eq!(session.step(&info(), RpcEvent::Proceed), RpcAction::Reply);
    assert_eq!(
        session.into_reply(),
        RpcReply::Single(RpcResponse {
            jsonrpc: "2.0",
            id: None,
            result: None,
            error: Some(RpcError {
                code: -32700,
                message: "parse error".to_string(),
                data: None,
            }),
        })
    );
}

#[test]
fn single_call_gets_a_single_answer() {
    let mut session = RpcSession::begin(Some(RpcCall::Single(request("getSlot", Json::Null))));
    assert_eq!(session.step(&info(), RpcEvent::Proceed), RpcAction::Proceed);
    assert_eq!(session.step(&info(), RpcEvent::Proceed), RpcAction::Reply);
    assert_eq!(session.into_reply(), RpcReply::Single(result(number(42))));
}

#[test]
fn lone_call_without_id_gets_an_empty_batch() {
    let mut call = request("getSlot", Json::Null);
    call.id = None;
    let mut session = RpcSession::begin(Some(RpcCall::Single(call)));
    assert_eq!(session.step(&info(), RpcEvent::Proceed), RpcAction::Proceed);
    assert_eq!(session.step(&info(), RpcEvent::Proceed), RpcAction::Reply);
    assert_eq!(session.into_reply(), RpcReply::Batch(vec![]));
}

#[test]
fn lone_call_without_id_is_carried_out() {
    let params = Json::Array(vec![string(&wire(vec![1]))]);
    let mut call = request("sendTransaction", params);
    call.id = None;
    let mut session = RpcSession::begin(Some(RpcCall::Single(call)));
    assert_eq!(
        session.step(&info(), RpcEvent::Proceed),
        RpcAction::Enqueue(transaction(vec![1]))
    );
    assert_eq!(session.step(&info(), RpcEvent::Enqueued(Ok(()))), RpcAction::Proceed);
    assert_eq!(session.step(&info(), RpcEvent::Proceed), RpcAction::Reply);
    assert_eq!(session.into_reply(), RpcReply::Batch(vec![]));
}

#[test]
fn batch_members_without_id_are_answered_without_id() {
    let member = || {
        let mut call = request("getSlot", Json::Null);
        call.id = None;
        call
    };
    let mut session = RpcSession::begin(Some(RpcCall::Batch(vec![member()])));
    session.step(&info(), RpcEvent::Proceed);
    session.step(&info(), RpcEvent::Proceed);
    assert_eq!(session.into_reply(), RpcReply::Single(ok(None, number(42))));
    let calls = vec![member(), request("getBlockHeight", Json::Null)];
    let mut session = RpcSession::begin(Some(RpcCall::Batch(calls)));
    session.step(&info(), RpcEvent::Proceed);
    session.step(&info(), RpcEvent::Proceed);
    session.step(&info(), RpcEvent::Proceed);
    assert_eq!(
        session.into_reply(),
        RpcReply::Batch(vec![ok(None, number(42)), result(number(40))])
    );
}

#[test]
fn batch_of_one_gets_a_single_answer() {
    let calls = vec![request("getSlot", Json::Null)];
    let mut session = RpcSession::begin(Some(RpcCall::Batch(calls)));
    session.step(&info(), RpcEvent::Proceed);
    assert_eq!(session.step(&info(), RpcEvent::Proceed), RpcAction::Reply);
    assert_eq!(session.into_reply(), RpcReply::Single(result(number(42))));
}

#[test]
fn empty_batch_gets_no_answers() {
    let mut session = RpcSession::begin(Some(RpcCall::Batch(vec![])));
    assert_eq!(session.step(&info(), RpcEvent::Proceed), RpcAction::Reply);
    assert_eq!(session.into_reply(), RpcReply::Batch(vec![]));
}

#[test]
fn batch_is_answered_in_order() {
    let texts = Json::Array(vec![string(&hash_text(1))]);
    let mut calls = vec![
        request("sendTransaction", Json::Array(vec![string(&wire(vec![1]))])),
        request("getSignatureStatuses", Json::Array(vec![texts])),
        request("nothing", Json::Null),
        request("getSlot", Json::Null),
    ];
    for (i, call) in calls.iter_mut().enumerate() {
        call.id = Some(number(i as u64));
    }
    let mut session = RpcSession::begin(Some(RpcCall::Batch(calls)));
    assert!(!session.admits(&RpcEvent::Enqueued(Ok(()))));
    assert!(!session.admits(&RpcEvent::Answered(None)));
    assert_eq!(
        session.step(&info(), RpcEvent::Proceed),
        RpcAction::Enqueue(transaction(vec![1]))
    );
    assert!(!session.admits(&RpcEvent::Proceed));
    assert!(!session.admits(&RpcEvent::Answered(None)));
    assert_eq!(session.step(&info(), RpcEvent::Enqueued(Ok(()))), RpcAction::Proceed);
    assert_eq!(session.step(&info(), RpcEvent::Proceed), RpcAction::Query(question(1)));
    assert!(!session.admits(&RpcEvent::Proceed));
    assert!(!session.admits(&RpcEvent::Enqueued(Ok(()))));
    assert_eq!(session.step(&info(), RpcEvent::Answered(None)), RpcAction::Proceed);
    assert_eq!(session.step(&info(), RpcEvent::Proceed), RpcAction::Proceed);
    let later = BlockInfo { slot: 43, ..info() };
    assert_eq!(session.step(&later, RpcEvent::Proceed), RpcAction::Proceed);
    assert_eq!(session.step(&later, RpcEvent::Proceed), RpcAction::Reply);
    match session.into_reply() {
        RpcReply::Batch(responses) => {
            assert_eq!(responses.len(), 4);
            for (i, response) in responses.iter().enumerate() {
                assert_eq!(response.id, Some(number(i as u64)));
            }
            assert_eq!(responses[0].result, Some(string(&signature_text(1))));
            assert_eq!(
                responses[1].result,
                Some(in_context(42, Json::Array(vec![Json::Null])))
            );
            assert_eq!(responses[2].error.as_ref().unwrap().code, METHOD_NOT_FOUND);
            assert_eq!(responses[3].result, Some(number(43)));
        }
        other => panic!("{:?}", other),
    }
}

#[test]
fn processed_transaction_has_a_status() {
    let tx = transaction(vec![1]);
    let hash = hash_transaction(&tx);
    let mut service = RollupService::new();
    let question_for = |service: &mut RollupService| {
        let message = status_question(Some(hash)).unwrap();
        match service.step(Event::Request(message.into_request())) {
            Action::SendFrontend(answer) => status_json(&Some(answer)),
            other => panic!("{:?}", other),
        }
    };
    assert_eq!(question_for(&mut service), Json::Null);
    service.step(Event::Request(Request::Process(tx, vec![])));
    assert_eq!(question_for(&mut service), processed());
}

#[test]
fn sent_transaction_has_a_status_once_processed() {
    let mut service = RollupService::new();
    let params = Json::Array(vec![string(&wire(vec![1]))]);
    let (tx, text) = match dispatch(&info(), request("sendTransaction", params)) {
        Progress::Enqueue(tx, sending) => match sending.enqueued(Ok(())).result {
            Some(Json::Str(text)) => (tx, text),
            other => panic!("{:?}", other),
        },
        other => panic!("{:?}", other),
    };
    assert_eq!(text, signature_text(1));
    let filed = hash_transaction(&tx);
    let status = |service: &mut RollupService| {
        let params = Json::Array(vec![Json::Array(vec![string(&text)])]);
        let (message, statuses) = match dispatch(&info(), request("getSignatureStatuses", params)) {
            Progress::Query(message, statuses) => (message, statuses),
            other => panic!("{:?}", other),
        };
        assert_eq!(message.frontend_get_tx, Some(filed));
        let answer = match service.step(Event::Request(message.into_request())) {
            Action::SendFrontend(answer) => answer,
            other => panic!("{:?}", other),
        };
        match statuses.answered(&info(), Some(answer)) {
            Progress::Done(response) => response,
            other => panic!("{:?}", other),
        }
    };
    assert_eq!(
        status(&mut service),
        result(in_context(42, Json::Array(vec![Json::Null])))
    );
    service.step(Event::Request(Request::Process(tx, vec![])));
    assert_eq!(status(&mut service), result(in_context(42, Json::Array(vec![processed()]))));
}

#[test]
fn signature_and_hash_texts_are_both_asked_for() {
    let texts = vec![string(&signature_text(0)), string(&hash_text(2))];
    let params = Json::Array(vec![Json::Array(texts)]);
    let statuses = match dispatch(&info(), request("getSignatureStatuses", params)) {
        Progress::Query(message, statuses) => {
            assert_eq!(message.frontend_get_tx, Some(hash_transaction(&transaction(vec![0]))));
            statuses
        }
        other => panic!("{:?}", other),
    };
    match statuses.answered(&info(), None) {
        Progress::Query(message, _) => assert_eq!(message, question(2)),
        other => panic!("{:?}", other),
    }
}
