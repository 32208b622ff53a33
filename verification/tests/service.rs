use rollup_core::ledger::{
    Account, Digest, Message, MessageHeader, Pubkey, Signature, Transaction,
};
use rollup_core::proofs::{
    ProofData, ProofStatus, StoreBatchProofMessage, UpdateProofStatusMessage,
};
use rollup_core::service::{Action, Event, Request, RollupDBMessage, RollupService};
use rollup_core::solana::hash_transaction;

fn key(n: u8) -> Pubkey {
    Pubkey([n; 32])
}

fn account(lamports: u64) -> Account {
    Account { lamports, data: vec![], owner: key(0), executable: true, rent_epoch: 0 }
}

fn transaction(signatures: Vec<u8>, keys: Vec<Pubkey>) -> Transaction {
    Transaction {
        signatures: signatures.into_iter().map(|n| Signature([n; 64])).collect(),
        message: Message {
            header: MessageHeader {
                num_required_signatures: 1,
                num_readonly_signed_accounts: 0,
                num_readonly_unsigned_accounts: 0,
            },
            account_keys: keys,
            recent_blockhash: Digest([4; 32]),
            instructions: vec![],
        },
    }
}

fn sample_proof() -> ProofData {
    let text = |s: &str| s.to_string();
    ProofData {
        pi_a: [text("a0"), text("a1"), text("a2")],
        pi_b: [
            [text("b00"), text("b01")],
            [text("b10"), text("b11")],
            [text("b20"), text("b21")],
        ],
        pi_c: [text("c0"), text("c1"), text("c2")],
        protocol: text("groth16"),
        curve: text("bn128"),
    }
}

fn store(batch: &str, signatures: Vec<&str>) -> StoreBatchProofMessage {
    StoreBatchProofMessage {
        batch_id: batch.to_string(),
        proof_data: sample_proof(),
        public_inputs: vec!["1".to_string()],
        transaction_signatures: signatures.into_iter().map(|s| s.to_string()).collect(),
    }
}

fn report(batch: &str, status: ProofStatus, error: Option<&str>) -> UpdateProofStatusMessage {
    UpdateProofStatusMessage {
        batch_id: batch.to_string(),
        new_status: status,
        error_message: error.map(|e| e.to_string()),
    }
}

fn ask(service: &mut RollupService, request: Request) -> Action {
    let event = Event::Request(request);
    assert!(service.admits(&event));
    service.step(event)
}

fn layer1(service: &mut RollupService, account: Option<Account>) -> Action {
    let event = Event::Account(account);
    assert!(service.admits(&event));
    service.step(event)
}

fn record(service: &mut RollupService, batch: &str) -> rollup_core::proofs::BatchProofRecord {
    match ask(service, Request::GetProof(batch.to_string())) {
        Action::TellProof(Some(record)) => record,
        other => panic!("no record: {:?}", other),
    }
}

#[test]
fn lock_of_nothing_sends_nothing() {
    let mut service = RollupService::new();
    assert_eq!(ask(&mut service, Request::Lock(vec![])), Action::SendAccounts(vec![]));
}

#[test]
fn lock_takes_local_accounts_and_fetches_others() {
    let mut service = RollupService::new();
    let new_data = vec![(key(1), account(10)), (key(3), account(30))];
    assert_eq!(
        ask(&mut service, Request::Process(transaction(vec![1], vec![]), new_data)),
        Action::TellProcessed(0, 2)
    );
    let keys = vec![key(1), key(2), key(3), key(4)];
    assert_eq!(ask(&mut service, Request::Lock(keys)), Action::FetchAccount(key(2)));
    assert_eq!(layer1(&mut service, Some(account(20))), Action::FetchAccount(key(4)));
    assert_eq!(
        layer1(&mut service, None),
        Action::SendAccounts(vec![
            (key(1), account(10)),
            (key(2), account(20)),
            (key(3), account(30)),
        ])
    );
}

#[test]
fn second_lock_of_an_account_asks_layer_1() {
    let mut service = RollupService::new();
    ask(&mut service, Request::Process(transaction(vec![1], vec![]), vec![(key(1), account(10))]));
    let keys = vec![key(1), key(1)];
    assert_eq!(ask(&mut service, Request::Lock(keys)), Action::FetchAccount(key(1)));
    assert_eq!(
        layer1(&mut service, Some(account(5))),
        Action::SendAccounts(vec![(key(1), account(10)), (key(1), account(5))])
    );
}

#[test]
fn while_layer_1_is_asked_no_request_is_taken() {
    let mut service = RollupService::new();
    assert!(!service.admits(&Event::Account(None)));
    ask(&mut service, Request::Lock(vec![key(1)]));
    assert!(!service.admits(&Event::Request(Request::Nothing)));
    assert!(service.admits(&Event::Account(None)));
    assert_eq!(layer1(&mut service, None), Action::SendAccounts(vec![]));
    assert!(service.admits(&Event::Request(Request::Nothing)));
}

#[test]
fn transaction_without_signature_is_not_admitted() {
    let service = RollupService::new();
    let request = Request::Process(transaction(vec![], vec![]), vec![]);
    assert!(!service.admits(&Event::Request(request)));
}

#[test]
fn frontend_is_told_of_transactions() {
    let mut service = RollupService::new();
    let tx = transaction(vec![6], vec![key(1)]);
    let hash = hash_transaction(&tx);
    match ask(&mut service, Request::GetTransaction(hash)) {
        Action::SendFrontend(answer) => {
            assert_eq!(answer.get_tx, Some(hash));
            assert_eq!(answer.transaction, None);
            assert_eq!(answer.error, Some("Transaction not found".to_string()));
        }
        other => panic!("{:?}", other),
    }
    ask(&mut service, Request::Process(transaction(vec![6], vec![key(1)]), vec![]));
    ask(&mut service, Request::Lock(vec![]));
    ask(&mut service, Request::StoreProof(store("b", vec![])));
    match ask(&mut service, Request::GetTransaction(hash)) {
        Action::SendFrontend(answer) => {
            assert_eq!(answer.get_tx, Some(hash));
            assert_eq!(answer.transaction, Some(tx));
            assert_eq!(answer.error, None);
        }
        other => panic!("{:?}", other),
    }
}

#[test]
fn stored_proof_starts_as_generated() {
    let mut service = RollupService::new();
    assert_eq!(
        ask(&mut service, Request::GetProof("b1".to_string())),
        Action::TellProof(None)
    );
    let before = std::time::SystemTime::now();
    assert_eq!(
        ask(&mut service, Request::StoreProof(store("b1", vec!["s1", "s2"]))),
        Action::TellStored(1)
    );
    let record = record(&mut service, "b1");
    assert_eq!(record.batch_id, "b1");
    assert_eq!(record.proof_data, sample_proof());
    assert_eq!(record.public_inputs, vec!["1".to_string()]);
    assert_eq!(record.transaction_signatures, vec!["s1".to_string(), "s2".to_string()]);
    assert_eq!(record.status, ProofStatus::Generated);
    assert_eq!(record.created_at, record.updated_at);
    assert!(record.created_at >= before);
    assert_eq!(record.retry_count, 0);
    assert_eq!(record.error_message, None);
}

#[test]
fn reports_change_the_record() {
    let mut service = RollupService::new();
    ask(&mut service, Request::StoreProof(store("b1", vec![])));
    ask(&mut service, Request::UpdateProof(report("b1", ProofStatus::Failed, Some("no gas"))));
    let failed = record(&mut service, "b1");
    assert_eq!(failed.status, ProofStatus::Failed);
    assert_eq!(failed.retry_count, 1);
    assert_eq!(failed.error_message, Some("no gas".to_string()));
    assert!(failed.updated_at >= failed.created_at);
    assert_eq!(
        ask(&mut service, Request::UpdateProof(report("b1", ProofStatus::Posted, None))),
        Action::TellReported("b1".to_string(), true)
    );
    let posted = record(&mut service, "b1");
    assert_eq!(posted.status, ProofStatus::Posted);
    assert_eq!(posted.retry_count, 1);
    assert_eq!(posted.error_message, None);
    assert_eq!(posted.created_at, failed.created_at);
}

#[test]
fn report_on_unknown_batch_changes_nothing() {
    let mut service = RollupService::new();
    ask(&mut service, Request::StoreProof(store("b1", vec![])));
    assert_eq!(
        ask(&mut service, Request::UpdateProof(report("b2", ProofStatus::Failed, None))),
        Action::TellReported("b2".to_string(), false)
    );
    assert_eq!(record(&mut service, "b1").status, ProofStatus::Generated);
    assert_eq!(ask(&mut service, Request::GetProof("b2".to_string())), Action::TellProof(None));
}

#[test]
fn verified_proofs_are_settled() {
    let mut service = RollupService::new();
    let states = vec![
        ("generated", ProofStatus::Generated),
        ("posted", ProofStatus::Posted),
        ("verified", ProofStatus::Verified),
        ("failed", ProofStatus::Failed),
    ];
    for (batch, status) in states {
        ask(&mut service, Request::StoreProof(store(batch, vec![])));
        ask(&mut service, Request::UpdateProof(report(batch, status, None)));
    }
    match ask(&mut service, Request::GetUnsettled) {
        Action::TellUnsettled(records) => {
            let mut ids: Vec<String> = records.into_iter().map(|r| r.batch_id).collect();
            ids.sort();
            assert_eq!(ids, vec!["failed", "generated", "posted"]);
        }
        other => panic!("{:?}", other),
    }
}

#[test]
fn failed_proofs_are_retried_less_than_three_times() {
    let mut service = RollupService::new();
    ask(&mut service, Request::StoreProof(store("b1", vec![])));
    assert_eq!(
        ask(&mut service, Request::StoreProof(store("b2", vec![]))),
        Action::TellStored(2)
    );
    for count in 1..3u32 {
        ask(&mut service, Request::UpdateProof(report("b1", ProofStatus::Failed, Some("x"))));
        assert_eq!(
            ask(&mut service, Request::RetryFailed),
            Action::TellRetried(vec![("b1".to_string(), count)])
        );
        let retried = record(&mut service, "b1");
        assert_eq!(retried.status, ProofStatus::Generated);
        assert_eq!(retried.retry_count, count);
        assert_eq!(retried.error_message, Some("x".to_string()));
        assert_eq!(ask(&mut service, Request::RetryFailed), Action::TellRetried(vec![]));
    }
    ask(&mut service, Request::UpdateProof(report("b1", ProofStatus::Failed, None)));
    let exhausted = record(&mut service, "b1");
    assert_eq!(exhausted.retry_count, 3);
    assert_eq!(ask(&mut service, Request::RetryFailed), Action::TellRetried(vec![]));
    assert_eq!(record(&mut service, "b1"), exhausted);
    assert_eq!(record(&mut service, "b2").status, ProofStatus::Generated);
}

#[test]
fn storing_a_batch_again_starts_over() {
    let mut service = RollupService::new();
    ask(&mut service, Request::StoreProof(store("b1", vec!["s1"])));
    ask(&mut service, Request::UpdateProof(report("b1", ProofStatus::Failed, Some("x"))));
    assert_eq!(
        ask(&mut service, Request::StoreProof(store("b1", vec!["s2"]))),
        Action::TellStored(1)
    );
    let fresh = record(&mut service, "b1");
    assert_eq!(fresh.status, ProofStatus::Generated);
    assert_eq!(fresh.retry_count, 0);
    assert_eq!(fresh.error_message, None);
    assert_eq!(fresh.transaction_signatures, vec!["s2".to_string()]);
}

#[test]
fn empty_message_asks_for_nothing() {
    assert_eq!(RollupDBMessage::empty().into_request(), Request::Nothing);
    let mut service = RollupService::new();
    assert_eq!(ask(&mut service, Request::Nothing), Action::Receive);
}

#[test]
fn first_request_of_a_message_counts() {
    let full = || RollupDBMessage {
        lock_accounts: Some(vec![key(1)]),
        add_processed_transaction: Some(transaction(vec![1], vec![])),
        frontend_get_tx: Some(Digest([1; 32])),
        list_offset: Some(1),
        list_limit: Some(2),
        add_settle_proof: Some("proof".to_string()),
        add_new_data: Some(vec![(key(2), account(2))]),
        store_batch_proof: Some(store("b", vec![])),
        update_proof_status: Some(report("b", ProofStatus::Posted, None)),
        get_proof_by_batch_id: Some("b".to_string()),
        get_unsettled_proofs: Some(false),
        retry_failed_proofs: Some(false),
    };
    assert_eq!(full().into_request(), Request::Lock(vec![key(1)]));
    let mut message = full();
    message.lock_accounts = None;
    assert_eq!(
        message.into_request(),
        Request::Process(transaction(vec![1], vec![]), vec![(key(2), account(2))])
    );
    let mut message = full();
    message.lock_accounts = None;
    message.add_new_data = None;
    assert_eq!(message.into_request(), Request::GetTransaction(Digest([1; 32])));
    let mut message = full();
    message.lock_accounts = None;
    message.add_processed_transaction = None;
    message.frontend_get_tx = None;
    assert_eq!(message.into_request(), Request::StoreProof(store("b", vec![])));
    let mut message = full();
    message.lock_accounts = None;
    message.add_processed_transaction = None;
    message.frontend_get_tx = None;
    message.store_batch_proof = None;
    assert_eq!(
        message.into_request(),
        Request::UpdateProof(report("b", ProofStatus::Posted, None))
    );
    let mut message = RollupDBMessage::empty();
    message.get_proof_by_batch_id = Some("b".to_string());
    message.get_unsettled_proofs = Some(true);
    assert_eq!(message.into_request(), Request::GetProof("b".to_string()));
    let mut message = RollupDBMessage::empty();
    message.get_unsettled_proofs = Some(false);
    message.retry_failed_proofs = Some(true);
    assert_eq!(message.into_request(), Request::GetUnsettled);
    let mut message = RollupDBMessage::empty();
    message.retry_failed_proofs = Some(false);
    assert_eq!(message.into_request(), Request::RetryFailed);
    let mut message = RollupDBMessage::empty();
    message.list_offset = Some(3);
    message.list_limit = Some(4);
    message.add_settle_proof = Some("proof".to_string());
    assert_eq!(message.into_request(), Request::Nothing);
}
