use rollup_core::ledger::{Account, Digest, Message, MessageHeader, Pubkey, Signature, Transaction};
use rollup_core::proofs::{
    BatchProofRecord, ProofData, ProofStatus, StoreBatchProofMessage, UpdateProofStatusMessage,
    MAX_RETRIES,
};
use rollup_core::rollupdb::RollupDB;
use rollup_core::service::{Action, Event, Request, RollupService};
use std::time::{Duration, SystemTime};

fn at(seconds: u64) -> SystemTime {
    SystemTime::UNIX_EPOCH + Duration::from_secs(seconds)
}

fn sample_proof(tag: &str) -> ProofData {
    let text = |s: &str| format!("{}{}", tag, s);
    ProofData {
        pi_a: [text("0"), text("1"), text("2")],
        pi_b: [[text("3"), text("4")], [text("5"), text("6")], [text("7"), text("8")]],
        pi_c: [text("9"), text("10"), text("11")],
        protocol: text("p"),
        curve: text("c"),
    }
}

fn store(batch: &str, signatures: Vec<&str>) -> StoreBatchProofMessage {
    StoreBatchProofMessage {
        batch_id: batch.to_string(),
        proof_data: sample_proof(batch),
        public_inputs: vec!["in".to_string()],
        transaction_signatures: signatures.into_iter().map(|s| s.to_string()).collect(),
    }
}

fn report(batch: &str, status: ProofStatus, error: Option<&str>) -> UpdateProofStatusMessage {
    UpdateProofStatusMessage {
        batch_id: batch.to_string(),
        new_status: status,
        error_message: error.map(|e| e.to_string()),
    }
}

#[test]
fn record_of_a_new_proof() {
    let record = BatchProofRecord::generated(store("b", vec!["s"]), at(5));
    assert_eq!(
        record,
        BatchProofRecord {
            batch_id: "b".to_string(),
            proof_data: sample_proof("b"),
            public_inputs: vec!["in".to_string()],
            transaction_signatures: vec!["s".to_string()],
            status: ProofStatus::Generated,
            created_at: at(5),
            updated_at: at(5),
            retry_count: 0,
            error_message: None,
        }
    );
    assert_eq!(record.clone(), record);
    assert_eq!(store("b", vec!["s"]).clone(), store("b", vec!["s"]));
    let message = report("b", ProofStatus::Failed, Some("x"));
    assert_eq!(message.clone(), message);
}

#[test]
fn reports_count_failures_only() {
    let mut record = BatchProofRecord::generated(store("b", vec![]), at(5));
    record.report(ProofStatus::Failed, Some("x".to_string()), at(6));
    record.report(ProofStatus::Failed, Some("y".to_string()), at(7));
    assert_eq!(record.retry_count, 2);
    assert_eq!(record.error_message, Some("y".to_string()));
    assert_eq!(record.updated_at, at(7));
    assert_eq!(record.created_at, at(5));
    for status in [ProofStatus::Generated, ProofStatus::Posted, ProofStatus::Verified] {
        record.report(status, None, at(8));
        assert_eq!(record.retry_count, 2);
        assert_eq!(record.status, status);
    }
    assert_eq!(record.error_message, None);
}

#[test]
fn full_count_takes_no_failure() {
    let mut record = BatchProofRecord::generated(store("b", vec![]), at(5));
    assert!(record.can_report(ProofStatus::Failed));
    record.retry_count = u32::MAX;
    assert!(!record.can_report(ProofStatus::Failed));
    assert!(record.can_report(ProofStatus::Verified));
}

#[test]
fn retriable_are_failed_proofs_below_the_limit() {
    assert_eq!(MAX_RETRIES, 3);
    let mut record = BatchProofRecord::generated(store("b", vec![]), at(5));
    assert!(!record.is_retriable());
    record.status = ProofStatus::Failed;
    for (count, retriable) in [(0, true), (2, true), (3, false), (4, false)] {
        record.retry_count = count;
        assert_eq!(record.is_retriable(), retriable);
    }
    record.retry_count = 2;
    record.error_message = Some("x".to_string());
    record.reset(at(9));
    assert_eq!(record.status, ProofStatus::Generated);
    assert_eq!(record.updated_at, at(9));
    assert_eq!(record.retry_count, 2);
    assert_eq!(record.error_message, Some("x".to_string()));
}

#[test]
fn signatures_lead_to_their_batch() {
    let mut db = RollupDB::default();
    db.store_batch_proof_at(store("b1", vec!["s1", "s2", "s1"]), at(1));
    db.store_batch_proof_at(store("b2", vec!["s2", "s3"]), at(2));
    assert_eq!(db.get_batch_by_transaction("s1"), Some(&"b1".to_string()));
    assert_eq!(db.get_batch_by_transaction("s2"), Some(&"b2".to_string()));
    assert_eq!(db.get_batch_by_transaction("s3"), Some(&"b2".to_string()));
    assert_eq!(db.get_batch_by_transaction("s4"), None);
    for signature in ["s1", "s2", "s3"] {
        let batch = db.get_batch_by_transaction(signature).unwrap().clone();
        assert_eq!(db.get_proof_by_batch_id(&batch).unwrap().batch_id, batch);
    }
}

#[test]
fn database_takes_reports_at_their_time() {
    let mut db = RollupDB::default();
    db.store_batch_proof_at(store("b1", vec![]), at(1));
    let message = report("b1", ProofStatus::Failed, Some("x"));
    assert!(db.can_report(&message));
    assert!(db.update_proof_status_at(message, at(4)));
    let record = db.get_proof_by_batch_id("b1").unwrap();
    assert_eq!(record.status, ProofStatus::Failed);
    assert_eq!(record.created_at, at(1));
    assert_eq!(record.updated_at, at(4));
    assert_eq!(record.retry_count, 1);
    assert!(!db.update_proof_status_at(report("b2", ProofStatus::Failed, None), at(5)));
    assert_eq!(db.get_unsettled_proofs().len(), 1);
}

#[test]
fn retry_sets_the_time_of_the_clock() {
    let mut db = RollupDB::default();
    db.store_batch_proof_at(store("b1", vec![]), at(1));
    db.store_batch_proof_at(store("b2", vec![]), at(2));
    db.update_proof_status_at(report("b1", ProofStatus::Failed, None), at(3));
    let before = SystemTime::now();
    assert_eq!(db.retry_failed_proofs(), vec![("b1".to_string(), 1)]);
    let record = db.get_proof_by_batch_id("b1").unwrap();
    assert!(record.updated_at >= before);
    assert_eq!(record.created_at, at(1));
    assert_eq!(db.get_proof_by_batch_id("b2").unwrap().updated_at, at(2));
}

#[test]
fn processing_frees_exactly_the_accounts_of_the_transaction() {
    let key = |n: u8| Pubkey([n; 32]);
    let account = |lamports: u64| Account {
        lamports,
        data: vec![],
        owner: Pubkey([0; 32]),
        executable: false,
        rent_epoch: 0,
    };
    let transaction = Transaction {
        signatures: vec![Signature([1; 64])],
        message: Message {
            header: MessageHeader {
                num_required_signatures: 1,
                num_readonly_signed_accounts: 0,
                num_readonly_unsigned_accounts: 0,
            },
            account_keys: vec![key(1)],
            recent_blockhash: Digest([0; 32]),
            instructions: vec![],
        },
    };
    let mut service = RollupService::new();
    let lock = Event::Request(Request::Lock(vec![key(1), key(2)]));
    assert_eq!(service.step(lock), Action::FetchAccount(key(1)));
    assert_eq!(service.step(Event::Account(Some(account(1)))), Action::FetchAccount(key(2)));
    assert_eq!(
        service.step(Event::Account(Some(account(2)))),
        Action::SendAccounts(vec![(key(1), account(1)), (key(2), account(2))])
    );
    let process = Event::Request(Request::Process(transaction, vec![(key(1), account(9))]));
    assert_eq!(service.step(process), Action::TellProcessed(1, 1));
    let lock = Event::Request(Request::Lock(vec![key(1), key(2)]));
    assert_eq!(service.step(lock), Action::FetchAccount(key(2)));
    assert_eq!(
        service.step(Event::Account(None)),
        Action::SendAccounts(vec![(key(1), account(9))])
    );
}
