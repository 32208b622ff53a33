use rollup_core::ledger::{
    Account, Digest, Message, MessageHeader, Pubkey, Signature, Transaction,
};
use rollup_core::rollupdb::{FrontendMessage, RollupDB};
use rollup_core::solana::hash_transaction;

fn key(n: u8) -> Pubkey {
    Pubkey([n; 32])
}

fn account(lamports: u64) -> Account {
    Account { lamports, data: vec![1, 2, 3], owner: key(0), executable: false, rent_epoch: 9 }
}

fn transaction(signature: u8, keys: Vec<Pubkey>) -> Transaction {
    Transaction {
        signatures: vec![Signature([signature; 64])],
        message: Message {
            header: MessageHeader {
                num_required_signatures: 1,
                num_readonly_signed_accounts: 0,
                num_readonly_unsigned_accounts: 0,
            },
            account_keys: keys,
            recent_blockhash: Digest([4; 32]),
            instructions: vec![],
        },
    }
}

fn sdk_hash(signature: u8) -> Digest {
    let text = solana_sdk::signature::Signature::from([signature; 64]).to_string();
    Digest(solana_sdk::keccak::hashv(&[text.as_bytes()]).to_bytes())
}

fn found(hash: Digest, tx: Transaction) -> FrontendMessage {
    FrontendMessage {
        get_tx: Some(hash),
        transaction: Some(tx),
        transactions: None,
        total: None,
        has_more: None,
        error: None,
    }
}

fn missing(hash: Digest) -> FrontendMessage {
    FrontendMessage {
        get_tx: Some(hash),
        transaction: None,
        transactions: None,
        total: None,
        has_more: None,
        error: Some("Transaction not found".to_string()),
    }
}

#[test]
fn hash_is_keccak_of_signature_text() {
    let tx = transaction(7, vec![]);
    assert_eq!(hash_transaction(&tx), sdk_hash(7));
    assert_ne!(hash_transaction(&tx), sdk_hash(8));
}

#[test]
fn hash_of_zero_signature_has_known_value() {
    // Base58 writes a zero byte as '1'.
    let text = "1".repeat(64);
    let expected = solana_sdk::keccak::hashv(&[text.as_bytes()]).to_bytes();
    assert_eq!(hash_transaction(&transaction(0, vec![])), Digest(expected));
}

#[test]
fn only_the_first_signature_counts() {
    let mut tx = transaction(7, vec![]);
    tx.signatures.push(Signature([8; 64]));
    assert_eq!(hash_transaction(&tx), sdk_hash(7));
}

#[test]
fn empty_database_finds_nothing() {
    let db = RollupDB::default();
    assert_eq!(db.get_transaction(&sdk_hash(1)), missing(sdk_hash(1)));
    assert!(db.get_proof_by_batch_id("batch").is_none());
    assert!(db.get_batch_by_transaction("signature").is_none());
    assert!(db.get_unsettled_proofs().is_empty());
    assert_eq!((db.free_count(), db.locked_count(), db.proof_count()), (0, 0, 0));
}

#[test]
fn processed_transaction_is_found() {
    let mut db = RollupDB::default();
    db.process_transaction(transaction(1, vec![key(5)]), vec![]);
    db.process_transaction(transaction(2, vec![]), vec![]);
    assert_eq!(db.get_transaction(&sdk_hash(1)), found(sdk_hash(1), transaction(1, vec![key(5)])));
    assert_eq!(db.get_transaction(&sdk_hash(2)), found(sdk_hash(2), transaction(2, vec![])));
    assert_eq!(db.get_transaction(&sdk_hash(3)), missing(sdk_hash(3)));
}

#[test]
fn filing_the_same_hash_again_replaces() {
    let mut db = RollupDB::default();
    let hash = Digest([9; 32]);
    db.file_transaction(&hash, transaction(1, vec![]), vec![]);
    db.file_transaction(&hash, transaction(2, vec![]), vec![]);
    assert_eq!(db.get_transaction(&hash), found(hash, transaction(2, vec![])));
}

#[test]
fn processed_data_can_be_locked() {
    let mut db = RollupDB::default();
    let new_data = vec![(key(1), account(10)), (key(2), account(20)), (key(1), account(11))];
    db.process_transaction(transaction(1, vec![]), new_data);
    assert_eq!(db.free_count(), 2);
    assert_eq!(db.locked_count(), 0);
    assert_eq!(db.lock_local(&key(1)), Some(account(11)));
    assert_eq!(db.free_count(), 1);
    assert_eq!(db.locked_count(), 1);
    assert_eq!(db.lock_local(&key(2)), Some(account(20)));
    assert_eq!(db.lock_local(&key(3)), None);
}

#[test]
fn locked_account_cannot_be_locked_again() {
    let mut db = RollupDB::default();
    db.process_transaction(transaction(1, vec![]), vec![(key(1), account(10))]);
    assert_eq!(db.lock_local(&key(1)), Some(account(10)));
    assert_eq!(db.lock_local(&key(1)), None);
}

#[test]
fn keys_that_differ_in_one_byte_are_told_apart() {
    let mut db = RollupDB::default();
    let mut new_data = vec![];
    for i in 0..32usize {
        let mut bytes = [0u8; 32];
        bytes[i] = 1;
        new_data.push((Pubkey(bytes), account(i as u64)));
    }
    db.process_transaction(transaction(1, vec![]), new_data);
    for i in 0..32usize {
        let mut bytes = [0u8; 32];
        bytes[i] = 1;
        assert_eq!(db.lock_local(&Pubkey(bytes)), Some(account(i as u64)));
    }
    assert_eq!(db.lock_local(&Pubkey([0; 32])), None);
}
