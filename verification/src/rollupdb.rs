//! The rollup's database: accounts, processed transactions and batch proofs.
use crate::byte_map::ByteMap;
use crate::ledger::{Account, AccountView, Digest, Pubkey, Transaction, TransactionView};
use crate::proof_table::ProofTable;
use crate::proofs::{
    current_time, BatchProofRecord, BatchProofRecordView, StoreBatchProofMessage,
    StoreBatchProofMessageView, UpdateProofStatusMessage, UpdateProofStatusMessageView,
};
use crate::solana::hash_transaction;
use std::time::SystemTime;
use vstd::hash_map::StringHashMap;
use vstd::prelude::*;

verus! {

/// An answer to the frontend.
#[derive(Debug, PartialEq, Eq)]
pub struct FrontendMessage {
    pub get_tx: Option<Digest>,
    pub transaction: Option<Transaction>,
    pub transactions: Option<Vec<Transaction>>,
    pub total: Option<u64>,
    pub has_more: Option<bool>,
    pub error: Option<String>,
}

/// What a [`FrontendMessage`] holds.
pub struct FrontendMessageView {
    pub get_tx: Option<Seq<u8>>,
    pub transaction: Option<TransactionView>,
    pub transactions: Option<Seq<TransactionView>>,
    pub total: Option<u64>,
    pub has_more: Option<bool>,
    pub error: Option<Seq<char>>,
}

impl View for FrontendMessage {
    type V = FrontendMessageView;

    open spec fn view(&self) -> FrontendMessageView {
        FrontendMessageView {
            get_tx: self.get_tx.deep_view(),
            transaction: self.transaction.deep_view(),
            transactions: self.transactions.deep_view(),
            total: self.total,
            has_more: self.has_more,
            error: self.error.deep_view(),
        }
    }
}

impl DeepView for FrontendMessage {
    type V = FrontendMessageView;

    open spec fn deep_view(&self) -> FrontendMessageView {
        self@
    }
}

/// The accounts that can be locked, those that are locked, the processed transactions by their
/// hashes, the batch proofs by their batch ids, and the batch of each transaction signature.
pub struct RollupDB {
    accounts_db: ByteMap<Account>,
    locked_accounts: ByteMap<Account>,
    transactions: ByteMap<Transaction>,
    batch_proofs: ProofTable,
    proof_by_transaction: StringHashMap<String>,
}

/// What a [`RollupDB`] holds.
#[verifier::ext_equal]
pub struct RollupDBView {
    pub accounts: Map<Seq<u8>, AccountView>,
    pub locked: Map<Seq<u8>, AccountView>,
    pub transactions: Map<Seq<u8>, TransactionView>,
    pub proofs: Map<Seq<char>, BatchProofRecordView>,
    pub proof_by_transaction: Map<Seq<char>, Seq<char>>,
}

/// `accounts` after the updates came in one after the other.
pub open spec fn insert_all(
    accounts: Map<Seq<u8>, AccountView>,
    updates: Seq<(Seq<u8>, AccountView)>,
) -> Map<Seq<u8>, AccountView>
    decreases updates.len(),
{
    if updates.len() == 0 {
        accounts
    } else {
        insert_all(accounts, updates.drop_last()).insert(updates.last().0, updates.last().1)
    }
}

impl RollupDBView {
    /// A database that holds nothing.
    pub open spec fn empty() -> Self {
        RollupDBView {
            accounts: Map::empty(),
            locked: Map::empty(),
            transactions: Map::empty(),
            proofs: Map::empty(),
            proof_by_transaction: Map::empty(),
        }
    }

    /// The account `key` is locked with the state `account`.
    pub open spec fn lock(self, key: Seq<u8>, account: AccountView) -> Self {
        RollupDBView {
            accounts: self.accounts.remove(key),
            locked: self.locked.insert(key, account),
            ..self
        }
    }

    /// The processed transaction is filed under `hash`, the new states of accounts come in, and the
    /// accounts of the transaction are locked no more.
    pub open spec fn file(
        self,
        hash: Seq<u8>,
        tx: TransactionView,
        new_data: Seq<(Seq<u8>, AccountView)>,
    ) -> Self {
        RollupDBView {
            accounts: insert_all(self.accounts, new_data),
            locked: self.locked.remove_keys(tx.message.account_keys.to_set()),
            transactions: self.transactions.insert(hash, tx),
            ..self
        }
    }

    /// The processed transaction is filed under its own hash.
    pub open spec fn process(
        self,
        tx: TransactionView,
        new_data: Seq<(Seq<u8>, AccountView)>,
    ) -> Self {
        self.file(crate::solana::transaction_hash(tx), tx, new_data)
    }

    /// The answer to a question for the transaction of that hash.
    pub open spec fn lookup(self, hash: Seq<u8>) -> FrontendMessageView {
        if self.transactions.contains_key(hash) {
            FrontendMessageView {
                get_tx: Some(hash),
                transaction: Some(self.transactions[hash]),
                transactions: None,
                total: None,
                has_more: None,
                error: None,
            }
        } else {
            FrontendMessageView {
                get_tx: Some(hash),
                transaction: None,
                transactions: None,
                total: None,
                has_more: None,
                error: Some("Transaction not found"@),
            }
        }
    }

    /// A new record of the proof is kept, and each of its transaction signatures leads to its
    /// batch.
    pub open spec fn store_proof(
        self,
        message: StoreBatchProofMessageView,
        now: SystemTime,
    ) -> Self {
        RollupDBView {
            proofs: self.proofs.insert(
                message.batch_id,
                BatchProofRecordView::generated(message, now),
            ),
            proof_by_transaction: self.proof_by_transaction.union_prefer_right(
                Map::new(
                    |signature: Seq<char>| message.transaction_signatures.contains(signature),
                    |signature: Seq<char>| message.batch_id,
                ),
            ),
            ..self
        }
    }

    /// The record of the batch takes in the report; a report on an unknown batch changes nothing.
    pub open spec fn report_proof(
        self,
        message: UpdateProofStatusMessageView,
        now: SystemTime,
    ) -> Self {
        if self.proofs.contains_key(message.batch_id) {
            RollupDBView {
                proofs: self.proofs.insert(
                    message.batch_id,
                    self.proofs[message.batch_id].reported(
                        message.new_status,
                        message.error_message,
                        now,
                    ),
                ),
                ..self
            }
        } else {
            self
        }
    }

    /// Whether `after` is what storing the proof at some time leads to.
    pub open spec fn stores_proof(self, message: StoreBatchProofMessageView, after: Self) -> bool {
        exists|now: SystemTime| after == #[trigger] self.store_proof(message, now)
    }

    /// Whether `after` is what the report at some time leads to.
    pub open spec fn reports_proof(
        self,
        message: UpdateProofStatusMessageView,
        after: Self,
    ) -> bool {
        exists|now: SystemTime| after == #[trigger] self.report_proof(message, now)
    }

    /// Whether a report finds room in the count of failures.
    pub open spec fn can_report(self, message: UpdateProofStatusMessageView) -> bool {
        self.proofs.contains_key(message.batch_id) ==> self.proofs[message.batch_id].can_report(
            message.new_status,
        )
    }
}

impl View for RollupDB {
    type V = RollupDBView;

    closed spec fn view(&self) -> RollupDBView {
        RollupDBView {
            accounts: self.accounts_db@,
            locked: self.locked_accounts@,
            transactions: self.transactions@,
            proofs: self.batch_proofs@,
            proof_by_transaction: self.proof_by_transaction@.map_values(|id: String| id@),
        }
    }
}

impl Default for RollupDB {
    fn default() -> (db: Self)
        ensures
            db.wf(),
            db@ == RollupDBView::empty(),
    {
        let db = RollupDB {
            accounts_db: ByteMap::new(),
            locked_accounts: ByteMap::new(),
            transactions: ByteMap::new(),
            batch_proofs: ProofTable::new(),
            proof_by_transaction: StringHashMap::new(),
        };
        assert(db@ =~= RollupDBView::empty());
        db
    }
}

impl RollupDB {
    /// The proof table is in order.
    pub closed spec fn wf(self) -> bool {
        self.batch_proofs.wf()
    }

    /// Every proof is filed under its own batch id.
    pub proof fn lemma_proofs_filed_under_own_id(self)
        requires
            self.wf(),
        ensures
            forall|id: Seq<char>| #[trigger]
                self@.proofs.contains_key(id) ==> self@.proofs[id].batch_id == id,
    {
        self.batch_proofs.lemma_filed_under_own_id();
    }

    /// How many accounts can be locked.
    pub fn free_count(&self) -> (count: usize)
        ensures
            count == self@.accounts.len(),
    {
        self.accounts_db.len()
    }

    /// How many accounts are locked.
    pub fn locked_count(&self) -> (count: usize)
        ensures
            count == self@.locked.len(),
    {
        self.locked_accounts.len()
    }

    /// How many batch proofs are kept.
    pub fn proof_count(&self) -> (count: usize)
        requires
            self.wf(),
        ensures
            count == self@.proofs.len(),
    {
        self.batch_proofs.len()
    }

    /// Takes the account `key` out of those that can be locked, if it is there, and locks it.
    pub fn lock_local(&mut self, key: &Pubkey) -> (locked: Option<Account>)
        requires
            old(self).wf(),
        ensures
            final(self).wf(),
            match locked {
                Some(account) => {
                    &&& old(self)@.accounts.contains_key(key@)
                    &&& account@ == old(self)@.accounts[key@]
                    &&& final(self)@ == old(self)@.lock(key@, account@)
                },
                None => {
                    &&& !old(self)@.accounts.contains_key(key@)
                    &&& final(self)@ == old(self)@
                },
            },
    {
        match self.accounts_db.remove(&key.0) {
            Some(account) => {
                self.locked_accounts.insert(&key.0, account.clone());
                assert(self@ =~= old(self)@.lock(key@, account@));
                Some(account)
            },
            None => {
                assert(self@ =~= old(self)@);
                None
            },
        }
    }

    /// Locks the account `key`, which is not here, with the state that it has elsewhere.
    pub fn lock_fetched(&mut self, key: &Pubkey, account: &Account)
        requires
            old(self).wf(),
            !old(self)@.accounts.contains_key(key@),
        ensures
            final(self).wf(),
            final(self)@ == old(self)@.lock(key@, account@),
    {
        self.locked_accounts.insert(&key.0, account.clone());
        assert(self@ =~= old(self)@.lock(key@, account@));
    }

    /// Takes in a processed transaction, to be filed under `hash`, and the states in which it left
    /// accounts.
    pub fn file_transaction(
        &mut self,
        hash: &Digest,
        tx: Transaction,
        new_data: Vec<(Pubkey, Account)>,
    )
        requires
            old(self).wf(),
        ensures
            final(self).wf(),
            final(self)@ == old(self)@.file(hash@, tx@, new_data.deep_view()),
    {
        let ghost updates = new_data.deep_view();
        for update in it: new_data
            invariant
                it.seq() == new_data@,
                updates == new_data.deep_view(),
                self.locked_accounts == old(self).locked_accounts,
                self.transactions == old(self).transactions,
                self.batch_proofs == old(self).batch_proofs,
                self.proof_by_transaction == old(self).proof_by_transaction,
                self.accounts_db@ == insert_all(old(self)@.accounts, updates.take(it.index())),
        {
            proof {
                assert(updates.take(it.index() + 1).drop_last() =~= updates.take(it.index()));
                assert(updates.take(it.index() + 1).last() == update.deep_view());
            }
            let (key, account) = update;
            self.accounts_db.insert(&key.0, account);
        }
        assert(updates.take(updates.len() as int) =~= updates);
        let ghost keys = tx@.message.account_keys;
        let mut i: usize = 0;
        while i < tx.message.account_keys.len()
            invariant
                i <= tx.message.account_keys@.len(),
                keys == tx.message.account_keys.deep_view(),
                self.accounts_db@ == insert_all(old(self)@.accounts, updates),
                self.transactions == old(self).transactions,
                self.batch_proofs == old(self).batch_proofs,
                self.proof_by_transaction == old(self).proof_by_transaction,
                self.locked_accounts@ == old(self)@.locked.remove_keys(
                    keys.take(i as int).to_set(),
                ),
            decreases tx.message.account_keys@.len() - i,
        {
            let key = tx.message.account_keys[i];
            self.locked_accounts.remove(&key.0);
            proof {
                let before = keys.take(i as int).to_set();
                let after = keys.take(i + 1).to_set();
                assert(keys.take(i + 1) =~= keys.take(i as int).push(key@));
                assert forall|k: Seq<u8>|
                    after.contains(k) <==> before.contains(k) || k == key@ by {
                    if before.contains(k) {
                        let j = keys.take(i as int).index_of(k);
                        assert(keys.take(i + 1)[j] == k);
                    }
                    assert(keys.take(i + 1)[i as int] == key@);
                }
                assert(old(self)@.locked.remove_keys(before).remove(key@) =~= old(
                    self,
                )@.locked.remove_keys(after));
            }
            i = i + 1;
        }
        assert(keys.take(keys.len() as int) =~= keys);
        self.transactions.insert(&hash.0, tx);
        assert(self@ =~= old(self)@.file(hash@, tx@, updates));
    }

    /// Takes in a processed transaction and the states in which it left accounts.
    pub fn process_transaction(&mut self, tx: Transaction, new_data: Vec<(Pubkey, Account)>)
        requires
            old(self).wf(),
            tx@.signatures.len() > 0,
        ensures
            final(self).wf(),
            final(self)@ == old(self)@.process(tx@, new_data.deep_view()),
    {
        let hash = hash_transaction(&tx);
        self.file_transaction(&hash, tx, new_data);
    }

    /// Answers a question for the transaction of that hash.
    pub fn get_transaction(&self, hash: &Digest) -> (answer: FrontendMessage)
        requires
            self.wf(),
        ensures
            answer@ == self@.lookup(hash@),
    {
        match self.transactions.get(&hash.0) {
            Some(tx) => FrontendMessage {
                get_tx: Some(*hash),
                transaction: Some(tx.clone()),
                transactions: None,
                total: None,
                has_more: None,
                error: None,
            },
            None => FrontendMessage {
                get_tx: Some(*hash),
                transaction: None,
                transactions: None,
                total: None,
                has_more: None,
                error: Some("Transaction not found".to_owned()),
            },
        }
    }

    /// Keeps a batch proof that is handed in at `now`.
    pub fn store_batch_proof_at(&mut self, message: StoreBatchProofMessage, now: SystemTime)
        requires
            old(self).wf(),
        ensures
            final(self).wf(),
            final(self)@ == old(self)@.store_proof(message@, now),
    {
        let ghost signatures = message@.transaction_signatures;
        let mut i: usize = 0;
        assert(signatures.take(0) =~= Seq::empty());
        while i < message.transaction_signatures.len()
            invariant
                i <= message.transaction_signatures@.len(),
                signatures == message.transaction_signatures.deep_view(),
                self.accounts_db == old(self).accounts_db,
                self.locked_accounts == old(self).locked_accounts,
                self.transactions == old(self).transactions,
                self.batch_proofs == old(self).batch_proofs,
                forall|s: Seq<char>| #[trigger]
                    self.proof_by_transaction@.contains_key(s) <==> {
                        ||| old(self).proof_by_transaction@.contains_key(s)
                        ||| signatures.take(i as int).contains(s)
                    },
                forall|s: Seq<char>| #[trigger]
                    self.proof_by_transaction@.contains_key(s)
                        ==> self.proof_by_transaction@[s]@ == if signatures.take(
                        i as int,
                    ).contains(s) {
                        message@.batch_id
                    } else {
                        old(self).proof_by_transaction@[s]@
                    },
            decreases message.transaction_signatures@.len() - i,
        {
            let signature = message.transaction_signatures[i].clone();
            let ghost before = signatures.take(i as int);
            let ghost after = signatures.take(i + 1);
            proof {
                assert(after =~= before.push(signature@));
                assert forall|s: Seq<char>|
                    after.contains(s) <==> before.contains(s) || s == signature@ by {
                    if before.contains(s) {
                        let j = before.index_of(s);
                        assert(after[j] == s);
                    }
                    assert(after[i as int] == signature@);
                }
            }
            self.proof_by_transaction.insert(signature, message.batch_id.clone());
            i = i + 1;
        }
        assert(signatures.take(signatures.len() as int) =~= signatures);
        self.batch_proofs.insert(BatchProofRecord::generated(message, now));
        assert(self@ =~= old(self)@.store_proof(message@, now));
    }

    /// Keeps a batch proof that is handed in now.
    pub fn store_batch_proof(&mut self, message: StoreBatchProofMessage)
        requires
            old(self).wf(),
        ensures
            final(self).wf(),
            old(self)@.stores_proof(message@, final(self)@),
    {
        let now = current_time();
        self.store_batch_proof_at(message, now);
    }

    /// Whether a report finds room in the count of failures.
    pub fn can_report(&self, message: &UpdateProofStatusMessage) -> (can: bool)
        requires
            self.wf(),
        ensures
            can == self@.can_report(message@),
    {
        match self.batch_proofs.get(message.batch_id.as_str()) {
            Some(record) => record.can_report(message.new_status),
            None => true,
        }
    }

    /// Takes in a report on a batch proof that comes at `now`, and tells whether the batch is
    /// known.
    pub fn update_proof_status_at(
        &mut self,
        message: UpdateProofStatusMessage,
        now: SystemTime,
    ) -> (found: bool)
        requires
            old(self).wf(),
            old(self)@.can_report(message@),
        ensures
            final(self).wf(),
            found == old(self)@.proofs.contains_key(message@.batch_id),
            final(self)@ == old(self)@.report_proof(message@, now),
    {
        let found = self.batch_proofs.report_at(message, now);
        assert(self@ =~= old(self)@.report_proof(message@, now));
        found
    }

    /// Takes in a report on a batch proof that comes now, and tells whether the batch is known.
    pub fn update_proof_status(&mut self, message: UpdateProofStatusMessage) -> (found: bool)
        requires
            old(self).wf(),
            old(self)@.can_report(message@),
        ensures
            final(self).wf(),
            found == old(self)@.proofs.contains_key(message@.batch_id),
            old(self)@.reports_proof(message@, final(self)@),
    {
        let now = current_time();
        self.update_proof_status_at(message, now)
    }

    /// The record of the batch `batch_id`, if there is one.
    pub fn get_proof_by_batch_id(&self, batch_id: &str) -> (found: Option<&BatchProofRecord>)
        requires
            self.wf(),
        ensures
            match found {
                Some(record) => {
                    &&& self@.proofs.contains_key(batch_id@)
                    &&& self@.proofs[batch_id@] == record@
                },
                None => !self@.proofs.contains_key(batch_id@),
            },
    {
        self.batch_proofs.get(batch_id)
    }

    /// The batch to which a transaction signature leads, if it leads to one.
    pub fn get_batch_by_transaction(&self, signature: &str) -> (found: Option<&String>)
        requires
            self.wf(),
        ensures
            match found {
                Some(batch_id) => {
                    &&& self@.proof_by_transaction.contains_key(signature@)
                    &&& self@.proof_by_transaction[signature@] == batch_id@
                },
                None => !self@.proof_by_transaction.contains_key(signature@),
            },
    {
        self.proof_by_transaction.get(signature)
    }

    /// The records of the proofs that are not yet verified.
    pub fn get_unsettled_proofs(&self) -> (records: Vec<&BatchProofRecord>)
        requires
            self.wf(),
        ensures
            crate::proof_table::lists_picked(
                records.deep_view(),
                self@.proofs,
                |record: BatchProofRecordView| record.is_unsettled(),
            ),
    {
        self.batch_proofs.unsettled()
    }

    /// Takes every failed proof up again that has not failed too often, each at the time of the
    /// clock, and gives the ids of their batches, each with the count of its failures.
    pub fn retry_failed_proofs(&mut self) -> (retried: Vec<(String, u32)>)
        requires
            old(self).wf(),
        ensures
            final(self).wf(),
            final(self)@ == (RollupDBView { proofs: final(self)@.proofs, ..old(self)@ }),
            crate::proof_table::all_retried(old(self)@.proofs, final(self)@.proofs),
            crate::proof_table::lists_retried(retried.deep_view(), old(self)@.proofs),
    {
        self.batch_proofs.retry_failed()
    }
}

/// What an answer to the frontend holds is what it is made of.
pub proof fn law_frontend_view(answer: FrontendMessage, i: int)
    ensures
        answer.get_tx is None ==> answer@.get_tx is None,
        answer.get_tx is Some ==> answer@.get_tx == Some(answer.get_tx->0@),
        answer.transaction is None ==> answer@.transaction is None,
        answer.transaction is Some ==> answer@.transaction == Some(answer.transaction->0@),
        answer.transactions is None ==> answer@.transactions is None,
        answer.transactions is Some ==> answer@.transactions is Some
            && answer@.transactions->0.len() == answer.transactions->0@.len(),
        answer.transactions is Some && 0 <= i < answer.transactions->0@.len()
            ==> answer@.transactions->0[i] == answer.transactions->0@[i]@,
        answer@.total == answer.total,
        answer@.has_more == answer.has_more,
        answer.error is None ==> answer@.error is None,
        answer.error is Some ==> answer@.error == Some(answer.error->0@),
{
}

} // verus!
