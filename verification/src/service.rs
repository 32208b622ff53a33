//! The database as a service: which message asks for what, and what is to be done about it.
//!
//! [`RollupService::step`] takes an event and says what comes next. Receiving messages, asking
//! layer 1 for accounts and sending answers is left to the caller.
use crate::ledger::{Account, AccountView, Digest, Pubkey, Transaction, TransactionView};
use crate::proofs::{
    BatchProofRecord, BatchProofRecordView, StoreBatchProofMessage, StoreBatchProofMessageView,
    UpdateProofStatusMessage, UpdateProofStatusMessageView,
};
use crate::rollupdb::{FrontendMessage, FrontendMessageView, RollupDB, RollupDBView};
use vstd::prelude::*;

verus! {

/// A message to the database. The first request that is filled in counts, in the order of
/// [`RollupDBMessageView::request`].
#[derive(Debug, PartialEq, Eq)]
pub struct RollupDBMessage {
    pub lock_accounts: Option<Vec<Pubkey>>,
    pub add_processed_transaction: Option<Transaction>,
    pub frontend_get_tx: Option<Digest>,
    pub list_offset: Option<u64>,
    pub list_limit: Option<u32>,
    pub add_settle_proof: Option<String>,
    pub add_new_data: Option<Vec<(Pubkey, Account)>>,
    pub store_batch_proof: Option<StoreBatchProofMessage>,
    pub update_proof_status: Option<UpdateProofStatusMessage>,
    pub get_proof_by_batch_id: Option<String>,
    pub get_unsettled_proofs: Option<bool>,
    pub retry_failed_proofs: Option<bool>,
}

/// What a [`RollupDBMessage`] holds.
pub struct RollupDBMessageView {
    pub lock_accounts: Option<Seq<Seq<u8>>>,
    pub add_processed_transaction: Option<TransactionView>,
    pub frontend_get_tx: Option<Seq<u8>>,
    pub list_offset: Option<u64>,
    pub list_limit: Option<u32>,
    pub add_settle_proof: Option<Seq<char>>,
    pub add_new_data: Option<Seq<(Seq<u8>, AccountView)>>,
    pub store_batch_proof: Option<StoreBatchProofMessageView>,
    pub update_proof_status: Option<UpdateProofStatusMessageView>,
    pub get_proof_by_batch_id: Option<Seq<char>>,
    pub get_unsettled_proofs: Option<bool>,
    pub retry_failed_proofs: Option<bool>,
}

impl View for RollupDBMessage {
    type V = RollupDBMessageView;

    open spec fn view(&self) -> RollupDBMessageView {
        RollupDBMessageView {
            lock_accounts: self.lock_accounts.deep_view(),
            add_processed_transaction: self.add_processed_transaction.deep_view(),
            frontend_get_tx: self.frontend_get_tx.deep_view(),
            list_offset: self.list_offset,
            list_limit: self.list_limit,
            add_settle_proof: self.add_settle_proof.deep_view(),
            add_new_data: self.add_new_data.deep_view(),
            store_batch_proof: self.store_batch_proof.deep_view(),
            update_proof_status: self.update_proof_status.deep_view(),
            get_proof_by_batch_id: self.get_proof_by_batch_id.deep_view(),
            get_unsettled_proofs: self.get_unsettled_proofs,
            retry_failed_proofs: self.retry_failed_proofs,
        }
    }
}

impl RollupDBMessage {
    /// A message that asks for nothing.
    pub fn empty() -> (message: Self)
        ensures
            message@ == RollupDBMessageView::empty(),
    {
        RollupDBMessage {
            lock_accounts: None,
            add_processed_transaction: None,
            frontend_get_tx: None,
            list_offset: None,
            list_limit: None,
            add_settle_proof: None,
            add_new_data: None,
            store_batch_proof: None,
            update_proof_status: None,
            get_proof_by_batch_id: None,
            get_unsettled_proofs: None,
            retry_failed_proofs: None,
        }
    }
}

/// The one thing that a message asks for.
#[derive(Debug, PartialEq, Eq)]
pub enum Request {
    Lock(Vec<Pubkey>),
    Process(Transaction, Vec<(Pubkey, Account)>),
    GetTransaction(Digest),
    StoreProof(StoreBatchProofMessage),
    UpdateProof(UpdateProofStatusMessage),
    GetProof(String),
    GetUnsettled,
    RetryFailed,
    Nothing,
}

/// What a [`Request`] holds.
pub enum RequestView {
    Lock(Seq<Seq<u8>>),
    Process(TransactionView, Seq<(Seq<u8>, AccountView)>),
    GetTransaction(Seq<u8>),
    StoreProof(StoreBatchProofMessageView),
    UpdateProof(UpdateProofStatusMessageView),
    GetProof(Seq<char>),
    GetUnsettled,
    RetryFailed,
    Nothing,
}

impl View for Request {
    type V = RequestView;

    open spec fn view(&self) -> RequestView {
        match self {
            Request::Lock(keys) => RequestView::Lock(keys.deep_view()),
            Request::Process(tx, new_data) => RequestView::Process(tx@, new_data.deep_view()),
            Request::GetTransaction(hash) => RequestView::GetTransaction(hash@),
            Request::StoreProof(message) => RequestView::StoreProof(message@),
            Request::UpdateProof(message) => RequestView::UpdateProof(message@),
            Request::GetProof(batch_id) => RequestView::GetProof(batch_id@),
            Request::GetUnsettled => RequestView::GetUnsettled,
            Request::RetryFailed => RequestView::RetryFailed,
            Request::Nothing => RequestView::Nothing,
        }
    }
}

impl RollupDBMessageView {
    /// A message that asks for nothing.
    pub open spec fn empty() -> Self {
        RollupDBMessageView {
            lock_accounts: None,
            add_processed_transaction: None,
            frontend_get_tx: None,
            list_offset: None,
            list_limit: None,
            add_settle_proof: None,
            add_new_data: None,
            store_batch_proof: None,
            update_proof_status: None,
            get_proof_by_batch_id: None,
            get_unsettled_proofs: None,
            retry_failed_proofs: None,
        }
    }

    /// What the message asks for. A processed transaction counts only together with new data, and
    /// a flag counts whichever way it is set.
    pub open spec fn request(self) -> RequestView {
        if let Some(keys) = self.lock_accounts {
            RequestView::Lock(keys)
        } else if self.add_processed_transaction is Some && self.add_new_data is Some {
            RequestView::Process(self.add_processed_transaction->0, self.add_new_data->0)
        } else if let Some(hash) = self.frontend_get_tx {
            RequestView::GetTransaction(hash)
        } else if let Some(message) = self.store_batch_proof {
            RequestView::StoreProof(message)
        } else if let Some(message) = self.update_proof_status {
            RequestView::UpdateProof(message)
        } else if let Some(batch_id) = self.get_proof_by_batch_id {
            RequestView::GetProof(batch_id)
        } else if self.get_unsettled_proofs is Some {
            RequestView::GetUnsettled
        } else if self.retry_failed_proofs is Some {
            RequestView::RetryFailed
        } else {
            RequestView::Nothing
        }
    }
}

impl RollupDBMessage {
    /// What the message asks for.
    pub fn into_request(self) -> (request: Request)
        ensures
            request@ == self@.request(),
    {
        if let Some(keys) = self.lock_accounts {
            return Request::Lock(keys);
        }
        if let (Some(tx), Some(new_data)) = (self.add_processed_transaction, self.add_new_data) {
            return Request::Process(tx, new_data);
        }
        if let Some(hash) = self.frontend_get_tx {
            Request::GetTransaction(hash)
        } else if let Some(message) = self.store_batch_proof {
            Request::StoreProof(message)
        } else if let Some(message) = self.update_proof_status {
            Request::UpdateProof(message)
        } else if let Some(batch_id) = self.get_proof_by_batch_id {
            Request::GetProof(batch_id)
        } else if self.get_unsettled_proofs.is_some() {
            Request::GetUnsettled
        } else if self.retry_failed_proofs.is_some() {
            Request::RetryFailed
        } else {
            Request::Nothing
        }
    }
}

/// What happens to the service.
#[derive(Debug, PartialEq, Eq)]
pub enum Event {
    /// A request comes.
    Request(Request),
    /// Layer 1 answers the last [`Action::FetchAccount`], with the account if it has it.
    Account(Option<Account>),
}

/// What an [`Event`] holds.
pub enum EventView {
    Request(RequestView),
    Account(Option<AccountView>),
}

impl View for Event {
    type V = EventView;

    open spec fn view(&self) -> EventView {
        match self {
            Event::Request(request) => EventView::Request(request@),
            Event::Account(reply) => EventView::Account(reply.deep_view()),
        }
    }
}

/// What is to be done next. Only after [`Action::FetchAccount`] does the service wait for an
/// [`Event::Account`]; after all others it waits for the next request.
#[derive(Debug, PartialEq, Eq)]
pub enum Action {
    /// Nothing but waiting for the next request.
    Receive,
    /// Ask layer 1 for the account.
    FetchAccount(Pubkey),
    /// Send the locked accounts to the sequencer.
    SendAccounts(Vec<(Pubkey, Account)>),
    /// Send the answer to the frontend.
    SendFrontend(FrontendMessage),
    /// Tell that a processed transaction was taken in, and how many accounts are locked and how
    /// many can be locked now.
    TellProcessed(usize, usize),
    /// Tell that a batch proof is kept, and how many there are now.
    TellStored(usize),
    /// Tell of the record that was asked for, if there is one.
    TellProof(Option<BatchProofRecord>),
    /// Tell of the proofs that are not yet verified.
    TellUnsettled(Vec<BatchProofRecord>),
    /// Tell of a report on the batch, and whether the batch is known.
    TellReported(String, bool),
    /// Tell of the batches whose proofs were taken up again, each with the count of its failures.
    TellRetried(Vec<(String, u32)>),
}

/// What an [`Action`] holds.
pub enum ActionView {
    Receive,
    FetchAccount(Seq<u8>),
    SendAccounts(Seq<(Seq<u8>, AccountView)>),
    SendFrontend(FrontendMessageView),
    TellProcessed(nat, nat),
    TellStored(nat),
    TellProof(Option<BatchProofRecordView>),
    TellUnsettled(Seq<BatchProofRecordView>),
    TellReported(Seq<char>, bool),
    TellRetried(Seq<(Seq<char>, u32)>),
}

impl View for Action {
    type V = ActionView;

    open spec fn view(&self) -> ActionView {
        match self {
            Action::Receive => ActionView::Receive,
            Action::FetchAccount(key) => ActionView::FetchAccount(key@),
            Action::SendAccounts(accounts) => ActionView::SendAccounts(accounts.deep_view()),
            Action::SendFrontend(message) => ActionView::SendFrontend(message@),
            Action::TellProcessed(locked, free) => ActionView::TellProcessed(
                *locked as nat,
                *free as nat,
            ),
            Action::TellStored(count) => ActionView::TellStored(*count as nat),
            Action::TellProof(record) => ActionView::TellProof(record.deep_view()),
            Action::TellUnsettled(records) => ActionView::TellUnsettled(records.deep_view()),
            Action::TellReported(batch_id, known) => ActionView::TellReported(batch_id@, *known),
            Action::TellRetried(retried) => ActionView::TellRetried(retried.deep_view()),
        }
    }
}

/// A lock request that waits for layer 1: the keys that are still to be locked, the first of them
/// the one that was asked for, and what was locked so far.
struct Locking {
    keys: Vec<Pubkey>,
    next: usize,
    fetched: Vec<(Pubkey, Account)>,
}

/// What is known of a lock request that waits for layer 1.
pub struct LockingView {
    pub keys: Seq<Seq<u8>>,
    pub fetched: Seq<(Seq<u8>, AccountView)>,
}

impl View for Locking {
    type V = LockingView;

    closed spec fn view(&self) -> LockingView {
        LockingView {
            keys: self.keys.deep_view().skip(self.next as int),
            fetched: self.fetched.deep_view(),
        }
    }
}

impl DeepView for Locking {
    type V = LockingView;

    closed spec fn deep_view(&self) -> LockingView {
        self@
    }
}

/// The database together with the lock request that it is busy with, if any.
pub struct RollupService {
    db: RollupDB,
    locking: Option<Locking>,
}

/// What a [`RollupService`] holds.
pub struct ServiceView {
    pub db: RollupDBView,
    pub locking: Option<LockingView>,
}

impl View for RollupService {
    type V = ServiceView;

    closed spec fn view(&self) -> ServiceView {
        ServiceView { db: self.db@, locking: self.locking.deep_view() }
    }
}

/// Goes on with a lock request: accounts that are here are locked one after the other, up to the
/// first that is not here and has to be fetched.
pub open spec fn lock_onward(
    db: RollupDBView,
    keys: Seq<Seq<u8>>,
    fetched: Seq<(Seq<u8>, AccountView)>,
) -> (ServiceView, ActionView)
    decreases keys.len(),
{
    if keys.len() == 0 {
        (ServiceView { db, locking: None }, ActionView::SendAccounts(fetched))
    } else if db.accounts.contains_key(keys[0]) {
        lock_onward(
            db.lock(keys[0], db.accounts[keys[0]]),
            keys.drop_first(),
            fetched.push((keys[0], db.accounts[keys[0]])),
        )
    } else {
        (
            ServiceView { db, locking: Some(LockingView { keys, fetched }) },
            ActionView::FetchAccount(keys[0]),
        )
    }
}

/// Goes on with the lock request `locking` after layer 1 has answered.
pub open spec fn lock_answered(
    db: RollupDBView,
    locking: LockingView,
    reply: Option<AccountView>,
) -> (ServiceView, ActionView) {
    let key = locking.keys[0];
    match reply {
        Some(account) => lock_onward(
            db.lock(key, account),
            locking.keys.drop_first(),
            locking.fetched.push((key, account)),
        ),
        None => lock_onward(db, locking.keys.drop_first(), locking.fetched),
    }
}

impl ServiceView {
    /// Whether the service can take the event: a request comes while it waits for one, a processed
    /// transaction has a signature, and a report finds room in the count of failures; an answer of
    /// layer 1 comes while it waits for one.
    pub open spec fn admits(self, event: EventView) -> bool {
        match event {
            EventView::Request(request) => {
                &&& self.locking is None
                &&& match request {
                    RequestView::Process(tx, _) => tx.signatures.len() > 0,
                    RequestView::UpdateProof(message) => self.db.can_report(message),
                    _ => true,
                }
            },
            EventView::Account(_) => self.locking is Some,
        }
    }

    /// What a request leads to: the service afterwards and the action to take.
    pub open spec fn answers_request(
        self,
        request: RequestView,
        after: ServiceView,
        action: ActionView,
    ) -> bool {
        match request {
            RequestView::Lock(keys) => (after, action) == lock_onward(self.db, keys, Seq::empty()),
            RequestView::Process(tx, new_data) => {
                &&& after == ServiceView { db: self.db.process(tx, new_data), locking: None }
                &&& action == ActionView::TellProcessed(
                    after.db.locked.len(),
                    after.db.accounts.len(),
                )
            },
            RequestView::GetTransaction(hash) => {
                &&& after == self
                &&& action == ActionView::SendFrontend(self.db.lookup(hash))
            },
            RequestView::StoreProof(message) => {
                &&& self.db.stores_proof(message, after.db)
                &&& after.locking is None
                &&& action == ActionView::TellStored(after.db.proofs.len())
            },
            RequestView::UpdateProof(message) => {
                &&& self.db.reports_proof(message, after.db)
                &&& after.locking is None
                &&& action == ActionView::TellReported(
                    message.batch_id,
                    self.db.proofs.contains_key(message.batch_id),
                )
            },
            RequestView::GetProof(batch_id) => {
                &&& after == self
                &&& action == ActionView::TellProof(
                    if self.db.proofs.contains_key(batch_id) {
                        Some(self.db.proofs[batch_id])
                    } else {
                        None
                    },
                )
            },
            RequestView::GetUnsettled => {
                &&& after == self
                &&& action is TellUnsettled
                &&& crate::proof_table::lists_picked(
                    action->TellUnsettled_0,
                    self.db.proofs,
                    |record: BatchProofRecordView| record.is_unsettled(),
                )
            },
            RequestView::RetryFailed => {
                &&& after == ServiceView {
                    db: RollupDBView { proofs: after.db.proofs, ..self.db },
                    locking: None,
                }
                &&& crate::proof_table::all_retried(self.db.proofs, after.db.proofs)
                &&& action is TellRetried
                &&& crate::proof_table::lists_retried(action->TellRetried_0, self.db.proofs)
            },
            RequestView::Nothing => {
                &&& after == self
                &&& action == ActionView::Receive
            },
        }
    }

    /// What an event leads to: the service afterwards and the action to take.
    pub open spec fn steps(self, event: EventView, after: ServiceView, action: ActionView) -> bool {
        match event {
            EventView::Request(request) => self.answers_request(request, after, action),
            EventView::Account(reply) => (after, action) == lock_answered(
                self.db,
                self.locking->0,
                reply,
            ),
        }
    }
}

impl RollupService {
    /// The database is in order, and a request that waits, waits for an account that is not here.
    pub closed spec fn wf(self) -> bool {
        &&& self.db.wf()
        &&& match self.locking {
            Some(locking) => {
                &&& locking.next < locking.keys@.len()
                &&& !self.db@.accounts.contains_key(locking.keys@[locking.next as int]@)
            },
            None => true,
        }
    }

    /// A service whose database holds nothing.
    pub fn new() -> (service: Self)
        ensures
            service.wf(),
            service@ == (ServiceView { db: RollupDBView::empty(), locking: None }),
    {
        RollupService { db: RollupDB::default(), locking: None }
    }

    /// Whether the service can take the event.
    pub fn admits(&self, event: &Event) -> (admitted: bool)
        requires
            self.wf(),
        ensures
            admitted == self@.admits(event@),
    {
        match event {
            Event::Request(request) => self.locking.is_none() && match request {
                Request::Process(tx, _) => tx.signatures.len() > 0,
                Request::UpdateProof(message) => self.db.can_report(message),
                _ => true,
            },
            Event::Account(_) => self.locking.is_some(),
        }
    }

    fn lock_onward(
        &mut self,
        keys: Vec<Pubkey>,
        next: usize,
        fetched: Vec<(Pubkey, Account)>,
    ) -> (action: Action)
        requires
            old(self).db.wf(),
            old(self).locking is None,
            next <= keys@.len(),
        ensures
            final(self).wf(),
            (final(self)@, action@) == lock_onward(
                old(self)@.db,
                keys.deep_view().skip(next as int),
                fetched.deep_view(),
            ),
    {
        let ghost all = keys.deep_view();
        let ghost wanted = lock_onward(self@.db, all.skip(next as int), fetched.deep_view());
        let mut at: usize = next;
        let mut locked: Vec<(Pubkey, Account)> = fetched;
        while at < keys.len()
            invariant
                at <= keys@.len(),
                all == keys.deep_view(),
                self.db.wf(),
                self.locking is None,
                wanted == lock_onward(old(self)@.db, all.skip(next as int), fetched.deep_view()),
                wanted == lock_onward(self@.db, all.skip(at as int), locked.deep_view()),
            decreases keys@.len() - at,
        {
            let key = keys[at];
            let ghost before = locked.deep_view();
            assert(all.skip(at as int)[0] == key@);
            assert(all.skip(at as int).drop_first() =~= all.skip(at + 1));
            match self.db.lock_local(&key) {
                Some(account) => {
                    locked.push((key, account));
                    assert(locked.deep_view() =~= before.push((key@, account@)));
                },
                None => {
                    self.locking = Some(Locking { keys, next: at, fetched: locked });
                    return Action::FetchAccount(key);
                },
            }
            at = at + 1;
        }
        Action::SendAccounts(locked)
    }

    fn answer(&mut self, request: Request) -> (action: Action)
        requires
            old(self).wf(),
            old(self)@.admits(EventView::Request(request@)),
        ensures
            final(self).wf(),
            old(self)@.answers_request(request@, final(self)@, action@),
    {
        match request {
            Request::Lock(keys) => {
                let fetched: Vec<(Pubkey, Account)> = Vec::new();
                assert(keys.deep_view().skip(0) =~= keys.deep_view());
                assert(fetched.deep_view() =~= Seq::empty());
                self.lock_onward(keys, 0, fetched)
            },
            Request::Process(tx, new_data) => {
                self.db.process_transaction(tx, new_data);
                Action::TellProcessed(self.db.locked_count(), self.db.free_count())
            },
            Request::GetTransaction(hash) => Action::SendFrontend(self.db.get_transaction(&hash)),
            Request::StoreProof(message) => {
                self.db.store_batch_proof(message);
                Action::TellStored(self.db.proof_count())
            },
            Request::UpdateProof(message) => {
                let batch_id = message.batch_id.clone();
                let known = self.db.update_proof_status(message);
                Action::TellReported(batch_id, known)
            },
            Request::GetProof(batch_id) => Action::TellProof(
                match self.db.get_proof_by_batch_id(batch_id.as_str()) {
                    Some(record) => Some(record.clone()),
                    None => None,
                },
            ),
            Request::GetUnsettled => {
                let records = self.db.get_unsettled_proofs();
                let mut copies: Vec<BatchProofRecord> = Vec::new();
                let mut i: usize = 0;
                while i < records.len()
                    invariant
                        i == copies@.len() <= records@.len(),
                        forall|j: int| 0 <= j < i ==> (#[trigger] copies@[j])@ == records@[j]@,
                    decreases records@.len() - i,
                {
                    copies.push(records[i].clone());
                    i = i + 1;
                }
                assert(copies.deep_view() =~= records.deep_view());
                Action::TellUnsettled(copies)
            },
            Request::RetryFailed => Action::TellRetried(self.db.retry_failed_proofs()),
            Request::Nothing => Action::Receive,
        }
    }

    /// Takes an event and says what is to be done next.
    pub fn step(&mut self, event: Event) -> (action: Action)
        requires
            old(self).wf(),
            old(self)@.admits(event@),
        ensures
            final(self).wf(),
            old(self)@.steps(event@, final(self)@, action@),
    {
        match event {
            Event::Request(request) => self.answer(request),
            Event::Account(reply) => {
                let ghost waiting = self@.locking->0;
                match self.locking.take() {
                    Some(locking) => {
                        let Locking { keys, next, fetched } = locking;
                        let mut fetched: Vec<(Pubkey, Account)> = fetched;
                        assert(next < keys.len());
                        let key = keys[next];
                        let ghost taken = fetched.deep_view();
                        assert(waiting.keys.drop_first() =~= keys.deep_view().skip(next + 1));
                        if let Some(account) = reply {
                            self.db.lock_fetched(&key, &account);
                            fetched.push((key, account));
                            assert(fetched.deep_view() =~= taken.push((key@, account@)));
                        }
                        self.lock_onward(keys, next + 1, fetched)
                    },
                    None => Action::Receive,
                }
            },
        }
    }
}

/// What a message to the database holds is what it is made of.
pub proof fn law_message_view(message: RollupDBMessage, i: int)
    ensures
        message.lock_accounts is None ==> message@.lock_accounts is None,
        message.lock_accounts is Some ==> message@.lock_accounts is Some
            && message@.lock_accounts->0.len() == message.lock_accounts->0@.len(),
        message.lock_accounts is Some && 0 <= i < message.lock_accounts->0@.len()
            ==> message@.lock_accounts->0[i] == message.lock_accounts->0@[i].0@,
        message.add_processed_transaction is None ==> message@.add_processed_transaction is None,
        message.add_processed_transaction is Some ==> message@.add_processed_transaction == Some(
            message.add_processed_transaction->0@,
        ),
        message.frontend_get_tx is None ==> message@.frontend_get_tx is None,
        message.frontend_get_tx is Some ==> message@.frontend_get_tx == Some(
            message.frontend_get_tx->0@,
        ),
        message@.list_offset == message.list_offset,
        message@.list_limit == message.list_limit,
        message.add_settle_proof is None ==> message@.add_settle_proof is None,
        message.add_settle_proof is Some ==> message@.add_settle_proof == Some(
            message.add_settle_proof->0@,
        ),
        message.add_new_data is None ==> message@.add_new_data is None,
        message.add_new_data is Some ==> message@.add_new_data is Some
            && message@.add_new_data->0.len() == message.add_new_data->0@.len(),
        message.add_new_data is Some && 0 <= i < message.add_new_data->0@.len()
            ==> message@.add_new_data->0[i] == (
            message.add_new_data->0@[i].0@,
            message.add_new_data->0@[i].1@,
        ),
        message.store_batch_proof is None ==> message@.store_batch_proof is None,
        message.store_batch_proof is Some ==> message@.store_batch_proof == Some(
            message.store_batch_proof->0@,
        ),
        message.update_proof_status is None ==> message@.update_proof_status is None,
        message.update_proof_status is Some ==> message@.update_proof_status == Some(
            message.update_proof_status->0@,
        ),
        message.get_proof_by_batch_id is None ==> message@.get_proof_by_batch_id is None,
        message.get_proof_by_batch_id is Some ==> message@.get_proof_by_batch_id == Some(
            message.get_proof_by_batch_id->0@,
        ),
        message@.get_unsettled_proofs == message.get_unsettled_proofs,
        message@.retry_failed_proofs == message.retry_failed_proofs,
{
}

/// What a request and an answer of layer 1 hold is what they are made of.
pub proof fn law_event_view(request: Request, reply: Option<Account>, i: int)
    ensures
        Event::Request(request)@ == EventView::Request(request@),
        Event::Account(reply)@ is Account,
        reply is None ==> Event::Account(reply)@->Account_0 is None,
        reply is Some ==> Event::Account(reply)@->Account_0 == Some(reply->0@),
        request is Lock ==> request@ is Lock && request@->Lock_0.len() == request->Lock_0@.len(),
        request is Lock && 0 <= i < request->Lock_0@.len() ==> request@->Lock_0[i]
            == request->Lock_0@[i].0@,
        request is Process ==> {
            &&& request@ is Process
            &&& request@->Process_0 == request->Process_0@
            &&& request@->Process_1.len() == request->Process_1@.len()
        },
        request is Process && 0 <= i < request->Process_1@.len() ==> request@->Process_1[i] == (
            request->Process_1@[i].0@,
            request->Process_1@[i].1@,
        ),
        request is GetTransaction ==> request@ == RequestView::GetTransaction(
            request->GetTransaction_0.0@,
        ),
        request is StoreProof ==> request@ == RequestView::StoreProof(request->StoreProof_0@),
        request is UpdateProof ==> request@ == RequestView::UpdateProof(request->UpdateProof_0@),
        request is GetProof ==> request@ == RequestView::GetProof(request->GetProof_0@),
        request is GetUnsettled ==> request@ is GetUnsettled,
        request is RetryFailed ==> request@ is RetryFailed,
        request is Nothing ==> request@ is Nothing,
{
}

/// What an action holds is what it is made of.
pub proof fn law_action_view(action: Action, i: int)
    ensures
        action is Receive ==> action@ is Receive,
        action is FetchAccount ==> action@ == ActionView::FetchAccount(action->FetchAccount_0.0@),
        action is SendAccounts ==> action@ is SendAccounts && action@->SendAccounts_0.len()
            == action->SendAccounts_0@.len(),
        action is SendAccounts && 0 <= i < action->SendAccounts_0@.len()
            ==> action@->SendAccounts_0[i] == (
            action->SendAccounts_0@[i].0@,
            action->SendAccounts_0@[i].1@,
        ),
        action is SendFrontend ==> action@ == ActionView::SendFrontend(action->SendFrontend_0@),
        action is TellProcessed ==> action@ is TellProcessed && action@->TellProcessed_0
            == action->TellProcessed_0 && action@->TellProcessed_1 == action->TellProcessed_1,
        action is TellStored ==> action@ is TellStored && action@->TellStored_0
            == action->TellStored_0,
        action is TellProof && action->TellProof_0 is None ==> action@ == ActionView::TellProof(
            None,
        ),
        action is TellProof && action->TellProof_0 is Some ==> action@ == ActionView::TellProof(
            Some(action->TellProof_0->0@),
        ),
        action is TellUnsettled ==> action@ is TellUnsettled && action@->TellUnsettled_0.len()
            == action->TellUnsettled_0@.len(),
        action is TellUnsettled && 0 <= i < action->TellUnsettled_0@.len()
            ==> action@->TellUnsettled_0[i] == action->TellUnsettled_0@[i]@,
        action is TellReported ==> action@ == ActionView::TellReported(
            action->TellReported_0@,
            action->TellReported_1,
        ),
        action is TellRetried ==> action@ is TellRetried && action@->TellRetried_0.len()
            == action->TellRetried_0@.len(),
        action is TellRetried && 0 <= i < action->TellRetried_0@.len()
            ==> action@->TellRetried_0[i] == (
            action->TellRetried_0@[i].0@,
            action->TellRetried_0@[i].1,
        ),
{
}

} // verus!
