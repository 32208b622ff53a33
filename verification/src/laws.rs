//! What holds of the database service over its steps.
use crate::ledger::{AccountView, TransactionView};
use crate::proofs::{
    BatchProofRecordView, ProofStatus, StoreBatchProofMessageView, UpdateProofStatusMessageView,
    MAX_RETRIES,
};
use crate::rollupdb::RollupDBView;
use crate::service::{
    ActionView, EventView, LockingView, RequestView, RollupDBMessageView, ServiceView,
};
use std::time::SystemTime;
use vstd::prelude::*;

verus! {

/// A processed transaction is the answer to a question for its hash.
pub proof fn law_processed_transaction_is_found(
    db: RollupDBView,
    tx: TransactionView,
    new_data: Seq<(Seq<u8>, AccountView)>,
)
    ensures
        db.process(tx, new_data).lookup(crate::solana::transaction_hash(tx)).transaction == Some(
            tx,
        ),
        db.process(tx, new_data).lookup(crate::solana::transaction_hash(tx)).error is None,
{
}

proof fn lemma_lock_onward_frame(
    db: RollupDBView,
    keys: Seq<Seq<u8>>,
    fetched: Seq<(Seq<u8>, AccountView)>,
)
    ensures
        ({
            let after = crate::service::lock_onward(db, keys, fetched).0.db;
            &&& after.transactions == db.transactions
            &&& after.proofs == db.proofs
            &&& after.proof_by_transaction == db.proof_by_transaction
        }),
    decreases keys.len(),
{
    if keys.len() > 0 && db.accounts.contains_key(keys[0]) {
        lemma_lock_onward_frame(
            db.lock(keys[0], db.accounts[keys[0]]),
            keys.drop_first(),
            fetched.push((keys[0], db.accounts[keys[0]])),
        );
    }
}

proof fn lemma_lock_steps_frame(
    before: ServiceView,
    event: EventView,
    after: ServiceView,
    action: ActionView,
)
    requires
        before.steps(event, after, action),
        event is Account || (event is Request && event->Request_0 is Lock),
    ensures
        after.db.transactions == before.db.transactions,
        after.db.proofs == before.db.proofs,
        after.db.proof_by_transaction == before.db.proof_by_transaction,
{
    match event {
        EventView::Request(request) => {
            lemma_lock_onward_frame(before.db, request->Lock_0, Seq::empty());
        },
        EventView::Account(reply) => {
            let locking = before.locking->0;
            let key = locking.keys[0];
            match reply {
                Some(account) => lemma_lock_onward_frame(
                    before.db.lock(key, account),
                    locking.keys.drop_first(),
                    locking.fetched.push((key, account)),
                ),
                None => lemma_lock_onward_frame(
                    before.db,
                    locking.keys.drop_first(),
                    locking.fetched,
                ),
            }
        },
    }
}

/// No event changes the answer to a question for a transaction, except that a transaction of the
/// same hash is processed.
pub proof fn law_answers_stay(
    before: ServiceView,
    event: EventView,
    after: ServiceView,
    action: ActionView,
    hash: Seq<u8>,
)
    requires
        before.steps(event, after, action),
        !(event matches EventView::Request(RequestView::Process(tx, _))
            && crate::solana::transaction_hash(tx) == hash),
    ensures
        after.db.lookup(hash) == before.db.lookup(hash),
{
    if event is Account || (event is Request && event->Request_0 is Lock) {
        lemma_lock_steps_frame(before, event, after, action);
    }
}

/// Once a transaction is processed, none of its accounts is locked; every other lock stays.
pub proof fn law_processing_unlocks(
    db: RollupDBView,
    tx: TransactionView,
    new_data: Seq<(Seq<u8>, AccountView)>,
    key: Seq<u8>,
)
    ensures
        tx.message.account_keys.contains(key) ==> !db.process(
            tx,
            new_data,
        ).locked.contains_key(key),
        !tx.message.account_keys.contains(key) ==> {
            let after = db.process(tx, new_data);
            &&& after.locked.contains_key(key) == db.locked.contains_key(key)
            &&& after.locked.contains_key(key) ==> after.locked[key] == db.locked[key]
        },
{
}

/// Once a transaction is processed, an account that it left in a new state can be locked and has
/// the last such state; every other account stays as it was.
pub proof fn law_processing_updates_accounts(
    db: RollupDBView,
    tx: TransactionView,
    new_data: Seq<(Seq<u8>, AccountView)>,
    key: Seq<u8>,
)
    ensures
        forall|i: int|
            0 <= i < new_data.len() && (#[trigger] new_data[i]).0 == key && (forall|j: int|
                i < j < new_data.len() ==> (#[trigger] new_data[j]).0 != key) ==> {
                let after = db.process(tx, new_data);
                &&& after.accounts.contains_key(key)
                &&& after.accounts[key] == new_data[i].1
            },
        (forall|i: int| 0 <= i < new_data.len() ==> (#[trigger] new_data[i]).0 != key) ==> {
            let after = db.process(tx, new_data);
            &&& after.accounts.contains_key(key) == db.accounts.contains_key(key)
            &&& after.accounts.contains_key(key) ==> after.accounts[key] == db.accounts[key]
        },
    decreases new_data.len(),
{
    if new_data.len() > 0 {
        let front = new_data.drop_last();
        law_processing_updates_accounts(db, tx, front, key);
        assert forall|i: int|
            0 <= i < new_data.len() && (#[trigger] new_data[i]).0 == key && (forall|j: int|
                i < j < new_data.len() ==> (#[trigger] new_data[j]).0 != key) implies {
            let after = db.process(tx, new_data);
            &&& after.accounts.contains_key(key)
            &&& after.accounts[key] == new_data[i].1
        } by {
            if i < new_data.len() - 1 {
                assert(front[i] == new_data[i]);
                assert(new_data[new_data.len() - 1].0 != key);
                assert forall|j: int| i < j < front.len() implies (
                #[trigger] front[j]).0 != key by {
                    assert(front[j] == new_data[j]);
                }
            }
        }
        if forall|i: int| 0 <= i < new_data.len() ==> (#[trigger] new_data[i]).0 != key {
            assert forall|i: int| 0 <= i < front.len() implies (#[trigger] front[i]).0 != key by {
                assert(front[i] == new_data[i]);
            }
            assert(new_data[new_data.len() - 1].0 != key);
        }
    }
}

/// One pass over the keys of a lock request, where `replies[i]` is what layer 1 has of `keys[i]`:
/// an account that is here is locked as it is here, any other as layer 1 has it, and what neither
/// has is left out.
pub open spec fn lock_pass(
    db: RollupDBView,
    keys: Seq<Seq<u8>>,
    replies: Seq<Option<AccountView>>,
    fetched: Seq<(Seq<u8>, AccountView)>,
) -> (RollupDBView, Seq<(Seq<u8>, AccountView)>)
    decreases keys.len(),
{
    if keys.len() == 0 {
        (db, fetched)
    } else {
        let found = if db.accounts.contains_key(keys[0]) {
            Some(db.accounts[keys[0]])
        } else {
            replies[0]
        };
        match found {
            Some(account) => lock_pass(
                db.lock(keys[0], account),
                keys.drop_first(),
                replies.drop_first(),
                fetched.push((keys[0], account)),
            ),
            None => lock_pass(db, keys.drop_first(), replies.drop_first(), fetched),
        }
    }
}

/// The end of a lock request in which layer 1 answers with `replies`, counted from the back: the
/// last of them is what it has of the last key.
pub open spec fn lock_to_end(
    state: (ServiceView, ActionView),
    replies: Seq<Option<AccountView>>,
    fuel: nat,
) -> (ServiceView, ActionView)
    decreases fuel,
{
    match state.0.locking {
        Some(locking) => if fuel == 0 {
            state
        } else {
            lock_to_end(
                crate::service::lock_answered(
                    state.0.db,
                    locking,
                    replies[replies.len() - locking.keys.len()],
                ),
                replies,
                (fuel - 1) as nat,
            )
        },
        None => state,
    }
}

proof fn lemma_lock_pass(
    db: RollupDBView,
    keys: Seq<Seq<u8>>,
    replies: Seq<Option<AccountView>>,
    fetched: Seq<(Seq<u8>, AccountView)>,
    fuel: nat,
)
    requires
        keys.len() <= replies.len(),
        keys.len() <= fuel,
    ensures
        ({
            let (end, accounts) = lock_pass(
                db,
                keys,
                replies.skip(replies.len() - keys.len()),
                fetched,
            );
            lock_to_end(crate::service::lock_onward(db, keys, fetched), replies, fuel) == (
                ServiceView { db: end, locking: None },
                ActionView::SendAccounts(accounts),
            )
        }),
    decreases keys.len(), fuel,
{
    let rest = replies.skip(replies.len() - keys.len());
    if keys.len() > 0 {
        let key = keys[0];
        assert(rest[0] == replies[replies.len() - keys.len()]);
        assert(rest.drop_first() =~= replies.skip(replies.len() - keys.drop_first().len()));
        if db.accounts.contains_key(key) {
            lemma_lock_pass(
                db.lock(key, db.accounts[key]),
                keys.drop_first(),
                replies,
                fetched.push((key, db.accounts[key])),
                fuel,
            );
        } else {
            match rest[0] {
                Some(account) => lemma_lock_pass(
                    db.lock(key, account),
                    keys.drop_first(),
                    replies,
                    fetched.push((key, account)),
                    (fuel - 1) as nat,
                ),
                None => lemma_lock_pass(
                    db,
                    keys.drop_first(),
                    replies,
                    fetched,
                    (fuel - 1) as nat,
                ),
            }
        }
    }
}

/// A lock request, however often it waits for layer 1, ends after at most as many answers as it
/// has keys, and it comes to one pass over its keys.
pub proof fn law_lock_request_is_one_pass(
    db: RollupDBView,
    keys: Seq<Seq<u8>>,
    replies: Seq<Option<AccountView>>,
)
    requires
        replies.len() == keys.len(),
    ensures
        ({
            let (end, accounts) = lock_pass(db, keys, replies, Seq::empty());
            let start = crate::service::lock_onward(db, keys, Seq::empty());
            lock_to_end(start, replies, keys.len()) == (
                ServiceView { db: end, locking: None },
                ActionView::SendAccounts(accounts),
            )
        }),
{
    assert(replies.skip(0) =~= replies);
    lemma_lock_pass(db, keys, replies, Seq::empty(), keys.len());
}

proof fn lemma_lock_pass_effect(
    db: RollupDBView,
    keys: Seq<Seq<u8>>,
    replies: Seq<Option<AccountView>>,
    fetched: Seq<(Seq<u8>, AccountView)>,
    key: Seq<u8>,
)
    requires
        keys.len() <= replies.len(),
        keys.no_duplicates(),
    ensures
        ({
            let (end, accounts) = lock_pass(db, keys, replies, fetched);
            &&& !keys.contains(key) ==> {
                &&& end.accounts.contains_key(key) == db.accounts.contains_key(key)
                &&& end.accounts.contains_key(key) ==> end.accounts[key] == db.accounts[key]
                &&& end.locked.contains_key(key) == db.locked.contains_key(key)
                &&& end.locked.contains_key(key) ==> end.locked[key] == db.locked[key]
            }
            &&& keys.contains(key) && db.accounts.contains_key(key) ==> {
                &&& !end.accounts.contains_key(key)
                &&& end.locked.contains_key(key)
                &&& end.locked[key] == db.accounts[key]
                &&& accounts.contains((key, db.accounts[key]))
            }
            &&& forall|entry: (Seq<u8>, AccountView)| #[trigger]
                fetched.contains(entry) ==> accounts.contains(entry)
        }),
    decreases keys.len(),
{
    if keys.len() > 0 {
        let first = keys[0];
        let rest = keys.drop_first();
        let found = if db.accounts.contains_key(first) {
            Some(db.accounts[first])
        } else {
            replies[0]
        };
        assert(rest.no_duplicates()) by {
            assert forall|i: int, j: int| 0 <= i < rest.len() && 0 <= j < rest.len() && i
                != j implies rest[i] != rest[j] by {
                assert(keys[i + 1] != keys[j + 1]);
            }
        }
        assert(!rest.contains(first)) by {
            if rest.contains(first) {
                let i = rest.index_of(first);
                assert(keys[i + 1] == keys[0]);
            }
        }
        assert(keys.contains(key) <==> rest.contains(key) || key == first) by {
            if keys.contains(key) && key != first {
                let i = keys.index_of(key);
                assert(rest[i - 1] == key);
            }
            if rest.contains(key) {
                let i = rest.index_of(key);
                assert(keys[i + 1] == key);
            }
        }
        match found {
            Some(account) => {
                let longer = fetched.push((first, account));
                lemma_lock_pass_effect(
                    db.lock(first, account),
                    rest,
                    replies.drop_first(),
                    longer,
                    key,
                );
                assert(longer[fetched.len() as int] == (first, account));
                assert(longer.contains((first, account)));
                assert forall|entry: (Seq<u8>, AccountView)| #[trigger]
                    fetched.contains(entry) implies longer.contains(entry) by {
                    let i = fetched.index_of(entry);
                    assert(longer[i] == entry);
                }
            },
            None => {
                lemma_lock_pass_effect(db, rest, replies.drop_first(), fetched, key);
            },
        }
    }
}

/// A lock request whose keys differ moves every asked account that is here, as it is, to the
/// locked ones and sends it to the sequencer, and leaves accounts alone that it does not ask for.
pub proof fn law_locking_moves_accounts(
    db: RollupDBView,
    keys: Seq<Seq<u8>>,
    replies: Seq<Option<AccountView>>,
    key: Seq<u8>,
)
    requires
        replies.len() == keys.len(),
        keys.no_duplicates(),
    ensures
        ({
            let (end, accounts) = lock_pass(db, keys, replies, Seq::empty());
            &&& !keys.contains(key) ==> {
                &&& end.accounts.contains_key(key) == db.accounts.contains_key(key)
                &&& end.accounts.contains_key(key) ==> end.accounts[key] == db.accounts[key]
                &&& end.locked.contains_key(key) == db.locked.contains_key(key)
                &&& end.locked.contains_key(key) ==> end.locked[key] == db.locked[key]
            }
            &&& keys.contains(key) && db.accounts.contains_key(key) ==> {
                &&& !end.accounts.contains_key(key)
                &&& end.locked.contains_key(key)
                &&& end.locked[key] == db.accounts[key]
                &&& accounts.contains((key, db.accounts[key]))
            }
        }),
{
    lemma_lock_pass_effect(db, keys, replies, Seq::empty(), key);
}

proof fn lemma_lock_onward_waits(
    db: RollupDBView,
    keys: Seq<Seq<u8>>,
    fetched: Seq<(Seq<u8>, AccountView)>,
)
    ensures
        ({
            let (after, action) = crate::service::lock_onward(db, keys, fetched);
            match after.locking {
                Some(locking) => locking.keys.len() > 0 && action == ActionView::FetchAccount(
                    locking.keys[0],
                ) && !after.db.accounts.contains_key(locking.keys[0]),
                None => action is SendAccounts,
            }
        }),
    decreases keys.len(),
{
    if keys.len() > 0 && db.accounts.contains_key(keys[0]) {
        lemma_lock_onward_waits(
            db.lock(keys[0], db.accounts[keys[0]]),
            keys.drop_first(),
            fetched.push((keys[0], db.accounts[keys[0]])),
        );
    }
}

/// The service waits for layer 1 exactly after it had an account fetched: the first key that is
/// still to be locked, of an account that is not here.
pub proof fn law_waits_for_what_it_fetches(
    before: ServiceView,
    event: EventView,
    after: ServiceView,
    action: ActionView,
)
    requires
        before.admits(event),
        before.steps(event, after, action),
    ensures
        match after.locking {
            Some(locking) => {
                &&& locking.keys.len() > 0
                &&& action == ActionView::FetchAccount(locking.keys[0])
                &&& !after.db.accounts.contains_key(locking.keys[0])
            },
            None => !(action is FetchAccount),
        },
{
    match event {
        EventView::Request(request) => {
            if request is Lock {
                lemma_lock_onward_waits(before.db, request->Lock_0, Seq::empty());
            }
        },
        EventView::Account(reply) => {
            let locking = before.locking->0;
            let key = locking.keys[0];
            match reply {
                Some(account) => lemma_lock_onward_waits(
                    before.db.lock(key, account),
                    locking.keys.drop_first(),
                    locking.fetched.push((key, account)),
                ),
                None => lemma_lock_onward_waits(
                    before.db,
                    locking.keys.drop_first(),
                    locking.fetched,
                ),
            }
        },
    }
}

/// A question changes nothing, nor does a message that asks for nothing.
pub proof fn law_questions_change_nothing(
    before: ServiceView,
    request: RequestView,
    after: ServiceView,
    action: ActionView,
)
    requires
        before.steps(EventView::Request(request), after, action),
        request is GetTransaction || request is GetProof || request is GetUnsettled
            || request is Nothing,
    ensures
        after == before,
{
}

/// A stored proof is found under its batch id, freshly generated and without failures, and each of
/// its transaction signatures leads to its batch.
pub proof fn law_stored_proof_is_found(
    db: RollupDBView,
    message: StoreBatchProofMessageView,
    now: SystemTime,
)
    ensures
        ({
            let after = db.store_proof(message, now);
            &&& after.proofs.contains_key(message.batch_id)
            &&& after.proofs[message.batch_id] == BatchProofRecordView::generated(message, now)
            &&& after.proofs[message.batch_id].is_unsettled()
            &&& !after.proofs[message.batch_id].is_retriable()
            &&& forall|i: int|
                0 <= i < message.transaction_signatures.len() ==> {
                    let signature = #[trigger] message.transaction_signatures[i];
                    &&& after.proof_by_transaction.contains_key(signature)
                    &&& after.proof_by_transaction[signature] == message.batch_id
                }
        }),
{
    let after = db.store_proof(message, now);
    assert forall|i: int| 0 <= i < message.transaction_signatures.len() implies {
        let signature = #[trigger] message.transaction_signatures[i];
        &&& after.proof_by_transaction.contains_key(signature)
        &&& after.proof_by_transaction[signature] == message.batch_id
    } by {
        assert(message.transaction_signatures.contains(message.transaction_signatures[i]));
    }
}

/// No event loses the record of a proof or lowers its count of failures, except that a proof of
/// the same batch is stored anew.
pub proof fn law_failures_are_not_forgotten(
    before: ServiceView,
    event: EventView,
    after: ServiceView,
    action: ActionView,
    batch_id: Seq<char>,
)
    requires
        before.admits(event),
        before.steps(event, after, action),
        before.db.proofs.contains_key(batch_id),
        !(event matches EventView::Request(RequestView::StoreProof(message)) && message.batch_id
            == batch_id),
    ensures
        after.db.proofs.contains_key(batch_id),
        after.db.proofs[batch_id].retry_count >= before.db.proofs[batch_id].retry_count,
        after.db.proofs[batch_id].created_at == before.db.proofs[batch_id].created_at,
        after.db.proofs[batch_id].proof_data == before.db.proofs[batch_id].proof_data,
{
    if event is Account || (event is Request && event->Request_0 is Lock) {
        lemma_lock_steps_frame(before, event, after, action);
    }
    if event is Request && event->Request_0 is RetryFailed {
        assert(after.db.proofs.dom() == before.db.proofs.dom());
        assert(before.db.proofs.contains_key(batch_id));
        assert(after.db.proofs.dom().contains(batch_id));
    }
}

/// A failure is counted, whatever came before it, and nothing else is.
pub proof fn law_failures_are_counted(
    record: BatchProofRecordView,
    status: ProofStatus,
    error_message: Option<Seq<char>>,
    now: SystemTime,
)
    requires
        record.can_report(status),
    ensures
        record.reported(status, error_message, now).retry_count == record.retry_count + (
        if status == ProofStatus::Failed {
            1int
        } else {
            0
        }),
{
}

/// After a retry no proof is left that could be retried, and a proof that has failed
/// [`MAX_RETRIES`] times stays failed.
pub proof fn law_retry_takes_all_it_may(
    before: Map<Seq<char>, BatchProofRecordView>,
    after: Map<Seq<char>, BatchProofRecordView>,
    batch_id: Seq<char>,
)
    requires
        crate::proof_table::all_retried(before, after),
        before.contains_key(batch_id),
    ensures
        after.contains_key(batch_id),
        !after[batch_id].is_retriable(),
        before[batch_id].status == ProofStatus::Failed && before[batch_id].retry_count
            >= MAX_RETRIES ==> after[batch_id] == before[batch_id],
        before[batch_id].is_retriable() ==> after[batch_id].status == ProofStatus::Generated
            && after[batch_id].retry_count == before[batch_id].retry_count,
{
    assert(after.dom().contains(batch_id));
}

/// Every event keeps every proof filed under its own batch id.
pub proof fn law_proofs_stay_filed(
    before: ServiceView,
    event: EventView,
    after: ServiceView,
    action: ActionView,
)
    requires
        before.admits(event),
        before.steps(event, after, action),
        forall|id: Seq<char>| #[trigger]
            before.db.proofs.contains_key(id) ==> before.db.proofs[id].batch_id == id,
    ensures
        forall|id: Seq<char>| #[trigger]
            after.db.proofs.contains_key(id) ==> after.db.proofs[id].batch_id == id,
{
    if event is Account || (event is Request && event->Request_0 is Lock) {
        lemma_lock_steps_frame(before, event, after, action);
    }
    if event is Request && event->Request_0 is RetryFailed {
        assert forall|id: Seq<char>| #[trigger]
            after.db.proofs.contains_key(id) implies after.db.proofs[id].batch_id == id by {
            assert(before.db.proofs.dom().contains(id));
            assert(before.db.proofs.contains_key(id));
        }
    }
}

/// A report on a batch that is not known changes nothing.
pub proof fn law_unknown_batch_changes_nothing(
    db: RollupDBView,
    message: UpdateProofStatusMessageView,
    after: RollupDBView,
)
    requires
        !db.proofs.contains_key(message.batch_id),
        db.reports_proof(message, after),
    ensures
        after == db,
{
}

/// Every event keeps every transaction signature leading to a batch that is known.
pub proof fn law_signatures_lead_to_known_batches(
    before: ServiceView,
    event: EventView,
    after: ServiceView,
    action: ActionView,
)
    requires
        before.admits(event),
        before.steps(event, after, action),
        forall|signature: Seq<char>| #[trigger]
            before.db.proof_by_transaction.contains_key(signature)
                ==> before.db.proofs.contains_key(before.db.proof_by_transaction[signature]),
    ensures
        forall|signature: Seq<char>| #[trigger]
            after.db.proof_by_transaction.contains_key(signature) ==> after.db.proofs.contains_key(
                after.db.proof_by_transaction[signature],
            ),
{
    if event is Account || (event is Request && event->Request_0 is Lock) {
        lemma_lock_steps_frame(before, event, after, action);
    }
    if event is Request && event->Request_0 is RetryFailed {
        assert forall|signature: Seq<char>| #[trigger]
            after.db.proof_by_transaction.contains_key(
            signature,
        ) implies after.db.proofs.contains_key(after.db.proof_by_transaction[signature]) by {
            let batch_id = after.db.proof_by_transaction[signature];
            assert(before.db.proof_by_transaction.contains_key(signature));
            assert(after.db.proofs.dom().contains(batch_id));
        }
    }
}

/// No account is free to be locked and locked at once.
pub open spec fn is_exclusive(db: RollupDBView) -> bool {
    forall|key: Seq<u8>| #[trigger]
        db.accounts.contains_key(key) ==> !db.locked.contains_key(key)
}

/// Every account that is known to `before` is known to `after`, be it free or locked.
pub open spec fn keeps_accounts(before: RollupDBView, after: RollupDBView) -> bool {
    forall|key: Seq<u8>|
        #![trigger after.accounts.contains_key(key)]
        #![trigger after.locked.contains_key(key)]
        before.accounts.contains_key(key) || before.locked.contains_key(key)
            ==> after.accounts.contains_key(key) || after.locked.contains_key(key)
}

proof fn lemma_lock_onward_is_exclusive(
    db: RollupDBView,
    keys: Seq<Seq<u8>>,
    fetched: Seq<(Seq<u8>, AccountView)>,
)
    ensures
        is_exclusive(db) ==> is_exclusive(crate::service::lock_onward(db, keys, fetched).0.db),
        keeps_accounts(db, crate::service::lock_onward(db, keys, fetched).0.db),
    decreases keys.len(),
{
    if keys.len() > 0 && db.accounts.contains_key(keys[0]) {
        lemma_lock_onward_is_exclusive(
            db.lock(keys[0], db.accounts[keys[0]]),
            keys.drop_first(),
            fetched.push((keys[0], db.accounts[keys[0]])),
        );
    }
}

proof fn lemma_lock_step_is_exclusive(
    before: ServiceView,
    event: EventView,
    after: ServiceView,
    action: ActionView,
)
    requires
        before.steps(event, after, action),
        event is Account || (event is Request && event->Request_0 is Lock),
    ensures
        is_exclusive(before.db) ==> is_exclusive(after.db),
        keeps_accounts(before.db, after.db),
{
    match event {
        EventView::Request(request) => {
            lemma_lock_onward_is_exclusive(before.db, request->Lock_0, Seq::empty());
        },
        EventView::Account(reply) => {
            let locking = before.locking->0;
            let key = locking.keys[0];
            match reply {
                Some(account) => lemma_lock_onward_is_exclusive(
                    before.db.lock(key, account),
                    locking.keys.drop_first(),
                    locking.fetched.push((key, account)),
                ),
                None => lemma_lock_onward_is_exclusive(
                    before.db,
                    locking.keys.drop_first(),
                    locking.fetched,
                ),
            }
        },
    }
}

/// Locking loses no account: one that was known, free or locked, still is.
pub proof fn law_locking_loses_no_account(
    before: ServiceView,
    event: EventView,
    after: ServiceView,
    action: ActionView,
)
    requires
        before.steps(event, after, action),
        event is Account || (event is Request && event->Request_0 is Lock),
    ensures
        keeps_accounts(before.db, after.db),
{
    lemma_lock_step_is_exclusive(before, event, after, action);
}

proof fn lemma_insert_all_adds_only_updates(
    accounts: Map<Seq<u8>, AccountView>,
    updates: Seq<(Seq<u8>, AccountView)>,
    key: Seq<u8>,
)
    requires
        crate::rollupdb::insert_all(accounts, updates).contains_key(key),
        !accounts.contains_key(key),
    ensures
        exists|i: int| 0 <= i < updates.len() && (#[trigger] updates[i]).0 == key,
    decreases updates.len(),
{
    if updates.len() > 0 {
        if updates.last().0 == key {
            assert(updates[updates.len() - 1].0 == key);
        } else {
            let front = updates.drop_last();
            lemma_insert_all_adds_only_updates(accounts, front, key);
            let i = choose|i: int| 0 <= i < front.len() && (#[trigger] front[i]).0 == key;
            assert(updates[i].0 == key);
        }
    }
}

/// No account is free and locked at once, as long as processed transactions come with new states
/// of their own accounts only.
pub proof fn law_no_account_is_free_and_locked(
    before: ServiceView,
    event: EventView,
    after: ServiceView,
    action: ActionView,
)
    requires
        before.admits(event),
        before.steps(event, after, action),
        is_exclusive(before.db),
        event matches EventView::Request(RequestView::Process(tx, new_data)) ==> forall|i: int|
            0 <= i < new_data.len() ==> tx.message.account_keys.contains(
                (#[trigger] new_data[i]).0,
            ),
    ensures
        is_exclusive(after.db),
{
    if event is Account || (event is Request && event->Request_0 is Lock) {
        lemma_lock_step_is_exclusive(before, event, after, action);
    }
    if let EventView::Request(RequestView::Process(tx, new_data)) = event {
        assert forall|key: Seq<u8>| #[trigger]
            after.db.accounts.contains_key(key) implies !after.db.locked.contains_key(key) by {
            if !before.db.accounts.contains_key(key) {
                lemma_insert_all_adds_only_updates(before.db.accounts, new_data, key);
                let i = choose|i: int| 0 <= i < new_data.len() && (#[trigger] new_data[i]).0 == key;
                assert(tx.message.account_keys.contains(new_data[i].0));
            }
        }
    }
}

/// The database files a processed transaction under the Keccak-256 digest of the base58 text of its
/// first signature, the text that its sender was given, and under nothing else. It takes in the
/// last new state of each account, frees exactly the accounts of the transaction, and leaves the
/// proofs alone.
pub proof fn law_process_step(
    before: ServiceView,
    tx: TransactionView,
    new_data: Seq<(Seq<u8>, AccountView)>,
    text: Seq<char>,
    after: ServiceView,
    action: ActionView,
)
    requires
        before.admits(EventView::Request(RequestView::Process(tx, new_data))),
        before.steps(EventView::Request(RequestView::Process(tx, new_data)), after, action),
        text == crate::solana::signature_text(tx.signatures[0]),
    ensures
        ({
            let hash = crate::solana::keccak256(vstd::utf8::encode_utf8(text));
            &&& after.db.transactions.contains_key(hash)
            &&& after.db.transactions[hash] == tx
            &&& forall|other: Seq<u8>|
                other != hash ==> {
                    &&& (#[trigger] after.db.transactions.contains_key(other))
                        == before.db.transactions.contains_key(other)
                    &&& after.db.transactions.contains_key(other) ==> after.db.transactions[other]
                        == before.db.transactions[other]
                }
        }),
        forall|key: Seq<u8>| #[trigger]
            after.db.locked.contains_key(key) <==> {
                &&& before.db.locked.contains_key(key)
                &&& !tx.message.account_keys.contains(key)
            },
        forall|key: Seq<u8>| #[trigger]
            after.db.locked.contains_key(key) ==> after.db.locked[key] == before.db.locked[key],
        forall|key: Seq<u8>, i: int|
            0 <= i < new_data.len() && (#[trigger] new_data[i]).0 == key && (forall|j: int|
                i < j < new_data.len() ==> (#[trigger] new_data[j]).0 != key) ==> {
                &&& #[trigger] after.db.accounts.contains_key(key)
                &&& after.db.accounts[key] == new_data[i].1
            },
        forall|key: Seq<u8>|
            (forall|i: int| 0 <= i < new_data.len() ==> (#[trigger] new_data[i]).0 != key) ==> {
                &&& (#[trigger] after.db.accounts.contains_key(key))
                    == before.db.accounts.contains_key(key)
                &&& after.db.accounts.contains_key(key) ==> after.db.accounts[key]
                    == before.db.accounts[key]
            },
        after.db.proofs == before.db.proofs,
        after.db.proof_by_transaction == before.db.proof_by_transaction,
        after.locking is None,
        action == ActionView::TellProcessed(after.db.locked.len(), after.db.accounts.len()),
{
    assert forall|key: Seq<u8>, i: int|
        0 <= i < new_data.len() && (#[trigger] new_data[i]).0 == key && (forall|j: int|
            i < j < new_data.len() ==> (#[trigger] new_data[j]).0 != key) implies {
        &&& #[trigger] after.db.accounts.contains_key(key)
        &&& after.db.accounts[key] == new_data[i].1
    } by {
        law_processing_updates_accounts(before.db, tx, new_data, key);
    }
    assert forall|key: Seq<u8>|
        (forall|i: int| 0 <= i < new_data.len() ==> (#[trigger] new_data[i]).0 != key) implies {
        &&& (#[trigger] after.db.accounts.contains_key(key)) == before.db.accounts.contains_key(key)
        &&& after.db.accounts.contains_key(key) ==> after.db.accounts[key]
            == before.db.accounts[key]
    } by {
        law_processing_updates_accounts(before.db, tx, new_data, key);
    }
}

/// A question for a hash is answered with that hash and with the transaction that is filed under
/// it, or else with an error, and it changes nothing.
pub proof fn law_get_transaction_step(
    before: ServiceView,
    hash: Seq<u8>,
    after: ServiceView,
    action: ActionView,
)
    requires
        before.steps(EventView::Request(RequestView::GetTransaction(hash)), after, action),
    ensures
        after == before,
        action is SendFrontend,
        action->SendFrontend_0.get_tx == Some(hash),
        action->SendFrontend_0.transactions is None,
        action->SendFrontend_0.total is None,
        action->SendFrontend_0.has_more is None,
        before.db.transactions.contains_key(hash) ==> {
            &&& action->SendFrontend_0.transaction == Some(before.db.transactions[hash])
            &&& action->SendFrontend_0.error is None
        },
        !before.db.transactions.contains_key(hash) ==> {
            &&& action->SendFrontend_0.transaction is None
            &&& action->SendFrontend_0.error == Some("Transaction not found"@)
        },
{
}

/// Two requests in turn: a transaction is processed, and then it is asked for under the Keccak-256
/// digest of the base58 text of its first signature. It is found, in every part.
pub proof fn law_processed_transaction_is_found_by_its_text(
    before: ServiceView,
    tx: TransactionView,
    new_data: Seq<(Seq<u8>, AccountView)>,
    between: ServiceView,
    told: ActionView,
    after: ServiceView,
    action: ActionView,
)
    requires
        before.admits(EventView::Request(RequestView::Process(tx, new_data))),
        before.steps(EventView::Request(RequestView::Process(tx, new_data)), between, told),
        between.steps(
            EventView::Request(
                RequestView::GetTransaction(
                    crate::solana::keccak256(
                        vstd::utf8::encode_utf8(crate::solana::signature_text(tx.signatures[0])),
                    ),
                ),
            ),
            after,
            action,
        ),
    ensures
        action is SendFrontend,
        action->SendFrontend_0.transaction is Some,
        action->SendFrontend_0.transaction->0.signatures == tx.signatures,
        action->SendFrontend_0.transaction->0.message.header == tx.message.header,
        action->SendFrontend_0.transaction->0.message.account_keys == tx.message.account_keys,
        action->SendFrontend_0.transaction->0.message.recent_blockhash
            == tx.message.recent_blockhash,
        action->SendFrontend_0.transaction->0.message.instructions == tx.message.instructions,
        action->SendFrontend_0.error is None,
{
    let text = crate::solana::signature_text(tx.signatures[0]);
    law_process_step(before, tx, new_data, text, between, told);
    law_get_transaction_step(
        between,
        crate::solana::keccak256(vstd::utf8::encode_utf8(text)),
        after,
        action,
    );
}

/// Whether everything but the proofs and the way to them is as it was.
pub open spec fn keeps_all_but_proofs(before: ServiceView, after: ServiceView) -> bool {
    &&& after.db.accounts == before.db.accounts
    &&& after.db.locked == before.db.locked
    &&& after.db.transactions == before.db.transactions
    &&& after.locking is None
}

/// The record of a proof that was handed in at `now` holds all that was handed in, is generated,
/// and has no failure.
pub proof fn law_new_record_holds_the_proof(message: StoreBatchProofMessageView, now: SystemTime)
    ensures
        BatchProofRecordView::generated(message, now).batch_id == message.batch_id,
        BatchProofRecordView::generated(message, now).proof_data.pi_a == message.proof_data.pi_a,
        BatchProofRecordView::generated(message, now).proof_data.pi_b == message.proof_data.pi_b,
        BatchProofRecordView::generated(message, now).proof_data.pi_c == message.proof_data.pi_c,
        BatchProofRecordView::generated(message, now).proof_data.protocol
            == message.proof_data.protocol,
        BatchProofRecordView::generated(message, now).proof_data.curve == message.proof_data.curve,
        BatchProofRecordView::generated(message, now).public_inputs == message.public_inputs,
        BatchProofRecordView::generated(message, now).transaction_signatures
            == message.transaction_signatures,
        BatchProofRecordView::generated(message, now).status == ProofStatus::Generated,
        BatchProofRecordView::generated(message, now).created_at == now,
        BatchProofRecordView::generated(message, now).updated_at == now,
        BatchProofRecordView::generated(message, now).retry_count == 0,
        BatchProofRecordView::generated(message, now).error_message is None,
{
}

/// Whether `after` keeps the proof of the message as it was handed in, at one and the same time,
/// leads its transaction signatures to it, and keeps all other proofs and ways as they were.
pub open spec fn keeps_proof(
    before: RollupDBView,
    message: StoreBatchProofMessageView,
    after: RollupDBView,
) -> bool {
    &&& after.proofs.contains_key(message.batch_id)
    &&& after.proofs[message.batch_id].batch_id == message.batch_id
    &&& after.proofs[message.batch_id].proof_data == message.proof_data
    &&& after.proofs[message.batch_id].public_inputs == message.public_inputs
    &&& after.proofs[message.batch_id].transaction_signatures == message.transaction_signatures
    &&& after.proofs[message.batch_id].status == ProofStatus::Generated
    &&& after.proofs[message.batch_id].created_at == after.proofs[message.batch_id].updated_at
    &&& after.proofs[message.batch_id].retry_count == 0
    &&& after.proofs[message.batch_id].error_message is None
    &&& forall|id: Seq<char>|
        id != message.batch_id ==> {
            &&& (#[trigger] after.proofs.contains_key(id)) == before.proofs.contains_key(id)
            &&& after.proofs.contains_key(id) ==> after.proofs[id] == before.proofs[id]
        }
    &&& forall|signature: Seq<char>|
        message.transaction_signatures.contains(signature) ==> {
            &&& #[trigger] after.proof_by_transaction.contains_key(signature)
            &&& after.proof_by_transaction[signature] == message.batch_id
        }
    &&& forall|signature: Seq<char>|
        !message.transaction_signatures.contains(signature) ==> {
            &&& (#[trigger] after.proof_by_transaction.contains_key(signature))
                == before.proof_by_transaction.contains_key(signature)
            &&& after.proof_by_transaction.contains_key(signature)
                ==> after.proof_by_transaction[signature] == before.proof_by_transaction[signature]
        }
}

/// A proof that is handed in at `now` is kept as it was handed in, with that time.
pub proof fn law_proof_is_kept_as_handed_in(
    db: RollupDBView,
    message: StoreBatchProofMessageView,
    now: SystemTime,
)
    ensures
        keeps_proof(db, message, db.store_proof(message, now)),
        db.store_proof(message, now).proofs[message.batch_id].created_at == now,
        db.store_proof(message, now).proofs[message.batch_id].updated_at == now,
        db.store_proof(message, now).accounts == db.accounts,
        db.store_proof(message, now).locked == db.locked,
        db.store_proof(message, now).transactions == db.transactions,
{
}

/// A request to keep a proof keeps it as it was handed in, touches nothing else, and tells how many
/// proofs there are.
pub proof fn law_store_step(
    before: ServiceView,
    message: StoreBatchProofMessageView,
    after: ServiceView,
    action: ActionView,
)
    requires
        before.steps(EventView::Request(RequestView::StoreProof(message)), after, action),
    ensures
        keeps_proof(before.db, message, after.db),
        keeps_all_but_proofs(before, after),
        action == ActionView::TellStored(after.db.proofs.len()),
{
    let now = choose|now: SystemTime| after.db == #[trigger] before.db.store_proof(message, now);
    law_proof_is_kept_as_handed_in(before.db, message, now);
}

/// Whether a report turns the record `old_record` into `new_record`: the status and the error
/// message are those of the report, a failure is counted, and what was handed in stays.
pub open spec fn takes_report(
    old_record: BatchProofRecordView,
    message: UpdateProofStatusMessageView,
    new_record: BatchProofRecordView,
) -> bool {
    &&& new_record.status == message.new_status
    &&& new_record.error_message == message.error_message
    &&& message.new_status == ProofStatus::Failed ==> new_record.retry_count
        == old_record.retry_count + 1
    &&& message.new_status != ProofStatus::Failed ==> new_record.retry_count
        == old_record.retry_count
    &&& new_record.batch_id == old_record.batch_id
    &&& new_record.proof_data == old_record.proof_data
    &&& new_record.public_inputs == old_record.public_inputs
    &&& new_record.transaction_signatures == old_record.transaction_signatures
    &&& new_record.created_at == old_record.created_at
}

/// A report that comes at `now` turns the record as it says, whatever the record was before, and
/// is the last change of it.
pub proof fn law_record_takes_report(
    record: BatchProofRecordView,
    message: UpdateProofStatusMessageView,
    now: SystemTime,
)
    requires
        message.new_status == ProofStatus::Failed ==> record.retry_count < u32::MAX,
    ensures
        record.can_report(message.new_status),
        takes_report(
            record,
            message,
            record.reported(message.new_status, message.error_message, now),
        ),
        record.reported(message.new_status, message.error_message, now).updated_at == now,
{
}

/// A report on a known batch turns its record as it says and no other; one on an unknown batch
/// changes nothing. It is told which of the two it was.
pub proof fn law_update_step(
    before: ServiceView,
    message: UpdateProofStatusMessageView,
    after: ServiceView,
    action: ActionView,
)
    requires
        before.admits(EventView::Request(RequestView::UpdateProof(message))),
        before.steps(EventView::Request(RequestView::UpdateProof(message)), after, action),
    ensures
        before.db.proofs.contains_key(message.batch_id) ==> {
            &&& after.db.proofs.contains_key(message.batch_id)
            &&& takes_report(
                before.db.proofs[message.batch_id],
                message,
                after.db.proofs[message.batch_id],
            )
            &&& action == ActionView::TellReported(message.batch_id, true)
        },
        !before.db.proofs.contains_key(message.batch_id) ==> {
            &&& after.db.proofs == before.db.proofs
            &&& action == ActionView::TellReported(message.batch_id, false)
        },
        forall|id: Seq<char>|
            id != message.batch_id ==> {
                &&& (#[trigger] after.db.proofs.contains_key(id)) == before.db.proofs.contains_key(
                    id,
                )
                &&& after.db.proofs.contains_key(id) ==> after.db.proofs[id] == before.db.proofs[id]
            },
        after.db.proof_by_transaction == before.db.proof_by_transaction,
        keeps_all_but_proofs(before, after),
{
    let now = choose|now: SystemTime| after.db == #[trigger] before.db.report_proof(message, now);
    assert(after.db == before.db.report_proof(message, now));
}

/// A report on a known batch that comes at `now` is the last change of its record.
pub proof fn law_report_is_the_last_change(
    db: RollupDBView,
    message: UpdateProofStatusMessageView,
    now: SystemTime,
)
    requires
        db.proofs.contains_key(message.batch_id),
    ensures
        db.report_proof(message, now).proofs[message.batch_id].updated_at == now,
{
}

/// A question for a batch is answered with its record, if it is known, and changes nothing.
pub proof fn law_get_proof_step(
    before: ServiceView,
    batch_id: Seq<char>,
    after: ServiceView,
    action: ActionView,
)
    requires
        before.steps(EventView::Request(RequestView::GetProof(batch_id)), after, action),
    ensures
        after == before,
        before.db.proofs.contains_key(batch_id) ==> action == ActionView::TellProof(
            Some(before.db.proofs[batch_id]),
        ),
        !before.db.proofs.contains_key(batch_id) ==> action == ActionView::TellProof(None),
{
}

/// The unsettled proofs are those that are generated, posted or failed, however often they have
/// failed. Each is listed once, and nothing changes.
pub proof fn law_unsettled_step(before: ServiceView, after: ServiceView, action: ActionView)
    requires
        before.steps(EventView::Request(RequestView::GetUnsettled), after, action),
    ensures
        after == before,
        action is TellUnsettled,
        action->TellUnsettled_0.no_duplicates(),
        forall|i: int|
            0 <= i < action->TellUnsettled_0.len() ==> {
                let record = #[trigger] action->TellUnsettled_0[i];
                &&& before.db.proofs.contains_key(record.batch_id)
                &&& before.db.proofs[record.batch_id] == record
            },
        forall|id: Seq<char>| #[trigger]
            before.db.proofs.contains_key(id) ==> (action->TellUnsettled_0.contains(
                before.db.proofs[id],
            ) <==> {
                ||| before.db.proofs[id].status == ProofStatus::Generated
                ||| before.db.proofs[id].status == ProofStatus::Posted
                ||| before.db.proofs[id].status == ProofStatus::Failed
            }),
{
    let listed = action->TellUnsettled_0;
    assert forall|id: Seq<char>| #[trigger]
        before.db.proofs.contains_key(id) implies (listed.contains(before.db.proofs[id]) <==> {
        ||| before.db.proofs[id].status == ProofStatus::Generated
        ||| before.db.proofs[id].status == ProofStatus::Posted
        ||| before.db.proofs[id].status == ProofStatus::Failed
    }) by {
        if listed.contains(before.db.proofs[id]) {
            let i = listed.index_of(before.db.proofs[id]);
            assert(listed[i].is_unsettled());
        }
    }
}

/// A record is unsettled exactly if it is generated, posted or failed, whatever else it holds.
pub proof fn law_unsettled_is_not_verified(record: BatchProofRecordView)
    ensures
        record.is_unsettled() <==> {
            ||| record.status == ProofStatus::Generated
            ||| record.status == ProofStatus::Posted
            ||| record.status == ProofStatus::Failed
        },
{
}

/// A retry takes up exactly the proofs that have failed, and less than three times: each becomes
/// generated and keeps all else that it holds but the time of its last change. Every other record
/// stays as it is, and so does everything but the proofs. The batches that were taken up are told,
/// each once and with the count of its failures.
pub proof fn law_retry_step(before: ServiceView, after: ServiceView, action: ActionView)
    requires
        before.steps(EventView::Request(RequestView::RetryFailed), after, action),
    ensures
        keeps_all_but_proofs(before, after),
        after.db.proof_by_transaction == before.db.proof_by_transaction,
        forall|id: Seq<char>| #[trigger]
            after.db.proofs.contains_key(id) == before.db.proofs.contains_key(id),
        forall|id: Seq<char>| #[trigger]
            after.db.proofs.contains_key(id) ==> {
                let old_record = before.db.proofs[id];
                let new_record = after.db.proofs[id];
                if old_record.status == ProofStatus::Failed && old_record.retry_count < 3 {
                    &&& new_record.status == ProofStatus::Generated
                    &&& new_record.batch_id == old_record.batch_id
                    &&& new_record.proof_data == old_record.proof_data
                    &&& new_record.public_inputs == old_record.public_inputs
                    &&& new_record.transaction_signatures == old_record.transaction_signatures
                    &&& new_record.created_at == old_record.created_at
                    &&& new_record.retry_count == old_record.retry_count
                    &&& new_record.error_message == old_record.error_message
                } else {
                    new_record == old_record
                }
            },
        action is TellRetried,
        action->TellRetried_0.no_duplicates(),
        forall|id: Seq<char>, count: u32| #[trigger]
            action->TellRetried_0.contains((id, count)) <==> {
                &&& before.db.proofs.contains_key(id)
                &&& before.db.proofs[id].status == ProofStatus::Failed
                &&& before.db.proofs[id].retry_count < 3
                &&& before.db.proofs[id].retry_count == count
            },
{
    assert forall|id: Seq<char>| #[trigger]
        after.db.proofs.contains_key(id) == before.db.proofs.contains_key(id) by {
        assert(after.db.proofs.dom().contains(id) == before.db.proofs.dom().contains(id));
    }
    assert forall|id: Seq<char>| #[trigger] after.db.proofs.contains_key(id) implies {
        let old_record = before.db.proofs[id];
        let new_record = after.db.proofs[id];
        if old_record.status == ProofStatus::Failed && old_record.retry_count < 3 {
            &&& new_record.status == ProofStatus::Generated
            &&& new_record.batch_id == old_record.batch_id
            &&& new_record.proof_data == old_record.proof_data
            &&& new_record.public_inputs == old_record.public_inputs
            &&& new_record.transaction_signatures == old_record.transaction_signatures
            &&& new_record.created_at == old_record.created_at
            &&& new_record.retry_count == old_record.retry_count
            &&& new_record.error_message == old_record.error_message
        } else {
            new_record == old_record
        }
    } by {
        assert(before.db.proofs.contains_key(id));
    }
}

/// A record that is reset at `now` is generated, was last changed then, and keeps all else.
pub proof fn law_reset_keeps_the_rest(record: BatchProofRecordView, now: SystemTime)
    ensures
        record.reset(now).status == ProofStatus::Generated,
        record.reset(now).updated_at == now,
        record.reset(now).batch_id == record.batch_id,
        record.reset(now).proof_data == record.proof_data,
        record.reset(now).public_inputs == record.public_inputs,
        record.reset(now).transaction_signatures == record.transaction_signatures,
        record.reset(now).created_at == record.created_at,
        record.reset(now).retry_count == record.retry_count,
        record.reset(now).error_message == record.error_message,
        record.is_retriable() <==> record.status == ProofStatus::Failed && record.retry_count < 3,
{
}

/// A message that asks for nothing changes nothing, and nothing is done about it.
pub proof fn law_nothing_step(before: ServiceView, after: ServiceView, action: ActionView)
    requires
        before.steps(EventView::Request(RequestView::Nothing), after, action),
    ensures
        after == before,
        action is Receive,
{
}

/// Whether going on with a lock request from `db` takes the first `n` of its keys, all of accounts
/// that are here, and stops there: at the end of the keys, with all accounts on their way to the
/// sequencer, or at a key whose account is not here any more or never was, which is asked of
/// layer 1.
pub open spec fn locks_first(
    db: RollupDBView,
    keys: Seq<Seq<u8>>,
    fetched: Seq<(Seq<u8>, AccountView)>,
    n: int,
    after: ServiceView,
    action: ActionView,
) -> bool {
    let sent = fetched + Seq::new(n as nat, |i: int| (keys[i], db.accounts[keys[i]]));
    &&& 0 <= n <= keys.len()
    &&& keys.take(n).no_duplicates()
    &&& forall|i: int| 0 <= i < n ==> db.accounts.contains_key(#[trigger] keys[i])
    &&& forall|key: Seq<u8>|
        #![trigger keys.take(n).contains(key)]
        keys.take(n).contains(key) ==> {
            &&& !after.db.accounts.contains_key(key)
            &&& after.db.locked.contains_key(key)
            &&& after.db.locked[key] == db.accounts[key]
        }
    &&& forall|key: Seq<u8>|
        #![trigger keys.take(n).contains(key)]
        !keys.take(n).contains(key) ==> {
            &&& after.db.accounts.contains_key(key) == db.accounts.contains_key(key)
            &&& after.db.accounts.contains_key(key) ==> after.db.accounts[key] == db.accounts[key]
            &&& after.db.locked.contains_key(key) == db.locked.contains_key(key)
            &&& after.db.locked.contains_key(key) ==> after.db.locked[key] == db.locked[key]
        }
    &&& after.db.transactions == db.transactions
    &&& after.db.proofs == db.proofs
    &&& after.db.proof_by_transaction == db.proof_by_transaction
    &&& if n == keys.len() {
        &&& after.locking is None
        &&& action == ActionView::SendAccounts(sent)
    } else {
        &&& after.locking == Some(LockingView { keys: keys.skip(n), fetched: sent })
        &&& action == ActionView::FetchAccount(keys[n])
        &&& !after.db.accounts.contains_key(keys[n])
    }
}

#[verifier::spinoff_prover]
proof fn lemma_locks_first(
    db: RollupDBView,
    keys: Seq<Seq<u8>>,
    fetched: Seq<(Seq<u8>, AccountView)>,
) -> (n: int)
    ensures
        ({
            let (after, action) = crate::service::lock_onward(db, keys, fetched);
            locks_first(db, keys, fetched, n, after, action)
        }),
    decreases keys.len(),
{
    let (after, action) = crate::service::lock_onward(db, keys, fetched);
    if keys.len() > 0 && db.accounts.contains_key(keys[0]) {
        let first = keys[0];
        let rest = keys.drop_first();
        let next = db.lock(first, db.accounts[first]);
        let longer = fetched.push((first, db.accounts[first]));
        let m = lemma_locks_first(next, rest, longer);
        let n = m + 1;
        assert((after, action) == crate::service::lock_onward(next, rest, longer));
        assert(locks_first(next, rest, longer, m, after, action));
        assert forall|i: int| 0 <= i < m implies (#[trigger] rest[i]) == keys[i + 1]
            && rest[i] != first by {
            assert(next.accounts.contains_key(rest[i]));
        }
        assert(keys.take(n).drop_first() =~= rest.take(m));
        assert forall|i: int, j: int|
            0 <= i < n && 0 <= j < n && i != j implies keys.take(n)[i] != keys.take(n)[j] by {
            if i > 0 && j > 0 {
                assert(rest.take(m)[i - 1] != rest.take(m)[j - 1]);
            } else if i > 0 {
                assert(rest[i - 1] != first);
            } else {
                assert(rest[j - 1] != first);
            }
        }
        assert forall|i: int| 0 <= i < n implies db.accounts.contains_key(#[trigger] keys[i]) by {
            if i > 0 {
                assert(next.accounts.contains_key(rest[i - 1]));
            }
        }
        assert forall|key: Seq<u8>|
            keys.take(n).contains(key) <==> key == first || rest.take(m).contains(key) by {
            if keys.take(n).contains(key) && key != first {
                let i = keys.take(n).index_of(key);
                assert(rest.take(m)[i - 1] == key);
            }
            if rest.take(m).contains(key) {
                let i = rest.take(m).index_of(key);
                assert(keys.take(n)[i + 1] == key);
            }
            assert(keys.take(n)[0] == first);
        }
        assert(!rest.take(m).contains(first)) by {
            if rest.take(m).contains(first) {
                let i = rest.take(m).index_of(first);
                assert(rest[i] != first);
            }
        }
        let sent = fetched + Seq::new(n as nat, |i: int| (keys[i], db.accounts[keys[i]]));
        let shown = longer + Seq::new(m as nat, |i: int| (rest[i], next.accounts[rest[i]]));
        assert(sent =~= shown) by {
            assert forall|i: int| 0 <= i < sent.len() implies sent[i] == shown[i] by {
                if i > fetched.len() {
                    let k = i - fetched.len() - 1;
                    assert(rest[k] == keys[k + 1]);
                }
            }
        }
        assert(keys.skip(n) =~= rest.skip(m));
        assert forall|key: Seq<u8>| #[trigger] keys.take(n).contains(key) implies {
            &&& !after.db.accounts.contains_key(key)
            &&& after.db.locked.contains_key(key)
            &&& after.db.locked[key] == db.accounts[key]
        } by {
            if key != first {
                assert(rest.take(m).contains(key));
                assert(after.db.locked[key] == next.accounts[key]);
                let i = rest.take(m).index_of(key);
                assert(rest[i] == key);
                assert(next.accounts.contains_key(rest[i]));
                assert(next.accounts[key] == db.accounts[key]);
            } else {
                assert(!rest.take(m).contains(first));
                assert(after.db.accounts.contains_key(first) == next.accounts.contains_key(first));
                assert(!next.accounts.contains_key(first));
                assert(next.locked.contains_key(first));
                assert(after.db.locked[first] == next.locked[first]);
                assert(next.locked[first] == db.accounts[first]);
            }
        }
        assert forall|key: Seq<u8>| !(#[trigger] keys.take(n).contains(key)) implies {
            &&& after.db.accounts.contains_key(key) == db.accounts.contains_key(key)
            &&& after.db.accounts.contains_key(key) ==> after.db.accounts[key] == db.accounts[key]
            &&& after.db.locked.contains_key(key) == db.locked.contains_key(key)
            &&& after.db.locked.contains_key(key) ==> after.db.locked[key] == db.locked[key]
        } by {
            assert(key != first && !rest.take(m).contains(key));
            assert(after.db.accounts.contains_key(key) == next.accounts.contains_key(key));
            assert(next.accounts.contains_key(key) == db.accounts.contains_key(key));
            assert(next.locked.contains_key(key) == db.locked.contains_key(key));
        }
        if n < keys.len() {
            assert(rest[m] == keys[n]);
        }
        assert(locks_first(db, keys, fetched, n, after, action));
        n
    } else {
        assert(fetched + Seq::new(0, |i: int| (keys[i], db.accounts[keys[i]])) =~= fetched);
        assert(keys.skip(0) =~= keys);
        0
    }
}

/// A lock request takes, in their order, the accounts that are here, up to the first key whose
/// account is not here, or was taken already. Each taken account is locked, and goes to the
/// sequencer, as it was; no other account is touched, nor is anything but accounts.
pub proof fn law_lock_step(
    before: ServiceView,
    keys: Seq<Seq<u8>>,
    after: ServiceView,
    action: ActionView,
)
    requires
        before.steps(EventView::Request(RequestView::Lock(keys)), after, action),
    ensures
        exists|n: int| locks_first(before.db, keys, Seq::empty(), n, after, action),
{
    let n = lemma_locks_first(before.db, keys, Seq::empty());
    assert(locks_first(before.db, keys, Seq::empty(), n, after, action));
}

/// An account that layer 1 has is locked, and goes to the sequencer, as layer 1 has it; one that it
/// does not have is left out. The lock request then goes on behind its key, as a new one would.
pub proof fn law_account_step(
    before: ServiceView,
    reply: Option<AccountView>,
    after: ServiceView,
    action: ActionView,
)
    requires
        before.admits(EventView::Account(reply)),
        before.steps(EventView::Account(reply), after, action),
    ensures
        ({
            let waiting = before.locking->0;
            let key = waiting.keys[0];
            let rest = waiting.keys.skip(1);
            match reply {
                Some(account) => exists|n: int|
                    locks_first(
                        RollupDBView {
                            accounts: before.db.accounts.remove(key),
                            locked: before.db.locked.insert(key, account),
                            transactions: before.db.transactions,
                            proofs: before.db.proofs,
                            proof_by_transaction: before.db.proof_by_transaction,
                        },
                        rest,
                        waiting.fetched.push((key, account)),
                        n,
                        after,
                        action,
                    ),
                None => exists|n: int|
                    locks_first(before.db, rest, waiting.fetched, n, after, action),
            }
        }),
{
    let waiting = before.locking->0;
    let key = waiting.keys[0];
    let rest = waiting.keys.skip(1);
    assert(rest =~= waiting.keys.drop_first());
    match reply {
        Some(account) => {
            let db = before.db.lock(key, account);
            let n = lemma_locks_first(db, rest, waiting.fetched.push((key, account)));
            assert(locks_first(db, rest, waiting.fetched.push((key, account)), n, after, action));
        },
        None => {
            let n = lemma_locks_first(before.db, rest, waiting.fetched);
            assert(locks_first(before.db, rest, waiting.fetched, n, after, action));
        },
    }
}

/// A service takes any request while no lock request waits, but for a processed transaction without
/// a signature and a failure that would overflow its count; it takes an answer of layer 1 exactly
/// while a lock request waits.
pub proof fn law_what_is_admitted(service: ServiceView, event: EventView)
    ensures
        event is Account ==> (service.admits(event) <==> service.locking is Some),
        event is Request ==> (service.admits(event) <==> {
            let request = event->Request_0;
            &&& service.locking is None
            &&& request is Process ==> request->Process_0.signatures.len() > 0
            &&& request is UpdateProof && request->UpdateProof_0.new_status == ProofStatus::Failed
                && service.db.proofs.contains_key(request->UpdateProof_0.batch_id)
                ==> service.db.proofs[request->UpdateProof_0.batch_id].retry_count < u32::MAX
        }),
{
}

/// A new database holds nothing.
pub proof fn law_new_database_is_empty(key: Seq<u8>, text: Seq<char>)
    ensures
        !RollupDBView::empty().accounts.contains_key(key),
        !RollupDBView::empty().locked.contains_key(key),
        !RollupDBView::empty().transactions.contains_key(key),
        !RollupDBView::empty().proofs.contains_key(text),
        !RollupDBView::empty().proof_by_transaction.contains_key(text),
{
}

/// Of a message that is filled in more than once, a lock request comes before a processed
/// transaction with its new data, that before a question for a transaction, and then a proof to
/// keep, a report, a question for a batch, one for the unsettled proofs, and a retry. The settings
/// for lists and the settle proof ask for nothing.
pub proof fn law_first_request_counts(message: RollupDBMessageView)
    ensures
        ({
            let locks = message.lock_accounts is Some;
            let processes = message.add_processed_transaction is Some && message.add_new_data
                is Some;
            let looks_up = message.frontend_get_tx is Some;
            let stores = message.store_batch_proof is Some;
            let updates = message.update_proof_status is Some;
            let gets = message.get_proof_by_batch_id is Some;
            let lists = message.get_unsettled_proofs is Some;
            let retries = message.retry_failed_proofs is Some;
            let request = message.request();
            &&& locks ==> request == RequestView::Lock(message.lock_accounts->0)
            &&& !locks && processes ==> request == RequestView::Process(
                message.add_processed_transaction->0,
                message.add_new_data->0,
            )
            &&& !locks && !processes && looks_up ==> request == RequestView::GetTransaction(
                message.frontend_get_tx->0,
            )
            &&& !locks && !processes && !looks_up && stores ==> request
                == RequestView::StoreProof(message.store_batch_proof->0)
            &&& !locks && !processes && !looks_up && !stores && updates ==> request
                == RequestView::UpdateProof(message.update_proof_status->0)
            &&& !locks && !processes && !looks_up && !stores && !updates && gets ==> request
                == RequestView::GetProof(message.get_proof_by_batch_id->0)
            &&& !locks && !processes && !looks_up && !stores && !updates && !gets && lists
                ==> request is GetUnsettled
            &&& !locks && !processes && !looks_up && !stores && !updates && !gets && !lists
                && retries ==> request is RetryFailed
            &&& !locks && !processes && !looks_up && !stores && !updates && !gets && !lists
                && !retries ==> request is Nothing
        }),
{
}

/// The empty message has nothing filled in.
pub proof fn law_empty_message_has_nothing()
    ensures
        RollupDBMessageView::empty().lock_accounts is None,
        RollupDBMessageView::empty().add_processed_transaction is None,
        RollupDBMessageView::empty().frontend_get_tx is None,
        RollupDBMessageView::empty().list_offset is None,
        RollupDBMessageView::empty().list_limit is None,
        RollupDBMessageView::empty().add_settle_proof is None,
        RollupDBMessageView::empty().add_new_data is None,
        RollupDBMessageView::empty().store_batch_proof is None,
        RollupDBMessageView::empty().update_proof_status is None,
        RollupDBMessageView::empty().get_proof_by_batch_id is None,
        RollupDBMessageView::empty().get_unsettled_proofs is None,
        RollupDBMessageView::empty().retry_failed_proofs is None,
{
}

} // verus!
