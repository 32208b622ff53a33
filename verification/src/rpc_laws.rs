//! What holds of the JSON-RPC interface over all its calls.
use crate::json::{JsonNumber, JsonView};
use crate::ledger::{AccountView, TransactionView};
use crate::rollupdb::{FrontendMessageView, RollupDBView};
use crate::rpc::{
    BlockInfoView, ProgressView, RpcCallView, RpcRequestView, RpcResponseView, SendingView,
    StatusesView, METHOD_NOT_FOUND,
};
use crate::rpc_session::{
    RpcActionView, RpcEventView, RpcReplyView, RpcSessionView, WaitingView,
};
use crate::service::{RequestView, RollupDBMessageView};
use vstd::prelude::*;

verus! {

/// An answer either gives a result or tells of an error.
pub open spec fn is_well_formed(response: RpcResponseView) -> bool {
    &&& response.jsonrpc == "2.0"@
    &&& response.result is Some <==> response.error is None
}

/// The id of the call that has come that far.
pub open spec fn id_of(progress: ProgressView) -> Option<JsonView> {
    match progress {
        ProgressView::Done(response) => response.id,
        ProgressView::Enqueue(_, sending) => sending.id,
        ProgressView::Query(_, statuses) => statuses.id,
    }
}

/// The call still belongs to `id`, and its answer, if it is answered, is well formed.
pub open spec fn belongs_to(progress: ProgressView, id: Option<JsonView>) -> bool {
    &&& id_of(progress) == id
    &&& progress matches ProgressView::Done(response) ==> is_well_formed(response)
}

proof fn lemma_statuses_belong(
    id: Option<JsonView>,
    rest: Seq<Seq<char>>,
    statuses: Seq<JsonView>,
    slot: u64,
)
    ensures
        belongs_to(crate::rpc::statuses_onward(id, rest, statuses, slot), id),
        !(crate::rpc::statuses_onward(id, rest, statuses, slot) is Enqueue),
        crate::rpc::statuses_onward(id, rest, statuses, slot) matches ProgressView::Done(response)
            ==> response.error is None,
    decreases rest.len(),
{
    if rest.len() > 0 && crate::rpc::status_hash(rest[0]) is None {
        lemma_statuses_belong(id, rest.drop_first(), statuses.push(JsonView::Null), slot);
    }
}

/// However a call goes, it keeps the id that it came with, and its answer either gives a result or
/// tells of an error.
pub proof fn law_calls_keep_their_id(
    info: BlockInfoView,
    request: RpcRequestView,
    sending: SendingView,
    outcome: Result<(), Seq<char>>,
    statuses: StatusesView,
    answer: Option<FrontendMessageView>,
)
    ensures
        belongs_to(crate::rpc::dispatched(info, request), request.id),
        belongs_to(ProgressView::Done(sending.enqueued(outcome)), sending.id),
        belongs_to(statuses.answered(info, answer), statuses.id),
{
    if let Ok(signatures) = crate::rpc::strings_param(request.params, 0) {
        lemma_statuses_belong(request.id, signatures, Seq::empty(), info.slot);
    }
    lemma_statuses_belong(
        statuses.id,
        statuses.rest,
        statuses.statuses.push(crate::rpc::status_of(answer)),
        info.slot,
    );
}

/// The methods that there are.
pub open spec fn is_method(name: Seq<char>) -> bool {
    ||| name == "getVersion"@
    ||| name == "getLatestBlockhash"@
    ||| name == "isBlockhashValid"@
    ||| name == "sendTransaction"@
    ||| name == "getSignatureStatuses"@
    ||| name == "getBalance"@
    ||| name == "getAccountInfo"@
    ||| name == "getMinimumBalanceForRentExemption"@
    ||| name == "getSlot"@
    ||| name == "getBlockHeight"@
}

/// A call is told that its method is not found exactly if there is no such method.
pub proof fn law_method_not_found(info: BlockInfoView, request: RpcRequestView)
    ensures
        !is_method(request.method) <==> (crate::rpc::dispatched(
            info,
            request,
        ) matches ProgressView::Done(response) && response.error is Some && response.error->0.code
            == METHOD_NOT_FOUND),
{
    if let Ok(signatures) = crate::rpc::strings_param(request.params, 0) {
        lemma_statuses_belong(request.id, signatures, Seq::empty(), info.slot);
    }
}

/// A transaction is handed to the sequencer only by `sendTransaction`, and only with a signature:
/// the database can take it in once it is processed.
pub proof fn law_enqueued_transactions_are_signed(
    info: BlockInfoView,
    request: RpcRequestView,
)
    ensures
        crate::rpc::dispatched(info, request) matches ProgressView::Enqueue(tx, sending) ==> {
            &&& request.method == "sendTransaction"@
            &&& tx.signatures.len() > 0
            &&& sending.signature == crate::solana::signature_text(tx.signatures[0])
        },
{
    if let Ok(signatures) = crate::rpc::strings_param(request.params, 0) {
        lemma_statuses_belong(request.id, signatures, Seq::empty(), info.slot);
    }
}

/// The text that `getLatestBlockhash` gave at one block is valid at another exactly if the two have
/// the same hash, where the texts of both hashes denote them, as those methods promise.
pub proof fn law_blockhash_is_valid_while_it_is_current(
    given: BlockInfoView,
    current: BlockInfoView,
    id: Option<JsonView>,
    params: JsonView,
)
    requires
        crate::solana::hash_of_text(crate::solana::hash_text(given.blockhash)) == Some(
            given.blockhash,
        ),
        crate::solana::hash_of_text(crate::solana::hash_text(current.blockhash)) == Some(
            current.blockhash,
        ),
        crate::rpc::string_param(params, 0) == Ok::<Seq<char>, Seq<char>>(
            crate::solana::hash_text(given.blockhash),
        ),
    ensures
        crate::rpc::is_blockhash_valid(current, id, params) == RpcResponseView::ok(
            id,
            crate::rpc::in_context(
                current.slot,
                JsonView::Bool(given.blockhash == current.blockhash),
            ),
        ),
{
}

/// `getSignatureStatuses` for the text of a transaction's first signature, such as
/// `sendTransaction` gives, asks the database for that transaction. Once it is processed, and no
/// matter what was known before, the answer to that question makes the status that of a processed
/// one.
pub proof fn law_processed_signature_has_status(
    db: RollupDBView,
    tx: TransactionView,
    new_data: Seq<(Seq<u8>, AccountView)>,
    text: Seq<char>,
    begun: BlockInfoView,
    answered: BlockInfoView,
    id: Option<JsonView>,
    params: JsonView,
)
    requires
        crate::solana::signature_of_text(text) == Some(tx.signatures[0]),
        crate::rpc::strings_param(params, 0) == Ok::<Seq<Seq<char>>, Seq<char>>(seq![text]),
    ensures
        ({
            let hash = crate::solana::transaction_hash(tx);
            let answer = db.process(tx, new_data).lookup(hash);
            let progress = crate::rpc::get_signature_statuses(begun, id, params);
            &&& progress is Query
            &&& progress->Query_0 == RollupDBMessageView::get_transaction(hash)
            &&& progress->Query_0.request() == RequestView::GetTransaction(hash)
            &&& progress->Query_1.answered(answered, Some(answer)) == ProgressView::Done(
                RpcResponseView::ok(
                    id,
                    crate::rpc::in_context(
                        answered.slot,
                        JsonView::Array(seq![crate::rpc::processed_status()]),
                    ),
                ),
            )
        }),
{
    assert(seq![text].drop_first() =~= Seq::empty());
    assert(Seq::empty().push(crate::rpc::processed_status()) =~= seq![
        crate::rpc::processed_status(),
    ]);
}

/// Wherever a text stands among those that are asked for, if it denotes the first signature of a
/// transaction, the question is for that transaction. The answer shows a processed one exactly if
/// a transaction is filed under that hash.
pub proof fn law_status_follows_the_database(
    db: RollupDBView,
    tx: TransactionView,
    id: Option<JsonView>,
    rest: Seq<Seq<char>>,
    statuses: Seq<JsonView>,
    slot: u64,
)
    requires
        rest.len() > 0,
        crate::solana::signature_of_text(rest[0]) == Some(tx.signatures[0]),
    ensures
        ({
            let hash = crate::solana::transaction_hash(tx);
            &&& crate::rpc::statuses_onward(id, rest, statuses, slot) == ProgressView::Query(
                RollupDBMessageView::get_transaction(hash),
                StatusesView { id, rest: rest.drop_first(), statuses },
            )
            &&& crate::rpc::status_of(Some(db.lookup(hash))) == if db.transactions.contains_key(
                hash,
            ) {
                crate::rpc::processed_status()
            } else {
                JsonView::Null
            }
        }),
{
}

/// One pass over the signatures of `getSignatureStatuses`, where `answers[i]` is what the database
/// answers for `signatures[i]` and the block at which it does: the statuses, and the slot of the
/// last block that counts.
pub open spec fn statuses_pass(
    signatures: Seq<Seq<char>>,
    answers: Seq<(BlockInfoView, Option<FrontendMessageView>)>,
    statuses: Seq<JsonView>,
    slot: u64,
) -> (Seq<JsonView>, u64)
    decreases signatures.len(),
{
    if signatures.len() == 0 {
        (statuses, slot)
    } else {
        match crate::rpc::status_hash(signatures[0]) {
            Some(_) => statuses_pass(
                signatures.drop_first(),
                answers.drop_first(),
                statuses.push(crate::rpc::status_of(answers[0].1)),
                answers[0].0.slot,
            ),
            None => statuses_pass(
                signatures.drop_first(),
                answers.drop_first(),
                statuses.push(JsonView::Null),
                slot,
            ),
        }
    }
}

/// The end of a call that asks the database, which answers with `answers`, counted from the back:
/// the last of them is for the last signature.
pub open spec fn statuses_to_end(
    progress: ProgressView,
    answers: Seq<(BlockInfoView, Option<FrontendMessageView>)>,
    fuel: nat,
) -> ProgressView
    decreases fuel,
{
    match progress {
        ProgressView::Query(_, statuses) => if fuel == 0 {
            progress
        } else {
            let (info, answer) = answers[answers.len() - statuses.rest.len() - 1];
            statuses_to_end(statuses.answered(info, answer), answers, (fuel - 1) as nat)
        },
        _ => progress,
    }
}

proof fn lemma_statuses_pass(
    id: Option<JsonView>,
    rest: Seq<Seq<char>>,
    answers: Seq<(BlockInfoView, Option<FrontendMessageView>)>,
    statuses: Seq<JsonView>,
    slot: u64,
    fuel: nat,
)
    requires
        rest.len() <= answers.len(),
        rest.len() <= fuel,
    ensures
        ({
            let (all, last) = statuses_pass(
                rest,
                answers.skip(answers.len() - rest.len()),
                statuses,
                slot,
            );
            &&& statuses_to_end(
                crate::rpc::statuses_onward(id, rest, statuses, slot),
                answers,
                fuel,
            ) == ProgressView::Done(
                RpcResponseView::ok(id, crate::rpc::in_context(last, JsonView::Array(all))),
            )
            &&& all.len() == statuses.len() + rest.len()
        }),
    decreases rest.len(),
{
    if rest.len() > 0 {
        let own = answers.skip(answers.len() - rest.len());
        assert(own[0] == answers[answers.len() - rest.len()]);
        assert(own.drop_first() =~= answers.skip(answers.len() - rest.drop_first().len()));
        match crate::rpc::status_hash(rest[0]) {
            Some(_) => lemma_statuses_pass(
                id,
                rest.drop_first(),
                answers,
                statuses.push(crate::rpc::status_of(own[0].1)),
                own[0].0.slot,
                (fuel - 1) as nat,
            ),
            None => lemma_statuses_pass(
                id,
                rest.drop_first(),
                answers,
                statuses.push(JsonView::Null),
                slot,
                fuel,
            ),
        }
    }
}

/// A call of `getSignatureStatuses` whose parameter is an array ends after at most as many answers
/// of the database as it has signatures, and it comes to one pass over them: one status for each.
pub proof fn law_statuses_are_one_pass(
    info: BlockInfoView,
    id: Option<JsonView>,
    params: JsonView,
    answers: Seq<(BlockInfoView, Option<FrontendMessageView>)>,
)
    requires
        crate::rpc::strings_param(params, 0) is Ok,
        answers.len() == crate::rpc::strings_param(params, 0)->Ok_0.len(),
    ensures
        ({
            let signatures = crate::rpc::strings_param(params, 0)->Ok_0;
            let (all, last) = statuses_pass(signatures, answers, Seq::empty(), info.slot);
            &&& statuses_to_end(
                crate::rpc::get_signature_statuses(info, id, params),
                answers,
                signatures.len(),
            ) == ProgressView::Done(
                RpcResponseView::ok(id, crate::rpc::in_context(last, JsonView::Array(all))),
            )
            &&& all.len() == signatures.len()
        }),
{
    let signatures = crate::rpc::strings_param(params, 0)->Ok_0;
    assert(answers.skip(0) =~= answers);
    lemma_statuses_pass(id, signatures, answers, Seq::empty(), info.slot, signatures.len());
}

/// The ids of the answers so far, of the call that waits and of the calls still to be begun.
pub open spec fn ids_of(session: RpcSessionView) -> Seq<Option<JsonView>> {
    session.responses.map_values(|response: RpcResponseView| response.id) + waiting_id(
        session.waiting,
    ) + session.calls.map_values(|request: RpcRequestView| request.id)
}

/// The id of the call that waits, if one does.
pub open spec fn waiting_id(waiting: Option<WaitingView>) -> Seq<Option<JsonView>> {
    match waiting {
        Some(WaitingView::Sequencer(sending)) => seq![sending.id],
        Some(WaitingView::Database(statuses)) => seq![statuses.id],
        None => Seq::empty(),
    }
}

proof fn lemma_came_keeps_ids(
    session: RpcSessionView,
    progress: ProgressView,
    id: Option<JsonView>,
)
    requires
        belongs_to(progress, id),
    ensures
        ids_of(session.came(progress).0) == session.responses.map_values(
            |response: RpcResponseView| response.id,
        ) + seq![id] + session.calls.map_values(|request: RpcRequestView| request.id),
        forall|i: int|
            0 <= i < session.came(progress).0.responses.len() ==> i < session.responses.len()
                || is_well_formed(#[trigger] session.came(progress).0.responses[i]),
        session.responses.is_prefix_of(session.came(progress).0.responses),
{
    let before = session.responses.map_values(|response: RpcResponseView| response.id);
    let after = session.came(progress).0.responses.map_values(
        |response: RpcResponseView| response.id,
    );
    if progress is Done {
        assert(after =~= before.push(id));
        assert(before.push(id) + Seq::empty() =~= before + seq![id]);
    } else {
        assert(after =~= before);
    }
}

/// Every step keeps the ids of a body's calls in their order and whether its answers are sent,
/// changes no answer that was already given, and adds only answers that either give a result or
/// tell of an error. Once the reply is due, there is one answer for each call, in the order of the
/// calls.
pub proof fn law_steps_keep_the_order(
    session: RpcSessionView,
    info: BlockInfoView,
    event: RpcEventView,
)
    requires
        session.admits(event),
    ensures
        ({
            let (after, action) = session.step(info, event);
            &&& ids_of(after) == ids_of(session)
            &&& session.responses.is_prefix_of(after.responses)
            &&& after.silent == session.silent
            &&& forall|i: int|
                session.responses.len() <= i < after.responses.len() ==> is_well_formed(
                    #[trigger] after.responses[i],
                )
            &&& action is Reply ==> ids_of(after) == after.responses.map_values(
                |response: RpcResponseView| response.id,
            )
            &&& action is Reply <==> event is Proceed && session.calls.len() == 0
        }),
{
    let given = session.responses.map_values(|response: RpcResponseView| response.id);
    let calls = session.calls.map_values(|request: RpcRequestView| request.id);
    match event {
        RpcEventView::Proceed => {
            if session.calls.len() == 0 {
                assert(given + Seq::empty() + calls =~= given);
            } else {
                let first = session.calls[0];
                let rest = RpcSessionView { calls: session.calls.drop_first(), ..session };
                if let Ok(signatures) = crate::rpc::strings_param(first.params, 0) {
                    lemma_statuses_belong(first.id, signatures, Seq::empty(), info.slot);
                }
                lemma_came_keeps_ids(rest, crate::rpc::dispatched(info, first), first.id);
                assert(given + Seq::empty() + calls =~= given + seq![first.id]
                    + rest.calls.map_values(|request: RpcRequestView| request.id));
            }
        },
        RpcEventView::Enqueued(outcome) => {
            let sending = session.waiting->0->Sequencer_0;
            lemma_came_keeps_ids(
                session,
                ProgressView::Done(sending.enqueued(outcome)),
                sending.id,
            );
        },
        RpcEventView::Answered(answer) => {
            let statuses = session.waiting->0->Database_0;
            lemma_statuses_belong(
                statuses.id,
                statuses.rest,
                statuses.statuses.push(crate::rpc::status_of(answer)),
                info.slot,
            );
            lemma_came_keeps_ids(session, statuses.answered(info, answer), statuses.id);
        },
    }
}

/// What a session waits for is what its last action asked for: an outcome of the sequencer after
/// a transaction, an answer of the database after a question, and nothing otherwise.
pub proof fn law_sessions_wait_for_what_they_ask(
    session: RpcSessionView,
    info: BlockInfoView,
    event: RpcEventView,
)
    requires
        session.admits(event),
    ensures
        ({
            let (after, action) = session.step(info, event);
            match action {
                RpcActionView::Enqueue(_) => after.waiting matches Some(WaitingView::Sequencer(_)),
                RpcActionView::Query(_) => after.waiting matches Some(WaitingView::Database(_)),
                _ => after.waiting is None,
            }
        }),
{
}

/// A body that is no call gets a single answer, which tells of the error and has no id.
pub proof fn law_parse_error_is_a_single_answer(info: BlockInfoView)
    ensures
        ({
            let (after, action) = RpcSessionView::begun(None).step(info, RpcEventView::Proceed);
            &&& action is Reply
            &&& after.reply() == RpcReplyView::Single(
                RpcResponseView::err(None, crate::rpc::PARSE_ERROR, "parse error"@, None),
            )
        }),
{
}

/// Whatever happens, a lone call without an id is replied to with an empty batch.
pub proof fn law_notification_gets_an_empty_batch(
    request: RpcRequestView,
    steps: Seq<(BlockInfoView, RpcEventView)>,
)
    requires
        request.id is None,
    ensures
        run(RpcSessionView::begun(Some(RpcCallView::Single(request))), steps).reply()
            == RpcReplyView::Batch(Seq::empty()),
{
    lemma_run_keeps_silence(RpcSessionView::begun(Some(RpcCallView::Single(request))), steps);
}

/// The session after the steps, each an event and the block at which it comes.
pub open spec fn run(
    session: RpcSessionView,
    steps: Seq<(BlockInfoView, RpcEventView)>,
) -> RpcSessionView
    decreases steps.len(),
{
    if steps.len() == 0 {
        session
    } else {
        run(session, steps.drop_last()).step(steps.last().0, steps.last().1).0
    }
}

/// Whether each of the steps is one that the session waits for.
pub open spec fn admits_run(
    session: RpcSessionView,
    steps: Seq<(BlockInfoView, RpcEventView)>,
) -> bool
    decreases steps.len(),
{
    steps.len() > 0 ==> {
        &&& admits_run(session, steps.drop_last())
        &&& run(session, steps.drop_last()).admits(steps.last().1)
    }
}

proof fn lemma_run_keeps_silence(
    session: RpcSessionView,
    steps: Seq<(BlockInfoView, RpcEventView)>,
)
    ensures
        run(session, steps).silent == session.silent,
    decreases steps.len(),
{
    if steps.len() > 0 {
        lemma_run_keeps_silence(session, steps.drop_last());
    }
}

/// How far a call has come after the outcome that it waited for.
pub open spec fn go_on(
    progress: ProgressView,
    info: BlockInfoView,
    event: RpcEventView,
) -> ProgressView {
    match (progress, event) {
        (ProgressView::Enqueue(_, sending), RpcEventView::Enqueued(outcome)) => ProgressView::Done(
            sending.enqueued(outcome),
        ),
        (ProgressView::Query(_, statuses), RpcEventView::Answered(answer)) => statuses.answered(
            info,
            answer,
        ),
        _ => progress,
    }
}

/// How far a call has come after the outcomes that it waited for, one after the other.
pub open spec fn follow(
    progress: ProgressView,
    steps: Seq<(BlockInfoView, RpcEventView)>,
) -> ProgressView
    decreases steps.len(),
{
    if steps.len() == 0 {
        progress
    } else {
        go_on(follow(progress, steps.drop_last()), steps.last().0, steps.last().1)
    }
}

/// Whether the steps from `from` up to `to` are those of one call: the first begins it, and each
/// other brings an outcome that it waited for.
pub open spec fn is_one_call(
    steps: Seq<(BlockInfoView, RpcEventView)>,
    from: int,
    to: int,
) -> bool {
    &&& 0 <= from < to <= steps.len()
    &&& steps[from].1 is Proceed
    &&& forall|k: int| from < k < to ==> !((#[trigger] steps[k]).1 is Proceed)
}

/// How far `request` has come in the steps from `from` up to `to`.
pub open spec fn call_comes_to(
    steps: Seq<(BlockInfoView, RpcEventView)>,
    from: int,
    to: int,
    request: RpcRequestView,
) -> ProgressView {
    follow(crate::rpc::dispatched(steps[from].0, request), steps.subrange(from + 1, to))
}

/// How many of the steps begin a call.
pub open spec fn beginnings(steps: Seq<(BlockInfoView, RpcEventView)>) -> int
    decreases steps.len(),
{
    if steps.len() == 0 {
        0
    } else {
        beginnings(steps.drop_last()) + if steps.last().1 is Proceed {
            1int
        } else {
            0
        }
    }
}

/// Whether some of the steps are those of `request`, the call at position `i`, and it comes to
/// `response` in them.
pub open spec fn is_answered(
    steps: Seq<(BlockInfoView, RpcEventView)>,
    i: int,
    request: RpcRequestView,
    response: RpcResponseView,
) -> bool {
    exists|from: int, to: int| #[trigger]
        is_one_call(steps, from, to) && beginnings(steps.take(from)) == i && call_comes_to(
            steps,
            from,
            to,
            request,
        ) == ProgressView::Done(response)
}

/// What a call that has come that far waits for.
pub open spec fn waiting_of(progress: ProgressView) -> Option<WaitingView> {
    match progress {
        ProgressView::Done(_) => None,
        ProgressView::Enqueue(_, sending) => Some(WaitingView::Sequencer(sending)),
        ProgressView::Query(_, statuses) => Some(WaitingView::Database(statuses)),
    }
}

/// Whether the last of the steps are those of `request`, the call at position `i`, and it waits for
/// `waiting` after them.
pub open spec fn is_waiting(
    steps: Seq<(BlockInfoView, RpcEventView)>,
    i: int,
    request: RpcRequestView,
    waiting: WaitingView,
) -> bool {
    exists|from: int| #[trigger]
        is_one_call(steps, from, steps.len() as int) && beginnings(steps.take(from)) == i
            && waiting_of(call_comes_to(steps, from, steps.len() as int, request)) == Some(waiting)
}

/// How many calls of `start` were begun by the time of `session`.
pub open spec fn begun_by(start: RpcSessionView, session: RpcSessionView) -> int {
    session.responses.len() - start.responses.len() + if session.waiting is Some {
        1int
    } else {
        0
    }
}

/// Whether the calls of `start` were taken one after the other in the steps that led to `session`.
pub open spec fn accounts_for(
    start: RpcSessionView,
    steps: Seq<(BlockInfoView, RpcEventView)>,
    session: RpcSessionView,
) -> bool {
    let base = start.responses.len();
    let begun = begun_by(start, session);
    &&& start.responses.is_prefix_of(session.responses)
    &&& begun <= start.calls.len()
    &&& session.calls == start.calls.skip(begun)
    &&& session.calls.len() > 0 ==> beginnings(steps) == begun
    &&& forall|i: int|
        base <= i < session.responses.len() ==> is_answered(
            steps,
            i - base,
            start.calls[i - base],
            #[trigger] session.responses[i],
        )
    &&& session.waiting is Some ==> is_waiting(
        steps,
        session.responses.len() - base,
        start.calls[session.responses.len() - base],
        session.waiting->0,
    )
}

proof fn lemma_answered_stays(
    steps: Seq<(BlockInfoView, RpcEventView)>,
    i: int,
    request: RpcRequestView,
    response: RpcResponseView,
)
    requires
        steps.len() > 0,
        is_answered(steps.drop_last(), i, request, response),
    ensures
        is_answered(steps, i, request, response),
{
    let front = steps.drop_last();
    let (from, to) = choose|from: int, to: int| #[trigger]
        is_one_call(front, from, to) && beginnings(front.take(from)) == i && call_comes_to(
            front,
            from,
            to,
            request,
        ) == ProgressView::Done(response);
    assert(front.take(from) =~= steps.take(from));
    assert(front.subrange(from + 1, to) =~= steps.subrange(from + 1, to));
    assert forall|k: int| from < k < to implies !((#[trigger] steps[k]).1 is Proceed) by {
        assert(front[k] == steps[k]);
    }
    assert(is_one_call(steps, from, to));
}

/// The steps end with a call that began at `from` and has come to `progress`; what it waits for, if
/// it waits, and its response, if it is answered, are accounted for.
proof fn lemma_call_comes(
    start: RpcSessionView,
    steps: Seq<(BlockInfoView, RpcEventView)>,
    session: RpcSessionView,
    from: int,
    progress: ProgressView,
)
    requires
        steps.len() > 0,
        session.responses.len() >= start.responses.len(),
        start.responses.is_prefix_of(session.responses),
        session.responses.len() - start.responses.len() < start.calls.len(),
        session.calls == start.calls.skip(session.responses.len() - start.responses.len() + 1),
        forall|i: int|
            start.responses.len() <= i < session.responses.len() ==> is_answered(
                steps.drop_last(),
                i - start.responses.len(),
                start.calls[i - start.responses.len()],
                #[trigger] session.responses[i],
            ),
        is_one_call(steps, from, steps.len() as int),
        beginnings(steps.take(from)) == session.responses.len() - start.responses.len(),
        session.calls.len() > 0 ==> beginnings(steps) == session.responses.len()
            - start.responses.len() + 1,
        progress == call_comes_to(
            steps,
            from,
            steps.len() as int,
            start.calls[session.responses.len() - start.responses.len()],
        ),
    ensures
        accounts_for(start, steps, session.came(progress).0),
{
    let base = start.responses.len();
    let after = session.came(progress).0;
    assert forall|i: int| base <= i < after.responses.len() implies is_answered(
        steps,
        i - base,
        start.calls[i - base],
        #[trigger] after.responses[i],
    ) by {
        if i < session.responses.len() {
            assert(after.responses[i] == session.responses[i]);
            lemma_answered_stays(
                steps,
                i - base,
                start.calls[i - base],
                session.responses[i],
            );
        }
    }
}

proof fn lemma_run_accounts_for_calls(
    start: RpcSessionView,
    steps: Seq<(BlockInfoView, RpcEventView)>,
)
    requires
        start.waiting is None,
        admits_run(start, steps),
    ensures
        accounts_for(start, steps, run(start, steps)),
    decreases steps.len(),
{
    let base = start.responses.len();
    if steps.len() == 0 {
        assert(start.calls.skip(0) =~= start.calls);
    } else {
        let front = steps.drop_last();
        let end = steps.len() as int;
        let (info, event) = steps.last();
        lemma_run_accounts_for_calls(start, front);
        let before = run(start, front);
        let n = before.responses.len() - base;
        match event {
            RpcEventView::Proceed => {
                if before.calls.len() == 0 {
                    assert forall|i: int| base <= i < before.responses.len() implies is_answered(
                        steps,
                        i - base,
                        start.calls[i - base],
                        #[trigger] before.responses[i],
                    ) by {
                        lemma_answered_stays(
                            steps,
                            i - base,
                            start.calls[i - base],
                            before.responses[i],
                        );
                    }
                } else {
                    let rest = RpcSessionView { calls: before.calls.drop_first(), ..before };
                    assert(before.calls[0] == start.calls[n]);
                    assert(rest.calls =~= start.calls.skip(n + 1));
                    assert(is_one_call(steps, end - 1, end));
                    assert(steps.subrange(end, end) =~= Seq::empty());
                    assert(steps.take(end - 1) =~= front);
                    lemma_call_comes(
                        start,
                        steps,
                        rest,
                        end - 1,
                        crate::rpc::dispatched(info, before.calls[0]),
                    );
                }
            },
            _ => {
                let request = start.calls[n];
                let waiting = before.waiting->0;
                let from = choose|from: int| #[trigger]
                    is_one_call(front, from, end - 1) && beginnings(front.take(from)) == n
                        && waiting_of(call_comes_to(front, from, end - 1, request)) == Some(
                        waiting,
                    );
                let came = call_comes_to(front, from, end - 1, request);
                assert(steps.subrange(from + 1, end).drop_last() =~= front.subrange(
                    from + 1,
                    end - 1,
                ));
                assert(steps.subrange(from + 1, end).last() == steps.last());
                assert forall|k: int| from < k < end implies !((
                #[trigger] steps[k]).1 is Proceed) by {
                    if k < end - 1 {
                        assert(front[k] == steps[k]);
                    }
                }
                assert(steps[from] == front[from]);
                assert(steps.take(from) =~= front.take(from));
                assert(is_one_call(steps, from, end));
                assert(call_comes_to(steps, from, end, request) == go_on(came, info, event));
                lemma_call_comes(start, steps, before, from, go_on(came, info, event));
            },
        }
    }
}

/// In a session that is begun for a body and run with steps that it waits for, the answer at each
/// position is what the call at that position comes to. That call is begun by the step that is as
/// many beginnings into the run, and the steps behind it bring the outcomes that it waits for. Once
/// the reply is due, every call has its answer.
pub proof fn law_answers_are_those_of_their_calls(
    call: RpcCallView,
    steps: Seq<(BlockInfoView, RpcEventView)>,
)
    requires
        admits_run(RpcSessionView::begun(Some(call)), steps),
    ensures
        ({
            let start = RpcSessionView::begun(Some(call));
            let session = run(start, steps);
            &&& session.responses.len() <= start.calls.len()
            &&& forall|i: int|
                0 <= i < session.responses.len() ==> is_answered(
                    steps,
                    i,
                    start.calls[i],
                    #[trigger] session.responses[i],
                )
            &&& session.waiting is None && session.calls.len() == 0 ==> session.responses.len()
                == start.calls.len()
        }),
{
    let start = RpcSessionView::begun(Some(call));
    lemma_run_accounts_for_calls(start, steps);
    let session = run(start, steps);
    assert forall|i: int| 0 <= i < session.responses.len() implies is_answered(
        steps,
        i,
        start.calls[i],
        #[trigger] session.responses[i],
    ) by {
        assert(start.calls[i - start.responses.len()] == start.calls[i]);
    }
}

/// Whether the call is answered with `value` and no error.
pub open spec fn gives(progress: ProgressView, id: Option<JsonView>, value: JsonView) -> bool {
    &&& progress is Done
    &&& progress->Done_0.jsonrpc == "2.0"@
    &&& progress->Done_0.id == id
    &&& progress->Done_0.result == Some(value)
    &&& progress->Done_0.error is None
}

/// Whether the call is answered with an error and no value.
pub open spec fn refuses(
    progress: ProgressView,
    id: Option<JsonView>,
    code: int,
    message: Seq<char>,
    data: Option<JsonView>,
) -> bool {
    &&& progress is Done
    &&& progress->Done_0.jsonrpc == "2.0"@
    &&& progress->Done_0.id == id
    &&& progress->Done_0.result is None
    &&& progress->Done_0.error is Some
    &&& progress->Done_0.error->0.code == code
    &&& progress->Done_0.error->0.message == message
    &&& progress->Done_0.error->0.data == data
}

/// `{"context": {"slot": slot}, "value": value}`.
pub open spec fn with_slot(slot: u64, value: JsonView) -> JsonView {
    JsonView::Object(
        seq![
            (
                "context"@,
                JsonView::Object(seq![("slot"@, JsonView::Number(JsonNumber::PosInt(slot)))]),
            ),
            ("value"@, value),
        ],
    )
}

/// `{"detail": detail}`.
pub open spec fn with_detail(detail: Seq<char>) -> Option<JsonView> {
    Some(JsonView::Object(seq![("detail"@, JsonView::Str(detail))]))
}

/// Whether the parameters are an array whose first element is `first`.
pub open spec fn begins_with(params: JsonView, first: JsonView) -> bool {
    &&& params is Array
    &&& params->Array_0.len() > 0
    &&& params->Array_0[0] == first
}

proof fn lemma_names_differ()
    ensures
        "getVersion"@.len() == 10 && "getVersion"@[3] == 'V',
        "getLatestBlockhash"@.len() == 18,
        "isBlockhashValid"@.len() == 16,
        "sendTransaction"@.len() == 15,
        "getSignatureStatuses"@.len() == 20,
        "getBalance"@.len() == 10 && "getBalance"@[3] == 'B',
        "getAccountInfo"@.len() == 14 && "getAccountInfo"@[3] == 'A',
        "getMinimumBalanceForRentExemption"@.len() == 33,
        "getSlot"@.len() == 7,
        "getBlockHeight"@.len() == 14 && "getBlockHeight"@[3] == 'B',
{
    reveal_strlit("getVersion");
    reveal_strlit("getLatestBlockhash");
    reveal_strlit("isBlockhashValid");
    reveal_strlit("sendTransaction");
    reveal_strlit("getSignatureStatuses");
    reveal_strlit("getBalance");
    reveal_strlit("getAccountInfo");
    reveal_strlit("getMinimumBalanceForRentExemption");
    reveal_strlit("getSlot");
    reveal_strlit("getBlockHeight");
}

proof fn lemma_param_messages()
    ensures
        "param["@ + crate::text::decimal(0) + "] must be string"@ == "param[0] must be string"@,
        "param["@ + crate::text::decimal(0) + "] must be array of strings"@
            == "param[0] must be array of strings"@,
{
    reveal_strlit("param[");
    reveal_strlit("0");
    reveal_strlit("] must be string");
    reveal_strlit("param[0] must be string");
    reveal_strlit("] must be array of strings");
    reveal_strlit("param[0] must be array of strings");
    assert("param["@ + crate::text::decimal(0) + "] must be string"@
        =~= "param[0] must be string"@);
    assert("param["@ + crate::text::decimal(0) + "] must be array of strings"@
        =~= "param[0] must be array of strings"@);
}

/// `getVersion`, `getSlot` and `getBlockHeight` tell what the current block says.
pub proof fn law_block_is_told(info: BlockInfoView, request: RpcRequestView)
    ensures
        request.method == "getVersion"@ ==> gives(
            crate::rpc::dispatched(info, request),
            request.id,
            JsonView::Object(
                seq![
                    ("solana-core"@, JsonView::Str("rollup-0.1"@)),
                    ("feature-set"@, JsonView::Number(JsonNumber::PosInt(0))),
                    ("slot"@, JsonView::Number(JsonNumber::PosInt(info.slot))),
                ],
            ),
        ),
        request.method == "getSlot"@ ==> gives(
            crate::rpc::dispatched(info, request),
            request.id,
            JsonView::Number(JsonNumber::PosInt(info.slot)),
        ),
        request.method == "getBlockHeight"@ ==> gives(
            crate::rpc::dispatched(info, request),
            request.id,
            JsonView::Number(JsonNumber::PosInt(info.block_height)),
        ),
{
    lemma_names_differ();
}

/// `getLatestBlockhash` gives the text of the current hash, the last height at which it counts, and
/// the slot.
pub proof fn law_latest_blockhash_is_told(info: BlockInfoView, request: RpcRequestView)
    requires
        request.method == "getLatestBlockhash"@,
    ensures
        gives(
            crate::rpc::dispatched(info, request),
            request.id,
            with_slot(
                info.slot,
                JsonView::Object(
                    seq![
                        ("blockhash"@, JsonView::Str(crate::solana::hash_text(info.blockhash))),
                        (
                            "lastValidBlockHeight"@,
                            JsonView::Number(JsonNumber::PosInt(info.last_valid_block_height)),
                        ),
                    ],
                ),
            ),
        ),
{
    lemma_names_differ();
}

/// `isBlockhashValid` says whether the text denotes a hash and is the text of the current one, and
/// refuses what is no text.
pub proof fn law_blockhash_validity(info: BlockInfoView, request: RpcRequestView, text: Seq<char>)
    requires
        request.method == "isBlockhashValid"@,
    ensures
        begins_with(request.params, JsonView::Str(text)) ==> gives(
            crate::rpc::dispatched(info, request),
            request.id,
            with_slot(
                info.slot,
                JsonView::Bool(
                    crate::solana::hash_of_text(text) is Some && text == crate::solana::hash_text(
                        info.blockhash,
                    ),
                ),
            ),
        ),
        (forall|any: Seq<char>| !(#[trigger] begins_with(request.params, JsonView::Str(any))))
            ==> refuses(
            crate::rpc::dispatched(info, request),
            request.id,
            -32602,
            "param[0] must be string"@,
            None,
        ),
{
    lemma_names_differ();
    lemma_param_messages();
    lemma_first_text(request.params);
}

proof fn lemma_first_text(params: JsonView)
    ensures
        (forall|any: Seq<char>| !(#[trigger] begins_with(params, JsonView::Str(any))))
            ==> crate::rpc::string_param(params, 0) == Err::<Seq<char>, Seq<char>>(
            "param["@ + crate::text::decimal(0) + "] must be string"@,
        ),
        forall|any: Seq<char>| #[trigger] begins_with(params, JsonView::Str(any))
            ==> crate::rpc::string_param(params, 0) == Ok::<Seq<char>, Seq<char>>(any),
{
    if let Ok(text) = crate::rpc::string_param(params, 0) {
        assert(begins_with(params, JsonView::Str(text)));
    }
}

/// `sendTransaction` hands on the very transaction that its text encodes, in every part, and keeps
/// the text of its first signature for the answer. A text that is not base64, bytes that are no
/// transaction, and a transaction without a signature are each refused with their own error.
pub proof fn law_send_transaction(info: BlockInfoView, request: RpcRequestView, text: Seq<char>)
    requires
        request.method == "sendTransaction"@,
    ensures
        (forall|any: Seq<char>| !(#[trigger] begins_with(request.params, JsonView::Str(any))))
            ==> refuses(
            crate::rpc::dispatched(info, request),
            request.id,
            -32602,
            "param[0] must be string"@,
            None,
        ),
        begins_with(request.params, JsonView::Str(text)) ==> {
            let progress = crate::rpc::dispatched(info, request);
            match crate::solana::base64_decoded(text) {
                Err(detail) => refuses(
                    progress,
                    request.id,
                    -32602,
                    "invalid base64"@,
                    with_detail(detail),
                ),
                Ok(bytes) => match crate::solana::transaction_of_bytes(bytes) {
                    Err(detail) => refuses(
                        progress,
                        request.id,
                        -32602,
                        "only legacy Transaction supported for now"@,
                        with_detail(detail),
                    ),
                    Ok(tx) => if tx.signatures.len() == 0 {
                        refuses(progress, request.id, -32000, "missing signature"@, None)
                    } else {
                        &&& progress is Enqueue
                        &&& progress->Enqueue_0.signatures == tx.signatures
                        &&& progress->Enqueue_0.message.header == tx.message.header
                        &&& progress->Enqueue_0.message.account_keys == tx.message.account_keys
                        &&& progress->Enqueue_0.message.recent_blockhash
                            == tx.message.recent_blockhash
                        &&& progress->Enqueue_0.message.instructions == tx.message.instructions
                        &&& progress->Enqueue_1.id == request.id
                        &&& progress->Enqueue_1.signature == crate::solana::signature_text(
                            tx.signatures[0],
                        )
                    },
                },
            }
        },
{
    lemma_names_differ();
    lemma_param_messages();
    lemma_first_text(request.params);
}

/// `getBalance` and `getAccountInfo` want the text of a public key. Every account is shown without
/// lamports, and as an empty one of the system program.
pub proof fn law_accounts_are_empty(info: BlockInfoView, request: RpcRequestView, text: Seq<char>)
    requires
        request.method == "getBalance"@ || request.method == "getAccountInfo"@,
    ensures
        (forall|any: Seq<char>| !(#[trigger] begins_with(request.params, JsonView::Str(any))))
            ==> refuses(
            crate::rpc::dispatched(info, request),
            request.id,
            -32602,
            "param[0] must be string"@,
            None,
        ),
        begins_with(request.params, JsonView::Str(text)) && crate::solana::pubkey_of_text(text)
            is None ==> refuses(
            crate::rpc::dispatched(info, request),
            request.id,
            -32602,
            "invalid pubkey"@,
            None,
        ),
        begins_with(request.params, JsonView::Str(text)) && crate::solana::pubkey_of_text(text)
            is Some && request.method == "getBalance"@ ==> gives(
            crate::rpc::dispatched(info, request),
            request.id,
            with_slot(info.slot, JsonView::Number(JsonNumber::PosInt(0))),
        ),
        begins_with(request.params, JsonView::Str(text)) && crate::solana::pubkey_of_text(text)
            is Some && request.method == "getAccountInfo"@ ==> gives(
            crate::rpc::dispatched(info, request),
            request.id,
            with_slot(
                info.slot,
                JsonView::Object(
                    seq![
                        ("lamports"@, JsonView::Number(JsonNumber::PosInt(0))),
                        ("owner"@, JsonView::Str("11111111111111111111111111111111"@)),
                        ("executable"@, JsonView::Bool(false)),
                        ("rentEpoch"@, JsonView::Number(JsonNumber::PosInt(0))),
                        (
                            "data"@,
                            JsonView::Array(seq![JsonView::Str(""@), JsonView::Str("base64"@)]),
                        ),
                    ],
                ),
            ),
        ),
{
    lemma_names_differ();
    lemma_param_messages();
    lemma_first_text(request.params);
}

/// `getMinimumBalanceForRentExemption` wants a size, an integer from zero up, and asks for nothing.
pub proof fn law_rent_is_free(info: BlockInfoView, request: RpcRequestView, size: u64)
    requires
        request.method == "getMinimumBalanceForRentExemption"@,
    ensures
        begins_with(request.params, JsonView::Number(JsonNumber::PosInt(size))) ==> gives(
            crate::rpc::dispatched(info, request),
            request.id,
            JsonView::Number(JsonNumber::PosInt(0)),
        ),
        (forall|any: u64|
            !(#[trigger] begins_with(
                request.params,
                JsonView::Number(JsonNumber::PosInt(any)),
            )))
            ==> refuses(
            crate::rpc::dispatched(info, request),
            request.id,
            -32602,
            "param[0] must be u64"@,
            None,
        ),
{
    lemma_names_differ();
    if let Some(JsonView::Number(JsonNumber::PosInt(any))) = request.params.at(0) {
        assert(begins_with(request.params, JsonView::Number(JsonNumber::PosInt(any))));
    }
}

/// A call of any other method is refused, with the name that it called.
pub proof fn law_unknown_method_is_refused(info: BlockInfoView, request: RpcRequestView)
    requires
        request.method != "getVersion"@,
        request.method != "getLatestBlockhash"@,
        request.method != "isBlockhashValid"@,
        request.method != "sendTransaction"@,
        request.method != "getSignatureStatuses"@,
        request.method != "getBalance"@,
        request.method != "getAccountInfo"@,
        request.method != "getMinimumBalanceForRentExemption"@,
        request.method != "getSlot"@,
        request.method != "getBlockHeight"@,
    ensures
        refuses(
            crate::rpc::dispatched(info, request),
            request.id,
            -32601,
            "method not found"@,
            Some(JsonView::Object(seq![("method"@, JsonView::Str(request.method))])),
        ),
{
}

/// The strings of an array are taken in their order, each one and nothing else: one more element
/// adds its text behind the others if it is a string, and nothing otherwise.
pub proof fn law_strings_are_taken_in_order(items: Seq<JsonView>, item: JsonView)
    ensures
        crate::rpc::strings_of(Seq::empty()) == Seq::<Seq<char>>::empty(),
        item is Str ==> crate::rpc::strings_of(items.push(item)) == crate::rpc::strings_of(
            items,
        ).push(item->Str_0),
        !(item is Str) ==> crate::rpc::strings_of(items.push(item)) == crate::rpc::strings_of(
            items,
        ),
{
    reveal(Seq::filter);
    assert(items.push(item).drop_last() =~= items);
    assert(crate::rpc::strings_of(Seq::empty()) =~= Seq::empty());
    if item is Str {
        assert(crate::rpc::strings_of(items.push(item)) =~= crate::rpc::strings_of(items).push(
            item->Str_0,
        ));
    } else {
        assert(crate::rpc::strings_of(items.push(item)) =~= crate::rpc::strings_of(items));
    }
}

/// A parameter is the element at its position; where that is not of the kind that is wanted, the
/// message names the position.
pub proof fn law_parameters_are_those_at_their_position(params: JsonView, idx: nat)
    ensures
        ({
            let given = params is Array && idx < params->Array_0.len();
            let param = params->Array_0[idx as int];
            &&& given && param is Str ==> crate::rpc::string_param(params, idx) == Ok::<
                Seq<char>,
                Seq<char>,
            >(param->Str_0)
            &&& !(given && param is Str) ==> crate::rpc::string_param(params, idx) == Err::<
                Seq<char>,
                Seq<char>,
            >("param["@ + crate::text::decimal(idx) + "] must be string"@)
            &&& given && param is Array ==> crate::rpc::strings_param(params, idx) == Ok::<
                Seq<Seq<char>>,
                Seq<char>,
            >(crate::rpc::strings_of(param->Array_0))
            &&& !(given && param is Array) ==> crate::rpc::strings_param(params, idx) == Err::<
                Seq<Seq<char>>,
                Seq<char>,
            >("param["@ + crate::text::decimal(idx) + "] must be array of strings"@)
        }),
{
}

/// The status of a processed transaction if the database answered with one, and nothing otherwise.
pub open spec fn shown_status(answer: Option<FrontendMessageView>) -> JsonView {
    if answer is Some && answer->0.transaction is Some {
        JsonView::Object(
            seq![
                ("slot"@, JsonView::Null),
                ("confirmations"@, JsonView::Null),
                ("err"@, JsonView::Null),
                ("confirmationStatus"@, JsonView::Str("processed"@)),
            ],
        )
    } else {
        JsonView::Null
    }
}

/// Whether the message asks for the transaction of that hash and for nothing else.
pub open spec fn asks_for(message: RollupDBMessageView, hash: Seq<u8>) -> bool {
    &&& message.frontend_get_tx == Some(hash)
    &&& message.lock_accounts is None
    &&& message.add_processed_transaction is None
    &&& message.list_offset is None
    &&& message.list_limit is None
    &&& message.add_settle_proof is None
    &&& message.add_new_data is None
    &&& message.store_batch_proof is None
    &&& message.update_proof_status is None
    &&& message.get_proof_by_batch_id is None
    &&& message.get_unsettled_proofs is None
    &&& message.retry_failed_proofs is None
}

/// Whether going on with `getSignatureStatuses` passes over the first `n` texts, which denote
/// neither a signature nor a hash and have no status, and stops there: at the end of the texts,
/// with an answer that shows the statuses, or at a text for which the database is asked. A
/// signature is asked for under the Keccak-256 digest of its base58 text, a hash as it is.
pub open spec fn passes_over(
    id: Option<JsonView>,
    texts: Seq<Seq<char>>,
    statuses: Seq<JsonView>,
    slot: u64,
    n: int,
    progress: ProgressView,
) -> bool {
    let shown = statuses + Seq::new(n as nat, |i: int| JsonView::Null);
    &&& 0 <= n <= texts.len()
    &&& forall|i: int|
        0 <= i < n ==> {
            &&& crate::solana::signature_of_text(#[trigger] texts[i]) is None
            &&& crate::solana::hash_of_text(texts[i]) is None
        }
    &&& if n == texts.len() {
        gives(progress, id, with_slot(slot, JsonView::Array(shown)))
    } else {
        &&& progress is Query
        &&& match crate::solana::signature_of_text(texts[n]) {
            Some(signature) => asks_for(
                progress->Query_0,
                crate::solana::keccak256(
                    vstd::utf8::encode_utf8(crate::solana::signature_text(signature)),
                ),
            ),
            None => {
                &&& crate::solana::hash_of_text(texts[n]) is Some
                &&& asks_for(progress->Query_0, crate::solana::hash_of_text(texts[n])->0)
            },
        }
        &&& progress->Query_1.id == id
        &&& progress->Query_1.rest == texts.skip(n + 1)
        &&& progress->Query_1.statuses == shown
    }
}

proof fn lemma_passes_over(
    id: Option<JsonView>,
    texts: Seq<Seq<char>>,
    statuses: Seq<JsonView>,
    slot: u64,
) -> (n: int)
    ensures
        passes_over(
            id,
            texts,
            statuses,
            slot,
            n,
            crate::rpc::statuses_onward(id, texts, statuses, slot),
        ),
    decreases texts.len(),
{
    if texts.len() > 0 && crate::rpc::status_hash(texts[0]) is None {
        let rest = texts.drop_first();
        let m = lemma_passes_over(id, rest, statuses.push(JsonView::Null), slot);
        let n = m + 1;
        assert forall|i: int| 0 <= i < n implies {
            &&& crate::solana::signature_of_text(#[trigger] texts[i]) is None
            &&& crate::solana::hash_of_text(texts[i]) is None
        } by {
            if i > 0 {
                assert(rest[i - 1] == texts[i]);
            }
        }
        assert(statuses.push(JsonView::Null) + Seq::new(m as nat, |i: int| JsonView::Null)
            =~= statuses + Seq::new(n as nat, |i: int| JsonView::Null));
        if n < texts.len() {
            assert(rest[m] == texts[n]);
            assert(rest.skip(m + 1) =~= texts.skip(n + 1));
        }
        n
    } else {
        assert(statuses + Seq::new(0, |i: int| JsonView::Null) =~= statuses);
        if texts.len() > 0 {
            assert(texts.skip(1) =~= texts.drop_first());
        }
        0
    }
}

/// `getSignatureStatuses` goes over the strings of its first parameter, which has to be an array.
pub proof fn law_get_signature_statuses(
    info: BlockInfoView,
    request: RpcRequestView,
    items: Seq<JsonView>,
)
    requires
        request.method == "getSignatureStatuses"@,
    ensures
        begins_with(request.params, JsonView::Array(items)) ==> exists|n: int|
            passes_over(
                request.id,
                crate::rpc::strings_of(items),
                Seq::empty(),
                info.slot,
                n,
                crate::rpc::dispatched(info, request),
            ),
        (forall|any: Seq<JsonView>| !(#[trigger] begins_with(request.params, JsonView::Array(any))))
            ==> refuses(
            crate::rpc::dispatched(info, request),
            request.id,
            -32602,
            "param[0] must be array of strings"@,
            None,
        ),
{
    lemma_names_differ();
    lemma_param_messages();
    if begins_with(request.params, JsonView::Array(items)) {
        let texts = crate::rpc::strings_of(items);
        let n = lemma_passes_over(request.id, texts, Seq::empty(), info.slot);
        assert(passes_over(
            request.id,
            texts,
            Seq::empty(),
            info.slot,
            n,
            crate::rpc::dispatched(info, request),
        ));
    }
    if let Some(JsonView::Array(any)) = request.params.at(0) {
        assert(begins_with(request.params, JsonView::Array(any)));
    }
}

/// The status that the database's answer shows comes behind those that are known, and the call goes
/// on with the texts behind.
pub proof fn law_statuses_answered(
    statuses: StatusesView,
    info: BlockInfoView,
    answer: Option<FrontendMessageView>,
)
    ensures
        crate::rpc::status_of(answer) == shown_status(answer),
        exists|n: int|
            passes_over(
                statuses.id,
                statuses.rest,
                statuses.statuses.push(shown_status(answer)),
                info.slot,
                n,
                statuses.answered(info, answer),
            ),
{
    let n = lemma_passes_over(
        statuses.id,
        statuses.rest,
        statuses.statuses.push(shown_status(answer)),
        info.slot,
    );
    assert(passes_over(
        statuses.id,
        statuses.rest,
        statuses.statuses.push(shown_status(answer)),
        info.slot,
        n,
        statuses.answered(info, answer),
    ));
}

/// Whether a session whose call at hand has come to `progress` turns from `before` into `after`:
/// the answer comes behind the others, or the call waits for what the action asks for.
pub open spec fn advances(
    before: RpcSessionView,
    progress: ProgressView,
    after: RpcSessionView,
    action: RpcActionView,
) -> bool {
    &&& after.silent == before.silent
    &&& match progress {
        ProgressView::Done(response) => {
            &&& after.responses == before.responses.push(response)
            &&& after.waiting is None
            &&& action is Proceed
        },
        ProgressView::Enqueue(tx, sending) => {
            &&& after.responses == before.responses
            &&& after.waiting == Some(WaitingView::Sequencer(sending))
            &&& action == RpcActionView::Enqueue(tx)
        },
        ProgressView::Query(message, statuses) => {
            &&& after.responses == before.responses
            &&& after.waiting == Some(WaitingView::Database(statuses))
            &&& action == RpcActionView::Query(message)
        },
    }
}

/// A session that may proceed begins its first call; without calls it has the reply sent and stays
/// as it is.
pub proof fn law_session_proceeds(session: RpcSessionView, info: BlockInfoView)
    ensures
        session.calls.len() > 0 ==> {
            let (after, action) = session.step(info, RpcEventView::Proceed);
            &&& after.calls == session.calls.skip(1)
            &&& advances(session, crate::rpc::dispatched(info, session.calls[0]), after, action)
        },
        session.calls.len() == 0 ==> {
            let (after, action) = session.step(info, RpcEventView::Proceed);
            &&& after == session
            &&& action is Reply
        },
{
    if session.calls.len() > 0 {
        assert(session.calls.skip(1) =~= session.calls.drop_first());
    }
}

/// The caller of `sendTransaction` is given the text that was kept for them once the sequencer took
/// the transaction, and else the reason why it did not.
pub proof fn law_session_enqueued(
    session: RpcSessionView,
    info: BlockInfoView,
    sending: SendingView,
    outcome: Result<(), Seq<char>>,
)
    requires
        session.waiting == Some(WaitingView::Sequencer(sending)),
    ensures
        ({
            let (after, action) = session.step(info, RpcEventView::Enqueued(outcome));
            &&& after.calls == session.calls
            &&& after.silent == session.silent
            &&& after.waiting is None
            &&& action is Proceed
            &&& after.responses.len() == session.responses.len() + 1
            &&& after.responses.drop_last() == session.responses
            &&& outcome is Ok ==> gives(
                ProgressView::Done(after.responses.last()),
                sending.id,
                JsonView::Str(sending.signature),
            )
            &&& outcome is Err ==> refuses(
                ProgressView::Done(after.responses.last()),
                sending.id,
                -32000,
                "enqueue failed"@,
                with_detail(outcome->Err_0),
            )
        }),
{
    let (after, action) = session.step(info, RpcEventView::Enqueued(outcome));
    assert(after.responses.drop_last() =~= session.responses);
}

/// An answer of the database moves the call that waits for it on.
pub proof fn law_session_answered(
    session: RpcSessionView,
    info: BlockInfoView,
    statuses: StatusesView,
    answer: Option<FrontendMessageView>,
)
    requires
        session.waiting == Some(WaitingView::Database(statuses)),
    ensures
        ({
            let (after, action) = session.step(info, RpcEventView::Answered(answer));
            &&& after.calls == session.calls
            &&& advances(session, statuses.answered(info, answer), after, action)
        }),
{
}

/// A session takes exactly the event that it waits for.
pub proof fn law_session_admits(session: RpcSessionView, event: RpcEventView)
    ensures
        event is Proceed ==> (session.admits(event) <==> session.waiting is None),
        event is Enqueued ==> (session.admits(event) <==> session.waiting is Some
            && session.waiting->0 is Sequencer),
        event is Answered ==> (session.admits(event) <==> session.waiting is Some
            && session.waiting->0 is Database),
{
}

/// A session is begun with the calls of its body in their order, and waits for nothing. Only a lone
/// call without an id is silent. A body that is no call is answered already.
pub proof fn law_session_begins(call: Option<RpcCallView>)
    ensures
        RpcSessionView::begun(call).waiting is None,
        call is Some && call->0 is Single ==> {
            &&& RpcSessionView::begun(call).calls == seq![call->0->Single_0]
            &&& RpcSessionView::begun(call).responses.len() == 0
            &&& RpcSessionView::begun(call).silent <==> call->0->Single_0.id is None
        },
        call is Some && call->0 is Batch ==> {
            &&& RpcSessionView::begun(call).calls == call->0->Batch_0
            &&& RpcSessionView::begun(call).responses.len() == 0
            &&& !RpcSessionView::begun(call).silent
        },
        call is None ==> {
            &&& RpcSessionView::begun(call).calls.len() == 0
            &&& !RpcSessionView::begun(call).silent
            &&& RpcSessionView::begun(call).responses.len() == 1
            &&& refuses(
                ProgressView::Done(RpcSessionView::begun(call).responses[0]),
                None,
                -32700,
                "parse error"@,
                None,
            )
        },
{
}

/// The reply is empty for a silent session, the answer itself where there is one, and else all
/// answers in their order.
pub proof fn law_session_reply(session: RpcSessionView)
    ensures
        session.silent ==> session.reply() is Batch && session.reply()->Batch_0.len() == 0,
        !session.silent && session.responses.len() == 1 ==> session.reply()
            == RpcReplyView::Single(session.responses[0]),
        !session.silent && session.responses.len() != 1 ==> session.reply() == RpcReplyView::Batch(
            session.responses,
        ),
{
}

/// The answers of the methods, put together from the block and what could be read of the
/// parameters, are those that a call gets.
pub proof fn law_answers_by_parts(
    info: BlockInfoView,
    id: Option<JsonView>,
    text: Seq<char>,
    parsed: Option<Seq<u8>>,
    current: Seq<char>,
    key: Result<Seq<u8>, Seq<char>>,
)
    ensures
        gives(
            ProgressView::Done(crate::rpc::latest_blockhash_response(info, id, text)),
            id,
            with_slot(
                info.slot,
                JsonView::Object(
                    seq![
                        ("blockhash"@, JsonView::Str(text)),
                        (
                            "lastValidBlockHeight"@,
                            JsonView::Number(JsonNumber::PosInt(info.last_valid_block_height)),
                        ),
                    ],
                ),
            ),
        ),
        gives(
            ProgressView::Done(
                crate::rpc::blockhash_validity_response(info, id, text, parsed, current),
            ),
            id,
            with_slot(info.slot, JsonView::Bool(parsed is Some && text == current)),
        ),
        key is Ok ==> gives(
            ProgressView::Done(crate::rpc::balance_response(info, id, key)),
            id,
            with_slot(info.slot, JsonView::Number(JsonNumber::PosInt(0))),
        ),
        key is Err ==> refuses(
            ProgressView::Done(crate::rpc::balance_response(info, id, key)),
            id,
            -32602,
            key->Err_0,
            None,
        ),
        key is Ok ==> gives(
            ProgressView::Done(crate::rpc::account_info_response(info, id, key)),
            id,
            with_slot(
                info.slot,
                JsonView::Object(
                    seq![
                        ("lamports"@, JsonView::Number(JsonNumber::PosInt(0))),
                        ("owner"@, JsonView::Str("11111111111111111111111111111111"@)),
                        ("executable"@, JsonView::Bool(false)),
                        ("rentEpoch"@, JsonView::Number(JsonNumber::PosInt(0))),
                        (
                            "data"@,
                            JsonView::Array(seq![JsonView::Str(""@), JsonView::Str("base64"@)]),
                        ),
                    ],
                ),
            ),
        ),
        key is Err ==> refuses(
            ProgressView::Done(crate::rpc::account_info_response(info, id, key)),
            id,
            -32602,
            key->Err_0,
            None,
        ),
{
}

/// An answer gives what it is made of, and an error tells it.
pub proof fn law_answers_hold_what_they_are_made_of(
    id: Option<JsonView>,
    result: JsonView,
    code: i64,
    message: Seq<char>,
    data: Option<JsonView>,
)
    ensures
        gives(ProgressView::Done(RpcResponseView::ok(id, result)), id, result),
        refuses(
            ProgressView::Done(RpcResponseView::err(id, code, message, data)),
            id,
            code as int,
            message,
            data,
        ),
{
}

} // verus!
