//! One body of calls, from its text to the reply.
//!
//! [`RpcSession::step`] takes the calls one after the other and says what comes next. Talking to
//! the sequencer and the database is left to the caller.
use crate::ledger::{Transaction, TransactionView};
use crate::rollupdb::{FrontendMessage, FrontendMessageView};
use crate::rpc::{
    dispatch, err, BlockInfo, BlockInfoView, Progress, ProgressView, RpcCall, RpcCallView,
    RpcRequest, RpcRequestView, RpcResponse, RpcResponseView, Sending, SendingView, Statuses,
    StatusesView, PARSE_ERROR,
};
use crate::service::{RollupDBMessage, RollupDBMessageView};
use std::collections::VecDeque;
use vstd::prelude::*;

verus! {

/// What the call at hand waits for.
enum Waiting {
    Sequencer(Sending),
    Database(Statuses),
}

/// What a call waits for.
pub enum WaitingView {
    Sequencer(SendingView),
    Database(StatusesView),
}

impl View for Waiting {
    type V = WaitingView;

    closed spec fn view(&self) -> WaitingView {
        match self {
            Waiting::Sequencer(sending) => WaitingView::Sequencer(sending@),
            Waiting::Database(statuses) => WaitingView::Database(statuses@),
        }
    }
}

impl DeepView for Waiting {
    type V = WaitingView;

    closed spec fn deep_view(&self) -> WaitingView {
        self@
    }
}

/// The calls that are still to be begun, the call that waits, the answers so far, and whether the
/// body is a notification, a lone call without an id, whose answer is not sent.
pub struct RpcSession {
    calls: VecDeque<RpcRequest>,
    waiting: Option<Waiting>,
    responses: Vec<RpcResponse>,
    silent: bool,
}

/// What an [`RpcSession`] holds.
#[verifier::ext_equal]
pub struct RpcSessionView {
    pub calls: Seq<RpcRequestView>,
    pub waiting: Option<WaitingView>,
    pub responses: Seq<RpcResponseView>,
    pub silent: bool,
}

/// What the requests hold.
pub open spec fn requests_of(requests: Seq<RpcRequest>) -> Seq<RpcRequestView> {
    requests.map_values(|request: RpcRequest| request@)
}

impl View for RpcSession {
    type V = RpcSessionView;

    closed spec fn view(&self) -> RpcSessionView {
        RpcSessionView {
            calls: requests_of(self.calls@),
            waiting: self.waiting.deep_view(),
            responses: self.responses.deep_view(),
            silent: self.silent,
        }
    }
}

/// What happens to a session.
#[derive(Debug, PartialEq, Eq)]
pub enum RpcEvent {
    /// The caller follows [`RpcAction::Proceed`].
    Proceed,
    /// The sequencer took the transaction, or did not and for this reason.
    Enqueued(Result<(), String>),
    /// The database answered, or did not in time.
    Answered(Option<FrontendMessage>),
}

/// What an [`RpcEvent`] holds.
pub enum RpcEventView {
    Proceed,
    Enqueued(Result<(), Seq<char>>),
    Answered(Option<FrontendMessageView>),
}

impl View for RpcEvent {
    type V = RpcEventView;

    open spec fn view(&self) -> RpcEventView {
        match self {
            RpcEvent::Proceed => RpcEventView::Proceed,
            RpcEvent::Enqueued(Ok(_)) => RpcEventView::Enqueued(Ok(())),
            RpcEvent::Enqueued(Err(detail)) => RpcEventView::Enqueued(Err(detail@)),
            RpcEvent::Answered(answer) => RpcEventView::Answered(answer.deep_view()),
        }
    }
}

/// What is to be done next.
#[derive(Debug, PartialEq, Eq)]
pub enum RpcAction {
    /// Step on with [`RpcEvent::Proceed`].
    Proceed,
    /// Hand the transaction to the sequencer, and step on with [`RpcEvent::Enqueued`].
    Enqueue(Transaction),
    /// Send the message to the database, await the answer, and step on with
    /// [`RpcEvent::Answered`].
    Query(RollupDBMessage),
    /// Send the reply of [`RpcSession::into_reply`].
    Reply,
}

/// What an [`RpcAction`] holds.
pub enum RpcActionView {
    Proceed,
    Enqueue(TransactionView),
    Query(RollupDBMessageView),
    Reply,
}

impl View for RpcAction {
    type V = RpcActionView;

    open spec fn view(&self) -> RpcActionView {
        match self {
            RpcAction::Proceed => RpcActionView::Proceed,
            RpcAction::Enqueue(tx) => RpcActionView::Enqueue(tx@),
            RpcAction::Query(message) => RpcActionView::Query(message@),
            RpcAction::Reply => RpcActionView::Reply,
        }
    }
}

/// The reply to a body.
#[derive(Debug, PartialEq, Eq)]
pub enum RpcReply {
    Single(RpcResponse),
    Batch(Vec<RpcResponse>),
}

/// What an [`RpcReply`] holds.
pub enum RpcReplyView {
    Single(RpcResponseView),
    Batch(Seq<RpcResponseView>),
}

impl View for RpcReply {
    type V = RpcReplyView;

    open spec fn view(&self) -> RpcReplyView {
        match self {
            RpcReply::Single(response) => RpcReplyView::Single(response@),
            RpcReply::Batch(responses) => RpcReplyView::Batch(responses.deep_view()),
        }
    }
}

impl RpcSessionView {
    /// The session of a body, where `None` is a body that is no call: it is answered as one call
    /// would be.
    pub open spec fn begun(call: Option<RpcCallView>) -> Self {
        match call {
            Some(RpcCallView::Single(request)) => RpcSessionView {
                calls: seq![request],
                waiting: None,
                responses: Seq::empty(),
                silent: request.id is None,
            },
            Some(RpcCallView::Batch(requests)) => RpcSessionView {
                calls: requests,
                waiting: None,
                responses: Seq::empty(),
                silent: false,
            },
            None => RpcSessionView {
                calls: Seq::empty(),
                waiting: None,
                responses: seq![RpcResponseView::err(None, PARSE_ERROR, "parse error"@, None)],
                silent: false,
            },
        }
    }

    /// Whether the event is the one that the session waits for.
    pub open spec fn admits(self, event: RpcEventView) -> bool {
        match event {
            RpcEventView::Proceed => self.waiting is None,
            RpcEventView::Enqueued(_) => self.waiting matches Some(WaitingView::Sequencer(_)),
            RpcEventView::Answered(_) => self.waiting matches Some(WaitingView::Database(_)),
        }
    }

    /// The session after the call at hand has come that far, and the action to take.
    pub open spec fn came(self, progress: ProgressView) -> (RpcSessionView, RpcActionView) {
        match progress {
            ProgressView::Done(response) => (
                RpcSessionView {
                    waiting: None,
                    responses: self.responses.push(response),
                    ..self
                },
                RpcActionView::Proceed,
            ),
            ProgressView::Enqueue(tx, sending) => (
                RpcSessionView { waiting: Some(WaitingView::Sequencer(sending)), ..self },
                RpcActionView::Enqueue(tx),
            ),
            ProgressView::Query(message, statuses) => (
                RpcSessionView { waiting: Some(WaitingView::Database(statuses)), ..self },
                RpcActionView::Query(message),
            ),
        }
    }

    /// What an event leads to while the node stands at `info`: the session afterwards and the
    /// action to take.
    pub open spec fn step(self, info: BlockInfoView, event: RpcEventView) -> (
        RpcSessionView,
        RpcActionView,
    ) {
        match event {
            RpcEventView::Proceed => if self.calls.len() == 0 {
                (self, RpcActionView::Reply)
            } else {
                (RpcSessionView { calls: self.calls.drop_first(), ..self }).came(
                    crate::rpc::dispatched(info, self.calls[0]),
                )
            },
            RpcEventView::Enqueued(outcome) => self.came(
                ProgressView::Done(self.waiting->0->Sequencer_0.enqueued(outcome)),
            ),
            RpcEventView::Answered(answer) => self.came(
                self.waiting->0->Database_0.answered(info, answer),
            ),
        }
    }

    /// The reply: a notification gets an empty batch, and a lone answer stands for itself.
    pub open spec fn reply(self) -> RpcReplyView {
        if self.silent {
            RpcReplyView::Batch(Seq::empty())
        } else if self.responses.len() == 1 {
            RpcReplyView::Single(self.responses[0])
        } else {
            RpcReplyView::Batch(self.responses)
        }
    }
}

impl RpcSession {
    /// Begins the session of a body, where `None` is a body that is no call.
    pub fn begin(call: Option<RpcCall>) -> (session: Self)
        ensures
            session@ == RpcSessionView::begun(call.deep_view()),
    {
        let mut calls: VecDeque<RpcRequest> = VecDeque::new();
        let mut responses: Vec<RpcResponse> = Vec::new();
        let mut silent: bool = false;
        match call {
            Some(RpcCall::Single(request)) => {
                silent = request.id.is_none();
                calls.push_back(request);
            },
            Some(RpcCall::Batch(requests)) => {
                for request in it: requests
                    invariant
                        it.seq() == requests@,
                        calls@ == requests@.take(it.index()),
                {
                    calls.push_back(request);
                    assert(requests@.take(it.index() + 1) =~= requests@.take(it.index()).push(
                        request,
                    ));
                }
                assert(calls@ =~= requests@);
                assert(requests_of(calls@) =~= requests.deep_view());
            },
            None => responses.push(err(None, PARSE_ERROR, "parse error".to_owned(), None)),
        }
        let session = RpcSession { calls, waiting: None, responses, silent };
        assert(session@ =~= RpcSessionView::begun(call.deep_view()));
        session
    }

    /// Whether the event is the one that the session waits for.
    pub fn admits(&self, event: &RpcEvent) -> (admitted: bool)
        ensures
            admitted == self@.admits(event@),
    {
        match (event, &self.waiting) {
            (RpcEvent::Proceed, None) => true,
            (RpcEvent::Enqueued(_), Some(Waiting::Sequencer(_))) => true,
            (RpcEvent::Answered(_), Some(Waiting::Database(_))) => true,
            _ => false,
        }
    }

    fn come(&mut self, progress: Progress) -> (action: RpcAction)
        ensures
            (final(self)@, action@) == old(self)@.came(progress@),
    {
        match progress {
            Progress::Done(response) => {
                let ghost before = self@.responses;
                self.responses.push(response);
                self.waiting = None;
                assert(self@.responses =~= before.push(response@));
                RpcAction::Proceed
            },
            Progress::Enqueue(tx, sending) => {
                self.waiting = Some(Waiting::Sequencer(sending));
                RpcAction::Enqueue(tx)
            },
            Progress::Query(message, statuses) => {
                self.waiting = Some(Waiting::Database(statuses));
                RpcAction::Query(message)
            },
        }
    }

    /// Takes an event while the node stands at `info`, and says what is to be done next.
    pub fn step(&mut self, info: &BlockInfo, event: RpcEvent) -> (action: RpcAction)
        requires
            old(self)@.admits(event@),
        ensures
            (final(self)@, action@) == old(self)@.step(info@, event@),
    {
        match event {
            RpcEvent::Proceed => {
                let ghost before = self@.calls;
                match self.calls.pop_front() {
                    Some(request) => {
                        assert(before[0] == request@);
                        assert(self@.calls =~= before.drop_first());
                        self.come(dispatch(info, request))
                    },
                    None => {
                        assert(self@.calls =~= before);
                        RpcAction::Reply
                    },
                }
            },
            RpcEvent::Enqueued(outcome) => match self.waiting.take() {
                Some(Waiting::Sequencer(sending)) => {
                    self.come(Progress::Done(sending.enqueued(outcome)))
                },
                _ => RpcAction::Reply,
            },
            RpcEvent::Answered(answer) => match self.waiting.take() {
                Some(Waiting::Database(statuses)) => self.come(statuses.answered(info, answer)),
                _ => RpcAction::Reply,
            },
        }
    }

    /// The reply to the body.
    pub fn into_reply(self) -> (reply: RpcReply)
        ensures
            reply@ == self@.reply(),
    {
        if self.silent {
            let none: Vec<RpcResponse> = Vec::new();
            assert(none.deep_view() =~= Seq::empty());
            return RpcReply::Batch(none);
        }
        let mut responses: Vec<RpcResponse> = self.responses;
        if responses.len() == 1 {
            if let Some(response) = responses.pop() {
                return RpcReply::Single(response);
            }
        }
        RpcReply::Batch(responses)
    }
}

/// What an event, an action and a reply hold is what they are made of.
pub proof fn law_session_views(
    outcome: Result<(), String>,
    answer: Option<FrontendMessage>,
    action: RpcAction,
    reply: RpcReply,
    i: int,
)
    ensures
        RpcEvent::Proceed@ is Proceed,
        RpcEvent::Enqueued(outcome)@ is Enqueued,
        outcome is Ok ==> RpcEvent::Enqueued(outcome)@->Enqueued_0 is Ok,
        outcome is Err ==> RpcEvent::Enqueued(outcome)@->Enqueued_0 == Err::<(), Seq<char>>(
            outcome->Err_0@,
        ),
        RpcEvent::Answered(answer)@ is Answered,
        answer is None ==> RpcEvent::Answered(answer)@->Answered_0 is None,
        answer is Some ==> RpcEvent::Answered(answer)@->Answered_0 == Some(answer->0@),
        action is Proceed ==> action@ is Proceed,
        action is Enqueue ==> action@ == RpcActionView::Enqueue(action->Enqueue_0@),
        action is Query ==> action@ == RpcActionView::Query(action->Query_0@),
        action is Reply ==> action@ is Reply,
        reply is Single ==> reply@ == RpcReplyView::Single(reply->Single_0@),
        reply is Batch ==> reply@ is Batch && reply@->Batch_0.len() == reply->Batch_0@.len(),
        reply is Batch && 0 <= i < reply->Batch_0@.len() ==> reply@->Batch_0[i]
            == reply->Batch_0@[i]@,
{
}

} // verus!
