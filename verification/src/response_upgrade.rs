//! The responder side of a request/response substream.
//!
//! The upgrade reads one request, hands it to the protocol handler, waits for
//! the handler's response and, if one comes, writes it back and closes the
//! stream. It finishes with `true` when a response was sent and with `false`
//! when the handler dropped the request without answering, so that the
//! handler can report `ResponseSent` or `ResponseOmission`.
//!
//! `InboundPhase` is where the upgrade stands; the transport performs each
//! `InboundAction` and reports what came of it as an `InboundEvent`.

use vstd::prelude::*;

verus! {

/// Where a responder stands in its exchange.
#[derive(Debug, Clone, Copy, PartialEq, Eq)]
pub enum InboundPhase {
    /// Waiting for the request to be read from the substream.
    ReadingRequest,
    /// The request is being handed to the protocol handler.
    DeliveringRequest,
    /// Waiting for the response of the handler.
    AwaitingResponse,
    /// The response is being written to the substream.
    WritingResponse,
    /// The response was written; the stream is being closed after the write.
    ClosingAfterWrite,
    /// The response was sent; the stream is being closed once more before finishing.
    ClosingAfterResponse,
    /// The handler gave no response; the stream is being closed.
    ClosingWithoutResponse,
    /// The exchange is over.
    Finished,
}

/// What the transport reports back to a responder.
pub enum InboundEvent<M, E> {
    /// The request was read and decoded, or reading it failed.
    RequestRead(Result<M, E>),
    /// The request reached the protocol handler.
    RequestDelivered,
    /// The handler answered (`Some`) or dropped its side without answering (`None`).
    ResponseReceived(Option<M>),
    /// Writing the response finished, with this outcome.
    ResponseWritten(Result<(), E>),
    /// Closing the stream finished, with this outcome.
    StreamClosed(Result<(), E>),
}

/// What a responder asks the transport to do next.
pub enum InboundAction<M, E> {
    /// Read one length-prefixed request from the substream.
    ReadRequest,
    /// Hand this request, to the protocol handler.
    DeliverRequest(M),
    /// Wait for the response of the handler.
    AwaitResponse,
    /// Write this response to the substream.
    WriteResponse(M),
    /// Close the substream.
    CloseStream,
    /// The exchange is over, with this outcome.
    Finish(Result<bool, E>),
}

impl InboundPhase {
    /// Whether the responder, in this phase, is waiting for `event`.
    pub open spec fn will_accept<M, E>(self, event: InboundEvent<M, E>) -> bool {
        match self {
            InboundPhase::ReadingRequest => event is RequestRead,
            InboundPhase::DeliveringRequest => event is RequestDelivered,
            InboundPhase::AwaitingResponse => event is ResponseReceived,
            InboundPhase::WritingResponse => event is ResponseWritten,
            InboundPhase::ClosingAfterWrite => event is StreamClosed,
            InboundPhase::ClosingAfterResponse => event is StreamClosed,
            InboundPhase::ClosingWithoutResponse => event is StreamClosed,
            InboundPhase::Finished => false,
        }
    }

    /// The phase and the action that follow `event`, for an event that the
    /// phase is waiting for.
    pub open spec fn transition<M, E>(self, event: InboundEvent<M, E>) -> (
        InboundPhase,
        InboundAction<M, E>,
    ) {
        match (self, event) {
            (InboundPhase::ReadingRequest, InboundEvent::RequestRead(Ok(request))) => (
                InboundPhase::DeliveringRequest,
                InboundAction::DeliverRequest(request),
            ),
            (InboundPhase::ReadingRequest, InboundEvent::RequestRead(Err(e))) => (
                InboundPhase::Finished,
                InboundAction::Finish(Err(e)),
            ),
            (InboundPhase::DeliveringRequest, InboundEvent::RequestDelivered) => (
                InboundPhase::AwaitingResponse,
                InboundAction::AwaitResponse,
            ),
            (InboundPhase::AwaitingResponse, InboundEvent::ResponseReceived(Some(response))) => (
                InboundPhase::WritingResponse,
                InboundAction::WriteResponse(response),
            ),
            (InboundPhase::AwaitingResponse, InboundEvent::ResponseReceived(None)) => (
                InboundPhase::ClosingWithoutResponse,
                InboundAction::CloseStream,
            ),
            (InboundPhase::WritingResponse, InboundEvent::ResponseWritten(Ok(()))) => (
                InboundPhase::ClosingAfterWrite,
                InboundAction::CloseStream,
            ),
            (InboundPhase::ClosingAfterWrite, InboundEvent::StreamClosed(Ok(()))) => (
                InboundPhase::ClosingAfterResponse,
                InboundAction::CloseStream,
            ),
            (InboundPhase::ClosingAfterResponse, InboundEvent::StreamClosed(Ok(()))) => (
                InboundPhase::Finished,
                InboundAction::Finish(Ok(true)),
            ),
            (InboundPhase::ClosingWithoutResponse, InboundEvent::StreamClosed(Ok(()))) => (
                InboundPhase::Finished,
                InboundAction::Finish(Ok(false)),
            ),
            (_, InboundEvent::ResponseWritten(Err(e))) => (
                InboundPhase::Finished,
                InboundAction::Finish(Err(e)),
            ),
            (_, InboundEvent::StreamClosed(Err(e))) => (
                InboundPhase::Finished,
                InboundAction::Finish(Err(e)),
            ),
            (phase, _) => (phase, InboundAction::AwaitResponse),
        }
    }

    /// A responder begins by reading the request.
    pub fn start<M, E>() -> (r: (InboundPhase, InboundAction<M, E>))
        ensures
            r.0 == InboundPhase::ReadingRequest,
            r.1 == InboundAction::<M, E>::ReadRequest,
    {
        (InboundPhase::ReadingRequest, InboundAction::ReadRequest)
    }

    /// Whether the responder, in this phase, is waiting for `event`.
    pub fn accepts<M, E>(&self, event: &InboundEvent<M, E>) -> (r: bool)
        ensures
            r == self.will_accept(*event),
    {
        match self {
            InboundPhase::ReadingRequest => matches!(event, InboundEvent::RequestRead(_)),
            InboundPhase::DeliveringRequest => matches!(event, InboundEvent::RequestDelivered),
            InboundPhase::AwaitingResponse => matches!(event, InboundEvent::ResponseReceived(_)),
            InboundPhase::WritingResponse => matches!(event, InboundEvent::ResponseWritten(_)),
            InboundPhase::ClosingAfterWrite
            | InboundPhase::ClosingAfterResponse
            | InboundPhase::ClosingWithoutResponse => matches!(event, InboundEvent::StreamClosed(_)),
            InboundPhase::Finished => false,
        }
    }

    /// Takes what the transport reports and says what to do next.
    ///
    /// A request that was read is handed to the handler; once delivered, the
    /// responder waits for the handler. A response is written, the stream is
    /// closed after the write and then closed again, and the exchange finishes
    /// with `true`. Without a response the stream is closed and the exchange
    /// finishes with `false`. A failed read, write or close finishes the
    /// exchange with that error.
    pub fn step<M, E>(self, event: InboundEvent<M, E>) -> (r: (InboundPhase, InboundAction<M, E>))
        requires
            self.will_accept(event),
        ensures
            r == self.transition(event),
    {
        match (self, event) {
            (InboundPhase::ReadingRequest, InboundEvent::RequestRead(Ok(request))) => (
                InboundPhase::DeliveringRequest,
                InboundAction::DeliverRequest(request),
            ),
            (InboundPhase::ReadingRequest, InboundEvent::RequestRead(Err(e))) => (
                InboundPhase::Finished,
                InboundAction::Finish(Err(e)),
            ),
            (InboundPhase::DeliveringRequest, InboundEvent::RequestDelivered) => (
                InboundPhase::AwaitingResponse,
                InboundAction::AwaitResponse,
            ),
            (InboundPhase::AwaitingResponse, InboundEvent::ResponseReceived(Some(response))) => (
                InboundPhase::WritingResponse,
                InboundAction::WriteResponse(response),
            ),
            (InboundPhase::AwaitingResponse, InboundEvent::ResponseReceived(None)) => (
                InboundPhase::ClosingWithoutResponse,
                InboundAction::CloseStream,
            ),
            (InboundPhase::WritingResponse, InboundEvent::ResponseWritten(Ok(()))) => (
                InboundPhase::ClosingAfterWrite,
                InboundAction::CloseStream,
            ),
            (InboundPhase::ClosingAfterWrite, InboundEvent::StreamClosed(Ok(()))) => (
                InboundPhase::ClosingAfterResponse,
                InboundAction::CloseStream,
            ),
            (InboundPhase::ClosingAfterResponse, InboundEvent::StreamClosed(Ok(()))) => (
                InboundPhase::Finished,
                InboundAction::Finish(Ok(true)),
            ),
            (InboundPhase::ClosingWithoutResponse, InboundEvent::StreamClosed(Ok(()))) => (
                InboundPhase::Finished,
                InboundAction::Finish(Ok(false)),
            ),
            (_, InboundEvent::ResponseWritten(Err(e))) => (
                InboundPhase::Finished,
                InboundAction::Finish(Err(e)),
            ),
            (_, InboundEvent::StreamClosed(Err(e))) => (
                InboundPhase::Finished,
                InboundAction::Finish(Err(e)),
            ),
            (phase, _) => {
                proof {
                    assert(false);
                }
                (phase, InboundAction::AwaitResponse)
            },
        }
    }
}

/// Whether the reports `events`, given in order from `phase`, are
/// each one that the responder was waiting for.
pub open spec fn inbound_valid<M, E>(phase: InboundPhase, events: Seq<InboundEvent<M, E>>) -> bool
    decreases events.len(),
{
    if events.len() == 0 {
        true
    } else {
        &&& phase.will_accept(events[0])
        &&& inbound_valid(phase.transition(events[0]).0, events.drop_first())
    }
}

/// The actions that a responder takes, from `phase`, on the reports `events`.
pub open spec fn inbound_actions<M, E>(phase: InboundPhase, events: Seq<InboundEvent<M, E>>) -> Seq<
    InboundAction<M, E>,
>
    decreases events.len(),
{
    if events.len() == 0 {
        Seq::empty()
    } else {
        seq![phase.transition(events[0]).1] + inbound_actions(
            phase.transition(events[0]).0,
            events.drop_first(),
        )
    }
}

/// The reports of an exchange in which the handler answered `response` to `request`.
pub open spec fn answered_exchange<M, E>(request: M, response: M) -> Seq<InboundEvent<M, E>> {
    seq![
        InboundEvent::RequestRead(Ok(request)),
        InboundEvent::RequestDelivered,
        InboundEvent::ResponseReceived(Some(response)),
        InboundEvent::ResponseWritten(Ok(())),
        InboundEvent::StreamClosed(Ok(())),
        InboundEvent::StreamClosed(Ok(())),
    ]
}

/// The reports of an exchange in which the handler dropped `request` unanswered.
pub open spec fn unanswered_exchange<M, E>(request: M) -> Seq<InboundEvent<M, E>> {
    seq![
        InboundEvent::RequestRead(Ok(request)),
        InboundEvent::RequestDelivered,
        InboundEvent::ResponseReceived(None),
        InboundEvent::StreamClosed(Ok(())),
    ]
}

/// Where `phase` stands in an answered exchange: the number of its reports
/// already taken, or -1 where the phase is not on that path.
spec fn answered_index(phase: InboundPhase) -> int {
    match phase {
        InboundPhase::ReadingRequest => 0,
        InboundPhase::DeliveringRequest => 1,
        InboundPhase::AwaitingResponse => 2,
        InboundPhase::WritingResponse => 3,
        InboundPhase::ClosingAfterWrite => 4,
        InboundPhase::ClosingAfterResponse => 5,
        _ => -1,
    }
}

/// Whether `event` has the shape of report number `k` of an answered exchange.
spec fn answered_step<M, E>(k: int, event: InboundEvent<M, E>) -> bool {
    if k == 0 {
        (event matches InboundEvent::RequestRead(Ok(_)))
    } else if k == 1 {
        (event matches InboundEvent::RequestDelivered)
    } else if k == 2 {
        (event matches InboundEvent::ResponseReceived(Some(_)))
    } else if k == 3 {
        (event matches InboundEvent::ResponseWritten(Ok(_)))
    } else {
        (event matches InboundEvent::StreamClosed(Ok(_)))
    }
}

/// A successful write or close report carries the unit value.
proof fn lemma_successful_report<M, E>(event: InboundEvent<M, E>)
    ensures
        (event matches InboundEvent::ResponseWritten(Ok(_))) ==> event == InboundEvent::<M, E>::ResponseWritten(Ok(())),
        (event matches InboundEvent::StreamClosed(Ok(_))) ==> event == InboundEvent::<M, E>::StreamClosed(Ok(())),
{
    match event {
        InboundEvent::ResponseWritten(r) => {
            if r is Ok {
                assert(r == Ok::<(), E>(r->Ok_0));
            }
        },
        InboundEvent::StreamClosed(r) => {
            if r is Ok {
                assert(r == Ok::<(), E>(r->Ok_0));
            }
        },
        _ => {},
    }
}

/// A responder takes one action per report.
proof fn lemma_inbound_actions_len<M, E>(phase: InboundPhase, events: Seq<InboundEvent<M, E>>)
    ensures
        inbound_actions(phase, events).len() == events.len(),
    decreases events.len(),
{
    if events.len() > 0 {
        lemma_inbound_actions_len(phase.transition(events[0]).0, events.drop_first());
    }
}

/// A run that ends in `Finish(Ok(true))` follows the answered path from `phase` to its end.
proof fn lemma_true_run_shape<M, E>(phase: InboundPhase, events: Seq<InboundEvent<M, E>>)
    requires
        inbound_valid(phase, events),
        events.len() > 0,
        inbound_actions(phase, events).last() == InboundAction::<M, E>::Finish(Ok(true)),
    ensures
        0 <= answered_index(phase),
        events.len() == 6 - answered_index(phase),
        forall|i: int| 0 <= i < events.len() ==> answered_step(answered_index(phase) + i, events[i]),
    decreases events.len(),
{
    let next = phase.transition(events[0]).0;
    let rest = events.drop_first();
    lemma_inbound_actions_len(next, rest);
    if events.len() == 1 {
        assert(inbound_actions(phase, events) =~= seq![phase.transition(events[0]).1]);
    } else {
        assert(inbound_actions(phase, events).last() == inbound_actions(next, rest).last());
        lemma_true_run_shape(next, rest);
        assert forall|i: int| 0 <= i < events.len() implies #[trigger] answered_step(answered_index(phase) + i, events[i]) by {
            if i > 0 {
                assert(events[i] == rest[i - 1]);
            }
        }
    }
}

/// A responder reports that a response was sent exactly when its exchange
/// read a request, delivered it, got an answer from the handler, wrote that very
/// answer and closed the stream; it never reports a response it did not write.
pub proof fn inbound_true_means_response_written<M, E>(events: Seq<InboundEvent<M, E>>)
    requires
        inbound_valid(InboundPhase::ReadingRequest, events),
        events.len() > 0,
    ensures
        (inbound_actions(InboundPhase::ReadingRequest, events).last() == InboundAction::<M, E>::Finish(
            Ok(true),
        )) <==> (exists|request: M, response: M| events == answered_exchange::<M, E>(request, response)),
{
    let actions = inbound_actions(InboundPhase::ReadingRequest, events);
    if actions.last() == InboundAction::<M, E>::Finish(Ok(true)) {
        lemma_true_run_shape(InboundPhase::ReadingRequest, events);
        let request = events[0]->RequestRead_0->Ok_0;
        let response = events[2]->ResponseReceived_0->Some_0;
        assert(answered_step(0, events[0]));
        assert(answered_step(1, events[1]));
        assert(answered_step(2, events[2]));
        assert(answered_step(3, events[3]));
        assert(answered_step(4, events[4]));
        assert(answered_step(5, events[5]));
        let expected = answered_exchange::<M, E>(request, response);
        lemma_successful_report(events[3]);
        lemma_successful_report(events[4]);
        lemma_successful_report(events[5]);
        assert(events[0] == expected[0]);
        assert(events[1] == expected[1]);
        assert(events[2] == expected[2]);
        assert(events[3] == expected[3]);
        assert(events[4] == expected[4]);
        assert(events[5] == expected[5]);
        assert(events =~= expected);
    }
    if (exists|request: M, response: M| events == answered_exchange::<M, E>(request, response)) {
        let (request, response) = choose|request: M, response: M|
            events == answered_exchange::<M, E>(request, response);
        lemma_answered_exchange_actions::<M, E>(request, response);
    }
}


/// The actions of a responder over an answered exchange: it delivers the
/// request, waits, writes the response of the handler, closes twice and reports
/// that the response was sent.
pub proof fn lemma_answered_exchange_actions<M, E>(request: M, response: M)
    ensures
        inbound_valid(InboundPhase::ReadingRequest, answered_exchange::<M, E>(request, response)),
        inbound_actions(InboundPhase::ReadingRequest, answered_exchange::<M, E>(request, response))
            == seq![
            InboundAction::<M, E>::DeliverRequest(request),
            InboundAction::AwaitResponse,
            InboundAction::WriteResponse(response),
            InboundAction::CloseStream,
            InboundAction::CloseStream,
            InboundAction::Finish(Ok(true)),
        ],
{
    let ev = answered_exchange::<M, E>(request, response);
    let e1 = ev.drop_first();
    let e2 = e1.drop_first();
    let e3 = e2.drop_first();
    let e4 = e3.drop_first();
    let e5 = e4.drop_first();
    let e6 = e5.drop_first();
    assert(e1 =~= seq![
        InboundEvent::<M, E>::RequestDelivered,
        InboundEvent::ResponseReceived(Some(response)),
        InboundEvent::ResponseWritten(Ok(())),
        InboundEvent::StreamClosed(Ok(())),
        InboundEvent::StreamClosed(Ok(())),
    ]);
    assert(e2 =~= seq![
        InboundEvent::<M, E>::ResponseReceived(Some(response)),
        InboundEvent::ResponseWritten(Ok(())),
        InboundEvent::StreamClosed(Ok(())),
        InboundEvent::StreamClosed(Ok(())),
    ]);
    assert(e3 =~= seq![
        InboundEvent::<M, E>::ResponseWritten(Ok(())),
        InboundEvent::StreamClosed(Ok(())),
        InboundEvent::StreamClosed(Ok(())),
    ]);
    assert(e4 =~= seq![InboundEvent::<M, E>::StreamClosed(Ok(())), InboundEvent::StreamClosed(Ok(()))]);
    assert(e5 =~= seq![InboundEvent::<M, E>::StreamClosed(Ok(()))]);
    assert(e6 =~= Seq::<InboundEvent<M, E>>::empty());
    assert(inbound_valid(InboundPhase::Finished, e6));
    assert(inbound_valid(InboundPhase::ClosingAfterResponse, e5));
    assert(inbound_valid(InboundPhase::ClosingAfterWrite, e4));
    assert(inbound_valid(InboundPhase::WritingResponse, e3));
    assert(inbound_valid(InboundPhase::AwaitingResponse, e2));
    assert(inbound_valid(InboundPhase::DeliveringRequest, e1));
    assert(inbound_actions(InboundPhase::Finished, e6) =~= Seq::<InboundAction<M, E>>::empty());
    assert(inbound_actions(InboundPhase::ClosingAfterResponse, e5) =~= seq![InboundAction::<M, E>::Finish(Ok(true))]);
    assert(inbound_actions(InboundPhase::ClosingAfterWrite, e4) =~= seq![
        InboundAction::<M, E>::CloseStream,
        InboundAction::Finish(Ok(true)),
    ]);
    assert(inbound_actions(InboundPhase::WritingResponse, e3) =~= seq![
        InboundAction::<M, E>::CloseStream,
        InboundAction::CloseStream,
        InboundAction::Finish(Ok(true)),
    ]);
    assert(inbound_actions(InboundPhase::AwaitingResponse, e2) =~= seq![
        InboundAction::<M, E>::WriteResponse(response),
        InboundAction::CloseStream,
        InboundAction::CloseStream,
        InboundAction::Finish(Ok(true)),
    ]);
    assert(inbound_actions(InboundPhase::DeliveringRequest, e1) =~= seq![
        InboundAction::<M, E>::AwaitResponse,
        InboundAction::WriteResponse(response),
        InboundAction::CloseStream,
        InboundAction::CloseStream,
        InboundAction::Finish(Ok(true)),
    ]);
    assert(inbound_actions(InboundPhase::ReadingRequest, ev) =~= seq![
        InboundAction::<M, E>::DeliverRequest(request),
        InboundAction::AwaitResponse,
        InboundAction::WriteResponse(response),
        InboundAction::CloseStream,
        InboundAction::CloseStream,
        InboundAction::Finish(Ok(true)),
    ]);
}

/// Where `phase` stands in an unanswered exchange, or -1 off that path.
spec fn unanswered_index(phase: InboundPhase) -> int {
    match phase {
        InboundPhase::ReadingRequest => 0,
        InboundPhase::DeliveringRequest => 1,
        InboundPhase::AwaitingResponse => 2,
        InboundPhase::ClosingWithoutResponse => 3,
        _ => -1,
    }
}

/// Whether `event` has the shape of report number `k` of an unanswered exchange.
spec fn unanswered_step<M, E>(k: int, event: InboundEvent<M, E>) -> bool {
    if k == 0 {
        (event matches InboundEvent::RequestRead(Ok(_)))
    } else if k == 1 {
        (event matches InboundEvent::RequestDelivered)
    } else if k == 2 {
        (event matches InboundEvent::ResponseReceived(None))
    } else {
        (event matches InboundEvent::StreamClosed(Ok(_)))
    }
}

/// A run that ends in `Finish(Ok(false))` follows the unanswered path from `phase` to its end.
proof fn lemma_false_run_shape<M, E>(phase: InboundPhase, events: Seq<InboundEvent<M, E>>)
    requires
        inbound_valid(phase, events),
        events.len() > 0,
        inbound_actions(phase, events).last() == InboundAction::<M, E>::Finish(Ok(false)),
    ensures
        0 <= unanswered_index(phase),
        events.len() == 4 - unanswered_index(phase),
        forall|i: int| 0 <= i < events.len() ==> unanswered_step(unanswered_index(phase) + i, events[i]),
    decreases events.len(),
{
    let next = phase.transition(events[0]).0;
    let rest = events.drop_first();
    lemma_inbound_actions_len(next, rest);
    if events.len() == 1 {
        assert(inbound_actions(phase, events) =~= seq![phase.transition(events[0]).1]);
    } else {
        assert(inbound_actions(phase, events).last() == inbound_actions(next, rest).last());
        lemma_false_run_shape(next, rest);
        assert forall|i: int| 0 <= i < events.len() implies #[trigger] unanswered_step(unanswered_index(phase) + i, events[i]) by {
            if i > 0 {
                assert(events[i] == rest[i - 1]);
            }
        }
    }
}

/// A responder reports that no response was sent exactly when its exchange
/// read a request, delivered it, saw the handler drop it unanswered and
/// closed the stream.
pub proof fn inbound_false_means_request_unanswered<M, E>(events: Seq<InboundEvent<M, E>>)
    requires
        inbound_valid(InboundPhase::ReadingRequest, events),
        events.len() > 0,
    ensures
        (inbound_actions(InboundPhase::ReadingRequest, events).last() == InboundAction::<M, E>::Finish(
            Ok(false),
        )) <==> (exists|request: M| events == unanswered_exchange::<M, E>(request)),
{
    let actions = inbound_actions(InboundPhase::ReadingRequest, events);
    if actions.last() == InboundAction::<M, E>::Finish(Ok(false)) {
        lemma_false_run_shape(InboundPhase::ReadingRequest, events);
        assert(unanswered_step(0, events[0]));
        assert(unanswered_step(1, events[1]));
        assert(unanswered_step(2, events[2]));
        assert(unanswered_step(3, events[3]));
        let request = events[0]->RequestRead_0->Ok_0;
        let expected = unanswered_exchange::<M, E>(request);
        lemma_successful_report(events[3]);
        assert(events[0] == expected[0]);
        assert(events[1] == expected[1]);
        assert(events[2] == expected[2]);
        assert(events[3] == expected[3]);
        assert(events =~= expected);
    }
    if (exists|request: M| events == unanswered_exchange::<M, E>(request)) {
        let request = choose|request: M| events == unanswered_exchange::<M, E>(request);
        lemma_unanswered_exchange_actions::<M, E>(request);
    }
}

/// The actions of a responder over an unanswered exchange: it delivers the
/// request, waits, closes the stream and reports that no response was sent.
pub proof fn lemma_unanswered_exchange_actions<M, E>(request: M)
    ensures
        inbound_valid(InboundPhase::ReadingRequest, unanswered_exchange::<M, E>(request)),
        inbound_actions(InboundPhase::ReadingRequest, unanswered_exchange::<M, E>(request))
            == seq![
            InboundAction::<M, E>::DeliverRequest(request),
            InboundAction::AwaitResponse,
            InboundAction::CloseStream,
            InboundAction::Finish(Ok(false)),
        ],
{
    let ev = unanswered_exchange::<M, E>(request);
    let e1 = ev.drop_first();
    let e2 = e1.drop_first();
    let e3 = e2.drop_first();
    let e4 = e3.drop_first();
    assert(e1 =~= seq![
        InboundEvent::<M, E>::RequestDelivered,
        InboundEvent::ResponseReceived(None),
        InboundEvent::StreamClosed(Ok(())),
    ]);
    assert(e2 =~= seq![InboundEvent::<M, E>::ResponseReceived(None), InboundEvent::StreamClosed(Ok(()))]);
    assert(e3 =~= seq![InboundEvent::<M, E>::StreamClosed(Ok(()))]);
    assert(e4 =~= Seq::<InboundEvent<M, E>>::empty());
    assert(inbound_valid(InboundPhase::Finished, e4));
    assert(inbound_valid(InboundPhase::ClosingWithoutResponse, e3));
    assert(inbound_valid(InboundPhase::AwaitingResponse, e2));
    assert(inbound_valid(InboundPhase::DeliveringRequest, e1));
    assert(inbound_actions(InboundPhase::Finished, e4) =~= Seq::<InboundAction<M, E>>::empty());
    assert(inbound_actions(InboundPhase::ClosingWithoutResponse, e3) =~= seq![
        InboundAction::<M, E>::Finish(Ok(false)),
    ]);
    assert(inbound_actions(InboundPhase::AwaitingResponse, e2) =~= seq![
        InboundAction::<M, E>::CloseStream,
        InboundAction::Finish(Ok(false)),
    ]);
    assert(inbound_actions(InboundPhase::DeliveringRequest, e1) =~= seq![
        InboundAction::<M, E>::AwaitResponse,
        InboundAction::CloseStream,
        InboundAction::Finish(Ok(false)),
    ]);
    assert(inbound_actions(InboundPhase::ReadingRequest, ev) =~= seq![
        InboundAction::<M, E>::DeliverRequest(request),
        InboundAction::AwaitResponse,
        InboundAction::CloseStream,
        InboundAction::Finish(Ok(false)),
    ]);
}

/// Once a responder finishes, its exchange is over: a valid run of reports
/// produces `Finish` only as its last action.
pub proof fn inbound_finish_ends_the_exchange<M, E>(
    phase: InboundPhase,
    events: Seq<InboundEvent<M, E>>,
    i: int,
)
    requires
        inbound_valid(phase, events),
        0 <= i < events.len(),
        inbound_actions(phase, events)[i] is Finish,
    ensures
        i == events.len() - 1,
    decreases events.len(),
{
    let next = phase.transition(events[0]).0;
    let rest = events.drop_first();
    lemma_inbound_actions_len(next, rest);
    if i > 0 {
        assert(inbound_actions(phase, events)[i] == inbound_actions(next, rest)[i - 1]);
        inbound_finish_ends_the_exchange(next, rest, i - 1);
    } else {
        assert(inbound_actions(phase, events)[0] == phase.transition(events[0]).1);
        assert(next == InboundPhase::Finished);
        assert(inbound_valid(next, rest));
        if rest.len() > 0 {
            assert(!next.will_accept(rest[0]));
            assert(false);
        }
    }
}

/// The phase a responder reaches from `phase` after the reports `events`.
pub open spec fn inbound_phase_after<M, E>(phase: InboundPhase, events: Seq<InboundEvent<M, E>>) -> InboundPhase
    decreases events.len(),
{
    if events.len() == 0 {
        phase
    } else {
        inbound_phase_after(phase.transition(events[0]).0, events.drop_first())
    }
}

/// How far a phase lies along an exchange; every report moves a responder strictly forward.
spec fn inbound_rank(phase: InboundPhase) -> int {
    match phase {
        InboundPhase::ReadingRequest => 0,
        InboundPhase::DeliveringRequest => 1,
        InboundPhase::AwaitingResponse => 2,
        InboundPhase::WritingResponse => 3,
        InboundPhase::ClosingWithoutResponse => 3,
        InboundPhase::ClosingAfterWrite => 4,
        InboundPhase::ClosingAfterResponse => 5,
        InboundPhase::Finished => 6,
    }
}

/// Each accepted report moves the responder at least one rank forward.
proof fn lemma_inbound_rank_grows<M, E>(phase: InboundPhase, events: Seq<InboundEvent<M, E>>)
    requires
        inbound_valid(phase, events),
    ensures
        inbound_rank(inbound_phase_after(phase, events)) >= inbound_rank(phase) + events.len(),
    decreases events.len(),
{
    if events.len() > 0 {
        lemma_inbound_rank_grows(phase.transition(events[0]).0, events.drop_first());
    }
}

/// The action a responder takes on report `i` is the one of the phase that
/// the reports before it led to.
proof fn lemma_inbound_action_at<M, E>(phase: InboundPhase, events: Seq<InboundEvent<M, E>>, i: int)
    requires
        inbound_valid(phase, events),
        0 <= i < events.len(),
    ensures
        inbound_valid(phase, events.take(i)),
        inbound_phase_after(phase, events.take(i)).will_accept(events[i]),
        inbound_actions(phase, events)[i] == inbound_phase_after(phase, events.take(i)).transition(events[i]).1,
    decreases i,
{
    let next = phase.transition(events[0]).0;
    let rest = events.drop_first();
    lemma_inbound_actions_len(next, rest);
    if i == 0 {
        assert(events.take(0) =~= Seq::<InboundEvent<M, E>>::empty());
    } else {
        lemma_inbound_action_at(next, rest, i - 1);
        assert(events.take(i).drop_first() =~= rest.take(i - 1));
        assert(events.take(i)[0] == events[0]);
        assert(inbound_actions(phase, events)[i] == inbound_actions(next, rest)[i - 1]);
        assert(events[i] == rest[i - 1]);
    }
}

/// A responder writes a response only as its third action: after reading a
/// request and handing it to the handler, and what it writes is exactly the
/// handler's answer.
pub proof fn inbound_writes_only_the_answer_to_a_delivered_request<M, E>(
    events: Seq<InboundEvent<M, E>>,
    i: int,
)
    requires
        inbound_valid(InboundPhase::ReadingRequest, events),
        0 <= i < events.len(),
        inbound_actions(InboundPhase::ReadingRequest, events)[i] is WriteResponse,
    ensures
        i == 2,
        (events[0] matches InboundEvent::RequestRead(Ok(_))),
        events[1] is RequestDelivered,
        events[2] == InboundEvent::<M, E>::ResponseReceived(
            Some(inbound_actions(InboundPhase::ReadingRequest, events)[i]->WriteResponse_0),
        ),
{
    lemma_inbound_action_at(InboundPhase::ReadingRequest, events, i);
    let before = events.take(i);
    lemma_inbound_rank_grows(InboundPhase::ReadingRequest, before);
    let phase = inbound_phase_after(InboundPhase::ReadingRequest, before);
    assert(phase == InboundPhase::AwaitingResponse);
    assert(i <= 2);
    let first = InboundPhase::ReadingRequest.transition(events[0]).0;
    if i == 0 {
        assert(before =~= Seq::<InboundEvent<M, E>>::empty());
        assert(false);
    } else {
        assert(before[0] == events[0]);
        assert(InboundPhase::ReadingRequest.will_accept(events[0]));
        assert(inbound_valid(first, before.drop_first()));
        assert(inbound_phase_after(first, before.drop_first()) == phase);
        if i == 1 {
            assert(before.drop_first().len() == 0);
            assert(first == phase);
            assert(false);
        } else {
            let rest = before.drop_first();
            assert(rest[0] == events[1]);
            assert(rest.drop_first().len() == 0);
            assert(first.will_accept(rest[0]));
            assert(inbound_phase_after(first.transition(rest[0]).0, rest.drop_first()) == phase);
            assert(first.transition(rest[0]).0 == phase);
        }
    }
}

/// A failed read, write or close ends the exchange on the spot, with that
/// very error.
pub proof fn inbound_failure_ends_the_exchange<M, E>(
    phase: InboundPhase,
    events: Seq<InboundEvent<M, E>>,
    i: int,
    error: E,
)
    requires
        inbound_valid(phase, events),
        0 <= i < events.len(),
        events[i] == InboundEvent::<M, E>::RequestRead(Err(error))
            || events[i] == InboundEvent::<M, E>::ResponseWritten(Err(error))
            || events[i] == InboundEvent::<M, E>::StreamClosed(Err(error)),
    ensures
        inbound_actions(phase, events)[i] == InboundAction::<M, E>::Finish(Err(error)),
        i == events.len() - 1,
{
    lemma_inbound_action_at(phase, events, i);
    inbound_finish_ends_the_exchange(phase, events, i);
}

/// An exchange ends with an error only where a read, write or close failed with that
/// very error, in its last report.
pub proof fn inbound_error_comes_from_a_failed_report<M, E>(
    phase: InboundPhase,
    events: Seq<InboundEvent<M, E>>,
    error: E,
)
    requires
        inbound_valid(phase, events),
        events.len() > 0,
        inbound_actions(phase, events).last() == InboundAction::<M, E>::Finish(Err(error)),
    ensures
        events.last() == InboundEvent::<M, E>::RequestRead(Err(error))
            || events.last() == InboundEvent::<M, E>::ResponseWritten(Err(error))
            || events.last() == InboundEvent::<M, E>::StreamClosed(Err(error)),
{
    lemma_inbound_actions_len(phase, events);
    lemma_inbound_action_at(phase, events, events.len() - 1);
}

/// A responder takes every outcome of what it asked for: whatever phase it
/// reached, if its last action asked to read, deliver, wait, write or close,
/// then the outcome of that operation, success or failure, is a report it
/// accepts next. In particular a failed close or write is always taken, and
/// the failure laws cover every failure of an operation the machine asked for.
pub proof fn inbound_accepts_every_outcome<M, E>(
    phase: InboundPhase,
    event: InboundEvent<M, E>,
    read: Result<M, E>,
    response: Option<M>,
    written: Result<(), E>,
    closed: Result<(), E>,
)
    requires
        phase.will_accept(event),
    ensures
        InboundPhase::ReadingRequest.will_accept(InboundEvent::<M, E>::RequestRead(read)),
        phase.transition(event).1 is ReadRequest ==> phase.transition(event).0.will_accept(
            InboundEvent::<M, E>::RequestRead(read),
        ),
        phase.transition(event).1 is DeliverRequest ==> phase.transition(event).0.will_accept(
            InboundEvent::<M, E>::RequestDelivered,
        ),
        phase.transition(event).1 is AwaitResponse ==> phase.transition(event).0.will_accept(
            InboundEvent::<M, E>::ResponseReceived(response),
        ),
        phase.transition(event).1 is WriteResponse ==> phase.transition(event).0.will_accept(
            InboundEvent::<M, E>::ResponseWritten(written),
        ),
        phase.transition(event).1 is CloseStream ==> phase.transition(event).0.will_accept(
            InboundEvent::<M, E>::StreamClosed(closed),
        ),
        phase.transition(event).1 is Finish <==> phase.transition(event).0 == InboundPhase::Finished,
{
}

/// In every phase, a report of an operation is accepted whatever its
/// outcome: a phase that takes a successful read, write or close also takes
/// the failed one.
pub proof fn inbound_failures_are_accepted_where_successes_are<M, E>(
    phase: InboundPhase,
    request: M,
    error: E,
)
    ensures
        phase.will_accept(InboundEvent::<M, E>::RequestRead(Ok(request))) ==> phase.will_accept(
            InboundEvent::<M, E>::RequestRead(Err(error)),
        ),
        phase.will_accept(InboundEvent::<M, E>::ResponseWritten(Ok(()))) ==> phase.will_accept(
            InboundEvent::<M, E>::ResponseWritten(Err(error)),
        ),
        phase.will_accept(InboundEvent::<M, E>::StreamClosed(Ok(()))) ==> phase.will_accept(
            InboundEvent::<M, E>::StreamClosed(Err(error)),
        ),
{
}

} // verus!
