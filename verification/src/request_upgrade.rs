//! The requester side of a request/response substream.
//!
//! The upgrade writes one request, closes the stream after the write and
//! once more, then reads the response and finishes with it. A failed write,
//! close or read finishes the exchange with that error.
//!
//! `OutboundPhase` is where the upgrade stands; the transport performs each
//! `OutboundAction` and reports what came of it as an `OutboundEvent`.

use vstd::prelude::*;

verus! {

/// Where a requester stands in its exchange.
#[derive(Debug, Clone, Copy, PartialEq, Eq)]
pub enum OutboundPhase {
    /// The request is being written to the substream.
    WritingRequest,
    /// The request was written; the stream is being closed after the write.
    ClosingAfterWrite,
    /// The stream is being closed once more before the response is read.
    ClosingStream,
    /// Waiting for the response to be read from the substream.
    ReadingResponse,
    /// The exchange is over.
    Finished,
}

/// What the transport reports back to a requester.
pub enum OutboundEvent<M, E> {
    /// Writing the request finished, with this outcome.
    RequestWritten(Result<(), E>),
    /// Closing the stream finished, with this outcome.
    StreamClosed(Result<(), E>),
    /// The response was read and decoded, or reading it failed.
    ResponseRead(Result<M, E>),
}

/// What a requester asks the transport to do next.
pub enum OutboundAction<M, E> {
    /// Write this request to the substream.
    WriteRequest(M),
    /// Close the substream.
    CloseStream,
    /// Read one length-prefixed response from the substream.
    ReadResponse,
    /// The exchange is over, with the response or the error that ended it.
    Finish(Result<M, E>),
}

impl OutboundPhase {
    /// Whether the requester, in this phase, is waiting for `event`.
    pub open spec fn will_accept<M, E>(self, event: OutboundEvent<M, E>) -> bool {
        match self {
            OutboundPhase::WritingRequest => event is RequestWritten,
            OutboundPhase::ClosingAfterWrite => event is StreamClosed,
            OutboundPhase::ClosingStream => event is StreamClosed,
            OutboundPhase::ReadingResponse => event is ResponseRead,
            OutboundPhase::Finished => false,
        }
    }

    /// The phase and the action that follow `event`, for an event that the
    /// phase is waiting for.
    pub open spec fn transition<M, E>(self, event: OutboundEvent<M, E>) -> (
        OutboundPhase,
        OutboundAction<M, E>,
    ) {
        match (self, event) {
            (OutboundPhase::WritingRequest, OutboundEvent::RequestWritten(Ok(()))) => (
                OutboundPhase::ClosingAfterWrite,
                OutboundAction::CloseStream,
            ),
            (OutboundPhase::ClosingAfterWrite, OutboundEvent::StreamClosed(Ok(()))) => (
                OutboundPhase::ClosingStream,
                OutboundAction::CloseStream,
            ),
            (OutboundPhase::ClosingStream, OutboundEvent::StreamClosed(Ok(()))) => (
                OutboundPhase::ReadingResponse,
                OutboundAction::ReadResponse,
            ),
            (OutboundPhase::ReadingResponse, OutboundEvent::ResponseRead(result)) => (
                OutboundPhase::Finished,
                OutboundAction::Finish(result),
            ),
            (_, OutboundEvent::RequestWritten(Err(e))) => (
                OutboundPhase::Finished,
                OutboundAction::Finish(Err(e)),
            ),
            (_, OutboundEvent::StreamClosed(Err(e))) => (
                OutboundPhase::Finished,
                OutboundAction::Finish(Err(e)),
            ),
            (phase, _) => (phase, OutboundAction::ReadResponse),
        }
    }

    /// A requester begins by writing its request.
    pub fn start<M, E>(request: M) -> (r: (OutboundPhase, OutboundAction<M, E>))
        ensures
            r.0 == OutboundPhase::WritingRequest,
            r.1 == OutboundAction::<M, E>::WriteRequest(request),
    {
        (OutboundPhase::WritingRequest, OutboundAction::WriteRequest(request))
    }

    /// Whether the requester, in this phase, is waiting for `event`.
    pub fn accepts<M, E>(&self, event: &OutboundEvent<M, E>) -> (r: bool)
        ensures
            r == self.will_accept(*event),
    {
        match self {
            OutboundPhase::WritingRequest => matches!(event, OutboundEvent::RequestWritten(_)),
            OutboundPhase::ClosingAfterWrite | OutboundPhase::ClosingStream => matches!(event, OutboundEvent::StreamClosed(_)),
            OutboundPhase::ReadingResponse => matches!(event, OutboundEvent::ResponseRead(_)),
            OutboundPhase::Finished => false,
        }
    }

    /// Takes what the transport reports and says what to do next.
    ///
    /// After the request is written the stream is closed, then closed once
    /// more, then the response is read and the exchange finishes with it. A
    /// failed write, close or read finishes the exchange with that error.
    pub fn step<M, E>(self, event: OutboundEvent<M, E>) -> (r: (OutboundPhase, OutboundAction<M, E>))
        requires
            self.will_accept(event),
        ensures
            r == self.transition(event),
    {
        match (self, event) {
            (OutboundPhase::WritingRequest, OutboundEvent::RequestWritten(Ok(()))) => (
                OutboundPhase::ClosingAfterWrite,
                OutboundAction::CloseStream,
            ),
            (OutboundPhase::ClosingAfterWrite, OutboundEvent::StreamClosed(Ok(()))) => (
                OutboundPhase::ClosingStream,
                OutboundAction::CloseStream,
            ),
            (OutboundPhase::ClosingStream, OutboundEvent::StreamClosed(Ok(()))) => (
                OutboundPhase::ReadingResponse,
                OutboundAction::ReadResponse,
            ),
            (OutboundPhase::ReadingResponse, OutboundEvent::ResponseRead(result)) => (
                OutboundPhase::Finished,
                OutboundAction::Finish(result),
            ),
            (_, OutboundEvent::RequestWritten(Err(e))) => (
                OutboundPhase::Finished,
                OutboundAction::Finish(Err(e)),
            ),
            (_, OutboundEvent::StreamClosed(Err(e))) => (
                OutboundPhase::Finished,
                OutboundAction::Finish(Err(e)),
            ),
            (phase, _) => {
                proof {
                    assert(false);
                }
                (phase, OutboundAction::ReadResponse)
            },
        }
    }
}

/// Whether the reports `events`, given in order from `phase`, are each one
/// that the requester was waiting for.
pub open spec fn outbound_valid<M, E>(phase: OutboundPhase, events: Seq<OutboundEvent<M, E>>) -> bool
    decreases events.len(),
{
    if events.len() == 0 {
        true
    } else {
        &&& phase.will_accept(events[0])
        &&& outbound_valid(phase.transition(events[0]).0, events.drop_first())
    }
}

/// The actions that a requester takes, from `phase`, on the reports `events`.
pub open spec fn outbound_actions<M, E>(phase: OutboundPhase, events: Seq<OutboundEvent<M, E>>) -> Seq<
    OutboundAction<M, E>,
>
    decreases events.len(),
{
    if events.len() == 0 {
        Seq::empty()
    } else {
        seq![phase.transition(events[0]).1] + outbound_actions(
            phase.transition(events[0]).0,
            events.drop_first(),
        )
    }
}

/// The reports of an exchange that went through and read `response`.
pub open spec fn completed_exchange<M, E>(response: M) -> Seq<OutboundEvent<M, E>> {
    seq![
        OutboundEvent::RequestWritten(Ok(())),
        OutboundEvent::StreamClosed(Ok(())),
        OutboundEvent::StreamClosed(Ok(())),
        OutboundEvent::ResponseRead(Ok(response)),
    ]
}

/// A requester takes one action per report.
proof fn lemma_outbound_actions_len<M, E>(phase: OutboundPhase, events: Seq<OutboundEvent<M, E>>)
    ensures
        outbound_actions(phase, events).len() == events.len(),
    decreases events.len(),
{
    if events.len() > 0 {
        lemma_outbound_actions_len(phase.transition(events[0]).0, events.drop_first());
    }
}

/// Where `phase` stands in a completed exchange, or -1 off that path.
spec fn completed_index(phase: OutboundPhase) -> int {
    match phase {
        OutboundPhase::WritingRequest => 0,
        OutboundPhase::ClosingAfterWrite => 1,
        OutboundPhase::ClosingStream => 2,
        OutboundPhase::ReadingResponse => 3,
        OutboundPhase::Finished => -1,
    }
}

/// Whether `event` has the shape of report number `k` of a completed exchange.
spec fn completed_step<M, E>(k: int, event: OutboundEvent<M, E>) -> bool {
    if k == 0 {
        (event matches OutboundEvent::RequestWritten(Ok(_)))
    } else if k == 3 {
        (event matches OutboundEvent::ResponseRead(Ok(_)))
    } else {
        (event matches OutboundEvent::StreamClosed(Ok(_)))
    }
}

/// A successful write or close report carries the unit value.
proof fn lemma_successful_report<M, E>(event: OutboundEvent<M, E>)
    ensures
        (event matches OutboundEvent::RequestWritten(Ok(_))) ==> event == OutboundEvent::<M, E>::RequestWritten(Ok(())),
        (event matches OutboundEvent::StreamClosed(Ok(_))) ==> event == OutboundEvent::<M, E>::StreamClosed(Ok(())),
{
    match event {
        OutboundEvent::RequestWritten(r) => {
            if r is Ok {
                assert(r == Ok::<(), E>(r->Ok_0));
            }
        },
        OutboundEvent::StreamClosed(r) => {
            if r is Ok {
                assert(r == Ok::<(), E>(r->Ok_0));
            }
        },
        _ => {},
    }
}

/// A run that ends in a successful `Finish` follows the completed path from `phase` to its end.
proof fn lemma_completed_run_shape<M, E>(phase: OutboundPhase, events: Seq<OutboundEvent<M, E>>)
    requires
        outbound_valid(phase, events),
        events.len() > 0,
        (outbound_actions(phase, events).last() matches OutboundAction::Finish(Ok(_))),
    ensures
        0 <= completed_index(phase),
        events.len() == 4 - completed_index(phase),
        forall|i: int| 0 <= i < events.len() ==> completed_step(completed_index(phase) + i, events[i]),
    decreases events.len(),
{
    let next = phase.transition(events[0]).0;
    let rest = events.drop_first();
    lemma_outbound_actions_len(next, rest);
    if events.len() == 1 {
        assert(outbound_actions(phase, events) =~= seq![phase.transition(events[0]).1]);
    } else {
        assert(outbound_actions(phase, events).last() == outbound_actions(next, rest).last());
        lemma_completed_run_shape(next, rest);
        assert forall|i: int| 0 <= i < events.len() implies #[trigger] completed_step(completed_index(phase) + i, events[i]) by {
            if i > 0 {
                assert(events[i] == rest[i - 1]);
            }
        }
    }
}

/// The actions of a requester over a completed exchange: it closes the
/// stream twice, reads the response and finishes with that response.
pub proof fn lemma_completed_exchange_actions<M, E>(response: M)
    ensures
        outbound_valid(OutboundPhase::WritingRequest, completed_exchange::<M, E>(response)),
        outbound_actions(OutboundPhase::WritingRequest, completed_exchange::<M, E>(response)) == seq![
            OutboundAction::<M, E>::CloseStream,
            OutboundAction::CloseStream,
            OutboundAction::ReadResponse,
            OutboundAction::Finish(Ok(response)),
        ],
{
    let ev = completed_exchange::<M, E>(response);
    let e1 = ev.drop_first();
    let e2 = e1.drop_first();
    let e3 = e2.drop_first();
    let e4 = e3.drop_first();
    assert(e1 =~= seq![
        OutboundEvent::<M, E>::StreamClosed(Ok(())),
        OutboundEvent::StreamClosed(Ok(())),
        OutboundEvent::ResponseRead(Ok(response)),
    ]);
    assert(e2 =~= seq![OutboundEvent::<M, E>::StreamClosed(Ok(())), OutboundEvent::ResponseRead(Ok(response))]);
    assert(e3 =~= seq![OutboundEvent::<M, E>::ResponseRead(Ok(response))]);
    assert(e4 =~= Seq::<OutboundEvent<M, E>>::empty());
    assert(outbound_valid(OutboundPhase::Finished, e4));
    assert(outbound_valid(OutboundPhase::ReadingResponse, e3));
    assert(outbound_valid(OutboundPhase::ClosingStream, e2));
    assert(outbound_valid(OutboundPhase::ClosingAfterWrite, e1));
    assert(outbound_actions(OutboundPhase::Finished, e4) =~= Seq::<OutboundAction<M, E>>::empty());
    assert(outbound_actions(OutboundPhase::ReadingResponse, e3) =~= seq![
        OutboundAction::<M, E>::Finish(Ok(response)),
    ]);
    assert(outbound_actions(OutboundPhase::ClosingStream, e2) =~= seq![
        OutboundAction::<M, E>::ReadResponse,
        OutboundAction::Finish(Ok(response)),
    ]);
    assert(outbound_actions(OutboundPhase::ClosingAfterWrite, e1) =~= seq![
        OutboundAction::<M, E>::CloseStream,
        OutboundAction::ReadResponse,
        OutboundAction::Finish(Ok(response)),
    ]);
    assert(outbound_actions(OutboundPhase::WritingRequest, ev) =~= seq![
        OutboundAction::<M, E>::CloseStream,
        OutboundAction::CloseStream,
        OutboundAction::ReadResponse,
        OutboundAction::Finish(Ok(response)),
    ]);
}

/// A requester returns a response exactly when its request was written, the
/// stream was closed after the write and once more, and a response was then
/// read; the response it returns is the one it read.
pub proof fn outbound_response_only_after_request_sent<M, E>(events: Seq<OutboundEvent<M, E>>, response: M)
    requires
        outbound_valid(OutboundPhase::WritingRequest, events),
        events.len() > 0,
    ensures
        (outbound_actions(OutboundPhase::WritingRequest, events).last() == OutboundAction::<M, E>::Finish(
            Ok(response),
        )) <==> events == completed_exchange::<M, E>(response),
{
    let actions = outbound_actions(OutboundPhase::WritingRequest, events);
    if actions.last() == OutboundAction::<M, E>::Finish(Ok(response)) {
        lemma_completed_run_shape(OutboundPhase::WritingRequest, events);
        assert(completed_step(0, events[0]));
        assert(completed_step(1, events[1]));
        assert(completed_step(2, events[2]));
        assert(completed_step(3, events[3]));
        lemma_successful_report(events[0]);
        lemma_successful_report(events[1]);
        lemma_successful_report(events[2]);
        lemma_outbound_actions_len(OutboundPhase::WritingRequest, events);
        lemma_completed_exchange_actions::<M, E>(events[3]->ResponseRead_0->Ok_0);
        let expected = completed_exchange::<M, E>(events[3]->ResponseRead_0->Ok_0);
        assert(events[0] == expected[0]);
        assert(events[1] == expected[1]);
        assert(events[2] == expected[2]);
        assert(events[3] == expected[3]);
        assert(events =~= expected);
    }
    if events == completed_exchange::<M, E>(response) {
        lemma_completed_exchange_actions::<M, E>(response);
    }
}

/// Once a requester finishes, its exchange is over: a valid run of reports
/// produces `Finish` only as its last action.
pub proof fn outbound_finish_ends_the_exchange<M, E>(
    phase: OutboundPhase,
    events: Seq<OutboundEvent<M, E>>,
    i: int,
)
    requires
        outbound_valid(phase, events),
        0 <= i < events.len(),
        outbound_actions(phase, events)[i] is Finish,
    ensures
        i == events.len() - 1,
    decreases events.len(),
{
    let next = phase.transition(events[0]).0;
    let rest = events.drop_first();
    lemma_outbound_actions_len(next, rest);
    if i > 0 {
        assert(outbound_actions(phase, events)[i] == outbound_actions(next, rest)[i - 1]);
        outbound_finish_ends_the_exchange(next, rest, i - 1);
    } else {
        assert(outbound_actions(phase, events)[0] == phase.transition(events[0]).1);
        assert(next == OutboundPhase::Finished);
        assert(outbound_valid(next, rest));
        if rest.len() > 0 {
            assert(!next.will_accept(rest[0]));
            assert(false);
        }
    }
}

/// The phase a requester reaches from `phase` after the reports `events`.
pub open spec fn outbound_phase_after<M, E>(phase: OutboundPhase, events: Seq<OutboundEvent<M, E>>) -> OutboundPhase
    decreases events.len(),
{
    if events.len() == 0 {
        phase
    } else {
        outbound_phase_after(phase.transition(events[0]).0, events.drop_first())
    }
}

/// How far a phase lies along an exchange; every report moves a requester strictly forward.
spec fn outbound_rank(phase: OutboundPhase) -> int {
    match phase {
        OutboundPhase::WritingRequest => 0,
        OutboundPhase::ClosingAfterWrite => 1,
        OutboundPhase::ClosingStream => 2,
        OutboundPhase::ReadingResponse => 3,
        OutboundPhase::Finished => 4,
    }
}

/// Each accepted report moves the requester at least one rank forward.
proof fn lemma_outbound_rank_grows<M, E>(phase: OutboundPhase, events: Seq<OutboundEvent<M, E>>)
    requires
        outbound_valid(phase, events),
    ensures
        outbound_rank(outbound_phase_after(phase, events)) >= outbound_rank(phase) + events.len(),
    decreases events.len(),
{
    if events.len() > 0 {
        lemma_outbound_rank_grows(phase.transition(events[0]).0, events.drop_first());
    }
}

/// The action a requester takes on report `i` is the one of the phase that
/// the reports before it led to.
proof fn lemma_outbound_action_at<M, E>(phase: OutboundPhase, events: Seq<OutboundEvent<M, E>>, i: int)
    requires
        outbound_valid(phase, events),
        0 <= i < events.len(),
    ensures
        outbound_valid(phase, events.take(i)),
        outbound_phase_after(phase, events.take(i)).will_accept(events[i]),
        outbound_actions(phase, events)[i] == outbound_phase_after(phase, events.take(i)).transition(events[i]).1,
    decreases i,
{
    let next = phase.transition(events[0]).0;
    let rest = events.drop_first();
    lemma_outbound_actions_len(next, rest);
    if i == 0 {
        assert(events.take(0) =~= Seq::<OutboundEvent<M, E>>::empty());
    } else {
        lemma_outbound_action_at(next, rest, i - 1);
        assert(events.take(i).drop_first() =~= rest.take(i - 1));
        assert(events.take(i)[0] == events[0]);
        assert(outbound_actions(phase, events)[i] == outbound_actions(next, rest)[i - 1]);
        assert(events[i] == rest[i - 1]);
    }
}

/// A requester reads a response only as its third action on reports: after
/// its request was written and the stream was closed after the write and once
/// more.
pub proof fn outbound_reads_only_after_request_sent<M, E>(events: Seq<OutboundEvent<M, E>>, i: int)
    requires
        outbound_valid(OutboundPhase::WritingRequest, events),
        0 <= i < events.len(),
        outbound_actions(OutboundPhase::WritingRequest, events)[i] is ReadResponse,
    ensures
        i == 2,
        events[0] == OutboundEvent::<M, E>::RequestWritten(Ok(())),
        events[1] == OutboundEvent::<M, E>::StreamClosed(Ok(())),
        events[2] == OutboundEvent::<M, E>::StreamClosed(Ok(())),
{
    lemma_outbound_action_at(OutboundPhase::WritingRequest, events, i);
    let before = events.take(i);
    lemma_outbound_rank_grows(OutboundPhase::WritingRequest, before);
    let phase = outbound_phase_after(OutboundPhase::WritingRequest, before);
    assert(phase == OutboundPhase::ClosingStream);
    lemma_successful_report(events[i]);
    assert(i <= 2);
    let first = OutboundPhase::WritingRequest.transition(events[0]).0;
    if i == 0 {
        assert(before =~= Seq::<OutboundEvent<M, E>>::empty());
        assert(false);
    } else {
        assert(before[0] == events[0]);
        assert(OutboundPhase::WritingRequest.will_accept(events[0]));
        assert(outbound_valid(first, before.drop_first()));
        assert(outbound_phase_after(first, before.drop_first()) == phase);
        if i == 1 {
            assert(before.drop_first().len() == 0);
            assert(first == phase);
            assert(false);
        } else {
            let rest = before.drop_first();
            assert(rest[0] == events[1]);
            assert(rest.drop_first().len() == 0);
            assert(first.will_accept(rest[0]));
            assert(outbound_phase_after(first.transition(rest[0]).0, rest.drop_first()) == phase);
            assert(first.transition(rest[0]).0 == phase);
            lemma_successful_report(events[0]);
            lemma_successful_report(events[1]);
        }
    }
}

/// A failed write, close or read ends the exchange on the spot, with that
/// very error.
pub proof fn outbound_failure_ends_the_exchange<M, E>(
    phase: OutboundPhase,
    events: Seq<OutboundEvent<M, E>>,
    i: int,
    error: E,
)
    requires
        outbound_valid(phase, events),
        0 <= i < events.len(),
        events[i] == OutboundEvent::<M, E>::RequestWritten(Err(error))
            || events[i] == OutboundEvent::<M, E>::StreamClosed(Err(error))
            || events[i] == OutboundEvent::<M, E>::ResponseRead(Err(error)),
    ensures
        outbound_actions(phase, events)[i] == OutboundAction::<M, E>::Finish(Err(error)),
        i == events.len() - 1,
{
    lemma_outbound_action_at(phase, events, i);
    outbound_finish_ends_the_exchange(phase, events, i);
}

/// An exchange ends with an error only where a write, close or read failed with that
/// very error, in its last report.
pub proof fn outbound_error_comes_from_a_failed_report<M, E>(
    phase: OutboundPhase,
    events: Seq<OutboundEvent<M, E>>,
    error: E,
)
    requires
        outbound_valid(phase, events),
        events.len() > 0,
        outbound_actions(phase, events).last() == OutboundAction::<M, E>::Finish(Err(error)),
    ensures
        events.last() == OutboundEvent::<M, E>::RequestWritten(Err(error))
            || events.last() == OutboundEvent::<M, E>::StreamClosed(Err(error))
            || events.last() == OutboundEvent::<M, E>::ResponseRead(Err(error)),
{
    lemma_outbound_actions_len(phase, events);
    lemma_outbound_action_at(phase, events, events.len() - 1);
}

/// A requester takes every outcome of what it asked for: whatever phase it
/// reached, if its last action asked to close or read, then the outcome of
/// that operation, success or failure, is a report it accepts next; and the
/// outcome of the write it starts with is always accepted.
pub proof fn outbound_accepts_every_outcome<M, E>(
    phase: OutboundPhase,
    event: OutboundEvent<M, E>,
    written: Result<(), E>,
    closed: Result<(), E>,
    read: Result<M, E>,
)
    requires
        phase.will_accept(event),
    ensures
        OutboundPhase::WritingRequest.will_accept(OutboundEvent::<M, E>::RequestWritten(written)),
        phase.transition(event).1 is CloseStream ==> phase.transition(event).0.will_accept(
            OutboundEvent::<M, E>::StreamClosed(closed),
        ),
        phase.transition(event).1 is ReadResponse ==> phase.transition(event).0.will_accept(
            OutboundEvent::<M, E>::ResponseRead(read),
        ),
        phase.transition(event).1 is Finish <==> phase.transition(event).0 == OutboundPhase::Finished,
{
}

/// In every phase, a report of an operation is accepted whatever its
/// outcome: a phase that takes a successful write, close or read also takes
/// the failed one.
pub proof fn outbound_failures_are_accepted_where_successes_are<M, E>(
    phase: OutboundPhase,
    response: M,
    error: E,
)
    ensures
        phase.will_accept(OutboundEvent::<M, E>::RequestWritten(Ok(()))) ==> phase.will_accept(
            OutboundEvent::<M, E>::RequestWritten(Err(error)),
        ),
        phase.will_accept(OutboundEvent::<M, E>::StreamClosed(Ok(()))) ==> phase.will_accept(
            OutboundEvent::<M, E>::StreamClosed(Err(error)),
        ),
        phase.will_accept(OutboundEvent::<M, E>::ResponseRead(Ok(response))) ==> phase.will_accept(
            OutboundEvent::<M, E>::ResponseRead(Err(error)),
        ),
{
}

} // verus!
