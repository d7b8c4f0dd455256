//! Both ends of one request/response substream together.
//!
//! A requester on one end writes its request and reads a response; a
//! responder on the other end reads the request, hands it to its handler and
//! writes the handler's answer. Here the two state machines are put side by
//! side, with the transport carrying what each side writes to the other.

use vstd::prelude::*;

use crate::request_upgrade::{
    lemma_completed_exchange_actions, outbound_actions, outbound_error_comes_from_a_failed_report,
    outbound_response_only_after_request_sent, outbound_valid, OutboundAction, OutboundEvent,
    OutboundPhase,
};
use crate::response_upgrade::{
    answered_exchange, inbound_actions, inbound_error_comes_from_a_failed_report,
    inbound_false_means_request_unanswered, inbound_true_means_response_written, inbound_valid,
    lemma_answered_exchange_actions, unanswered_exchange, InboundAction, InboundEvent,
    InboundPhase,
};

verus! {

/// Whether a responder's report is a failed read, write or close.
pub open spec fn inbound_failure<M, E>(event: InboundEvent<M, E>) -> bool {
    ||| (event matches InboundEvent::RequestRead(Err(_)))
    ||| (event matches InboundEvent::ResponseWritten(Err(_)))
    ||| (event matches InboundEvent::StreamClosed(Err(_)))
}

/// Whether a requester's report is a failed write, close or read.
pub open spec fn outbound_failure<M, E>(event: OutboundEvent<M, E>) -> bool {
    ||| (event matches OutboundEvent::RequestWritten(Err(_)))
    ||| (event matches OutboundEvent::StreamClosed(Err(_)))
    ||| (event matches OutboundEvent::ResponseRead(Err(_)))
}

/// A request travels to the handler and its answer travels back.
///
/// Take a requester that starts with `request` (its first action writes it)
/// and a responder on the other end of the same substream, both run to their
/// end. Say that no read, write or close fails on either side, that the
/// responder reads the request the requester wrote, that the handler answers
/// `answer`, and that the requester reads the response the responder wrote.
/// Then the handler receives exactly `request`, the responder writes exactly
/// `answer`, closes the stream and reports the response sent, and the
/// requester closes its stream, reads and finishes with exactly `answer`.
pub proof fn request_and_answer_round_trip<M, E>(
    request: M,
    answer: M,
    responder_reports: Seq<InboundEvent<M, E>>,
    requester_reports: Seq<OutboundEvent<M, E>>,
)
    requires
        inbound_valid(InboundPhase::ReadingRequest, responder_reports),
        responder_reports.len() > 0,
        inbound_actions(InboundPhase::ReadingRequest, responder_reports).last() is Finish,
        outbound_valid(OutboundPhase::WritingRequest, requester_reports),
        requester_reports.len() > 0,
        outbound_actions(OutboundPhase::WritingRequest, requester_reports).last() is Finish,
        forall|i: int|
            0 <= i < responder_reports.len() ==> !inbound_failure(#[trigger] responder_reports[i]),
        forall|j: int|
            0 <= j < requester_reports.len() ==> !outbound_failure(#[trigger] requester_reports[j]),
        forall|i: int|
            0 <= i < responder_reports.len() && (#[trigger] responder_reports[i] is RequestRead)
                ==> responder_reports[i] == InboundEvent::<M, E>::RequestRead(Ok(request)),
        forall|i: int|
            0 <= i < responder_reports.len() && (#[trigger] responder_reports[i] is ResponseReceived)
                ==> responder_reports[i] == InboundEvent::<M, E>::ResponseReceived(Some(answer)),
        forall|j: int|
            0 <= j < requester_reports.len() && (#[trigger] requester_reports[j] is ResponseRead)
                ==> requester_reports[j] == OutboundEvent::<M, E>::ResponseRead(Ok(answer)),
    ensures
        inbound_actions(InboundPhase::ReadingRequest, responder_reports) == seq![
            InboundAction::<M, E>::DeliverRequest(request),
            InboundAction::AwaitResponse,
            InboundAction::WriteResponse(answer),
            InboundAction::CloseStream,
            InboundAction::CloseStream,
            InboundAction::Finish(Ok(true)),
        ],
        outbound_actions(OutboundPhase::WritingRequest, requester_reports) == seq![
            OutboundAction::<M, E>::CloseStream,
            OutboundAction::CloseStream,
            OutboundAction::ReadResponse,
            OutboundAction::Finish(Ok(answer)),
        ],
{
    let in_ev = responder_reports;
    let out_ev = requester_reports;
    let in_last = inbound_actions(InboundPhase::ReadingRequest, in_ev).last();
    let out_last = outbound_actions(OutboundPhase::WritingRequest, out_ev).last();
    assert(in_ev.last() == in_ev[in_ev.len() - 1]);
    assert(out_ev.last() == out_ev[out_ev.len() - 1]);
    assert(!inbound_failure(in_ev[in_ev.len() - 1]));
    assert(!outbound_failure(out_ev[out_ev.len() - 1]));

    match in_last->Finish_0 {
        Err(e) => {
            inbound_error_comes_from_a_failed_report(InboundPhase::ReadingRequest, in_ev, e);
            assert(false);
        },
        Ok(sent) => {
            if sent {
                inbound_true_means_response_written(in_ev);
                let (req, resp) = choose|req: M, resp: M| in_ev == answered_exchange::<M, E>(req, resp);
                assert(in_ev[0] is RequestRead);
                assert(in_ev[2] is ResponseReceived);
                assert(req == request);
                assert(resp == answer);
                lemma_answered_exchange_actions::<M, E>(request, answer);
            } else {
                inbound_false_means_request_unanswered(in_ev);
                let req = choose|req: M| in_ev == unanswered_exchange::<M, E>(req);
                assert(in_ev[2] is ResponseReceived);
                assert(false);
            }
        },
    }

    match out_last->Finish_0 {
        Err(e) => {
            outbound_error_comes_from_a_failed_report(OutboundPhase::WritingRequest, out_ev, e);
            assert(false);
        },
        Ok(m) => {
            outbound_response_only_after_request_sent(out_ev, m);
            assert(out_ev[3] is ResponseRead);
            assert(m == answer);
            lemma_completed_exchange_actions::<M, E>(answer);
        },
    }
}

} // verus!
