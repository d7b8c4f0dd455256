use sd_core::protocol::{check_frame, check_frame_len, FrameError, ProtocolSupport, MAX_MESSAGE_LEN};
use sd_core::request_upgrade::{OutboundAction, OutboundEvent, OutboundPhase};
use sd_core::response_upgrade::{InboundAction, InboundEvent, InboundPhase};

#[test]
fn inbound_support_levels() {
    assert!(ProtocolSupport::Inbound.inbound());
    assert!(!ProtocolSupport::Inbound.outbound());
}

#[test]
fn outbound_support_levels() {
    assert!(ProtocolSupport::Outbound.outbound());
    assert!(!ProtocolSupport::Outbound.inbound());
}

#[test]
fn full_support_allows_both_directions() {
    let full = ProtocolSupport::Full;
    assert!(full.inbound());
    assert!(full.outbound());
    let copy = full.clone();
    assert!(copy.inbound() && copy.outbound());
}

#[test]
fn empty_frame_is_an_unexpected_eof() {
    assert_eq!(check_frame(&[]), Err(FrameError::UnexpectedEof));
}

#[test]
fn non_empty_frame_is_the_message() {
    let frame = [0x92u8, 0x01, 0x02];
    assert_eq!(check_frame(&frame), Ok(&frame[..]));
    assert_eq!(check_frame(&[0u8]), Ok(&[0u8][..]));
}

#[test]
fn messages_are_read_up_to_a_million_bytes() {
    assert_eq!(MAX_MESSAGE_LEN, 1_000_000);
}

type In = InboundEvent<&'static str, String>;

fn inbound_step(
    phase: InboundPhase,
    event: In,
) -> (InboundPhase, InboundAction<&'static str, String>) {
    assert!(phase.accepts(&event));
    phase.step(event)
}

#[test]
fn responder_writes_the_response_and_reports_it_sent() {
    let (phase, action) = InboundPhase::start::<&'static str, String>();
    assert_eq!(phase, InboundPhase::ReadingRequest);
    assert!(matches!(action, InboundAction::ReadRequest));

    let (phase, action) = inbound_step(phase, InboundEvent::RequestRead(Ok("ping")));
    assert_eq!(phase, InboundPhase::DeliveringRequest);
    assert!(matches!(action, InboundAction::DeliverRequest("ping")));

    let (phase, action) = inbound_step(phase, InboundEvent::RequestDelivered);
    assert_eq!(phase, InboundPhase::AwaitingResponse);
    assert!(matches!(action, InboundAction::AwaitResponse));

    let (phase, action) = inbound_step(phase, InboundEvent::ResponseReceived(Some("pong")));
    assert_eq!(phase, InboundPhase::WritingResponse);
    assert!(matches!(action, InboundAction::WriteResponse("pong")));

    let (phase, action) = inbound_step(phase, InboundEvent::ResponseWritten(Ok(())));
    assert_eq!(phase, InboundPhase::ClosingAfterWrite);
    assert!(matches!(action, InboundAction::CloseStream));

    let (phase, action) = inbound_step(phase, InboundEvent::StreamClosed(Ok(())));
    assert_eq!(phase, InboundPhase::ClosingAfterResponse);
    assert!(matches!(action, InboundAction::CloseStream));

    let (phase, action) = inbound_step(phase, InboundEvent::StreamClosed(Ok(())));
    assert_eq!(phase, InboundPhase::Finished);
    assert!(matches!(action, InboundAction::Finish(Ok(true))));
}

#[test]
fn responder_without_response_closes_and_reports_omission() {
    let (phase, _) = InboundPhase::start::<&'static str, String>();
    let (phase, _) = inbound_step(phase, InboundEvent::RequestRead(Ok("ping")));
    let (phase, _) = inbound_step(phase, InboundEvent::RequestDelivered);
    let (phase, action) = inbound_step(phase, InboundEvent::ResponseReceived(None));
    assert_eq!(phase, InboundPhase::ClosingWithoutResponse);
    assert!(matches!(action, InboundAction::CloseStream));
    let (phase, action) = inbound_step(phase, InboundEvent::StreamClosed(Ok(())));
    assert_eq!(phase, InboundPhase::Finished);
    assert!(matches!(action, InboundAction::Finish(Ok(false))));
}

#[test]
fn responder_fails_with_the_read_error() {
    let (phase, _) = InboundPhase::start::<&'static str, String>();
    let (phase, action) = inbound_step(phase, InboundEvent::RequestRead(Err("eof".to_string())));
    assert_eq!(phase, InboundPhase::Finished);
    match action {
        InboundAction::Finish(Err(e)) => assert_eq!(e, "eof"),
        _ => panic!("expected the read error"),
    }
}

#[test]
fn responder_fails_with_the_write_error() {
    let (phase, _) = InboundPhase::start::<&'static str, String>();
    let (phase, _) = inbound_step(phase, InboundEvent::RequestRead(Ok("ping")));
    let (phase, _) = inbound_step(phase, InboundEvent::RequestDelivered);
    let (phase, _) = inbound_step(phase, InboundEvent::ResponseReceived(Some("pong")));
    let (phase, action) = inbound_step(phase, InboundEvent::ResponseWritten(Err("broken pipe".to_string())));
    assert_eq!(phase, InboundPhase::Finished);
    assert!(matches!(action, InboundAction::Finish(Err(ref e)) if e == "broken pipe"));
}

#[test]
fn responder_fails_with_the_close_error() {
    let (phase, _) = InboundPhase::start::<&'static str, String>();
    let (phase, _) = inbound_step(phase, InboundEvent::RequestRead(Ok("ping")));
    let (phase, _) = inbound_step(phase, InboundEvent::RequestDelivered);
    let (phase, _) = inbound_step(phase, InboundEvent::ResponseReceived(None));
    let (phase, action) = inbound_step(phase, InboundEvent::StreamClosed(Err("reset".to_string())));
    assert_eq!(phase, InboundPhase::Finished);
    assert!(matches!(action, InboundAction::Finish(Err(ref e)) if e == "reset"));
}

#[test]
fn responder_waits_only_for_the_expected_report() {
    let reading = InboundPhase::ReadingRequest;
    assert!(reading.accepts(&In::RequestRead(Ok("x"))));
    assert!(!reading.accepts(&In::RequestDelivered));
    assert!(!reading.accepts(&In::StreamClosed(Ok(()))));
    assert!(InboundPhase::AwaitingResponse.accepts(&In::ResponseReceived(None)));
    assert!(!InboundPhase::Finished.accepts(&In::StreamClosed(Ok(()))));
    assert!(!InboundPhase::Finished.accepts(&In::RequestRead(Ok("x"))));
}

type Out = OutboundEvent<&'static str, String>;

fn outbound_step(
    phase: OutboundPhase,
    event: Out,
) -> (OutboundPhase, OutboundAction<&'static str, String>) {
    assert!(phase.accepts(&event));
    phase.step(event)
}

#[test]
fn requester_writes_closes_twice_and_returns_the_response() {
    let (phase, action) = OutboundPhase::start::<&'static str, String>("ping");
    assert_eq!(phase, OutboundPhase::WritingRequest);
    assert!(matches!(action, OutboundAction::WriteRequest("ping")));

    let (phase, action) = outbound_step(phase, OutboundEvent::RequestWritten(Ok(())));
    assert_eq!(phase, OutboundPhase::ClosingAfterWrite);
    assert!(matches!(action, OutboundAction::CloseStream));

    let (phase, action) = outbound_step(phase, OutboundEvent::StreamClosed(Ok(())));
    assert_eq!(phase, OutboundPhase::ClosingStream);
    assert!(matches!(action, OutboundAction::CloseStream));

    let (phase, action) = outbound_step(phase, OutboundEvent::StreamClosed(Ok(())));
    assert_eq!(phase, OutboundPhase::ReadingResponse);
    assert!(matches!(action, OutboundAction::ReadResponse));

    let (phase, action) = outbound_step(phase, OutboundEvent::ResponseRead(Ok("pong")));
    assert_eq!(phase, OutboundPhase::Finished);
    assert!(matches!(action, OutboundAction::Finish(Ok("pong"))));
}

#[test]
fn requester_fails_with_the_write_error() {
    let (phase, _) = OutboundPhase::start::<&'static str, String>("ping");
    let (phase, action) = outbound_step(phase, OutboundEvent::RequestWritten(Err("closed".to_string())));
    assert_eq!(phase, OutboundPhase::Finished);
    assert!(matches!(action, OutboundAction::Finish(Err(ref e)) if e == "closed"));
}

#[test]
fn requester_fails_with_the_read_error() {
    let (phase, _) = OutboundPhase::start::<&'static str, String>("ping");
    let (phase, _) = outbound_step(phase, OutboundEvent::RequestWritten(Ok(())));
    let (phase, _) = outbound_step(phase, OutboundEvent::StreamClosed(Ok(())));
    let (phase, action) = outbound_step(phase, OutboundEvent::StreamClosed(Err("reset".to_string())));
    assert_eq!(phase, OutboundPhase::Finished);
    assert!(matches!(action, OutboundAction::Finish(Err(ref e)) if e == "reset"));

    let (phase, _) = OutboundPhase::start::<&'static str, String>("ping");
    let (phase, _) = outbound_step(phase, OutboundEvent::RequestWritten(Ok(())));
    let (phase, _) = outbound_step(phase, OutboundEvent::StreamClosed(Ok(())));
    let (phase, _) = outbound_step(phase, OutboundEvent::StreamClosed(Ok(())));
    let (phase, action) = outbound_step(phase, OutboundEvent::ResponseRead(Err("eof".to_string())));
    assert_eq!(phase, OutboundPhase::Finished);
    assert!(matches!(action, OutboundAction::Finish(Err(ref e)) if e == "eof"));
}

#[test]
fn requester_waits_only_for_the_expected_report() {
    assert!(OutboundPhase::WritingRequest.accepts(&Out::RequestWritten(Ok(()))));
    assert!(!OutboundPhase::WritingRequest.accepts(&Out::ResponseRead(Ok("x"))));
    assert!(OutboundPhase::ClosingStream.accepts(&Out::StreamClosed(Ok(()))));
    assert!(!OutboundPhase::Finished.accepts(&Out::ResponseRead(Ok("x"))));
}

#[test]
fn frame_lengths_up_to_the_limit_are_accepted() {
    assert_eq!(check_frame_len(0), Ok(()));
    assert_eq!(check_frame_len(1_000_000), Ok(()));
    assert_eq!(check_frame_len(1_000_001), Err(FrameError::TooLarge));
    assert_eq!(check_frame_len(usize::MAX), Err(FrameError::TooLarge));
}

#[test]
fn request_travels_to_the_handler_and_the_answer_back() {
    // The requester writes; the responder reads what was written.
    let (mut out_phase, out_action) = OutboundPhase::start::<&'static str, String>("ping");
    let written = match out_action {
        OutboundAction::WriteRequest(request) => request,
        _ => panic!("the requester starts by writing"),
    };
    let (in_phase, _) = InboundPhase::start::<&'static str, String>();
    let (in_phase, action) = inbound_step(in_phase, InboundEvent::RequestRead(Ok(written)));
    let delivered = match action {
        InboundAction::DeliverRequest(request) => request,
        _ => panic!("the responder delivers the request"),
    };
    assert_eq!(delivered, "ping");
    let (in_phase, _) = inbound_step(in_phase, InboundEvent::RequestDelivered);
    let (in_phase, action) = inbound_step(in_phase, InboundEvent::ResponseReceived(Some("pong")));
    let answer = match action {
        InboundAction::WriteResponse(response) => response,
        _ => panic!("the responder writes the answer"),
    };
    let (in_phase, _) = inbound_step(in_phase, InboundEvent::ResponseWritten(Ok(())));
    let (in_phase, _) = inbound_step(in_phase, InboundEvent::StreamClosed(Ok(())));
    let (_, action) = inbound_step(in_phase, InboundEvent::StreamClosed(Ok(())));
    assert!(matches!(action, InboundAction::Finish(Ok(true))));

    for event in [OutboundEvent::RequestWritten(Ok(())), OutboundEvent::StreamClosed(Ok(())), OutboundEvent::StreamClosed(Ok(()))] {
        out_phase = outbound_step(out_phase, event).0;
    }
    let (_, action) = outbound_step(out_phase, OutboundEvent::ResponseRead(Ok(answer)));
    assert!(matches!(action, OutboundAction::Finish(Ok("pong"))));
}
