//! The request/response substream protocol of the SpaceTime layer.
//!
//! A responder reads one length-prefixed request from an inbound substream,
//! hands it to the protocol handler, waits for the handler's response and,
//! if one comes, writes it back. A requester writes one request on an
//! outbound substream and reads one response. The transport (framing,
//! substreams, channels) lives around this module; here are the decisions
//! that the two upgrades make, as state machines driven by what the
//! transport reports back.

use vstd::prelude::*;

verus! {

/// The level of support for a particular protocol.
#[derive(Debug, Clone)]
pub enum ProtocolSupport {
    /// The protocol is only supported for inbound requests.
    Inbound,
    /// The protocol is only supported for outbound requests.
    Outbound,
    /// The protocol is supported for inbound and outbound requests.
    Full,
}

impl ProtocolSupport {
    /// Whether this level supports inbound requests.
    pub open spec fn supports_inbound(self) -> bool {
        self is Inbound || self is Full
    }

    /// Whether this level supports outbound requests.
    pub open spec fn supports_outbound(self) -> bool {
        self is Outbound || self is Full
    }

    /// Whether inbound requests are supported.
    pub fn inbound(&self) -> (r: bool)
        ensures
            r == self.supports_inbound(),
    {
        match self {
            ProtocolSupport::Inbound | ProtocolSupport::Full => true,
            ProtocolSupport::Outbound => false,
        }
    }

    /// Whether outbound requests are supported.
    pub fn outbound(&self) -> (r: bool)
        ensures
            r == self.supports_outbound(),
    {
        match self {
            ProtocolSupport::Outbound | ProtocolSupport::Full => true,
            ProtocolSupport::Inbound => false,
        }
    }
}

/// Every level of support allows at least one direction, only `Full` allows
/// both, and `Inbound` and `Outbound` allow exactly the direction they name.
pub proof fn protocol_support_directions(support: ProtocolSupport)
    ensures
        support.supports_inbound() || support.supports_outbound(),
        (support.supports_inbound() && support.supports_outbound()) <==> support is Full,
        support is Inbound ==> support.supports_inbound() && !support.supports_outbound(),
        support is Outbound ==> support.supports_outbound() && !support.supports_inbound(),
{
}


/// The largest request or response, in bytes, that a substream reads.
pub const MAX_MESSAGE_LEN: usize = 1_000_000;

/// Why a frame read from a substream cannot hold a message.
#[derive(Debug, Clone, Copy, PartialEq, Eq)]
pub enum FrameError {
    /// The frame was empty: the peer ended the stream before sending a message.
    UnexpectedEof,
    /// The frame announced more bytes than a message may have.
    TooLarge,
}

/// Checks the length that a frame announces before its bytes are read: a
/// message may have at most `MAX_MESSAGE_LEN` bytes.
pub fn check_frame_len(len: usize) -> (r: Result<(), FrameError>)
    ensures
        r is Err <==> len > MAX_MESSAGE_LEN,
        r is Err ==> r == Err::<(), FrameError>(FrameError::TooLarge),
{
    if len > MAX_MESSAGE_LEN {
        Err(FrameError::TooLarge)
    } else {
        Ok(())
    }
}

/// Checks a length-prefixed frame just read from a substream: an empty frame
/// means the stream ended early; any other frame is the encoded message.
pub fn check_frame(buf: &[u8]) -> (r: Result<&[u8], FrameError>)
    ensures
        buf@.len() == 0 ==> r == Err::<&[u8], FrameError>(FrameError::UnexpectedEof),
        buf@.len() > 0 ==> r == Ok::<&[u8], FrameError>(buf),
{
    if buf.len() == 0 {
        Err(FrameError::UnexpectedEof)
    } else {
        Ok(buf)
    }
}

} // verus!
