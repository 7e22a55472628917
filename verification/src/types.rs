//! The data that sessions and replays are made of.

use crate::codec::{decode, decode_text, DecodeError};
use vstd::prelude::*;

verus! {

/// How the text of a payload is turned into bytes.
#[derive(Clone, Copy, PartialEq, Eq, Debug, Structural)]
pub enum PayloadType {
    Hex,
    Ascii,
}

/// The transport a session runs over.
#[derive(Clone, Copy, PartialEq, Eq, Debug, Structural)]
pub enum Protocol {
    Tcp,
    Udp,
}

/// The name of a payload type as log lines show it.
pub open spec fn payload_type_name(kind: PayloadType) -> Seq<char> {
    match kind {
        PayloadType::Hex => "Hex"@,
        PayloadType::Ascii => "Ascii"@,
    }
}

/// The name of a protocol as messages show it.
pub open spec fn protocol_name(protocol: Protocol) -> Seq<char> {
    match protocol {
        Protocol::Tcp => "Tcp"@,
        Protocol::Udp => "Udp"@,
    }
}

impl PayloadType {
    /// The name of this payload type: `Hex` or `Ascii`.
    pub fn name(&self) -> (r: &'static str)
        ensures
            r@ == payload_type_name(*self),
    {
        match self {
            PayloadType::Hex => "Hex",
            PayloadType::Ascii => "Ascii",
        }
    }
}

impl Protocol {
    /// The name of this protocol: `Tcp` or `Udp`.
    pub fn name(&self) -> (r: &'static str)
        ensures
            r@ == protocol_name(*self),
    {
        match self {
            Protocol::Tcp => "Tcp",
            Protocol::Udp => "Udp",
        }
    }
}

/// One recorded payload: its text, how to read the text, and how long to wait
/// after the previous payload before sending it, in milliseconds.
#[derive(Debug)]
pub struct ReplayablePayload {
    pub payload: String,
    pub payload_type: PayloadType,
    pub delay: u64,
}

/// What a [`ReplayablePayload`] holds, as plain values.
pub struct ReplayablePayloadView {
    pub payload: Seq<char>,
    pub payload_type: PayloadType,
    pub delay: u64,
}

impl ReplayablePayloadView {
    /// The bytes this payload stands for; `None` where its text is malformed.
    pub open spec fn bytes(self) -> Option<Seq<u8>> {
        decode_text(self.payload, self.payload_type)
    }

    /// Whether this payload decodes to at least one byte, so that a replay
    /// transmits it.
    pub open spec fn sendable(self) -> bool {
        self.bytes() matches Some(bytes) && bytes.len() > 0
    }
}

impl View for ReplayablePayload {
    type V = ReplayablePayloadView;

    open spec fn view(&self) -> ReplayablePayloadView {
        ReplayablePayloadView {
            payload: self.payload@,
            payload_type: self.payload_type,
            delay: self.delay,
        }
    }
}

impl DeepView for ReplayablePayload {
    type V = ReplayablePayloadView;

    open spec fn deep_view(&self) -> ReplayablePayloadView {
        self@
    }
}

impl Clone for ReplayablePayload {
    fn clone(&self) -> (r: Self)
        ensures
            r == *self,
    {
        ReplayablePayload {
            payload: self.payload.clone(),
            payload_type: self.payload_type,
            delay: self.delay,
        }
    }
}

impl ReplayablePayload {
    /// Decodes the text of this payload into the bytes to send.
    pub fn get_payload(&self) -> (r: Result<Vec<u8>, DecodeError>)
        ensures
            r is Ok <==> self@.bytes() is Some,
            r matches Ok(bytes) ==> Some(bytes@) == self@.bytes(),
            r matches Err(e) ==> e == DecodeError::InvalidHex,
    {
        decode(self.payload.as_str(), self.payload_type)
    }
}

/// A recorded session: the protocol it ran over and its payloads in the order
/// they were sent.
#[derive(Debug)]
pub struct ReplayableSession {
    pub protocol: Protocol,
    pub payloads: Vec<ReplayablePayload>,
}

/// What a [`ReplayableSession`] holds, as plain values.
pub struct ReplayableSessionView {
    pub protocol: Protocol,
    pub payloads: Seq<ReplayablePayloadView>,
}

impl View for ReplayableSession {
    type V = ReplayableSessionView;

    open spec fn view(&self) -> ReplayableSessionView {
        ReplayableSessionView { protocol: self.protocol, payloads: self.payloads.deep_view() }
    }
}

impl DeepView for ReplayableSession {
    type V = ReplayableSessionView;

    open spec fn deep_view(&self) -> ReplayableSessionView {
        self@
    }
}

/// Copies a list of payloads.
pub fn clone_payloads(payloads: &Vec<ReplayablePayload>) -> (r: Vec<ReplayablePayload>)
    ensures
        r.deep_view() == payloads.deep_view(),
{
    let mut out: Vec<ReplayablePayload> = Vec::new();
    let mut i: usize = 0;
    while i < payloads.len()
        invariant
            i <= payloads.len(),
            out.len() == i,
            forall|k: int| 0 <= k < i ==> out[k] == payloads[k],
        decreases payloads.len() - i,
    {
        out.push(payloads[i].clone());
        i += 1;
    }
    assert(out.deep_view() =~= payloads.deep_view());
    out
}

impl Clone for ReplayableSession {
    fn clone(&self) -> (r: Self)
        ensures
            r@ == self@,
    {
        ReplayableSession { protocol: self.protocol, payloads: clone_payloads(&self.payloads) }
    }
}

/// What a caller asks of a running TCP session.
pub enum SessionCommand {
    /// Send these bytes; the payload type says how to show them in the log.
    SendPacket(Vec<u8>, PayloadType),
    /// End the session.
    Disconnect,
}

/// What a [`SessionCommand`] holds, as plain values.
pub enum SessionCommandView {
    SendPacket(Seq<u8>, PayloadType),
    Disconnect,
}

impl View for SessionCommand {
    type V = SessionCommandView;

    open spec fn view(&self) -> SessionCommandView {
        match self {
            SessionCommand::SendPacket(bytes, kind) => SessionCommandView::SendPacket(
                bytes@,
                *kind,
            ),
            SessionCommand::Disconnect => SessionCommandView::Disconnect,
        }
    }
}

impl Clone for SessionCommand {
    fn clone(&self) -> (r: Self)
        ensures
            r@ == self@,
    {
        match self {
            SessionCommand::SendPacket(bytes, kind) => SessionCommand::SendPacket(
                bytes.clone(),
                *kind,
            ),
            SessionCommand::Disconnect => SessionCommand::Disconnect,
        }
    }
}

/// A finished log line on its way to the window it belongs to.
pub struct LogMessage<S> {
    pub window_id: S,
    pub content: String,
}

impl<S: Copy> Clone for LogMessage<S> {
    fn clone(&self) -> (r: Self)
        ensures
            r == *self,
    {
        LogMessage { window_id: self.window_id, content: self.content.clone() }
    }
}

} // verus!
