//! Sending one UDP datagram.
//!
//! UDP keeps no connection, so every send stands alone: bind a local socket,
//! send once, and tell how it went. A [`UdpSend`] decides; its caller binds and
//! sends as asked and reports each outcome with [`UdpSend::step`].

use crate::codec::{encode, encode_bytes};
use crate::event::{log_event, no_events, push_event, Event, EventView};
use crate::log::LogLevel;
use crate::text::{endpoint, endpoint_text, join};
use crate::types::PayloadType;
use vstd::prelude::*;

verus! {

/// Where a one-shot send stands.
#[derive(Clone, Copy, PartialEq, Eq, Debug, Structural)]
pub enum UdpState {
    /// The local socket is being bound.
    Binding,
    /// The datagram is on its way out.
    Sending,
    /// Over, whichever way it went.
    Done,
}

/// What the caller reports to a one-shot send.
pub enum UdpInput {
    /// The local socket is bound.
    Bound,
    /// Binding failed, for the reason given.
    BindFailed(String),
    /// The datagram has been sent.
    Sent,
    /// Sending failed, for the reason given.
    SendFailed(String),
}

/// What a [`UdpInput`] holds, as plain values.
pub enum UdpInputView {
    Bound,
    BindFailed(Seq<char>),
    Sent,
    SendFailed(Seq<char>),
}

impl View for UdpInput {
    type V = UdpInputView;

    open spec fn view(&self) -> UdpInputView {
        match self {
            UdpInput::Bound => UdpInputView::Bound,
            UdpInput::BindFailed(reason) => UdpInputView::BindFailed(reason@),
            UdpInput::Sent => UdpInputView::Sent,
            UdpInput::SendFailed(reason) => UdpInputView::SendFailed(reason@),
        }
    }
}

/// What a one-shot send asks of its caller.
pub enum UdpAction {
    /// Send these bytes as one datagram to the target, and report how it went.
    SendTo(Vec<u8>),
    /// Nothing more.
    Stop,
}

/// What a [`UdpAction`] holds, as plain values.
pub enum UdpActionView {
    SendTo(Seq<u8>),
    Stop,
}

impl View for UdpAction {
    type V = UdpActionView;

    open spec fn view(&self) -> UdpActionView {
        match self {
            UdpAction::SendTo(bytes) => UdpActionView::SendTo(bytes@),
            UdpAction::Stop => UdpActionView::Stop,
        }
    }
}

/// The answer of a one-shot send to one report.
pub struct UdpOutput<S> {
    pub events: Vec<Event<S>>,
    pub action: UdpAction,
}

/// What a [`UdpOutput`] holds, as plain values.
pub struct UdpOutputView<S> {
    pub events: Seq<EventView<S>>,
    pub action: UdpActionView,
}

impl<S> View for UdpOutput<S> {
    type V = UdpOutputView<S>;

    open spec fn view(&self) -> UdpOutputView<S> {
        UdpOutputView { events: self.events.deep_view(), action: self.action@ }
    }
}

/// The state of a one-shot send, as plain values.
pub struct UdpSendView<S> {
    /// Host and port the datagram goes to.
    pub target: Seq<char>,
    pub data: Seq<u8>,
    /// How to show the bytes in the log.
    pub payload_type: PayloadType,
    pub session_id: S,
    pub state: UdpState,
}

/// The log line of a failed bind.
pub open spec fn msg_bind_failed(reason: Seq<char>) -> Seq<char> {
    "UDP bind failed: "@ + reason
}

/// The log line of a failed send.
pub open spec fn msg_send_failed(reason: Seq<char>) -> Seq<char> {
    "UDP send failed: "@ + reason
}

/// The log line of a datagram that was sent.
pub open spec fn msg_sent(shown: Seq<char>) -> Seq<char> {
    "Sent: "@ + shown
}

impl<S> UdpSendView<S> {
    /// The send before anything has been reported to it.
    pub open spec fn initial(
        target: Seq<char>,
        data: Seq<u8>,
        payload_type: PayloadType,
        session_id: S,
    ) -> Self {
        UdpSendView { target, data, payload_type, session_id, state: UdpState::Binding }
    }

    /// The send is over, with one line in the session's log.
    pub open spec fn done(self, level: LogLevel, message: Seq<char>) -> (Self, UdpOutputView<S>) {
        (
            UdpSendView { state: UdpState::Done, ..self },
            UdpOutputView {
                events: seq![log_event(self.session_id, level, message)],
                action: UdpActionView::Stop,
            },
        )
    }

    /// The line that tells what was sent.
    pub open spec fn sent(self) -> (Self, UdpOutputView<S>) {
        self.done(LogLevel::Info, msg_sent(encode_bytes(self.data, self.payload_type)))
    }

    /// One step of the send: the state after `input` was reported, and the
    /// answer to it. A report that does not fit the state changes nothing.
    pub open spec fn step(self, input: UdpInputView) -> (Self, UdpOutputView<S>) {
        match (self.state, input) {
            (UdpState::Binding, UdpInputView::Bound) => if self.data.len() == 0 {
                self.sent()
            } else {
                (
                    UdpSendView { state: UdpState::Sending, ..self },
                    UdpOutputView { events: seq![], action: UdpActionView::SendTo(self.data) },
                )
            },
            (UdpState::Binding, UdpInputView::BindFailed(reason)) => self.done(
                LogLevel::Error,
                msg_bind_failed(reason),
            ),
            (UdpState::Sending, UdpInputView::Sent) => self.sent(),
            (UdpState::Sending, UdpInputView::SendFailed(reason)) => self.done(
                LogLevel::Error,
                msg_send_failed(reason),
            ),
            _ => (self, UdpOutputView { events: seq![], action: UdpActionView::Stop }),
        }
    }
}

/// One datagram to send to one endpoint.
pub struct UdpSend<S> {
    target: String,
    data: Vec<u8>,
    payload_type: PayloadType,
    session_id: S,
    state: UdpState,
}

impl<S> View for UdpSend<S> {
    type V = UdpSendView<S>;

    closed spec fn view(&self) -> UdpSendView<S> {
        UdpSendView {
            target: self.target@,
            data: self.data@,
            payload_type: self.payload_type,
            session_id: self.session_id,
            state: self.state,
        }
    }
}

impl<S: Copy> UdpSend<S> {
    /// A send of `data` to `addr` and `port`, whose notices carry `session_id`
    /// and show the bytes as `payload_type`. Nothing has happened yet: the
    /// caller binds a local socket and reports how that went.
    pub fn new(
        data: Vec<u8>,
        addr: &str,
        port: &str,
        session_id: S,
        payload_type: PayloadType,
    ) -> (r: Self)
        ensures
            r@ == UdpSendView::initial(
                endpoint_text(addr@, port@),
                data@,
                payload_type,
                session_id,
            ),
    {
        UdpSend {
            target: endpoint(addr, port),
            data,
            payload_type,
            session_id,
            state: UdpState::Binding,
        }
    }

    /// Host and port the datagram goes to.
    pub fn target(&self) -> (r: &str)
        ensures
            r@ == self@.target,
    {
        self.target.as_str()
    }

    /// Where the send stands.
    pub fn state(&self) -> (r: UdpState)
        ensures
            r == self@.state,
    {
        self.state
    }

    fn done(&mut self, level: LogLevel, message: String) -> (out: UdpOutput<S>)
        ensures
            (final(self)@, out@) == old(self)@.done(level, message@),
    {
        let mut events: Vec<Event<S>> = no_events();
        push_event(&mut events, Event::log(self.session_id, level, message));
        self.state = UdpState::Done;
        UdpOutput { events, action: UdpAction::Stop }
    }

    fn sent(&mut self) -> (out: UdpOutput<S>)
        ensures
            (final(self)@, out@) == old(self)@.sent(),
    {
        let shown = encode(self.data.as_slice(), self.payload_type);
        self.done(LogLevel::Info, join("Sent: ", shown.as_str()))
    }

    /// Takes one report from the caller and answers it: the notices to
    /// publish and what to do next. A datagram of no bytes is not sent.
    pub fn step(&mut self, input: UdpInput) -> (out: UdpOutput<S>)
        ensures
            (final(self)@, out@) == old(self)@.step(input@),
    {
        match (self.state, input) {
            (UdpState::Binding, UdpInput::Bound) => {
                if self.data.len() == 0 {
                    self.sent()
                } else {
                    self.state = UdpState::Sending;
                    UdpOutput { events: no_events(), action: UdpAction::SendTo(self.data.clone()) }
                }
            },
            (UdpState::Binding, UdpInput::BindFailed(reason)) => {
                self.done(LogLevel::Error, join("UDP bind failed: ", reason.as_str()))
            },
            (UdpState::Sending, UdpInput::Sent) => self.sent(),
            (UdpState::Sending, UdpInput::SendFailed(reason)) => {
                self.done(LogLevel::Error, join("UDP send failed: ", reason.as_str()))
            },
            _ => UdpOutput { events: no_events(), action: UdpAction::Stop },
        }
    }
}

/// One attempt, never a second. A datagram is handed out only in answer to
/// the report that the socket is bound, and only if it holds at least one
/// byte; after that no step hands out another.
pub proof fn lemma_udp_sends_at_most_once<S>(s: UdpSendView<S>, input: UdpInputView)
    ensures
        ({
            let (t, out) = s.step(input);
            &&& out.action matches UdpActionView::SendTo(bytes) ==> {
                &&& s.state is Binding
                &&& input is Bound
                &&& t.state is Sending
                &&& bytes == s.data
                &&& bytes.len() > 0
            }
            &&& !(s.state is Binding) ==> !(t.state is Binding)
            &&& s.state is Done ==> t == s && out.events.len() == 0
            &&& out.events.len() <= 1
            &&& out.events.len() == 1 ==> t.state is Done && out.events[0] is Log
        }),
{
}

} // verus!
