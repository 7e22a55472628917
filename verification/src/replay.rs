//! Replay of a recorded session.
//!
//! A [`Replay`] decides; its caller acts. The caller connects or binds, sleeps,
//! writes and reads as the replay asks, and reports each outcome with
//! [`Replay::step`], which answers with the notices to publish and with what
//! to do next. Over TCP two lanes run side by side: the sender lane walks the
//! payloads, the reader lane drains what the peer sends. Over UDP there is
//! only the sender lane.

use crate::codec::{encode, hex_text};
use crate::event::{log_event, no_events, push_event, Event, EventView};
use crate::log::LogLevel;
use crate::text::{endpoint, endpoint_text, join};
use crate::types::{
    clone_payloads, protocol_name, PayloadType, Protocol, ReplayablePayload,
    ReplayablePayloadView, ReplayableSession,
};
use vstd::prelude::*;

verus! {

/// Where the sender lane of a replay stands.
#[derive(Clone, Copy, PartialEq, Eq, Debug, Structural)]
pub enum SenderLane {
    /// The connection or socket is not there yet.
    Idle,
    /// Waiting out the delay of the payload at hand.
    Sleeping,
    /// Waiting for the transmission of the payload at hand to end.
    Sending,
    /// No payload will be attempted any more.
    Done,
}

/// What the caller reports to a replay.
pub enum ReplayInput {
    /// The TCP connection is open, or the UDP socket is bound.
    Ready,
    /// Connecting or binding failed, for the reason given.
    SetupFailed(String),
    /// The delay that was asked for has passed.
    DelayElapsed,
    /// The bytes that were handed out have been sent.
    Transmitted,
    /// Sending the bytes failed, for the reason given.
    TransmitFailed(String),
    /// A read from the connection returned these bytes. A read that returns
    /// none means that the peer closed the connection.
    Received(Vec<u8>),
    /// The peer closed the connection.
    RemoteClosed,
    /// Reading from the connection failed, for the reason given.
    ReadFailed(String),
}

/// What a [`ReplayInput`] holds, as plain values.
pub enum ReplayInputView {
    Ready,
    SetupFailed(Seq<char>),
    DelayElapsed,
    Transmitted,
    TransmitFailed(Seq<char>),
    Received(Seq<u8>),
    RemoteClosed,
    ReadFailed(Seq<char>),
}

impl View for ReplayInput {
    type V = ReplayInputView;

    open spec fn view(&self) -> ReplayInputView {
        match self {
            ReplayInput::Ready => ReplayInputView::Ready,
            ReplayInput::SetupFailed(reason) => ReplayInputView::SetupFailed(reason@),
            ReplayInput::DelayElapsed => ReplayInputView::DelayElapsed,
            ReplayInput::Transmitted => ReplayInputView::Transmitted,
            ReplayInput::TransmitFailed(reason) => ReplayInputView::TransmitFailed(reason@),
            ReplayInput::Received(bytes) => ReplayInputView::Received(bytes@),
            ReplayInput::RemoteClosed => ReplayInputView::RemoteClosed,
            ReplayInput::ReadFailed(reason) => ReplayInputView::ReadFailed(reason@),
        }
    }
}

/// What a replay asks of the lane that reported.
pub enum ReplayAction {
    /// Wait this many milliseconds, and report `DelayElapsed`.
    Sleep(u64),
    /// Send these bytes, and report how it went.
    Transmit(Vec<u8>),
    /// Go on reading, and report what comes.
    Read,
    /// This lane has nothing more to do.
    Stop,
}

/// What a [`ReplayAction`] holds, as plain values.
pub enum ReplayActionView {
    Sleep(u64),
    Transmit(Seq<u8>),
    Read,
    Stop,
}

impl View for ReplayAction {
    type V = ReplayActionView;

    open spec fn view(&self) -> ReplayActionView {
        match self {
            ReplayAction::Sleep(ms) => ReplayActionView::Sleep(*ms),
            ReplayAction::Transmit(bytes) => ReplayActionView::Transmit(bytes@),
            ReplayAction::Read => ReplayActionView::Read,
            ReplayAction::Stop => ReplayActionView::Stop,
        }
    }
}

/// The answer of a replay to one report: notices to publish, in order, and
/// what to do next.
pub struct ReplayOutput<S> {
    pub events: Vec<Event<S>>,
    pub action: ReplayAction,
}

/// What a [`ReplayOutput`] holds, as plain values.
pub struct ReplayOutputView<S> {
    pub events: Seq<EventView<S>>,
    pub action: ReplayActionView,
}

impl<S> View for ReplayOutput<S> {
    type V = ReplayOutputView<S>;

    open spec fn view(&self) -> ReplayOutputView<S> {
        ReplayOutputView { events: self.events.deep_view(), action: self.action@ }
    }
}

/// The state of a replay, as plain values.
pub struct ReplayView<S> {
    pub protocol: Protocol,
    pub payloads: Seq<ReplayablePayloadView>,
    /// Host and port the payloads go to.
    pub target: Seq<char>,
    pub session_id: S,
    pub lane: SenderLane,
    /// The payload the sender lane is at.
    pub index: nat,
    /// How many payloads have been sent.
    pub sent: nat,
    /// Whether the reader lane is running.
    pub reading: bool,
    /// The stop signal: the reader lane saw the connection end.
    pub stop: bool,
}

/// The log line of an open TCP connection.
pub open spec fn msg_connected(target: Seq<char>) -> Seq<char> {
    "Replay connected to "@ + target
}

/// The log line of a bound UDP socket.
pub open spec fn msg_udp_ready(target: Seq<char>) -> Seq<char> {
    "Replay UDP ready to "@ + target
}

/// The log line of a failed TCP connect.
pub open spec fn msg_connect_failed(reason: Seq<char>) -> Seq<char> {
    "Replay connection failed: "@ + reason
}

/// The log line of a failed UDP bind.
pub open spec fn msg_bind_failed(reason: Seq<char>) -> Seq<char> {
    "Replay UDP bind failed: "@ + reason
}

/// The log line of a sender lane that ends because the connection did.
pub open spec fn msg_stopped() -> Seq<char> {
    "Replay stopped due to disconnect"@
}

/// The log line of a payload that does not decode.
pub open spec fn msg_invalid_payload() -> Seq<char> {
    "Replay invalid payload"@
}

/// The log line of a failed transmission.
pub open spec fn msg_send_failed(reason: Seq<char>) -> Seq<char> {
    "Replay send failed: "@ + reason
}

/// The log line of a payload that was sent: its text as recorded.
pub open spec fn msg_sent(text: Seq<char>) -> Seq<char> {
    "Sent: "@ + text
}

/// The log line of inbound bytes, shown as hexadecimal text.
pub open spec fn msg_received(bytes: Seq<u8>) -> Seq<char> {
    "Received: "@ + hex_text(bytes)
}

/// The log line of a connection that the peer closed.
pub open spec fn msg_closed_by_server() -> Seq<char> {
    "Connection closed by server"@
}

/// The log line of a failed read.
pub open spec fn msg_read_failed(reason: Seq<char>) -> Seq<char> {
    "Replay read error: "@ + reason
}

/// The closing line of a replay.
pub open spec fn msg_finished() -> Seq<char> {
    "Replay finished"@
}

impl<S> ReplayView<S> {
    /// The replay before anything has been reported to it.
    pub open spec fn initial(
        protocol: Protocol,
        payloads: Seq<ReplayablePayloadView>,
        target: Seq<char>,
        session_id: S,
    ) -> Self {
        ReplayView {
            protocol,
            payloads,
            target,
            session_id,
            lane: SenderLane::Idle,
            index: 0,
            sent: 0,
            reading: false,
            stop: false,
        }
    }

    /// What holds of every replay that was made by [`Replay::new`] and driven
    /// by [`Replay::step`].
    pub open spec fn wf(self) -> bool {
        &&& self.payloads.len() <= usize::MAX
        &&& self.index <= self.payloads.len()
        &&& self.sent <= self.index
        &&& (self.lane is Sleeping || self.lane is Sending) ==> self.index < self.payloads.len()
        &&& self.lane is Idle ==> self.index == 0
    }

    /// Whether both lanes have ended.
    pub open spec fn finished(self) -> bool {
        self.lane is Done && !self.reading
    }

    /// A line for this replay's log.
    pub open spec fn log(self, level: LogLevel, message: Seq<char>) -> EventView<S> {
        log_event(self.session_id, level, message)
    }

    /// The answer to a report that does not fit the state: nothing changes and
    /// nothing is published.
    pub open spec fn ignore(self) -> (Self, ReplayOutputView<S>) {
        (self, ReplayOutputView { events: seq![], action: ReplayActionView::Stop })
    }

    /// A lane has just ended: where that was the last one, the closing line
    /// follows `events`.
    pub open spec fn lane_ended(self, events: Seq<EventView<S>>) -> (Self, ReplayOutputView<S>) {
        if self.finished() {
            (
                self,
                ReplayOutputView {
                    events: events.push(self.log(LogLevel::Info, msg_finished())),
                    action: ReplayActionView::Stop,
                },
            )
        } else {
            (self, ReplayOutputView { events, action: ReplayActionView::Stop })
        }
    }

    /// The sender lane ends.
    pub open spec fn end_sender(self, events: Seq<EventView<S>>) -> (Self, ReplayOutputView<S>) {
        ReplayView { lane: SenderLane::Done, ..self }.lane_ended(events)
    }

    /// The reader lane ends, and raises the stop signal.
    pub open spec fn end_reader(self, events: Seq<EventView<S>>) -> (Self, ReplayOutputView<S>) {
        ReplayView { reading: false, stop: true, ..self }.lane_ended(events)
    }

    /// The sender lane turns to the payload at `index`: it ends where there is
    /// none or where the stop signal is up, and else asks for that payload's
    /// delay.
    pub open spec fn turn_to(self, index: nat, events: Seq<EventView<S>>) -> (
        Self,
        ReplayOutputView<S>,
    ) {
        let at = ReplayView { index, ..self };
        if index >= self.payloads.len() {
            at.end_sender(events)
        } else if self.stop {
            at.end_sender(events.push(self.log(LogLevel::Info, msg_stopped())))
        } else {
            (
                ReplayView { lane: SenderLane::Sleeping, ..at },
                ReplayOutputView {
                    events,
                    action: ReplayActionView::Sleep(self.payloads[index as int].delay),
                },
            )
        }
    }

    /// The connection or socket is there.
    pub open spec fn on_ready(self) -> (Self, ReplayOutputView<S>) {
        match self.protocol {
            Protocol::Tcp => ReplayView { reading: true, ..self }.turn_to(
                0,
                seq![self.log(LogLevel::Info, msg_connected(self.target))],
            ),
            Protocol::Udp => self.turn_to(
                0,
                seq![self.log(LogLevel::Info, msg_udp_ready(self.target))],
            ),
        }
    }

    /// Connecting or binding failed: the replay is over before it began.
    pub open spec fn on_setup_failed(self, reason: Seq<char>) -> (Self, ReplayOutputView<S>) {
        let message = match self.protocol {
            Protocol::Tcp => msg_connect_failed(reason),
            Protocol::Udp => msg_bind_failed(reason),
        };
        (
            ReplayView { lane: SenderLane::Done, ..self },
            ReplayOutputView {
                events: seq![self.log(LogLevel::Error, message)],
                action: ReplayActionView::Stop,
            },
        )
    }

    /// The delay of the payload at hand has passed.
    pub open spec fn on_delay_elapsed(self) -> (Self, ReplayOutputView<S>) {
        if self.stop {
            self.end_sender(seq![self.log(LogLevel::Info, msg_stopped())])
        } else {
            match self.payloads[self.index as int].bytes() {
                None => self.turn_to(
                    self.index + 1,
                    seq![self.log(LogLevel::Warn, msg_invalid_payload())],
                ),
                Some(bytes) => if bytes.len() == 0 {
                    self.turn_to(self.index + 1, seq![])
                } else {
                    (
                        ReplayView { lane: SenderLane::Sending, ..self },
                        ReplayOutputView {
                            events: seq![],
                            action: ReplayActionView::Transmit(bytes),
                        },
                    )
                },
            }
        }
    }

    /// The payload at hand has been sent.
    pub open spec fn on_transmitted(self) -> (Self, ReplayOutputView<S>) {
        ReplayView { sent: self.sent + 1, ..self }.turn_to(
            self.index + 1,
            seq![
                EventView::Progress {
                    session_id: self.session_id,
                    payloads_sent: (self.sent + 1) as usize,
                },
                self.log(LogLevel::Info, msg_sent(self.payloads[self.index as int].payload)),
            ],
        )
    }

    /// Sending the payload at hand failed: the rest is given up.
    pub open spec fn on_transmit_failed(self, reason: Seq<char>) -> (Self, ReplayOutputView<S>) {
        self.end_sender(seq![self.log(LogLevel::Error, msg_send_failed(reason))])
    }

    /// The peer sent bytes.
    pub open spec fn on_received(self, bytes: Seq<u8>) -> (Self, ReplayOutputView<S>) {
        (
            self,
            ReplayOutputView {
                events: seq![self.log(LogLevel::Info, msg_received(bytes))],
                action: ReplayActionView::Read,
            },
        )
    }

    /// The peer closed the connection.
    pub open spec fn on_remote_closed(self) -> (Self, ReplayOutputView<S>) {
        self.end_reader(seq![self.log(LogLevel::Info, msg_closed_by_server())])
    }

    /// One step of the replay: the state after `input` was reported, and the
    /// answer to it.
    pub open spec fn step(self, input: ReplayInputView) -> (Self, ReplayOutputView<S>) {
        match input {
            ReplayInputView::Ready => if self.lane is Idle {
                self.on_ready()
            } else {
                self.ignore()
            },
            ReplayInputView::SetupFailed(reason) => if self.lane is Idle {
                self.on_setup_failed(reason)
            } else {
                self.ignore()
            },
            ReplayInputView::DelayElapsed => if self.lane is Sleeping {
                self.on_delay_elapsed()
            } else {
                self.ignore()
            },
            ReplayInputView::Transmitted => if self.lane is Sending {
                self.on_transmitted()
            } else {
                self.ignore()
            },
            ReplayInputView::TransmitFailed(reason) => if self.lane is Sending {
                self.on_transmit_failed(reason)
            } else {
                self.ignore()
            },
            ReplayInputView::Received(bytes) => if !self.reading {
                self.ignore()
            } else if bytes.len() == 0 {
                self.on_remote_closed()
            } else {
                self.on_received(bytes)
            },
            ReplayInputView::RemoteClosed => if self.reading {
                self.on_remote_closed()
            } else {
                self.ignore()
            },
            ReplayInputView::ReadFailed(reason) => if self.reading {
                self.end_reader(seq![self.log(LogLevel::Error, msg_read_failed(reason))])
            } else {
                self.ignore()
            },
        }
    }

    /// The state after all of `inputs` were reported in order, and all the
    /// notices that were published on the way.
    pub open spec fn run(self, inputs: Seq<ReplayInputView>) -> (Self, Seq<EventView<S>>)
        decreases inputs.len(),
    {
        if inputs.len() == 0 {
            (self, seq![])
        } else {
            let (next, output) = self.step(inputs[0]);
            let (last, events) = next.run(inputs.drop_first());
            (last, output.events + events)
        }
    }
}

/// Why a recorded session is not replayed.
#[derive(Clone, Copy, PartialEq, Eq, Debug, Structural)]
pub enum ReplayError {
    /// The session was recorded over one protocol and is to be replayed over
    /// another.
    ProtocolMismatch { recorded: Protocol, current: Protocol },
}

/// What a [`ReplayError`] says to the user.
pub open spec fn replay_error_text(error: ReplayError) -> Seq<char> {
    match error {
        ReplayError::ProtocolMismatch { recorded, current } => "Replay protocol ("@
            + protocol_name(recorded) + ") does not match current protocol ("@ + protocol_name(
            current,
        ) + ")"@,
    }
}

impl ReplayError {
    /// What this error says to the user.
    pub fn message(&self) -> (r: String)
        ensures
            r@ == replay_error_text(*self),
    {
        match self {
            ReplayError::ProtocolMismatch { recorded, current } => {
                let mut out = String::from_str("Replay protocol (");
                out.append(recorded.name());
                out.append(") does not match current protocol (");
                out.append(current.name());
                out.append(")");
                out
            },
        }
    }
}

/// Decides whether a recorded session may be replayed where `current` is the
/// protocol in use: only if it was recorded over that protocol.
pub fn check_protocol(session: &ReplayableSession, current: Protocol) -> (r: Result<
    (),
    ReplayError,
>)
    ensures
        r is Ok <==> session@.protocol == current,
        r matches Err(e) ==> e == (ReplayError::ProtocolMismatch {
            recorded: session@.protocol,
            current,
        }),
{
    if session.protocol == current {
        Ok(())
    } else {
        Err(ReplayError::ProtocolMismatch { recorded: session.protocol, current })
    }
}

/// A replay of recorded payloads towards one endpoint.
pub struct Replay<S> {
    protocol: Protocol,
    payloads: Vec<ReplayablePayload>,
    target: String,
    session_id: S,
    lane: SenderLane,
    index: usize,
    sent: usize,
    reading: bool,
    stop: bool,
}

impl<S> View for Replay<S> {
    type V = ReplayView<S>;

    closed spec fn view(&self) -> ReplayView<S> {
        ReplayView {
            protocol: self.protocol,
            payloads: self.payloads.deep_view(),
            target: self.target@,
            session_id: self.session_id,
            lane: self.lane,
            index: self.index as nat,
            sent: self.sent as nat,
            reading: self.reading,
            stop: self.stop,
        }
    }
}

impl<S> Replay<S> {
    #[verifier::type_invariant]
    spec fn inv(self) -> bool {
        self@.wf()
    }
}

impl<S: Copy> Replay<S> {
    /// A replay of `payloads` over `protocol` towards `addr` and `port`, whose
    /// notices carry `session_id`. Nothing has happened yet: the caller
    /// connects (TCP) or binds (UDP) and reports how that went.
    pub fn new(
        protocol: Protocol,
        payloads: Vec<ReplayablePayload>,
        addr: &str,
        port: &str,
        session_id: S,
    ) -> (r: Self)
        ensures
            r@ == ReplayView::initial(
                protocol,
                payloads.deep_view(),
                endpoint_text(addr@, port@),
                session_id,
            ),
            r@.wf(),
    {
        assert(payloads.deep_view().len() == payloads.len());
        Replay {
            protocol,
            payloads,
            target: endpoint(addr, port),
            session_id,
            lane: SenderLane::Idle,
            index: 0,
            sent: 0,
            reading: false,
            stop: false,
        }
    }

    /// A replay of the recorded `session` where `current` is the protocol in
    /// use. A session that was recorded over another protocol is turned down:
    /// no replay comes to be, so nothing is connected, bound or published.
    pub fn for_session(
        session: &ReplayableSession,
        current: Protocol,
        addr: &str,
        port: &str,
        session_id: S,
    ) -> (r: Result<Self, ReplayError>)
        ensures
            r is Ok <==> session@.protocol == current,
            r matches Ok(replay) ==> replay@ == ReplayView::initial(
                current,
                session@.payloads,
                endpoint_text(addr@, port@),
                session_id,
            ) && replay@.wf(),
            r matches Err(e) ==> e == (ReplayError::ProtocolMismatch {
                recorded: session@.protocol,
                current,
            }),
    {
        match check_protocol(session, current) {
            Ok(()) => Ok(
                Replay::new(current, clone_payloads(&session.payloads), addr, port, session_id),
            ),
            Err(e) => Err(e),
        }
    }

    /// The protocol this replay runs over.
    pub fn protocol(&self) -> (r: Protocol)
        ensures
            r == self@.protocol,
    {
        self.protocol
    }

    /// Host and port the payloads go to.
    pub fn target(&self) -> (r: &str)
        ensures
            r@ == self@.target,
    {
        self.target.as_str()
    }

    /// Whether the reader lane is running, so that the caller should be
    /// reading from the connection.
    pub fn reading(&self) -> (r: bool)
        ensures
            r == self@.reading,
    {
        self.reading
    }

    /// Whether the replay is over: both lanes have ended.
    pub fn finished(&self) -> (r: bool)
        ensures
            r == self@.finished(),
    {
        matches!(self.lane, SenderLane::Done) && !self.reading
    }

    /// How many payloads have been sent so far.
    pub fn sent(&self) -> (r: usize)
        ensures
            r == self@.sent,
    {
        self.sent
    }

    /// The position of the payload the sender lane is at, counted from zero.
    pub fn position(&self) -> (r: usize)
        ensures
            r == self@.index,
            self@.wf(),
    {
        proof {
            use_type_invariant(self);
        }
        self.index
    }

    fn log(&self, level: LogLevel, message: String) -> (r: Event<S>)
        ensures
            r@ == self@.log(level, message@),
    {
        Event::log(self.session_id, level, message)
    }

    fn lane_ended(&self, events: Vec<Event<S>>) -> (out: ReplayOutput<S>)
        ensures
            (self@, out@) == self@.lane_ended(events.deep_view()),
    {
        let mut events = events;
        if self.finished() {
            push_event(
                &mut events,
                self.log(LogLevel::Info, String::from_str("Replay finished")),
            );
        }
        ReplayOutput { events, action: ReplayAction::Stop }
    }

    fn end_sender(&mut self, events: Vec<Event<S>>) -> (out: ReplayOutput<S>)
        ensures
            (final(self)@, out@) == old(self)@.end_sender(events.deep_view()),
    {
        proof {
            use_type_invariant(&*self);
        }
        self.lane = SenderLane::Done;
        self.lane_ended(events)
    }

    fn end_reader(&mut self, events: Vec<Event<S>>) -> (out: ReplayOutput<S>)
        ensures
            (final(self)@, out@) == old(self)@.end_reader(events.deep_view()),
    {
        proof {
            use_type_invariant(&*self);
        }
        self.reading = false;
        self.stop = true;
        self.lane_ended(events)
    }

    fn turn_to(&mut self, index: usize, events: Vec<Event<S>>) -> (out: ReplayOutput<S>)
        requires
            old(self)@.index <= index <= old(self)@.payloads.len(),
        ensures
            (final(self)@, out@) == old(self)@.turn_to(index as nat, events.deep_view()),
    {
        proof {
            use_type_invariant(&*self);
        }
        let mut events = events;
        if index >= self.payloads.len() {
            self.lane = SenderLane::Done;
            self.index = index;
            self.lane_ended(events)
        } else if self.stop {
            push_event(
                &mut events,
                self.log(LogLevel::Info, String::from_str("Replay stopped due to disconnect")),
            );
            self.lane = SenderLane::Done;
            self.index = index;
            self.lane_ended(events)
        } else {
            self.lane = SenderLane::Sleeping;
            self.index = index;
            let delay = self.payloads[index].delay;
            ReplayOutput { events, action: ReplayAction::Sleep(delay) }
        }
    }

    fn ignore(&self) -> (out: ReplayOutput<S>)
        ensures
            (self@, out@) == self@.ignore(),
    {
        ReplayOutput { events: no_events(), action: ReplayAction::Stop }
    }

    fn one(&self, level: LogLevel, message: String) -> (events: Vec<Event<S>>)
        ensures
            events.deep_view() == seq![self@.log(level, message@)],
    {
        let mut events: Vec<Event<S>> = no_events();
        push_event(&mut events, self.log(level, message));
        events
    }

    fn on_ready(&mut self) -> (out: ReplayOutput<S>)
        requires
            old(self)@.lane is Idle,
        ensures
            (final(self)@, out@) == old(self)@.on_ready(),
    {
        proof {
            use_type_invariant(&*self);
        }
        match self.protocol {
            Protocol::Tcp => {
                let events = self.one(
                    LogLevel::Info,
                    join("Replay connected to ", self.target.as_str()),
                );
                self.reading = true;
                self.turn_to(0, events)
            },
            Protocol::Udp => {
                let events = self.one(
                    LogLevel::Info,
                    join("Replay UDP ready to ", self.target.as_str()),
                );
                self.turn_to(0, events)
            },
        }
    }

    fn on_setup_failed(&mut self, reason: &str) -> (out: ReplayOutput<S>)
        requires
            old(self)@.lane is Idle,
        ensures
            (final(self)@, out@) == old(self)@.on_setup_failed(reason@),
    {
        proof {
            use_type_invariant(&*self);
        }
        let message = match self.protocol {
            Protocol::Tcp => join("Replay connection failed: ", reason),
            Protocol::Udp => join("Replay UDP bind failed: ", reason),
        };
        let events = self.one(LogLevel::Error, message);
        self.lane = SenderLane::Done;
        ReplayOutput { events, action: ReplayAction::Stop }
    }

    fn on_delay_elapsed(&mut self) -> (out: ReplayOutput<S>)
        requires
            old(self)@.lane is Sleeping,
        ensures
            (final(self)@, out@) == old(self)@.on_delay_elapsed(),
    {
        proof {
            use_type_invariant(&*self);
        }
        if self.stop {
            let events = self.one(
                LogLevel::Info,
                String::from_str("Replay stopped due to disconnect"),
            );
            return self.end_sender(events);
        }
        let next: usize = self.index + 1;
        match self.payloads[self.index].get_payload() {
            Err(_) => {
                let events = self.one(LogLevel::Warn, String::from_str("Replay invalid payload"));
                self.turn_to(next, events)
            },
            Ok(bytes) => {
                if bytes.len() == 0 {
                    self.turn_to(next, no_events())
                } else {
                    self.lane = SenderLane::Sending;
                    ReplayOutput { events: no_events(), action: ReplayAction::Transmit(bytes) }
                }
            },
        }
    }

    fn on_transmitted(&mut self) -> (out: ReplayOutput<S>)
        requires
            old(self)@.lane is Sending,
        ensures
            (final(self)@, out@) == old(self)@.on_transmitted(),
    {
        proof {
            use_type_invariant(&*self);
        }
        let next: usize = self.index + 1;
        let sent: usize = self.sent + 1;
        let mut events: Vec<Event<S>> = no_events();
        push_event(
            &mut events,
            Event::Progress { session_id: self.session_id, payloads_sent: sent },
        );
        push_event(
            &mut events,
            self.log(LogLevel::Info, join("Sent: ", self.payloads[self.index].payload.as_str())),
        );
        assert(events.deep_view() =~= seq![
            EventView::Progress { session_id: self@.session_id, payloads_sent: sent },
            self@.log(LogLevel::Info, msg_sent(self@.payloads[self@.index as int].payload)),
        ]);
        let out = self.turn_to(next, events);
        self.sent = sent;
        out
    }

    fn on_remote_closed(&mut self) -> (out: ReplayOutput<S>)
        ensures
            (final(self)@, out@) == old(self)@.on_remote_closed(),
    {
        let events = self.one(LogLevel::Info, String::from_str("Connection closed by server"));
        self.end_reader(events)
    }

    fn on_received(&self, bytes: &[u8]) -> (out: ReplayOutput<S>)
        ensures
            (self@, out@) == self@.on_received(bytes@),
    {
        let shown = encode(bytes, PayloadType::Hex);
        let events = self.one(LogLevel::Info, join("Received: ", shown.as_str()));
        ReplayOutput { events, action: ReplayAction::Read }
    }

    /// Takes one report from the caller and answers it: the notices to
    /// publish, in order, and what the lane that reported does next. A report
    /// that does not fit the state of the replay changes nothing.
    pub fn step(&mut self, input: ReplayInput) -> (out: ReplayOutput<S>)
        ensures
            (final(self)@, out@) == old(self)@.step(input@),
            old(self)@.wf(),
            final(self)@.wf(),
    {
        proof {
            use_type_invariant(&*self);
        }
        let out = match input {
            ReplayInput::Ready => {
                if matches!(self.lane, SenderLane::Idle) {
                    self.on_ready()
                } else {
                    self.ignore()
                }
            },
            ReplayInput::SetupFailed(reason) => {
                if matches!(self.lane, SenderLane::Idle) {
                    self.on_setup_failed(reason.as_str())
                } else {
                    self.ignore()
                }
            },
            ReplayInput::DelayElapsed => {
                if matches!(self.lane, SenderLane::Sleeping) {
                    self.on_delay_elapsed()
                } else {
                    self.ignore()
                }
            },
            ReplayInput::Transmitted => {
                if matches!(self.lane, SenderLane::Sending) {
                    self.on_transmitted()
                } else {
                    self.ignore()
                }
            },
            ReplayInput::TransmitFailed(reason) => {
                if matches!(self.lane, SenderLane::Sending) {
                    let events = self.one(
                        LogLevel::Error,
                        join("Replay send failed: ", reason.as_str()),
                    );
                    self.end_sender(events)
                } else {
                    self.ignore()
                }
            },
            ReplayInput::Received(bytes) => {
                if !self.reading {
                    self.ignore()
                } else if bytes.len() == 0 {
                    self.on_remote_closed()
                } else {
                    self.on_received(bytes.as_slice())
                }
            },
            ReplayInput::RemoteClosed => {
                if self.reading {
                    self.on_remote_closed()
                } else {
                    self.ignore()
                }
            },
            ReplayInput::ReadFailed(reason) => {
                if self.reading {
                    let events = self.one(
                        LogLevel::Error,
                        join("Replay read error: ", reason.as_str()),
                    );
                    self.end_reader(events)
                } else {
                    self.ignore()
                }
            },
        };
        proof {
            use_type_invariant(&*self);
        }
        out
    }
}

} // verus!
