//! A live TCP session.
//!
//! A [`Session`] decides; its caller acts. The caller connects, writes, and
//! waits for whichever comes first of a command and inbound bytes, as the
//! session asks, and reports each outcome with [`Session::step`], which
//! answers with the notices to publish and with what to do next.

use crate::codec::{decode, decode_text, encode, encode_bytes, hex_text};
use crate::event::{log_event, main_log_event, no_events, push_event, Event, EventView};
use crate::log::LogLevel;
use crate::text::{endpoint, endpoint_text, join, join3};
use crate::types::{payload_type_name, PayloadType, SessionCommand, SessionCommandView};
use vstd::prelude::*;

verus! {

/// Where a session stands.
#[derive(Clone, Copy, PartialEq, Eq, Debug, Structural)]
pub enum SessionState {
    /// The connection is being made.
    Connecting,
    /// Connected; the initial payload is being written.
    Bootstrapping,
    /// Connected and waiting for a command or for inbound bytes.
    Connected,
    /// Connected; the bytes of a command are being written.
    Writing,
    /// Over, after having been connected.
    Closed,
    /// Over without ever having been connected.
    Failed,
}

/// What the caller reports to a session.
pub enum SessionInput {
    /// The connection is open.
    Connected,
    /// Connecting failed, for the reason given.
    ConnectFailed(String),
    /// The bytes that were handed out have been written.
    Written,
    /// Writing the bytes failed, for the reason given.
    WriteFailed(String),
    /// A command arrived in the mailbox.
    Command(SessionCommand),
    /// The mailbox is closed: nobody can send a command any more.
    MailboxClosed,
    /// A read from the connection returned these bytes. A read that returns
    /// none means that the peer closed the connection.
    Received(Vec<u8>),
    /// The peer closed the connection.
    RemoteClosed,
    /// Reading from the connection failed, for the reason given.
    ReadFailed(String),
}

/// What a [`SessionInput`] holds, as plain values.
pub enum SessionInputView {
    Connected,
    ConnectFailed(Seq<char>),
    Written,
    WriteFailed(Seq<char>),
    Command(SessionCommandView),
    MailboxClosed,
    Received(Seq<u8>),
    RemoteClosed,
    ReadFailed(Seq<char>),
}

impl View for SessionInput {
    type V = SessionInputView;

    open spec fn view(&self) -> SessionInputView {
        match self {
            SessionInput::Connected => SessionInputView::Connected,
            SessionInput::ConnectFailed(reason) => SessionInputView::ConnectFailed(reason@),
            SessionInput::Written => SessionInputView::Written,
            SessionInput::WriteFailed(reason) => SessionInputView::WriteFailed(reason@),
            SessionInput::Command(command) => SessionInputView::Command(command@),
            SessionInput::MailboxClosed => SessionInputView::MailboxClosed,
            SessionInput::Received(bytes) => SessionInputView::Received(bytes@),
            SessionInput::RemoteClosed => SessionInputView::RemoteClosed,
            SessionInput::ReadFailed(reason) => SessionInputView::ReadFailed(reason@),
        }
    }
}

/// What a session asks of its caller.
pub enum SessionAction {
    /// Write all of these bytes to the connection, and report how it went.
    Write(Vec<u8>),
    /// Wait for a command or for inbound bytes, whichever comes first, and
    /// report it.
    Listen,
    /// Nothing more: the session is over, or the report did not fit.
    Stop,
}

/// What a [`SessionAction`] holds, as plain values.
pub enum SessionActionView {
    Write(Seq<u8>),
    Listen,
    Stop,
}

impl View for SessionAction {
    type V = SessionActionView;

    open spec fn view(&self) -> SessionActionView {
        match self {
            SessionAction::Write(bytes) => SessionActionView::Write(bytes@),
            SessionAction::Listen => SessionActionView::Listen,
            SessionAction::Stop => SessionActionView::Stop,
        }
    }
}

/// The answer of a session to one report: notices to publish, in order, and
/// what to do next.
pub struct SessionOutput<S> {
    pub events: Vec<Event<S>>,
    pub action: SessionAction,
}

/// What a [`SessionOutput`] holds, as plain values.
pub struct SessionOutputView<S> {
    pub events: Seq<EventView<S>>,
    pub action: SessionActionView,
}

impl<S> View for SessionOutput<S> {
    type V = SessionOutputView<S>;

    open spec fn view(&self) -> SessionOutputView<S> {
        SessionOutputView { events: self.events.deep_view(), action: self.action@ }
    }
}

/// The state of a session, as plain values.
pub struct SessionView<S> {
    /// Host and port of the peer.
    pub target: Seq<char>,
    /// The text to send right after connecting; empty for none.
    pub initial_payload: Seq<char>,
    pub initial_payload_type: PayloadType,
    pub session_id: S,
    pub state: SessionState,
    /// The bytes being written, while the state is `Bootstrapping` or
    /// `Writing`.
    pub pending: Seq<u8>,
    /// How to show the bytes being written.
    pub pending_type: PayloadType,
}

/// The log line of an open connection.
pub open spec fn msg_connected(target: Seq<char>) -> Seq<char> {
    "Connected to "@ + target
}

/// The line of the shared log for a session that has begun.
pub open spec fn msg_session_started(target: Seq<char>) -> Seq<char> {
    "Session started: "@ + target
}

/// The log line of a failed connect.
pub open spec fn msg_connect_failed(reason: Seq<char>) -> Seq<char> {
    "Connection failed: "@ + reason
}

/// The line of the shared log for a session that never connected.
pub open spec fn msg_session_failed(target: Seq<char>) -> Seq<char> {
    "Session failed: "@ + target
}

/// The log line of a failed write of the initial payload.
pub open spec fn msg_initial_failed(reason: Seq<char>) -> Seq<char> {
    "Failed to send initial payload: "@ + reason
}

/// The log line of the initial payload once written.
pub open spec fn msg_initial_sent(shown: Seq<char>) -> Seq<char> {
    "Sent initial payload: "@ + shown
}

/// The log line of an initial payload that does not decode.
pub open spec fn msg_initial_invalid(kind: PayloadType) -> Seq<char> {
    "Invalid initial payload ("@ + payload_type_name(kind) + ")"@
}

/// The log line of a failed write of a command's bytes.
pub open spec fn msg_send_failed(reason: Seq<char>) -> Seq<char> {
    "Send failed: "@ + reason
}

/// The log line of a command's bytes once written.
pub open spec fn msg_sent(shown: Seq<char>) -> Seq<char> {
    "Sent: "@ + shown
}

/// The line of the shared log for a disconnect command.
pub open spec fn msg_disconnect() -> Seq<char> {
    "Disconnect received"@
}

/// The log line of inbound bytes, shown as hexadecimal text.
pub open spec fn msg_received(bytes: Seq<u8>) -> Seq<char> {
    "Received: "@ + hex_text(bytes)
}

/// The log line of a connection that the peer closed.
pub open spec fn msg_closed_by_server() -> Seq<char> {
    "Connection closed by server"@
}

/// The log line of a failed read.
pub open spec fn msg_read_failed(reason: Seq<char>) -> Seq<char> {
    "Read error: "@ + reason
}

/// The line of the shared log for a session that has ended.
pub open spec fn msg_session_ended(target: Seq<char>) -> Seq<char> {
    "Session ended: "@ + target
}

impl<S> SessionView<S> {
    /// The session before anything has been reported to it.
    pub open spec fn initial(
        target: Seq<char>,
        initial_payload: Seq<char>,
        initial_payload_type: PayloadType,
        session_id: S,
    ) -> Self {
        SessionView {
            target,
            initial_payload,
            initial_payload_type,
            session_id,
            state: SessionState::Connecting,
            pending: Seq::empty(),
            pending_type: initial_payload_type,
        }
    }

    /// Whether the connection is open.
    pub open spec fn live(self) -> bool {
        self.state is Bootstrapping || self.state is Connected || self.state is Writing
    }

    /// Whether the session is over.
    pub open spec fn over(self) -> bool {
        self.state is Closed || self.state is Failed
    }

    /// A line for this session's log.
    pub open spec fn log(self, level: LogLevel, message: Seq<char>) -> EventView<S> {
        log_event(self.session_id, level, message)
    }

    /// The answer to a report that does not fit the state: nothing changes and
    /// nothing is published.
    pub open spec fn ignore(self) -> (Self, SessionOutputView<S>) {
        (self, SessionOutputView { events: seq![], action: SessionActionView::Stop })
    }

    /// The session goes on waiting for a command or for inbound bytes, after
    /// publishing `events`.
    pub open spec fn listen(self, events: Seq<EventView<S>>) -> (Self, SessionOutputView<S>) {
        (
            SessionView { state: SessionState::Connected, ..self },
            SessionOutputView { events, action: SessionActionView::Listen },
        )
    }

    /// The session starts writing `bytes`, to be shown as `kind` once written.
    pub open spec fn write(
        self,
        state: SessionState,
        bytes: Seq<u8>,
        kind: PayloadType,
        events: Seq<EventView<S>>,
    ) -> (Self, SessionOutputView<S>) {
        (
            SessionView { state, pending: bytes, pending_type: kind, ..self },
            SessionOutputView { events, action: SessionActionView::Write(bytes) },
        )
    }

    /// The session ends: after `events` it tells that it is no longer
    /// connected, and signs off in the shared log.
    pub open spec fn close(self, events: Seq<EventView<S>>) -> (Self, SessionOutputView<S>) {
        (
            SessionView { state: SessionState::Closed, ..self },
            SessionOutputView {
                events: events.push(
                    EventView::Connection { session_id: self.session_id, connected: false },
                ).push(main_log_event(LogLevel::Info, msg_session_ended(self.target))),
                action: SessionActionView::Stop,
            },
        )
    }

    /// The notices of a fresh connection.
    pub open spec fn greeting(self) -> Seq<EventView<S>> {
        seq![
            self.log(LogLevel::Info, msg_connected(self.target)),
            main_log_event(LogLevel::Info, msg_session_started(self.target)),
            EventView::Connection { session_id: self.session_id, connected: true },
        ]
    }

    /// The connection is open: the session greets, and sends its initial
    /// payload if it has one that decodes to any bytes.
    pub open spec fn on_connected(self) -> (Self, SessionOutputView<S>) {
        let kind = self.initial_payload_type;
        if self.initial_payload.len() == 0 {
            self.listen(self.greeting())
        } else {
            match decode_text(self.initial_payload, kind) {
                None => self.listen(
                    self.greeting().push(self.log(LogLevel::Warn, msg_initial_invalid(kind))),
                ),
                Some(bytes) => if bytes.len() == 0 {
                    self.listen(
                        self.greeting().push(
                            self.log(LogLevel::Info, msg_initial_sent(encode_bytes(bytes, kind))),
                        ),
                    )
                } else {
                    self.write(SessionState::Bootstrapping, bytes, kind, self.greeting())
                },
            }
        }
    }

    /// Connecting failed: the session is over without having been connected.
    pub open spec fn on_connect_failed(self, reason: Seq<char>) -> (Self, SessionOutputView<S>) {
        (
            SessionView { state: SessionState::Failed, ..self },
            SessionOutputView {
                events: seq![
                    self.log(LogLevel::Error, msg_connect_failed(reason)),
                    main_log_event(LogLevel::Error, msg_session_failed(self.target)),
                ],
                action: SessionActionView::Stop,
            },
        )
    }

    /// A command arrived.
    pub open spec fn on_command(self, command: SessionCommandView) -> (
        Self,
        SessionOutputView<S>,
    ) {
        match command {
            SessionCommandView::SendPacket(bytes, kind) => if bytes.len() == 0 {
                self.listen(seq![self.log(LogLevel::Info, msg_sent(encode_bytes(bytes, kind)))])
            } else {
                self.write(SessionState::Writing, bytes, kind, seq![])
            },
            SessionCommandView::Disconnect => self.close(
                seq![main_log_event(LogLevel::Info, msg_disconnect())],
            ),
        }
    }

    /// The write that was asked for is done.
    pub open spec fn on_written(self) -> (Self, SessionOutputView<S>) {
        let shown = encode_bytes(self.pending, self.pending_type);
        if self.state is Bootstrapping {
            self.listen(seq![self.log(LogLevel::Info, msg_initial_sent(shown))])
        } else {
            self.listen(seq![self.log(LogLevel::Info, msg_sent(shown))])
        }
    }

    /// The write that was asked for failed: of the initial payload, the
    /// session goes on; of a command, it ends.
    pub open spec fn on_write_failed(self, reason: Seq<char>) -> (Self, SessionOutputView<S>) {
        if self.state is Bootstrapping {
            self.listen(seq![self.log(LogLevel::Error, msg_initial_failed(reason))])
        } else {
            self.close(seq![self.log(LogLevel::Error, msg_send_failed(reason))])
        }
    }

    /// The peer closed the connection: the session says so in its log and
    /// ends.
    pub open spec fn on_remote_closed(self) -> (Self, SessionOutputView<S>) {
        self.close(seq![self.log(LogLevel::Info, msg_closed_by_server())])
    }

    /// One step of the session: the state after `input` was reported, and the
    /// answer to it.
    pub open spec fn step(self, input: SessionInputView) -> (Self, SessionOutputView<S>) {
        match input {
            SessionInputView::Connected => if self.state is Connecting {
                self.on_connected()
            } else {
                self.ignore()
            },
            SessionInputView::ConnectFailed(reason) => if self.state is Connecting {
                self.on_connect_failed(reason)
            } else {
                self.ignore()
            },
            SessionInputView::Written => if self.state is Bootstrapping || self.state is Writing {
                self.on_written()
            } else {
                self.ignore()
            },
            SessionInputView::WriteFailed(reason) => if self.state is Bootstrapping
                || self.state is Writing {
                self.on_write_failed(reason)
            } else {
                self.ignore()
            },
            SessionInputView::Command(command) => if self.state is Connected {
                self.on_command(command)
            } else {
                self.ignore()
            },
            SessionInputView::MailboxClosed => if self.state is Connected {
                self.close(seq![])
            } else {
                self.ignore()
            },
            SessionInputView::Received(bytes) => if !(self.state is Connected) {
                self.ignore()
            } else if bytes.len() == 0 {
                self.on_remote_closed()
            } else {
                self.listen(seq![self.log(LogLevel::Info, msg_received(bytes))])
            },
            SessionInputView::RemoteClosed => if self.state is Connected {
                self.on_remote_closed()
            } else {
                self.ignore()
            },
            SessionInputView::ReadFailed(reason) => if self.state is Connected {
                self.close(seq![self.log(LogLevel::Error, msg_read_failed(reason))])
            } else {
                self.ignore()
            },
        }
    }

    /// The state after all of `inputs` were reported in order, and all the
    /// notices that were published on the way.
    pub open spec fn run(self, inputs: Seq<SessionInputView>) -> (Self, Seq<EventView<S>>)
        decreases inputs.len(),
    {
        if inputs.len() == 0 {
            (self, seq![])
        } else {
            let (next, output) = self.step(inputs[0]);
            let (last, events) = next.run(inputs.drop_first());
            (last, output.events + events)
        }
    }
}

/// A live TCP session with one peer.
pub struct Session<S> {
    target: String,
    initial_payload: String,
    initial_payload_type: PayloadType,
    session_id: S,
    state: SessionState,
    pending: Vec<u8>,
    pending_type: PayloadType,
}

impl<S> View for Session<S> {
    type V = SessionView<S>;

    closed spec fn view(&self) -> SessionView<S> {
        SessionView {
            target: self.target@,
            initial_payload: self.initial_payload@,
            initial_payload_type: self.initial_payload_type,
            session_id: self.session_id,
            state: self.state,
            pending: self.pending@,
            pending_type: self.pending_type,
        }
    }
}

impl<S: Copy> Session<S> {
    /// A session with the peer at `addr` and `port`, whose notices carry
    /// `session_id`. Once connected it sends `initial_payload`, read as
    /// `initial_payload_type`, unless that text is empty. Nothing has happened
    /// yet: the caller connects and reports how that went.
    pub fn new(
        addr: &str,
        port: &str,
        initial_payload: String,
        initial_payload_type: PayloadType,
        session_id: S,
    ) -> (r: Self)
        ensures
            r@ == SessionView::initial(
                endpoint_text(addr@, port@),
                initial_payload@,
                initial_payload_type,
                session_id,
            ),
    {
        Session {
            target: endpoint(addr, port),
            initial_payload,
            initial_payload_type,
            session_id,
            state: SessionState::Connecting,
            pending: Vec::new(),
            pending_type: initial_payload_type,
        }
    }

    /// Host and port of the peer.
    pub fn target(&self) -> (r: &str)
        ensures
            r@ == self@.target,
    {
        self.target.as_str()
    }

    /// Where the session stands.
    pub fn state(&self) -> (r: SessionState)
        ensures
            r == self@.state,
    {
        self.state
    }

    /// Whether the session is over.
    pub fn over(&self) -> (r: bool)
        ensures
            r == self@.over(),
    {
        matches!(self.state, SessionState::Closed | SessionState::Failed)
    }

    fn log(&self, level: LogLevel, message: String) -> (r: Event<S>)
        ensures
            r@ == self@.log(level, message@),
    {
        Event::log(self.session_id, level, message)
    }

    fn one(&self, level: LogLevel, message: String) -> (events: Vec<Event<S>>)
        ensures
            events.deep_view() == seq![self@.log(level, message@)],
    {
        let mut events: Vec<Event<S>> = no_events();
        push_event(&mut events, self.log(level, message));
        events
    }

    fn ignore(&self) -> (out: SessionOutput<S>)
        ensures
            (self@, out@) == self@.ignore(),
    {
        SessionOutput { events: no_events(), action: SessionAction::Stop }
    }

    fn listen(&mut self, events: Vec<Event<S>>) -> (out: SessionOutput<S>)
        ensures
            (final(self)@, out@) == old(self)@.listen(events.deep_view()),
    {
        self.state = SessionState::Connected;
        SessionOutput { events, action: SessionAction::Listen }
    }

    fn write(
        &mut self,
        state: SessionState,
        bytes: Vec<u8>,
        kind: PayloadType,
        events: Vec<Event<S>>,
    ) -> (out: SessionOutput<S>)
        ensures
            (final(self)@, out@) == old(self)@.write(state, bytes@, kind, events.deep_view()),
    {
        self.state = state;
        self.pending = bytes.clone();
        self.pending_type = kind;
        SessionOutput { events, action: SessionAction::Write(bytes) }
    }

    fn close(&mut self, events: Vec<Event<S>>) -> (out: SessionOutput<S>)
        ensures
            (final(self)@, out@) == old(self)@.close(events.deep_view()),
    {
        let mut events = events;
        push_event(
            &mut events,
            Event::Connection { session_id: self.session_id, connected: false },
        );
        push_event(
            &mut events,
            Event::main_log(LogLevel::Info, join("Session ended: ", self.target.as_str())),
        );
        self.state = SessionState::Closed;
        SessionOutput { events, action: SessionAction::Stop }
    }

    fn greeting(&self) -> (events: Vec<Event<S>>)
        ensures
            events.deep_view() == self@.greeting(),
    {
        let mut events: Vec<Event<S>> = no_events();
        push_event(
            &mut events,
            self.log(LogLevel::Info, join("Connected to ", self.target.as_str())),
        );
        push_event(
            &mut events,
            Event::main_log(LogLevel::Info, join("Session started: ", self.target.as_str())),
        );
        push_event(
            &mut events,
            Event::Connection { session_id: self.session_id, connected: true },
        );
        events
    }

    fn on_connected(&mut self) -> (out: SessionOutput<S>)
        ensures
            (final(self)@, out@) == old(self)@.on_connected(),
    {
        let kind = self.initial_payload_type;
        let mut events = self.greeting();
        if self.initial_payload.as_str().is_empty() {
            return self.listen(events);
        }
        match decode(self.initial_payload.as_str(), kind) {
            Err(_) => {
                push_event(
                    &mut events,
                    self.log(LogLevel::Warn, join3("Invalid initial payload (", kind.name(), ")")),
                );
                self.listen(events)
            },
            Ok(bytes) => {
                if bytes.len() == 0 {
                    let shown = encode(bytes.as_slice(), kind);
                    push_event(
                        &mut events,
                        self.log(LogLevel::Info, join("Sent initial payload: ", shown.as_str())),
                    );
                    self.listen(events)
                } else {
                    self.write(SessionState::Bootstrapping, bytes, kind, events)
                }
            },
        }
    }

    fn on_connect_failed(&mut self, reason: &str) -> (out: SessionOutput<S>)
        ensures
            (final(self)@, out@) == old(self)@.on_connect_failed(reason@),
    {
        let mut events = self.one(LogLevel::Error, join("Connection failed: ", reason));
        push_event(
            &mut events,
            Event::main_log(LogLevel::Error, join("Session failed: ", self.target.as_str())),
        );
        assert(events.deep_view() =~= seq![
            self@.log(LogLevel::Error, msg_connect_failed(reason@)),
            main_log_event(LogLevel::Error, msg_session_failed(self@.target)),
        ]);
        self.state = SessionState::Failed;
        SessionOutput { events, action: SessionAction::Stop }
    }

    fn on_command(&mut self, command: SessionCommand) -> (out: SessionOutput<S>)
        ensures
            (final(self)@, out@) == old(self)@.on_command(command@),
    {
        match command {
            SessionCommand::SendPacket(bytes, kind) => {
                if bytes.len() == 0 {
                    let shown = encode(bytes.as_slice(), kind);
                    let events = self.one(LogLevel::Info, join("Sent: ", shown.as_str()));
                    self.listen(events)
                } else {
                    self.write(SessionState::Writing, bytes, kind, no_events())
                }
            },
            SessionCommand::Disconnect => {
                let mut events: Vec<Event<S>> = no_events();
                push_event(
                    &mut events,
                    Event::main_log(LogLevel::Info, String::from_str("Disconnect received")),
                );
                self.close(events)
            },
        }
    }

    fn on_remote_closed(&mut self) -> (out: SessionOutput<S>)
        ensures
            (final(self)@, out@) == old(self)@.on_remote_closed(),
    {
        let events = self.one(LogLevel::Info, String::from_str("Connection closed by server"));
        self.close(events)
    }

    fn on_written(&mut self) -> (out: SessionOutput<S>)
        ensures
            (final(self)@, out@) == old(self)@.on_written(),
    {
        let shown = encode(self.pending.as_slice(), self.pending_type);
        let events = if matches!(self.state, SessionState::Bootstrapping) {
            self.one(LogLevel::Info, join("Sent initial payload: ", shown.as_str()))
        } else {
            self.one(LogLevel::Info, join("Sent: ", shown.as_str()))
        };
        self.listen(events)
    }

    fn on_write_failed(&mut self, reason: &str) -> (out: SessionOutput<S>)
        ensures
            (final(self)@, out@) == old(self)@.on_write_failed(reason@),
    {
        if matches!(self.state, SessionState::Bootstrapping) {
            let events = self.one(
                LogLevel::Error,
                join("Failed to send initial payload: ", reason),
            );
            self.listen(events)
        } else {
            let events = self.one(LogLevel::Error, join("Send failed: ", reason));
            self.close(events)
        }
    }

    /// Takes one report from the caller and answers it: the notices to
    /// publish, in order, and what to do next. A report that does not fit the
    /// state of the session changes nothing.
    pub fn step(&mut self, input: SessionInput) -> (out: SessionOutput<S>)
        ensures
            (final(self)@, out@) == old(self)@.step(input@),
    {
        let writing = matches!(self.state, SessionState::Bootstrapping | SessionState::Writing);
        let connected = matches!(self.state, SessionState::Connected);
        match input {
            SessionInput::Connected => {
                if matches!(self.state, SessionState::Connecting) {
                    self.on_connected()
                } else {
                    self.ignore()
                }
            },
            SessionInput::ConnectFailed(reason) => {
                if matches!(self.state, SessionState::Connecting) {
                    self.on_connect_failed(reason.as_str())
                } else {
                    self.ignore()
                }
            },
            SessionInput::Written => {
                if writing {
                    self.on_written()
                } else {
                    self.ignore()
                }
            },
            SessionInput::WriteFailed(reason) => {
                if writing {
                    self.on_write_failed(reason.as_str())
                } else {
                    self.ignore()
                }
            },
            SessionInput::Command(command) => {
                if connected {
                    self.on_command(command)
                } else {
                    self.ignore()
                }
            },
            SessionInput::MailboxClosed => {
                if connected {
                    self.close(no_events())
                } else {
                    self.ignore()
                }
            },
            SessionInput::Received(bytes) => {
                if !connected {
                    self.ignore()
                } else if bytes.len() == 0 {
                    self.on_remote_closed()
                } else {
                    let shown = encode(bytes.as_slice(), PayloadType::Hex);
                    let events = self.one(LogLevel::Info, join("Received: ", shown.as_str()));
                    self.listen(events)
                }
            },
            SessionInput::RemoteClosed => {
                if connected {
                    self.on_remote_closed()
                } else {
                    self.ignore()
                }
            },
            SessionInput::ReadFailed(reason) => {
                if connected {
                    let events = self.one(LogLevel::Error, join("Read error: ", reason.as_str()));
                    self.close(events)
                } else {
                    self.ignore()
                }
            },
        }
    }
}

} // verus!
