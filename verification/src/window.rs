//! What a window knows of its session or replay, and how that changes.

use crate::codec::{decode, decode_text};
use crate::text::{join3, push_char};
use crate::types::{
    clone_payloads, LogMessage, PayloadType, Protocol, ReplayablePayload, ReplayablePayloadView,
    ReplayableSession, ReplayableSessionView, SessionCommand, SessionCommandView,
};
use vstd::prelude::*;

verus! {

/// The state of a window on a live session.
pub struct SessionData {
    /// What the user has typed and not yet sent.
    pub payload_input: String,
    pub log: String,
    pub connected: bool,
    /// How the typed text is read.
    pub payload_type: PayloadType,
    pub protocol: Protocol,
    /// The payloads sent so far, as a later replay will need them.
    pub replay_payloads: Vec<ReplayablePayload>,
    /// When the last payload was sent, in milliseconds on the caller's clock;
    /// `None` before the first.
    pub last_packet_time: Option<u64>,
    pub input_placeholder: String,
    pub initial_payload: String,
    pub initial_payload_type: PayloadType,
}

/// What a [`SessionData`] holds, as plain values.
pub struct SessionDataView {
    pub payload_input: Seq<char>,
    pub log: Seq<char>,
    pub connected: bool,
    pub payload_type: PayloadType,
    pub protocol: Protocol,
    pub replay_payloads: Seq<ReplayablePayloadView>,
    pub last_packet_time: Option<u64>,
    pub input_placeholder: Seq<char>,
    pub initial_payload: Seq<char>,
    pub initial_payload_type: PayloadType,
}

impl View for SessionData {
    type V = SessionDataView;

    open spec fn view(&self) -> SessionDataView {
        SessionDataView {
            payload_input: self.payload_input@,
            log: self.log@,
            connected: self.connected,
            payload_type: self.payload_type,
            protocol: self.protocol,
            replay_payloads: self.replay_payloads.deep_view(),
            last_packet_time: self.last_packet_time,
            input_placeholder: self.input_placeholder@,
            initial_payload: self.initial_payload@,
            initial_payload_type: self.initial_payload_type,
        }
    }
}

/// The state of a window on a replay.
pub struct ReplayData {
    pub log: String,
    pub payloads: Vec<ReplayablePayload>,
    pub connected: bool,
    /// The file the session was loaded from.
    pub file_name: String,
    /// How many payloads the replay has sent so far.
    pub current_index: usize,
}

impl Clone for SessionData {
    fn clone(&self) -> (r: Self)
        ensures
            r@ == self@,
    {
        SessionData {
            payload_input: self.payload_input.clone(),
            log: self.log.clone(),
            connected: self.connected,
            payload_type: self.payload_type,
            protocol: self.protocol,
            replay_payloads: clone_payloads(&self.replay_payloads),
            last_packet_time: self.last_packet_time,
            input_placeholder: self.input_placeholder.clone(),
            initial_payload: self.initial_payload.clone(),
            initial_payload_type: self.initial_payload_type,
        }
    }
}

/// What a [`ReplayData`] holds, as plain values.
pub struct ReplayDataView {
    pub log: Seq<char>,
    pub payloads: Seq<ReplayablePayloadView>,
    pub connected: bool,
    pub file_name: Seq<char>,
    pub current_index: usize,
}

impl View for ReplayData {
    type V = ReplayDataView;

    open spec fn view(&self) -> ReplayDataView {
        ReplayDataView {
            log: self.log@,
            payloads: self.payloads.deep_view(),
            connected: self.connected,
            file_name: self.file_name@,
            current_index: self.current_index,
        }
    }
}

impl Clone for ReplayData {
    fn clone(&self) -> (r: Self)
        ensures
            r@ == self@,
    {
        ReplayData {
            log: self.log.clone(),
            payloads: clone_payloads(&self.payloads),
            connected: self.connected,
            file_name: self.file_name.clone(),
            current_index: self.current_index,
        }
    }
}

/// What a window shows: a live session or a replay.
pub enum WindowState {
    Session(SessionData),
    Replay(ReplayData),
}

/// What a [`WindowState`] holds, as plain values.
pub enum WindowStateView {
    Session(SessionDataView),
    Replay(ReplayDataView),
}

impl View for WindowState {
    type V = WindowStateView;

    open spec fn view(&self) -> WindowStateView {
        match self {
            WindowState::Session(data) => WindowStateView::Session(data@),
            WindowState::Replay(data) => WindowStateView::Replay(data@),
        }
    }
}

impl Clone for WindowState {
    fn clone(&self) -> (r: Self)
        ensures
            r@ == self@,
    {
        match self {
            WindowState::Session(data) => WindowState::Session(data.clone()),
            WindowState::Replay(data) => WindowState::Replay(data.clone()),
        }
    }
}

/// A window with its title.
pub struct Window {
    pub title: String,
    pub state: WindowState,
}

/// What a [`Window`] holds, as plain values.
pub struct WindowView {
    pub title: Seq<char>,
    pub state: WindowStateView,
}

impl View for Window {
    type V = WindowView;

    open spec fn view(&self) -> WindowView {
        WindowView { title: self.title@, state: self.state@ }
    }
}

impl Clone for Window {
    fn clone(&self) -> (r: Self)
        ensures
            r@ == self@,
    {
        Window { title: self.title.clone(), state: self.state.clone() }
    }
}

/// What is to be done with the text the user submitted.
pub enum Dispatch {
    /// The window holds no session: nothing.
    Nothing,
    /// The text does not decode: tell the user.
    Invalid,
    /// Hand this command to the session's mailbox.
    ToSession(SessionCommand),
    /// Send these bytes as one datagram, to be shown as the payload type says.
    Datagram(Vec<u8>, PayloadType),
}

/// What a [`Dispatch`] holds, as plain values.
pub enum DispatchView {
    Nothing,
    Invalid,
    ToSession(SessionCommandView),
    Datagram(Seq<u8>, PayloadType),
}

impl View for Dispatch {
    type V = DispatchView;

    open spec fn view(&self) -> DispatchView {
        match self {
            Dispatch::Nothing => DispatchView::Nothing,
            Dispatch::Invalid => DispatchView::Invalid,
            Dispatch::ToSession(command) => DispatchView::ToSession(command@),
            Dispatch::Datagram(bytes, kind) => DispatchView::Datagram(bytes@, *kind),
        }
    }
}

/// The hint shown in an empty input field.
pub open spec fn placeholder(kind: PayloadType) -> Seq<char> {
    match kind {
        PayloadType::Hex => "68656c6c6f20776f726c64"@,
        PayloadType::Ascii => "Hello World"@,
    }
}

/// The title of a session window when it opens.
pub open spec fn opening_title(protocol: Protocol) -> Seq<char> {
    match protocol {
        Protocol::Tcp => "replayr - Tcp session (disconnected)"@,
        Protocol::Udp => "replayr - Udp session"@,
    }
}

/// The title of a TCP session window once its connection has changed.
pub open spec fn connection_title(connected: bool, address: Seq<char>) -> Seq<char> {
    if connected {
        "Tcp session (connected to "@ + address + ")"@
    } else {
        "Tcp session (disconnected)"@
    }
}

/// What becomes of one character of a title in a file name: a space becomes an
/// underscore, parentheses are left out, anything else stays.
pub open spec fn tidy_char(c: char) -> Option<char> {
    if c == '(' || c == ')' {
        None
    } else if c == ' ' {
        Some('_')
    } else {
        Some(c)
    }
}

/// A title with every space made an underscore and every parenthesis left
/// out.
pub open spec fn tidied(title: Seq<char>) -> Seq<char>
    decreases title.len(),
{
    if title.len() == 0 {
        seq![]
    } else {
        let rest = tidied(title.drop_last());
        match tidy_char(title.last()) {
            Some(c) => rest.push(c),
            None => rest,
        }
    }
}

/// Whether `text` begins with `to_`.
pub open spec fn begins_with_to(text: Seq<char>) -> bool {
    text.len() >= 3 && text[0] == 't' && text[1] == 'o' && text[2] == '_'
}

/// `text` with every `to_` left out, found from left to right.
pub open spec fn without_to(text: Seq<char>) -> Seq<char>
    decreases text.len(),
{
    if text.len() == 0 {
        seq![]
    } else if begins_with_to(text) {
        without_to(text.skip(3))
    } else {
        seq![text[0]] + without_to(text.skip(1))
    }
}

/// The file name offered for what is exported from the window titled `title`:
/// the title with spaces made underscores, without parentheses and without
/// `to_`, followed by `ending`.
pub open spec fn export_name(title: Seq<char>, ending: Seq<char>) -> Seq<char> {
    without_to(tidied(title)) + ending
}

/// The time between the payload sent last and a submission: none before the
/// first payload, and none where the clock went backwards.
pub open spec fn delay_since(last: Option<u64>, now: u64) -> u64 {
    match last {
        Some(last) => if now >= last {
            (now - last) as u64
        } else {
            0
        },
        None => 0,
    }
}

impl SessionDataView {
    /// A session window that has just opened. A UDP session counts as
    /// connected from the start.
    pub open spec fn opened(
        protocol: Protocol,
        initial_payload: Seq<char>,
        initial_payload_type: PayloadType,
    ) -> Self {
        SessionDataView {
            payload_input: Seq::empty(),
            log: Seq::empty(),
            connected: protocol is Udp,
            payload_type: PayloadType::Hex,
            protocol,
            replay_payloads: Seq::empty(),
            last_packet_time: None,
            input_placeholder: placeholder(PayloadType::Hex),
            initial_payload,
            initial_payload_type,
        }
    }

    /// The payload that a submission at `now` records.
    pub open spec fn recorded(self, now: u64) -> ReplayablePayloadView {
        ReplayablePayloadView {
            payload: self.payload_input,
            payload_type: self.payload_type,
            delay: delay_since(self.last_packet_time, now),
        }
    }

    /// The window after the user submitted the typed text at `now`. Text that
    /// does not decode, or decodes to no bytes, is not sent and changes
    /// nothing. Text that is sent is recorded for replay, and the clock by
    /// which the next delay is measured starts anew.
    pub open spec fn submitted(self, now: u64) -> Self {
        if self.recorded(now).sendable() {
            SessionDataView {
                replay_payloads: self.replay_payloads.push(self.recorded(now)),
                last_packet_time: Some(now),
                ..self
            }
        } else {
            self
        }
    }

    /// What is to be done with the typed text: over TCP it goes to the
    /// session's mailbox, over UDP it is sent as a datagram.
    pub open spec fn dispatch(self) -> DispatchView {
        match decode_text(self.payload_input, self.payload_type) {
            None => DispatchView::Invalid,
            Some(bytes) => match self.protocol {
                Protocol::Tcp => DispatchView::ToSession(
                    SessionCommandView::SendPacket(bytes, self.payload_type),
                ),
                Protocol::Udp => DispatchView::Datagram(bytes, self.payload_type),
            },
        }
    }

    /// The recorded session that this window exports.
    pub open spec fn exported(self) -> ReplayableSessionView {
        ReplayableSessionView { protocol: self.protocol, payloads: self.replay_payloads }
    }
}

impl WindowView {
    /// The window after the user typed `text`.
    pub open spec fn input_changed(self, text: Seq<char>) -> Self {
        match self.state {
            WindowStateView::Session(data) => WindowView {
                state: WindowStateView::Session(SessionDataView { payload_input: text, ..data }),
                ..self
            },
            _ => self,
        }
    }

    /// The window after the user chose how the typed text is read.
    pub open spec fn payload_type_changed(self, kind: PayloadType) -> Self {
        match self.state {
            WindowStateView::Session(data) => WindowView {
                state: WindowStateView::Session(
                    SessionDataView {
                        payload_type: kind,
                        input_placeholder: placeholder(kind),
                        ..data
                    },
                ),
                ..self
            },
            _ => self,
        }
    }

    /// The window after the user submitted the typed text at `now`.
    pub open spec fn packet_sent(self, now: u64) -> Self {
        match self.state {
            WindowStateView::Session(data) => WindowView {
                state: WindowStateView::Session(data.submitted(now)),
                ..self
            },
            _ => self,
        }
    }

    /// What is to be done with the typed text.
    pub open spec fn dispatch(self) -> DispatchView {
        match self.state {
            WindowStateView::Session(data) => data.dispatch(),
            _ => DispatchView::Nothing,
        }
    }

    /// The window after a log line arrived: the line and a line break are
    /// added to its log.
    pub open spec fn log_received(self, content: Seq<char>) -> Self {
        match self.state {
            WindowStateView::Session(data) => WindowView {
                state: WindowStateView::Session(
                    SessionDataView { log: data.log + content + "\n"@, ..data },
                ),
                ..self
            },
            WindowStateView::Replay(data) => WindowView {
                state: WindowStateView::Replay(
                    ReplayDataView { log: data.log + content + "\n"@, ..data },
                ),
                ..self
            },
        }
    }

    /// The window after its session told whether it is connected.
    pub open spec fn connection_status(self, connected: bool, address: Seq<char>) -> Self {
        match self.state {
            WindowStateView::Session(data) => WindowView {
                title: connection_title(connected, address),
                state: WindowStateView::Session(SessionDataView { connected, ..data }),
            },
            _ => self,
        }
    }

    /// The window after its replay began.
    pub open spec fn replay_started(self) -> Self {
        match self.state {
            WindowStateView::Replay(data) => WindowView {
                state: WindowStateView::Replay(ReplayDataView { connected: true, ..data }),
                ..self
            },
            _ => self,
        }
    }

    /// The window after its replay told how many payloads it has sent.
    pub open spec fn replay_progress(self, current: usize) -> Self {
        match self.state {
            WindowStateView::Replay(data) => WindowView {
                state: WindowStateView::Replay(ReplayDataView { current_index: current, ..data }),
                ..self
            },
            _ => self,
        }
    }

    /// The recorded session that this window exports, if it holds a session.
    pub open spec fn exported(self) -> Option<ReplayableSessionView> {
        match self.state {
            WindowStateView::Session(data) => Some(data.exported()),
            _ => None,
        }
    }
}

impl PayloadType {
    /// The hint shown in an empty input field for this payload type.
    pub fn placeholder(&self) -> (r: &'static str)
        ensures
            r@ == placeholder(*self),
    {
        match self {
            PayloadType::Hex => "68656c6c6f20776f726c64",
            PayloadType::Ascii => "Hello World",
        }
    }
}

/// The time between the payload sent at `last`, if there was one, and the
/// submission at `now`.
pub fn delay_between(last: Option<u64>, now: u64) -> (r: u64)
    ensures
        r == delay_since(last, now),
{
    match last {
        Some(last) => if now >= last {
            now - last
        } else {
            0
        },
        None => 0,
    }
}

/// The file name offered for what is exported from the window titled `title`.
pub fn export_file_name(title: &str, ending: &str) -> (r: String)
    ensures
        r@ == export_name(title@, ending@),
{
    let len = title.unicode_len();
    let mut tidy: Vec<char> = Vec::new();
    let mut i: usize = 0;
    while i < len
        invariant
            len == title@.len(),
            i <= len,
            tidy@ == tidied(title@.take(i as int)),
        decreases len - i,
    {
        let c = title.get_char(i);
        proof {
            let next = title@.take(i as int + 1);
            assert(next.drop_last() =~= title@.take(i as int));
            assert(next.last() == c);
        }
        if c == ' ' {
            tidy.push('_');
        } else if c != '(' && c != ')' {
            tidy.push(c);
        }
        i += 1;
    }
    assert(title@.take(len as int) =~= title@);
    let mut out = String::new();
    let mut k: usize = 0;
    assert(tidy@.skip(0) =~= tidy@);
    assert(out@ + without_to(tidy@) =~= without_to(tidy@));
    while k < tidy.len()
        invariant
            k <= tidy.len(),
            out@ + without_to(tidy@.skip(k as int)) == without_to(tidy@),
        decreases tidy.len() - k,
    {
        let ghost rest = tidy@.skip(k as int);
        if tidy.len() - k >= 3 && tidy[k] == 't' && tidy[k + 1] == 'o' && tidy[k + 2] == '_' {
            assert(begins_with_to(rest));
            assert(rest.skip(3) =~= tidy@.skip(k as int + 3));
            k += 3;
        } else {
            assert(!begins_with_to(rest));
            assert(rest.skip(1) =~= tidy@.skip(k as int + 1));
            let ghost before = out@;
            push_char(&mut out, tidy[k]);
            assert(before.push(rest[0]) + without_to(rest.skip(1)) =~= before + (seq![rest[0]]
                + without_to(rest.skip(1))));
            k += 1;
        }
    }
    assert(tidy@.skip(tidy@.len() as int) =~= Seq::<char>::empty());
    assert(out@ + Seq::<char>::empty() =~= out@);
    out.append(ending);
    out
}

/// The notice that tells the user in window `window_id` that the typed text
/// does not decode.
pub fn invalid_input_message<S>(window_id: S) -> (r: LogMessage<S>)
    ensures
        r.window_id == window_id,
        r.content@ == "Invalid input"@,
{
    LogMessage { window_id, content: String::from_str("Invalid input") }
}

impl SessionData {
    /// The state of a session window that has just opened.
    pub fn new(protocol: Protocol, initial_payload: String, initial_payload_type: PayloadType) -> (r:
        Self)
        ensures
            r@ == SessionDataView::opened(protocol, initial_payload@, initial_payload_type),
    {
        let replay_payloads: Vec<ReplayablePayload> = Vec::new();
        assert(replay_payloads.deep_view() =~= Seq::<ReplayablePayloadView>::empty());
        SessionData {
            payload_input: String::new(),
            log: String::new(),
            connected: matches!(protocol, Protocol::Udp),
            payload_type: PayloadType::Hex,
            protocol,
            replay_payloads,
            last_packet_time: None,
            input_placeholder: String::from_str(PayloadType::Hex.placeholder()),
            initial_payload,
            initial_payload_type,
        }
    }

    /// Takes the typed text as submitted at `now`, in milliseconds on the
    /// caller's clock, and says what is to be done with its bytes. Text that
    /// does not decode, or decodes to no bytes, leaves the window as it is.
    /// Text that is sent is recorded for replay, with the time since the last
    /// payload was sent as its delay.
    pub fn submit(&mut self, now: u64) -> (r: Dispatch)
        ensures
            final(self)@ == old(self)@.submitted(now),
            r@ == old(self)@.dispatch(),
    {
        let delay = delay_between(self.last_packet_time, now);
        match decode(self.payload_input.as_str(), self.payload_type) {
            Err(_) => Dispatch::Invalid,
            Ok(bytes) => {
                if bytes.len() > 0 {
                    let ghost before = self.replay_payloads.deep_view();
                    let recorded = ReplayablePayload {
                        payload: self.payload_input.clone(),
                        payload_type: self.payload_type,
                        delay,
                    };
                    self.replay_payloads.push(recorded);
                    assert(self.replay_payloads.deep_view() =~= before.push(recorded@));
                    self.last_packet_time = Some(now);
                }
                match self.protocol {
                    Protocol::Tcp => Dispatch::ToSession(
                        SessionCommand::SendPacket(bytes, self.payload_type),
                    ),
                    Protocol::Udp => Dispatch::Datagram(bytes, self.payload_type),
                }
            },
        }
    }

    /// The session recorded in this window so far.
    pub fn export(&self) -> (r: ReplayableSession)
        ensures
            r@ == self@.exported(),
    {
        ReplayableSession {
            protocol: self.protocol,
            payloads: clone_payloads(&self.replay_payloads),
        }
    }
}

impl Window {
    /// A window on a session that has just been opened over `protocol`.
    pub fn session(
        protocol: Protocol,
        initial_payload: String,
        initial_payload_type: PayloadType,
    ) -> (r: Self)
        ensures
            r@ == (WindowView {
                title: opening_title(protocol),
                state: WindowStateView::Session(
                    SessionDataView::opened(protocol, initial_payload@, initial_payload_type),
                ),
            }),
    {
        let title = match protocol {
            Protocol::Tcp => String::from_str("replayr - Tcp session (disconnected)"),
            Protocol::Udp => String::from_str("replayr - Udp session"),
        };
        Window {
            title,
            state: WindowState::Session(
                SessionData::new(protocol, initial_payload, initial_payload_type),
            ),
        }
    }

    /// A window on a replay of `payloads`, loaded from the file `file_name`.
    pub fn replay(payloads: Vec<ReplayablePayload>, file_name: String) -> (r: Self)
        ensures
            r@ == (WindowView {
                title: "Replay session"@,
                state: WindowStateView::Replay(
                    ReplayDataView {
                        log: Seq::empty(),
                        payloads: payloads.deep_view(),
                        connected: false,
                        file_name: file_name@,
                        current_index: 0,
                    },
                ),
            }),
    {
        Window {
            title: String::from_str("Replay session"),
            state: WindowState::Replay(
                ReplayData {
                    log: String::new(),
                    payloads,
                    connected: false,
                    file_name,
                    current_index: 0,
                },
            ),
        }
    }

    /// The user typed `text`.
    pub fn input_changed(&mut self, text: String)
        ensures
            final(self)@ == old(self)@.input_changed(text@),
    {
        match &mut self.state {
            WindowState::Session(data) => {
                data.payload_input = text;
            },
            _ => {},
        }
    }

    /// The user chose how the typed text is read.
    pub fn payload_type_changed(&mut self, kind: PayloadType)
        ensures
            final(self)@ == old(self)@.payload_type_changed(kind),
    {
        match &mut self.state {
            WindowState::Session(data) => {
                data.payload_type = kind;
                data.input_placeholder = String::from_str(kind.placeholder());
            },
            _ => {},
        }
    }

    /// The user submitted the typed text at `now`, in milliseconds on the
    /// caller's clock.
    pub fn send_packet(&mut self, now: u64) -> (r: Dispatch)
        ensures
            final(self)@ == old(self)@.packet_sent(now),
            r@ == old(self)@.dispatch(),
    {
        match &mut self.state {
            WindowState::Session(data) => data.submit(now),
            _ => Dispatch::Nothing,
        }
    }

    /// A log line arrived for this window.
    pub fn log_received(&mut self, content: &str)
        ensures
            final(self)@ == old(self)@.log_received(content@),
    {
        match &mut self.state {
            WindowState::Session(data) => {
                data.log.append(content);
                data.log.append("\n");
            },
            WindowState::Replay(data) => {
                data.log.append(content);
                data.log.append("\n");
            },
        }
    }

    /// The session of this window told whether it is connected to `address`.
    pub fn connection_status(&mut self, connected: bool, address: &str)
        ensures
            final(self)@ == old(self)@.connection_status(connected, address@),
    {
        match &mut self.state {
            WindowState::Session(data) => {
                data.connected = connected;
                self.title = if connected {
                    join3("Tcp session (connected to ", address, ")")
                } else {
                    String::from_str("Tcp session (disconnected)")
                };
            },
            _ => {},
        }
    }

    /// The replay of this window began.
    pub fn replay_started(&mut self)
        ensures
            final(self)@ == old(self)@.replay_started(),
    {
        match &mut self.state {
            WindowState::Replay(data) => {
                data.connected = true;
            },
            _ => {},
        }
    }

    /// The replay of this window has sent `current` payloads so far.
    pub fn replay_progress(&mut self, current: usize)
        ensures
            final(self)@ == old(self)@.replay_progress(current),
    {
        match &mut self.state {
            WindowState::Replay(data) => {
                data.current_index = current;
            },
            _ => {},
        }
    }

    /// The session recorded in this window so far, if it holds a session.
    pub fn export_session(&self) -> (r: Option<ReplayableSession>)
        ensures
            r is Some <==> self@.exported() is Some,
            r matches Some(session) ==> Some(session@) == self@.exported(),
    {
        match &self.state {
            WindowState::Session(data) => Some(data.export()),
            _ => None,
        }
    }
}

/// What is recorded is what was sent. A submission is recorded exactly if it
/// decodes to at least one byte; the record holds the text as typed, its type,
/// and the time since the payload sent before it, and goes to the end of the
/// list. What was recorded before stays as it was. A submission that is not
/// sent changes nothing: the next delay is still measured from the payload sent
/// last.
pub proof fn lemma_submission_records_what_is_sent(data: SessionDataView, now: u64)
    ensures
        ({
            let after = data.submitted(now);
            let sendable = data.recorded(now).sendable();
            &&& sendable ==> after.replay_payloads == data.replay_payloads.push(data.recorded(now))
            &&& sendable ==> after.last_packet_time == Some(now)
            &&& !sendable ==> after == data
            &&& data.replay_payloads.is_prefix_of(after.replay_payloads)
            &&& data.dispatch() is Invalid ==> after == data
        }),
{
}

} // verus!
