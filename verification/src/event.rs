//! What the engine tells its observers.

use crate::log::LogLevel;
use vstd::prelude::*;

verus! {

/// One notice for the observers of a session. `S` is the handle by which the
/// caller tells its sessions apart; the engine only hands it back.
pub enum Event<S> {
    /// A line for the log of the session `session_id`.
    Log { session_id: S, level: LogLevel, message: String },
    /// A line for the log that all sessions share.
    MainLog { level: LogLevel, message: String },
    /// The session `session_id` is now connected, or no longer.
    Connection { session_id: S, connected: bool },
    /// The replay `session_id` has sent this many payloads so far.
    Progress { session_id: S, payloads_sent: usize },
}

/// What an [`Event`] holds, as plain values.
pub enum EventView<S> {
    Log { session_id: S, level: LogLevel, message: Seq<char> },
    MainLog { level: LogLevel, message: Seq<char> },
    Connection { session_id: S, connected: bool },
    Progress { session_id: S, payloads_sent: usize },
}

impl<S> View for Event<S> {
    type V = EventView<S>;

    open spec fn view(&self) -> EventView<S> {
        match self {
            Event::Log { session_id, level, message } => EventView::Log {
                session_id: *session_id,
                level: *level,
                message: message@,
            },
            Event::MainLog { level, message } => EventView::MainLog {
                level: *level,
                message: message@,
            },
            Event::Connection { session_id, connected } => EventView::Connection {
                session_id: *session_id,
                connected: *connected,
            },
            Event::Progress { session_id, payloads_sent } => EventView::Progress {
                session_id: *session_id,
                payloads_sent: *payloads_sent,
            },
        }
    }
}

impl<S> DeepView for Event<S> {
    type V = EventView<S>;

    open spec fn deep_view(&self) -> EventView<S> {
        self@
    }
}

/// A line for the log of one session.
pub open spec fn log_event<S>(session_id: S, level: LogLevel, message: Seq<char>) -> EventView<S> {
    EventView::Log { session_id, level, message }
}

/// A line for the shared log.
pub open spec fn main_log_event<S>(level: LogLevel, message: Seq<char>) -> EventView<S> {
    EventView::MainLog { level, message }
}

/// The numbers that the progress notices among `events` carry, in order.
pub open spec fn progress_values<S>(events: Seq<EventView<S>>) -> Seq<usize>
    decreases events.len(),
{
    if events.len() == 0 {
        seq![]
    } else {
        let rest = progress_values(events.drop_last());
        match events.last() {
            EventView::Progress { payloads_sent, .. } => rest.push(payloads_sent),
            _ => rest,
        }
    }
}

/// How many of `events` say that a session is connected (`connected` true) or
/// no longer connected (`connected` false).
pub open spec fn connection_count<S>(events: Seq<EventView<S>>, connected: bool) -> nat
    decreases events.len(),
{
    if events.len() == 0 {
        0
    } else {
        let rest = connection_count(events.drop_last(), connected);
        match events.last() {
            EventView::Connection { connected: c, .. } => if c == connected {
                rest + 1
            } else {
                rest
            },
            _ => rest,
        }
    }
}

/// The progress numbers of two runs of events in a row are those of the first
/// followed by those of the second.
pub proof fn lemma_progress_values_concat<S>(a: Seq<EventView<S>>, b: Seq<EventView<S>>)
    ensures
        progress_values(a + b) == progress_values(a) + progress_values(b),
    decreases b.len(),
{
    if b.len() == 0 {
        assert(a + b =~= a);
        assert(progress_values(a) + progress_values(b) =~= progress_values(a));
    } else {
        assert((a + b).drop_last() =~= a + b.drop_last());
        assert((a + b).last() == b.last());
        lemma_progress_values_concat(a, b.drop_last());
        match b.last() {
            EventView::Progress { payloads_sent, .. } => {
                assert((progress_values(a) + progress_values(b.drop_last())).push(payloads_sent)
                    =~= progress_values(a) + progress_values(b.drop_last()).push(payloads_sent));
            },
            _ => {},
        }
    }
}

/// The connection notices of two runs of events in a row add up.
pub proof fn lemma_connection_count_concat<S>(
    a: Seq<EventView<S>>,
    b: Seq<EventView<S>>,
    connected: bool,
)
    ensures
        connection_count(a + b, connected) == connection_count(a, connected) + connection_count(
            b,
            connected,
        ),
    decreases b.len(),
{
    if b.len() == 0 {
        assert(a + b =~= a);
    } else {
        assert((a + b).drop_last() =~= a + b.drop_last());
        assert((a + b).last() == b.last());
        lemma_connection_count_concat(a, b.drop_last(), connected);
    }
}

/// What one more event adds to the count of connection notices.
pub proof fn lemma_connection_count_push<S>(
    events: Seq<EventView<S>>,
    event: EventView<S>,
    connected: bool,
)
    ensures
        connection_count(events.push(event), connected) == connection_count(events, connected) + (
        if event matches EventView::Connection { connected: c, .. } && c == connected {
            1nat
        } else {
            0nat
        }),
{
    assert(events.push(event).drop_last() =~= events);
    assert(events.push(event).last() == event);
}

/// Whether none of `events` is a connection notice.
pub open spec fn no_connection_notice<S>(events: Seq<EventView<S>>) -> bool {
    forall|i: int| 0 <= i < events.len() ==> !((#[trigger] events[i]) is Connection)
}

/// Events without a connection notice count none.
pub proof fn lemma_no_connection_notice<S>(events: Seq<EventView<S>>)
    requires
        no_connection_notice(events),
    ensures
        connection_count(events, true) == 0,
        connection_count(events, false) == 0,
    decreases events.len(),
{
    if events.len() > 0 {
        assert(!(events.last() is Connection));
        lemma_no_connection_notice(events.drop_last());
    }
}

/// Whether all of `events` are lines for a session's log.
pub open spec fn only_logs<S>(events: Seq<EventView<S>>) -> bool {
    forall|i: int| 0 <= i < events.len() ==> (#[trigger] events[i]) is Log
}

/// Log lines carry no progress number and no connection notice.
pub proof fn lemma_only_logs_silent<S>(events: Seq<EventView<S>>)
    requires
        only_logs(events),
    ensures
        progress_values(events) == Seq::<usize>::empty(),
        connection_count(events, true) == 0,
        connection_count(events, false) == 0,
    decreases events.len(),
{
    if events.len() > 0 {
        assert(events.last() is Log);
        lemma_only_logs_silent(events.drop_last());
    }
}

/// A progress notice followed by log lines carries exactly its own number.
pub proof fn lemma_progress_then_logs<S>(events: Seq<EventView<S>>)
    requires
        events.len() >= 1,
        events[0] is Progress,
        only_logs(events.skip(1)),
    ensures
        progress_values(events) == seq![events[0]->payloads_sent],
        connection_count(events, true) == 0,
        connection_count(events, false) == 0,
{
    let head = seq![events[0]];
    let tail = events.skip(1);
    assert(events =~= head + tail);
    assert(head.drop_last() =~= Seq::<EventView<S>>::empty());
    assert(head.last() == events[0]);
    assert(progress_values(head.drop_last()) =~= Seq::<usize>::empty());
    assert(connection_count(head.drop_last(), true) == 0);
    assert(connection_count(head.drop_last(), false) == 0);
    assert(progress_values(head) =~= seq![events[0]->payloads_sent]);
    assert(connection_count(head, true) == 0);
    assert(connection_count(head, false) == 0);
    lemma_only_logs_silent(tail);
    lemma_progress_values_concat(head, tail);
    lemma_connection_count_concat(head, tail, true);
    lemma_connection_count_concat(head, tail, false);
    assert(progress_values(head) + progress_values(tail) =~= seq![events[0]->payloads_sent]);
}

/// Appends `event` to `events`.
pub fn push_event<S>(events: &mut Vec<Event<S>>, event: Event<S>)
    ensures
        final(events).deep_view() == old(events).deep_view().push(event@),
{
    events.push(event);
    assert(events.deep_view() =~= old(events).deep_view().push(event@));
}

/// An empty list of events.
pub fn no_events<S>() -> (events: Vec<Event<S>>)
    ensures
        events.deep_view() == Seq::<EventView<S>>::empty(),
{
    let events: Vec<Event<S>> = Vec::new();
    assert(events.deep_view() =~= Seq::<EventView<S>>::empty());
    events
}

impl<S: Copy> Event<S> {
    /// A line for the log of the session `session_id`.
    pub fn log(session_id: S, level: LogLevel, message: String) -> (r: Self)
        ensures
            r@ == log_event(session_id, level, message@),
    {
        Event::Log { session_id, level, message }
    }

    /// A line for the shared log.
    pub fn main_log(level: LogLevel, message: String) -> (r: Self)
        ensures
            r@ == main_log_event::<S>(level, message@),
    {
        Event::MainLog { level, message }
    }
}

} // verus!
