//! What holds of every live session, proved of the model in
//! [`crate::session`].

use crate::event::{
    connection_count, lemma_connection_count_concat, lemma_connection_count_push,
    lemma_no_connection_notice, main_log_event, no_connection_notice, EventView,
};
use crate::log::LogLevel;
use crate::session::{
    msg_closed_by_server, msg_session_ended, SessionActionView, SessionInputView, SessionView,
};
use vstd::prelude::*;

verus! {

/// A session that is over stays as it is and stays silent, whatever is
/// reported to it.
pub proof fn lemma_ended_session_is_silent<S>(s: SessionView<S>, input: SessionInputView)
    requires
        s.over(),
    ensures
        s.step(input).0 == s,
        s.step(input).1.events == Seq::<EventView<S>>::empty(),
        s.step(input).1.action == SessionActionView::Stop,
{
}

/// How a session moves in one step: it never goes back to connecting, a
/// session that is connected stays connected or closes, and only a session that
/// was never connected can fail.
pub proof fn lemma_step_moves_forward<S>(s: SessionView<S>, input: SessionInputView)
    ensures
        ({
            let t = s.step(input).0;
            &&& t.target == s.target
            &&& t.session_id == s.session_id
            &&& t.state is Connecting ==> s.state is Connecting
            &&& t.state is Failed ==> s.state is Connecting || s.state is Failed
            &&& s.live() ==> t.live() || t.state is Closed
            &&& s.over() ==> t == s
        }),
{
}

proof fn lemma_greeting_notices<S>(s: SessionView<S>, extra: Seq<EventView<S>>)
    requires
        no_connection_notice(extra),
    ensures
        connection_count(s.greeting() + extra, true) == 1,
        connection_count(s.greeting() + extra, false) == 0,
{
    let g = s.greeting();
    let head = g.drop_last();
    assert(no_connection_notice(head));
    lemma_no_connection_notice(head);
    assert(g =~= head.push(g[2]));
    lemma_connection_count_push(head, g[2], true);
    lemma_connection_count_push(head, g[2], false);
    lemma_no_connection_notice(extra);
    lemma_connection_count_concat(g, extra, true);
    lemma_connection_count_concat(g, extra, false);
}

proof fn lemma_close_notices<S>(s: SessionView<S>, events: Seq<EventView<S>>)
    requires
        no_connection_notice(events),
    ensures
        connection_count(s.close(events).1.events, true) == 0,
        connection_count(s.close(events).1.events, false) == 1,
{
    let bye = EventView::Connection { session_id: s.session_id, connected: false };
    lemma_no_connection_notice(events);
    lemma_connection_count_push(events, bye, true);
    lemma_connection_count_push(events, bye, false);
    let last = s.close(events).1.events.last();
    lemma_connection_count_push(events.push(bye), last, true);
    lemma_connection_count_push(events.push(bye), last, false);
    assert(s.close(events).1.events =~= events.push(bye).push(last));
}

/// The connection notices of one step. A session tells that it is connected
/// exactly when the connection is reported open while it is connecting, and
/// tells that it is no longer connected exactly when it goes from connected to
/// closed.
pub proof fn lemma_step_connection_notices<S>(s: SessionView<S>, input: SessionInputView)
    ensures
        ({
            let (t, out) = s.step(input);
            &&& connection_count(out.events, true) == if s.state is Connecting && input
                is Connected {
                1nat
            } else {
                0nat
            }
            &&& connection_count(out.events, false) == if s.live() && t.state is Closed {
                1nat
            } else {
                0nat
            }
            &&& s.state is Connecting && input is Connected ==> t.live()
            &&& s.state is Connecting && !(input is Connected) ==> !t.live() && !(t.state
                is Closed)
        }),
{
    let (t, out) = s.step(input);
    if s.state is Connecting && input is Connected {
        let extra = out.events.skip(3);
        assert(out.events =~= s.greeting() + extra);
        assert(no_connection_notice(extra));
        lemma_greeting_notices(s, extra);
    } else if s.live() && t.state is Closed {
        let said = out.events.take(out.events.len() - 2);
        assert(no_connection_notice(said));
        assert(s.close(said).1.events =~= out.events);
        lemma_close_notices(s, said);
    } else {
        assert(no_connection_notice(out.events));
        lemma_no_connection_notice(out.events);
    }
}

/// Teardown happens once. Whatever is reported to a session, in whatever
/// order, it tells at most once that it is connected and at most once that it
/// is no longer connected: the first exactly if it started out connecting and
/// got connected, the second exactly if it was not over at the start and is
/// closed at the end. A session that fails to connect tells neither. So a
/// disconnect command that comes after the peer has closed the connection
/// publishes nothing more.
pub proof fn lemma_teardown_happens_once<S>(s: SessionView<S>, inputs: Seq<SessionInputView>)
    ensures
        ({
            let (t, events) = s.run(inputs);
            &&& connection_count(events, true) == if s.state is Connecting && (t.live()
                || t.state is Closed) {
                1nat
            } else {
                0nat
            }
            &&& connection_count(events, false) == if !s.over() && t.state is Closed {
                1nat
            } else {
                0nat
            }
            &&& t.state is Connecting ==> s.state is Connecting
            &&& t.state is Failed ==> s.state is Connecting || s.state is Failed
            &&& s.live() ==> t.live() || t.state is Closed
            &&& s.over() ==> t.state == s.state
        }),
    decreases inputs.len(),
{
    if inputs.len() > 0 {
        let (next, output) = s.step(inputs[0]);
        let (last, rest) = next.run(inputs.drop_first());
        lemma_step_moves_forward(s, inputs[0]);
        lemma_step_connection_notices(s, inputs[0]);
        lemma_teardown_happens_once(next, inputs.drop_first());
        lemma_connection_count_concat(output.events, rest, true);
        lemma_connection_count_concat(output.events, rest, false);
    }
}

/// A close by the peer is logged. When a read returns no bytes, or the peer is
/// reported to have closed the connection, a session that is connected and
/// listening says so in its own log, tells that it is no longer connected, signs
/// off in the shared log, and is closed, in this order and with nothing else.
pub proof fn lemma_remote_close_is_logged<S>(s: SessionView<S>, input: SessionInputView)
    requires
        s.state is Connected,
        input is RemoteClosed || input == SessionInputView::Received(Seq::<u8>::empty()),
    ensures
        ({
            let (t, out) = s.step(input);
            &&& t.state is Closed
            &&& out.action == SessionActionView::Stop
            &&& out.events == seq![
                s.log(LogLevel::Info, msg_closed_by_server()),
                EventView::Connection { session_id: s.session_id, connected: false },
                main_log_event(LogLevel::Info, msg_session_ended(s.target)),
            ]
        }),
{
    let (t, out) = s.step(input);
    assert(out.events =~= seq![
        s.log(LogLevel::Info, msg_closed_by_server()),
        EventView::Connection { session_id: s.session_id, connected: false },
        main_log_event(LogLevel::Info, msg_session_ended(s.target)),
    ]);
}

/// A failed write of the initial payload does not end the session: it logs
/// the failure and goes on listening.
pub proof fn lemma_bootstrap_failure_keeps_session<S>(s: SessionView<S>, reason: Seq<char>)
    requires
        s.state is Bootstrapping,
    ensures
        ({
            let (t, out) = s.step(SessionInputView::WriteFailed(reason));
            &&& t.state is Connected
            &&& out.action == SessionActionView::Listen
            &&& out.events.len() == 1
            &&& out.events[0] is Log
        }),
{
}

/// Empty bytes are never written: no step asks for a write of zero bytes.
pub proof fn lemma_never_writes_nothing<S>(s: SessionView<S>, input: SessionInputView)
    ensures
        s.step(input).1.action matches SessionActionView::Write(bytes) ==> bytes.len() > 0,
{
}

} // verus!
