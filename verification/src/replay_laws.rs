//! What holds of every replay, proved of the model in [`crate::replay`].

use crate::event::{
    connection_count, lemma_connection_count_concat, lemma_only_logs_silent,
    lemma_progress_then_logs, lemma_progress_values_concat, only_logs, progress_values, EventView,
};
use crate::log::LogLevel;
use crate::replay::{
    msg_finished, msg_invalid_payload, msg_send_failed, msg_sent, msg_udp_ready,
    ReplayActionView, ReplayInputView, ReplayView,
};
use crate::types::{Protocol, ReplayablePayloadView};
use vstd::prelude::*;

verus! {

/// Whether each number in `values` is above the one before it.
pub open spec fn strictly_increasing(values: Seq<usize>) -> bool {
    forall|i: int, j: int| 0 <= i < j < values.len() ==> values[i] < values[j]
}

/// Whether every payload decodes to at least one byte.
pub open spec fn all_sendable(payloads: Seq<ReplayablePayloadView>) -> bool {
    forall|i: int| 0 <= i < payloads.len() ==> (#[trigger] payloads[i]).sendable()
}

/// Whether a report tells of no failure and of no end of the connection.
pub open spec fn is_success(input: ReplayInputView) -> bool {
    match input {
        ReplayInputView::Ready => true,
        ReplayInputView::DelayElapsed => true,
        ReplayInputView::Transmitted => true,
        ReplayInputView::Received(bytes) => bytes.len() > 0,
        _ => false,
    }
}

/// Whether none of `inputs` tells of a failure or of the end of the connection.
pub open spec fn trouble_free(inputs: Seq<ReplayInputView>) -> bool {
    forall|i: int| 0 <= i < inputs.len() ==> is_success(#[trigger] inputs[i])
}

/// The numbers `from + 1`, `from + 2`, up to `to`.
pub open spec fn counting(from: nat, to: nat) -> Seq<usize> {
    Seq::new((to - from) as nat, |j: int| (from + j + 1) as usize)
}

/// One step keeps a replay well formed and its recording untouched. A payload
/// that was sent raises the count of sent payloads by one, is reported first,
/// with the new count, and moves the sender lane on by one; any other step
/// publishes log lines only, leaves the count as it is, and moves the sender
/// lane on by one payload at most.
pub proof fn lemma_step_shape<S>(s: ReplayView<S>, input: ReplayInputView)
    requires
        s.wf(),
    ensures
        ({
            let (t, out) = s.step(input);
            &&& t.wf()
            &&& t.protocol == s.protocol
            &&& t.payloads == s.payloads
            &&& t.target == s.target
            &&& t.session_id == s.session_id
            &&& if s.lane is Sending && input is Transmitted {
                &&& out.events.len() >= 1
                &&& out.events[0] == (EventView::Progress {
                    session_id: s.session_id,
                    payloads_sent: (s.sent + 1) as usize,
                })
                &&& only_logs(out.events.skip(1))
                &&& t.index == s.index + 1
                &&& t.sent == s.sent + 1
            } else {
                &&& only_logs(out.events)
                &&& t.sent == s.sent
                &&& s.index <= t.index <= s.index + 1
            }
        }),
{
}

/// The progress numbers and connection notices of one step: the new count of
/// sent payloads, if one was sent, and never a connection notice.
pub proof fn lemma_step_notices<S>(s: ReplayView<S>, input: ReplayInputView)
    requires
        s.wf(),
    ensures
        ({
            let (t, out) = s.step(input);
            &&& connection_count(out.events, true) == 0
            &&& connection_count(out.events, false) == 0
            &&& progress_values(out.events) == if s.lane is Sending && input is Transmitted {
                seq![(s.sent + 1) as usize]
            } else {
                Seq::<usize>::empty()
            }
        }),
{
    lemma_step_shape(s, input);
    let (t, out) = s.step(input);
    if s.lane is Sending && input is Transmitted {
        lemma_progress_then_logs(out.events);
    } else {
        lemma_only_logs_silent(out.events);
    }
}

/// Progress counts what was sent. Whatever is reported to a replay, in
/// whatever order, the progress numbers it publishes are the counts of sent
/// payloads from the one after the count it started with up to the count it
/// ends with, one by one: they rise strictly, none is left out, none is
/// repeated, and none goes beyond the number of payloads. A payload that is
/// passed over or whose sending fails leaves the numbers of the others as they
/// would be without it.
pub proof fn lemma_progress_strictly_increasing<S>(s: ReplayView<S>, inputs: Seq<ReplayInputView>)
    requires
        s.wf(),
    ensures
        ({
            let (t, events) = s.run(inputs);
            let values = progress_values(events);
            &&& t.wf()
            &&& t.payloads == s.payloads
            &&& s.index <= t.index <= s.payloads.len()
            &&& s.sent <= t.sent <= t.index
            &&& values == counting(s.sent, t.sent)
            &&& strictly_increasing(values)
            &&& forall|i: int| 0 <= i < values.len() ==> s.sent < #[trigger] values[i] <= t.sent
        }),
    decreases inputs.len(),
{
    let (t, events) = s.run(inputs);
    if inputs.len() == 0 {
        assert(progress_values(events) =~= counting(s.sent, t.sent));
    } else {
        let (next, output) = s.step(inputs[0]);
        let (last, rest) = next.run(inputs.drop_first());
        lemma_step_shape(s, inputs[0]);
        lemma_step_notices(s, inputs[0]);
        lemma_progress_strictly_increasing(next, inputs.drop_first());
        lemma_progress_values_concat(output.events, rest);
        assert(progress_values(output.events) =~= counting(s.sent, next.sent));
        assert(counting(s.sent, next.sent) + counting(next.sent, last.sent) =~= counting(
            s.sent,
            last.sent,
        ));
    }
}

/// A replay never publishes a connection notice, whatever is reported to it.
pub proof fn lemma_replay_publishes_no_connection_notice<S>(
    s: ReplayView<S>,
    inputs: Seq<ReplayInputView>,
)
    requires
        s.wf(),
    ensures
        connection_count(s.run(inputs).1, true) == 0,
        connection_count(s.run(inputs).1, false) == 0,
    decreases inputs.len(),
{
    if inputs.len() > 0 {
        let (next, output) = s.step(inputs[0]);
        let (last, rest) = next.run(inputs.drop_first());
        lemma_step_shape(s, inputs[0]);
        lemma_step_notices(s, inputs[0]);
        lemma_replay_publishes_no_connection_notice(next, inputs.drop_first());
        lemma_connection_count_concat(output.events, rest, true);
        lemma_connection_count_concat(output.events, rest, false);
    }
}

/// Whether a replay has met no trouble so far: the stop signal is down, and
/// the sender lane has ended only by running out of payloads.
pub open spec fn untroubled<S>(s: ReplayView<S>) -> bool {
    &&& !s.stop
    &&& s.lane is Done ==> s.index == s.payloads.len()
}

/// While no trouble is reported and every payload is sendable, every payload
/// that the sender lane passes is sent: the count of sent payloads rises by as
/// many as the position of the sender lane, and the progress numbers are the
/// counts from the one after the count at the start to the count at the end.
pub proof fn lemma_trouble_free_run<S>(s: ReplayView<S>, inputs: Seq<ReplayInputView>)
    requires
        s.wf(),
        untroubled(s),
        all_sendable(s.payloads),
        trouble_free(inputs),
    ensures
        ({
            let (t, events) = s.run(inputs);
            &&& t.wf()
            &&& untroubled(t)
            &&& t.payloads == s.payloads
            &&& s.index <= t.index
            &&& t.sent - s.sent == t.index - s.index
            &&& progress_values(events) == counting(s.sent, t.sent)
        }),
    decreases inputs.len(),
{
    lemma_progress_strictly_increasing(s, inputs);
    if inputs.len() > 0 {
        let (next, output) = s.step(inputs[0]);
        let (last, rest) = next.run(inputs.drop_first());
        assert(is_success(inputs[0]));
        lemma_step_shape(s, inputs[0]);
        lemma_step_notices(s, inputs[0]);
        if s.lane is Sleeping {
            assert(s.payloads[s.index as int].sendable());
        }
        assert(untroubled(next));
        assert forall|i: int| 0 <= i < inputs.drop_first().len() implies is_success(
            #[trigger] inputs.drop_first()[i],
        ) by {
            assert(inputs.drop_first()[i] == inputs[i + 1]);
        }
        lemma_trouble_free_run(next, inputs.drop_first());
    }
}

/// A replay that meets no trouble reports every payload. Where all payloads
/// are sendable and nothing that is reported tells of a failure or of the end
/// of the connection, a replay whose sender lane has ended has published the
/// progress numbers 1, 2, up to the number of payloads, each once and in this
/// order, and has sent every payload.
pub proof fn lemma_successful_replay_reports_every_payload<S>(
    protocol: Protocol,
    payloads: Seq<ReplayablePayloadView>,
    target: Seq<char>,
    session_id: S,
    inputs: Seq<ReplayInputView>,
)
    requires
        payloads.len() <= usize::MAX,
        all_sendable(payloads),
        trouble_free(inputs),
        ReplayView::initial(protocol, payloads, target, session_id).run(inputs).0.lane is Done,
    ensures
        ({
            let (t, events) = ReplayView::initial(protocol, payloads, target, session_id).run(
                inputs,
            );
            &&& progress_values(events) == Seq::new(payloads.len(), |i: int| (i + 1) as usize)
            &&& t.sent == payloads.len()
        }),
{
    let s = ReplayView::initial(protocol, payloads, target, session_id);
    lemma_trouble_free_run(s, inputs);
    let (t, events) = s.run(inputs);
    assert(counting(0, t.index) =~= Seq::new(payloads.len(), |i: int| (i + 1) as usize));
}

/// A payload that cannot be sent is passed over. Where the payload whose delay
/// has passed decodes to no bytes, or does not decode, nothing is transmitted
/// and no progress is published, the count of sent payloads stays, and the
/// replay goes on: the sender lane turns to the next payload and, where there
/// is one, asks for its delay.
pub proof fn lemma_unsendable_payload_is_passed_over<S>(s: ReplayView<S>)
    requires
        s.wf(),
        s.lane is Sleeping,
        !s.stop,
        !s.payloads[s.index as int].sendable(),
    ensures
        ({
            let (t, out) = s.step(ReplayInputView::DelayElapsed);
            &&& !(out.action is Transmit)
            &&& progress_values(out.events) == Seq::<usize>::empty()
            &&& t.sent == s.sent
            &&& t.index == s.index + 1
            &&& s.payloads[s.index as int].bytes() is Some && s.index + 1 < s.payloads.len()
                ==> out.events == Seq::<EventView<S>>::empty()
            &&& s.index + 1 < s.payloads.len() ==> t.lane is Sleeping && out.action
                == ReplayActionView::Sleep(s.payloads[s.index as int + 1].delay)
        }),
{
    lemma_step_notices(s, ReplayInputView::DelayElapsed);
}

/// Once the sender lane has ended, nothing is attempted any more: whatever is
/// reported, the lane stays ended, no delay and no transmission is asked for,
/// no progress is published, and position and count stay.
pub proof fn lemma_ended_sender_attempts_nothing<S>(s: ReplayView<S>, input: ReplayInputView)
    requires
        s.wf(),
        s.lane is Done,
    ensures
        ({
            let (t, out) = s.step(input);
            &&& t.lane is Done
            &&& !(out.action is Transmit)
            &&& !(out.action is Sleep)
            &&& progress_values(out.events) == Seq::<usize>::empty()
            &&& t.index == s.index
            &&& t.sent == s.sent
        }),
{
    lemma_step_notices(s, input);
}

/// A failed transmission gives up the rest. From the moment the sending of a
/// payload is reported as failed, whatever is reported afterwards, no progress
/// is published, the sender lane stays ended at the payload that failed, and
/// the count of sent payloads stays.
pub proof fn lemma_transmit_failure_aborts<S>(
    s: ReplayView<S>,
    reason: Seq<char>,
    later: Seq<ReplayInputView>,
)
    requires
        s.wf(),
        s.lane is Sending,
    ensures
        ({
            let (t, events) = s.run(seq![ReplayInputView::TransmitFailed(reason)] + later);
            &&& t.lane is Done
            &&& t.index == s.index
            &&& t.sent == s.sent
            &&& progress_values(events) == Seq::<usize>::empty()
        }),
{
    let inputs = seq![ReplayInputView::TransmitFailed(reason)] + later;
    let (next, output) = s.step(inputs[0]);
    assert(inputs.drop_first() =~= later);
    lemma_step_shape(s, inputs[0]);
    lemma_step_notices(s, inputs[0]);
    lemma_ended_sender_stays_silent(next, later);
    lemma_progress_values_concat(output.events, next.run(later).1);
}

/// A run that starts with the sender lane ended publishes no progress and
/// leaves position and count where they were.
pub proof fn lemma_ended_sender_stays_silent<S>(s: ReplayView<S>, inputs: Seq<ReplayInputView>)
    requires
        s.wf(),
        s.lane is Done,
    ensures
        ({
            let (t, events) = s.run(inputs);
            &&& t.lane is Done
            &&& t.index == s.index
            &&& t.sent == s.sent
            &&& progress_values(events) == Seq::<usize>::empty()
        }),
    decreases inputs.len(),
{
    if inputs.len() > 0 {
        let (next, output) = s.step(inputs[0]);
        lemma_step_shape(s, inputs[0]);
        lemma_ended_sender_attempts_nothing(s, inputs[0]);
        lemma_ended_sender_stays_silent(next, inputs.drop_first());
        lemma_progress_values_concat(output.events, next.run(inputs.drop_first()).1);
    }
}

/// The pause before a payload is its recorded delay. Whenever a replay asks
/// for a delay, the sender lane is at a payload and the delay is the one
/// recorded with it: a payload recorded with no delay is waited for zero
/// milliseconds after the payload before it.
pub proof fn lemma_pause_is_recorded_delay<S>(s: ReplayView<S>, input: ReplayInputView)
    requires
        s.wf(),
    ensures
        ({
            let (t, out) = s.step(input);
            out.action matches ReplayActionView::Sleep(ms) ==> {
                &&& t.lane is Sleeping
                &&& t.index < t.payloads.len()
                &&& ms == t.payloads[t.index as int].delay
                &&& t.payloads[t.index as int].delay == 0 ==> ms == 0
            }
        }),
{
}

/// Progress ends at the payload that fails. Where all payloads are sendable
/// and nothing troubles the replay until the sending of one payload is reported
/// as failed, the progress numbers of the whole run, whatever is reported after
/// the failure, are those of the payloads before the failed one: 1, 2, up to the
/// number of payloads sent before it. The sender lane stays ended at the payload
/// that failed.
pub proof fn lemma_failed_payload_ends_progress<S>(
    protocol: Protocol,
    payloads: Seq<ReplayablePayloadView>,
    target: Seq<char>,
    session_id: S,
    before: Seq<ReplayInputView>,
    reason: Seq<char>,
    after: Seq<ReplayInputView>,
)
    requires
        payloads.len() <= usize::MAX,
        all_sendable(payloads),
        trouble_free(before),
        ReplayView::initial(protocol, payloads, target, session_id).run(before).0.lane is Sending,
    ensures
        ({
            let s = ReplayView::initial(protocol, payloads, target, session_id);
            let failed = s.run(before).0.index;
            let (t, events) = s.run(before + (seq![ReplayInputView::TransmitFailed(reason)] + after));
            &&& progress_values(events) == counting(0, failed)
            &&& t.lane is Done
            &&& t.index == failed
            &&& t.sent == failed
        }),
{
    let s = ReplayView::initial(protocol, payloads, target, session_id);
    let rest = seq![ReplayInputView::TransmitFailed(reason)] + after;
    let (mid, said) = s.run(before);
    lemma_trouble_free_run(s, before);
    lemma_transmit_failure_aborts(mid, reason, after);
    lemma_run_concat(s, before, rest);
    lemma_progress_values_concat(said, mid.run(rest).1);
    assert(progress_values(said) + Seq::<usize>::empty() =~= progress_values(said));
}

/// What the payload at `index` leads to once its delay has passed, where
/// `sent` payloads have been sent before it and `outcome` tells how sending it
/// goes (`None` for sent, else the reason of the failure): a warning where it
/// does not decode, nothing where it decodes to no bytes, and else either the
/// new count of sent payloads and what was sent, or the failure.
pub open spec fn payload_notices<S>(
    s: ReplayView<S>,
    index: int,
    sent: nat,
    outcome: Option<Seq<char>>,
) -> Seq<EventView<S>> {
    let payload = s.payloads[index];
    if !payload.sendable() {
        if payload.bytes() is None {
            seq![s.log(LogLevel::Warn, msg_invalid_payload())]
        } else {
            seq![]
        }
    } else {
        match outcome {
            None => seq![
                EventView::Progress { session_id: s.session_id, payloads_sent: (sent + 1) as usize },
                s.log(LogLevel::Info, msg_sent(payload.payload)),
            ],
            Some(reason) => seq![s.log(LogLevel::Error, msg_send_failed(reason))],
        }
    }
}

/// What the caller reports for the payload at `index` when it does as it is
/// asked: that the delay has passed and, where the payload is sendable, how
/// sending it went.
pub open spec fn payload_reports<S>(
    s: ReplayView<S>,
    index: int,
    outcome: Option<Seq<char>>,
) -> Seq<ReplayInputView> {
    if !s.payloads[index].sendable() {
        seq![ReplayInputView::DelayElapsed]
    } else {
        match outcome {
            None => seq![ReplayInputView::DelayElapsed, ReplayInputView::Transmitted],
            Some(reason) => seq![
                ReplayInputView::DelayElapsed,
                ReplayInputView::TransmitFailed(reason),
            ],
        }
    }
}

/// Whether the replay gives up at the payload at `index`: it is sendable and
/// sending it fails.
pub open spec fn gives_up_at<S>(s: ReplayView<S>, index: int, outcome: Option<Seq<char>>) -> bool {
    s.payloads[index].sendable() && outcome is Some
}

/// The count of sent payloads once the payload at `index` has had its turn,
/// where `sent` were sent before it: one more where it is sendable, else the
/// same.
pub open spec fn sent_after<S>(s: ReplayView<S>, index: int, sent: nat) -> nat {
    if s.payloads[index].sendable() {
        sent + 1
    } else {
        sent
    }
}

/// All that a replay without reader lane publishes from the payload at
/// `index` on, where `sent` payloads have been sent before it and `outcomes`
/// tells how sending each payload goes: what each payload leads to, in order,
/// up to the first whose sending fails, and the closing line.
pub open spec fn notices_from<S>(
    s: ReplayView<S>,
    index: int,
    sent: nat,
    outcomes: spec_fn(int) -> Option<Seq<char>>,
) -> Seq<EventView<S>>
    decreases s.payloads.len() - index,
{
    if index >= s.payloads.len() {
        seq![s.log(LogLevel::Info, msg_finished())]
    } else if gives_up_at(s, index, outcomes(index)) {
        payload_notices(s, index, sent, outcomes(index)).push(
            s.log(LogLevel::Info, msg_finished()),
        )
    } else {
        payload_notices(s, index, sent, outcomes(index)) + notices_from(
            s,
            index + 1,
            sent_after(s, index, sent),
            outcomes,
        )
    }
}

/// All that the caller reports from the payload at `index` on when it does as
/// it is asked, up to the first payload whose sending fails.
pub open spec fn reports_from<S>(
    s: ReplayView<S>,
    index: int,
    outcomes: spec_fn(int) -> Option<Seq<char>>,
) -> Seq<ReplayInputView>
    decreases s.payloads.len() - index,
{
    if index >= s.payloads.len() {
        seq![]
    } else if gives_up_at(s, index, outcomes(index)) {
        payload_reports(s, index, outcomes(index))
    } else {
        payload_reports(s, index, outcomes(index)) + reports_from(s, index + 1, outcomes)
    }
}

/// Reporting one list of inputs after another is reporting them in a row.
pub proof fn lemma_run_concat<S>(
    s: ReplayView<S>,
    first: Seq<ReplayInputView>,
    second: Seq<ReplayInputView>,
)
    ensures
        s.run(first + second).0 == s.run(first).0.run(second).0,
        s.run(first + second).1 == s.run(first).1 + s.run(first).0.run(second).1,
    decreases first.len(),
{
    if first.len() == 0 {
        assert(first + second =~= second);
        assert(s.run(first).1 + s.run(second).1 =~= s.run(second).1);
    } else {
        let next = s.step(first[0]).0;
        assert((first + second)[0] == first[0]);
        assert((first + second).drop_first() =~= first.drop_first() + second);
        lemma_run_concat(next, first.drop_first(), second);
        let head = s.step(first[0]).1.events;
        let mid = next.run(first.drop_first()).1;
        let tail = next.run(first.drop_first()).0.run(second).1;
        assert(head + (mid + tail) =~= (head + mid) + tail);
    }
}

/// The replay, payload by payload. A replay without reader lane whose sender
/// lane waits for the delay of a payload, and whose caller does as it is
/// asked, publishes for each payload in turn what that payload leads to, counts
/// on from the payloads sent so far, gives up at the first payload whose
/// sending fails, closes with the closing line, and is finished.
pub proof fn lemma_replay_payload_by_payload<S>(
    s: ReplayView<S>,
    outcomes: spec_fn(int) -> Option<Seq<char>>,
)
    requires
        s.wf(),
        s.lane is Sleeping,
        !s.reading,
        !s.stop,
    ensures
        ({
            let (t, events) = s.run(reports_from(s, s.index as int, outcomes));
            &&& events == notices_from(s, s.index as int, s.sent, outcomes)
            &&& t.finished()
            &&& t.payloads == s.payloads
        }),
    decreases s.payloads.len() - s.index,
{
    let index = s.index as int;
    let outcome = outcomes(index);
    let reports = payload_reports(s, index, outcome);
    let (mid, said) = s.run(reports);
    let closing = s.log(LogLevel::Info, msg_finished());
    let (s1, out1) = s.step(reports[0]);
    assert(reports.drop_first().len() == reports.len() - 1);
    if reports.len() == 1 {
        assert(reports.drop_first() =~= Seq::<ReplayInputView>::empty());
        assert(s1.run(reports.drop_first()).1 =~= Seq::<EventView<S>>::empty());
        assert(said =~= out1.events);
        assert(mid == s1);
    } else {
        let (s2, out2) = s1.step(reports[1]);
        assert(reports.drop_first()[0] == reports[1]);
        assert(reports.drop_first().drop_first() =~= Seq::<ReplayInputView>::empty());
        assert(s2.run(reports.drop_first().drop_first()).1 =~= Seq::<EventView<S>>::empty());
        assert(s1.run(reports.drop_first()).1 =~= out2.events);
        assert(said =~= out1.events + out2.events);
        assert(mid == s2);
    }
    let last_one = index + 1 >= s.payloads.len();
    let own = payload_notices(s, index, s.sent, outcome);
    let sent = sent_after(s, index, s.sent);
    if gives_up_at(s, index, outcome) {
        assert(said =~= own.push(closing));
    } else if last_one {
        assert(said =~= own.push(closing));
        assert(reports_from(s, index + 1, outcomes) =~= Seq::<ReplayInputView>::empty());
        assert(reports + reports_from(s, index + 1, outcomes) =~= reports);
        assert(own + notices_from(s, index + 1, sent, outcomes) =~= own.push(closing));
    } else {
        assert(said =~= own);
        assert(mid.lane is Sleeping && mid.index == index + 1 && mid.sent == sent);
        lemma_replay_payload_by_payload(mid, outcomes);
        lemma_run_concat(s, reports, reports_from(mid, index + 1, outcomes));
        lemma_traces_follow_payloads(mid, s, index + 1, sent, outcomes);
    }
}

/// What a replay publishes and what its caller reports from a payload on
/// depend on its payloads, its session and the count of payloads sent before,
/// not on anything else of its state.
pub proof fn lemma_traces_follow_payloads<S>(
    a: ReplayView<S>,
    b: ReplayView<S>,
    index: int,
    sent: nat,
    outcomes: spec_fn(int) -> Option<Seq<char>>,
)
    requires
        a.payloads == b.payloads,
        a.session_id == b.session_id,
    ensures
        reports_from(a, index, outcomes) == reports_from(b, index, outcomes),
        notices_from(a, index, sent, outcomes) == notices_from(b, index, sent, outcomes),
    decreases a.payloads.len() - index,
{
    if index < a.payloads.len() && !gives_up_at(a, index, outcomes(index)) {
        lemma_traces_follow_payloads(a, b, index + 1, sent_after(a, index, sent), outcomes);
    }
}

/// A UDP replay from start to end. Once the socket is bound, a UDP replay
/// whose caller does as it is asked publishes that it is ready, what each
/// payload leads to in the recorded order up to the first whose sending fails,
/// and the closing line, and nothing else.
pub proof fn lemma_udp_replay_from_start<S>(
    payloads: Seq<ReplayablePayloadView>,
    target: Seq<char>,
    session_id: S,
    outcomes: spec_fn(int) -> Option<Seq<char>>,
)
    requires
        payloads.len() <= usize::MAX,
    ensures
        ({
            let s = ReplayView::initial(Protocol::Udp, payloads, target, session_id);
            let (t, events) = s.run(seq![ReplayInputView::Ready] + reports_from(s, 0, outcomes));
            &&& events == seq![s.log(LogLevel::Info, msg_udp_ready(target))]
                + notices_from(s, 0, 0, outcomes)
            &&& t.finished()
        }),
{
    let s = ReplayView::initial(Protocol::Udp, payloads, target, session_id);
    let ready = seq![ReplayInputView::Ready];
    let (mid, out) = s.step(ReplayInputView::Ready);
    assert(ready[0] == ReplayInputView::Ready);
    assert(ready.drop_first() =~= Seq::<ReplayInputView>::empty());
    assert(mid.run(ready.drop_first()).0 == mid);
    assert(mid.run(ready.drop_first()).1 =~= Seq::<EventView<S>>::empty());
    assert(s.run(ready).0 == mid);
    assert(s.run(ready).1 =~= out.events);
    lemma_run_concat(s, ready, reports_from(s, 0, outcomes));
    let hello = seq![s.log(LogLevel::Info, msg_udp_ready(target))];
    if payloads.len() == 0 {
        assert(reports_from(s, 0, outcomes) =~= Seq::<ReplayInputView>::empty());
        assert(out.events =~= hello + notices_from(s, 0, 0, outcomes));
        assert(mid.run(reports_from(s, 0, outcomes)).1 =~= Seq::<EventView<S>>::empty());
        assert(out.events + mid.run(reports_from(s, 0, outcomes)).1 =~= out.events);
    } else {
        assert(out.events =~= hello);
        lemma_traces_follow_payloads(mid, s, 0, 0, outcomes);
        lemma_replay_payload_by_payload(mid, outcomes);
    }
}

/// How sending each payload goes once the payload at `at` is taken out of the
/// list: as before for those before it, and for each later one as for its old
/// place.
pub open spec fn outcomes_without(
    outcomes: spec_fn(int) -> Option<Seq<char>>,
    at: int,
) -> spec_fn(int) -> Option<Seq<char>> {
    |j: int|
        if j < at {
            outcomes(j)
        } else {
            outcomes(j + 1)
        }
}

/// The replay `s` with the payload at `at` taken out of its list.
pub open spec fn replay_without<S>(s: ReplayView<S>, at: int) -> ReplayView<S> {
    ReplayView { payloads: s.payloads.remove(at), ..s }
}

/// A payload of no bytes leaves no trace, from any payload on. With `sent`
/// payloads sent before, what a replay publishes from the payload at `index`
/// on is what it publishes from the same payload on when the payload of no
/// bytes at `at` is taken out of the list.
pub proof fn lemma_empty_payload_leaves_no_trace_from<S>(
    s: ReplayView<S>,
    at: int,
    index: int,
    sent: nat,
    outcomes: spec_fn(int) -> Option<Seq<char>>,
)
    requires
        0 <= at < s.payloads.len(),
        s.payloads[at].bytes() == Some(Seq::<u8>::empty()),
        0 <= index,
    ensures
        notices_from(s, index, sent, outcomes) == notices_from(
            replay_without(s, at),
            if index > at {
                index - 1
            } else {
                index
            },
            sent,
            outcomes_without(outcomes, at),
        ),
    decreases s.payloads.len() - index,
{
    let t = replay_without(s, at);
    let later = outcomes_without(outcomes, at);
    if index >= s.payloads.len() {
    } else if index > at {
        assert(t.payloads[index - 1] == s.payloads[index]);
        assert(later(index - 1) == outcomes(index));
        lemma_empty_payload_leaves_no_trace_from(
            s,
            at,
            index + 1,
            sent_after(s, index, sent),
            outcomes,
        );
    } else if index == at {
        assert(!s.payloads[at].sendable());
        lemma_empty_payload_leaves_no_trace_from(s, at, index + 1, sent, outcomes);
        assert(payload_notices(s, index, sent, outcomes(index)) + notices_from(
            s,
            index + 1,
            sent,
            outcomes,
        ) =~= notices_from(s, index + 1, sent, outcomes));
    } else {
        assert(t.payloads[index] == s.payloads[index]);
        assert(later(index) == outcomes(index));
        lemma_empty_payload_leaves_no_trace_from(
            s,
            at,
            index + 1,
            sent_after(s, index, sent),
            outcomes,
        );
    }
}

/// A payload of no bytes leaves no trace. A UDP replay whose list holds a
/// payload that decodes to no bytes publishes, from start to end, exactly what
/// it publishes without that payload: the same lines and the same progress
/// numbers for all the others, whether they come before or after it.
pub proof fn lemma_empty_payload_leaves_no_trace<S>(
    payloads: Seq<ReplayablePayloadView>,
    target: Seq<char>,
    session_id: S,
    at: int,
    outcomes: spec_fn(int) -> Option<Seq<char>>,
)
    requires
        payloads.len() <= usize::MAX,
        0 <= at < payloads.len(),
        payloads[at].bytes() == Some(Seq::<u8>::empty()),
    ensures
        ({
            let with = ReplayView::initial(Protocol::Udp, payloads, target, session_id);
            let without = ReplayView::initial(
                Protocol::Udp,
                payloads.remove(at),
                target,
                session_id,
            );
            let later = outcomes_without(outcomes, at);
            with.run(seq![ReplayInputView::Ready] + reports_from(with, 0, outcomes)).1
                == without.run(seq![ReplayInputView::Ready] + reports_from(without, 0, later)).1
        }),
{
    let with = ReplayView::initial(Protocol::Udp, payloads, target, session_id);
    let without = ReplayView::initial(Protocol::Udp, payloads.remove(at), target, session_id);
    let later = outcomes_without(outcomes, at);
    lemma_udp_replay_from_start(payloads, target, session_id, outcomes);
    lemma_udp_replay_from_start(payloads.remove(at), target, session_id, later);
    lemma_empty_payload_leaves_no_trace_from(with, at, 0, 0, outcomes);
    assert(replay_without(with, at) == without);
}

} // verus!
