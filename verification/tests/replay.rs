use replayr::event::Event;
use replayr::log::LogLevel;
use replayr::replay::{
    check_protocol, Replay, ReplayAction, ReplayError, ReplayInput, ReplayOutput,
};
use replayr::types::{PayloadType, Protocol, ReplayablePayload, ReplayableSession};

fn payload(text: &str, kind: PayloadType, delay: u64) -> ReplayablePayload {
    ReplayablePayload { payload: text.to_string(), payload_type: kind, delay }
}

fn shown(events: &[Event<u32>]) -> Vec<String> {
    let mut out = Vec::new();
    for event in events {
        out.push(match event {
            Event::Log { session_id, level, message } => {
                format!("{} {} {}", session_id, level.label(), message)
            }
            Event::MainLog { level, message } => format!("main {} {}", level.label(), message),
            Event::Connection { session_id, connected } => {
                format!("{} connected={}", session_id, connected)
            }
            Event::Progress { session_id, payloads_sent } => {
                format!("{} progress={}", session_id, payloads_sent)
            }
        });
    }
    out
}

fn sleep_of(out: &ReplayOutput<u32>) -> Option<u64> {
    match out.action {
        ReplayAction::Sleep(ms) => Some(ms),
        _ => None,
    }
}

fn bytes_of(out: &ReplayOutput<u32>) -> Option<Vec<u8>> {
    match &out.action {
        ReplayAction::Transmit(bytes) => Some(bytes.clone()),
        _ => None,
    }
}

fn stops(out: &ReplayOutput<u32>) -> bool {
    matches!(out.action, ReplayAction::Stop)
}

fn three_payloads() -> Vec<ReplayablePayload> {
    vec![
        payload("01", PayloadType::Hex, 0),
        payload("hi", PayloadType::Ascii, 10),
        payload("ff 00", PayloadType::Hex, 250),
    ]
}

#[test]
fn udp_replay_reports_progress_one_to_n() {
    let mut replay = Replay::new(Protocol::Udp, three_payloads(), "127.0.0.1", "9000", 7u32);
    assert_eq!(replay.target(), "127.0.0.1:9000");
    assert_eq!(replay.protocol(), Protocol::Udp);
    assert!(!replay.finished());

    let out = replay.step(ReplayInput::Ready);
    assert_eq!(shown(&out.events), vec!["7 INFO Replay UDP ready to 127.0.0.1:9000"]);
    assert_eq!(sleep_of(&out), Some(0));
    assert!(!replay.reading());

    let out = replay.step(ReplayInput::DelayElapsed);
    assert!(out.events.is_empty());
    assert_eq!(bytes_of(&out), Some(vec![0x01]));
    let out = replay.step(ReplayInput::Transmitted);
    assert_eq!(shown(&out.events), vec!["7 progress=1", "7 INFO Sent: 01"]);
    assert_eq!(sleep_of(&out), Some(10));

    let out = replay.step(ReplayInput::DelayElapsed);
    assert_eq!(bytes_of(&out), Some(b"hi".to_vec()));
    let out = replay.step(ReplayInput::Transmitted);
    assert_eq!(shown(&out.events), vec!["7 progress=2", "7 INFO Sent: hi"]);
    assert_eq!(sleep_of(&out), Some(250));
    assert_eq!(replay.sent(), 2);
    assert_eq!(replay.position(), 2);

    let out = replay.step(ReplayInput::DelayElapsed);
    assert_eq!(bytes_of(&out), Some(vec![0xff, 0x00]));
    let out = replay.step(ReplayInput::Transmitted);
    assert_eq!(
        shown(&out.events),
        vec!["7 progress=3", "7 INFO Sent: ff 00", "7 INFO Replay finished"]
    );
    assert!(stops(&out));
    assert!(replay.finished());
    assert_eq!(replay.sent(), 3);
    assert_eq!(replay.position(), 3);
}

#[test]
fn progress_is_strictly_increasing_over_a_whole_run() {
    let mut payloads = Vec::new();
    for i in 0..20u64 {
        payloads.push(payload("aa", PayloadType::Hex, i));
    }
    let mut replay = Replay::new(Protocol::Udp, payloads, "h", "1", 1u32);
    let mut seen = Vec::new();
    let mut out = replay.step(ReplayInput::Ready);
    let mut steps = 0;
    while !replay.finished() {
        steps += 1;
        assert!(steps < 100);
        let input = match out.action {
            ReplayAction::Sleep(_) => ReplayInput::DelayElapsed,
            ReplayAction::Transmit(_) => ReplayInput::Transmitted,
            _ => panic!("a replay that is not finished asks for something"),
        };
        out = replay.step(input);
        for event in &out.events {
            if let Event::Progress { payloads_sent, .. } = event {
                seen.push(*payloads_sent);
            }
        }
    }
    let expected: Vec<usize> = (1..=20).collect();
    assert_eq!(seen, expected);
}

#[test]
fn empty_payload_is_skipped_without_progress() {
    let payloads = vec![
        payload("  ", PayloadType::Hex, 5),
        payload("", PayloadType::Ascii, 6),
        payload("41", PayloadType::Hex, 7),
    ];
    let mut replay = Replay::new(Protocol::Udp, payloads, "h", "1", 3u32);
    let out = replay.step(ReplayInput::Ready);
    assert_eq!(sleep_of(&out), Some(5));
    let out = replay.step(ReplayInput::DelayElapsed);
    assert!(out.events.is_empty());
    assert_eq!(sleep_of(&out), Some(6));
    assert_eq!(replay.sent(), 0);
    let out = replay.step(ReplayInput::DelayElapsed);
    assert!(out.events.is_empty());
    assert_eq!(sleep_of(&out), Some(7));
    assert_eq!(replay.sent(), 0);
    assert!(!replay.finished());
    let out = replay.step(ReplayInput::DelayElapsed);
    assert_eq!(bytes_of(&out), Some(vec![0x41]));
    let out = replay.step(ReplayInput::Transmitted);
    assert_eq!(
        shown(&out.events),
        vec!["3 progress=1", "3 INFO Sent: 41", "3 INFO Replay finished"]
    );
    assert_eq!(replay.sent(), 1);
    assert_eq!(replay.position(), 3);
}

#[test]
fn replay_of_only_empty_payloads_sends_nothing() {
    let payloads = vec![payload("", PayloadType::Hex, 1), payload(" ", PayloadType::Hex, 2)];
    let mut replay = Replay::new(Protocol::Udp, payloads, "h", "1", 3u32);
    replay.step(ReplayInput::Ready);
    let out = replay.step(ReplayInput::DelayElapsed);
    assert_eq!(sleep_of(&out), Some(2));
    let out = replay.step(ReplayInput::DelayElapsed);
    assert_eq!(shown(&out.events), vec!["3 INFO Replay finished"]);
    assert!(stops(&out));
    assert_eq!(replay.sent(), 0);
    assert!(replay.finished());
}

#[test]
fn invalid_payload_is_warned_about_and_passed_over() {
    let payloads = vec![payload("zz", PayloadType::Hex, 1), payload("ok", PayloadType::Ascii, 2)];
    let mut replay = Replay::new(Protocol::Udp, payloads, "h", "1", 4u32);
    replay.step(ReplayInput::Ready);
    let out = replay.step(ReplayInput::DelayElapsed);
    assert_eq!(shown(&out.events), vec!["4 WARN Replay invalid payload"]);
    assert_eq!(sleep_of(&out), Some(2));
    assert_eq!(replay.sent(), 0);
    let out = replay.step(ReplayInput::DelayElapsed);
    assert_eq!(bytes_of(&out), Some(b"ok".to_vec()));
    let out = replay.step(ReplayInput::Transmitted);
    assert_eq!(
        shown(&out.events),
        vec!["4 progress=1", "4 INFO Sent: ok", "4 INFO Replay finished"]
    );
    assert_eq!(replay.sent(), 1);
    assert_eq!(replay.position(), 2);
}

#[test]
fn transmit_failure_aborts_the_rest() {
    let mut replay = Replay::new(Protocol::Udp, three_payloads(), "h", "1", 5u32);
    let mut seen = Vec::new();
    replay.step(ReplayInput::Ready);
    replay.step(ReplayInput::DelayElapsed);
    seen.extend(shown(&replay.step(ReplayInput::Transmitted).events));
    let out = replay.step(ReplayInput::DelayElapsed);
    assert_eq!(bytes_of(&out), Some(b"hi".to_vec()));
    let out = replay.step(ReplayInput::TransmitFailed("broken pipe".to_string()));
    assert_eq!(
        shown(&out.events),
        vec!["5 ERR Replay send failed: broken pipe", "5 INFO Replay finished"]
    );
    assert!(stops(&out));
    assert!(replay.finished());
    assert_eq!(replay.sent(), 1);
    assert_eq!(replay.position(), 1);
    seen.extend(shown(&out.events));
    for input in [ReplayInput::DelayElapsed, ReplayInput::Transmitted, ReplayInput::Ready] {
        let out = replay.step(input);
        assert!(out.events.is_empty());
        assert!(stops(&out));
    }
    let progress: Vec<&String> = seen.iter().filter(|s| s.contains("progress")).collect();
    assert_eq!(progress, vec!["5 progress=1"]);
}

#[test]
fn mismatched_protocol_is_turned_down() {
    let session = ReplayableSession {
        protocol: Protocol::Udp,
        payloads: vec![payload("01", PayloadType::Hex, 0)],
    };
    let expected = ReplayError::ProtocolMismatch { recorded: Protocol::Udp, current: Protocol::Tcp };
    assert_eq!(check_protocol(&session, Protocol::Tcp), Err(expected));
    assert_eq!(check_protocol(&session, Protocol::Udp), Ok(()));
    match Replay::for_session(&session, Protocol::Tcp, "h", "1", 9u32) {
        Ok(_) => panic!("a session recorded over UDP is not replayed over TCP"),
        Err(e) => {
            assert_eq!(e, expected);
            assert_eq!(e.message(), "Replay protocol (Udp) does not match current protocol (Tcp)");
        }
    }
    let other = ReplayError::ProtocolMismatch { recorded: Protocol::Tcp, current: Protocol::Udp };
    assert_eq!(other.message(), "Replay protocol (Tcp) does not match current protocol (Udp)");
}

#[test]
fn matching_protocol_is_replayed() {
    let session = ReplayableSession {
        protocol: Protocol::Tcp,
        payloads: vec![payload("01", PayloadType::Hex, 4), payload("x", PayloadType::Ascii, 5)],
    };
    let mut replay = match Replay::for_session(&session, Protocol::Tcp, "host", "23", 9u32) {
        Ok(replay) => replay,
        Err(_) => panic!("a session recorded over TCP is replayed over TCP"),
    };
    assert_eq!(replay.protocol(), Protocol::Tcp);
    assert_eq!(replay.target(), "host:23");
    let out = replay.step(ReplayInput::Ready);
    assert_eq!(shown(&out.events), vec!["9 INFO Replay connected to host:23"]);
    assert_eq!(sleep_of(&out), Some(4));
    assert_eq!(session.payloads.len(), 2);
}

#[test]
fn zero_delay_asks_for_no_pause() {
    let payloads = vec![
        payload("01", PayloadType::Hex, 40),
        payload("02", PayloadType::Hex, 0),
        payload("03", PayloadType::Hex, u64::MAX),
    ];
    let mut replay = Replay::new(Protocol::Udp, payloads, "h", "1", 1u32);
    assert_eq!(sleep_of(&replay.step(ReplayInput::Ready)), Some(40));
    replay.step(ReplayInput::DelayElapsed);
    assert_eq!(sleep_of(&replay.step(ReplayInput::Transmitted)), Some(0));
    assert_eq!(bytes_of(&replay.step(ReplayInput::DelayElapsed)), Some(vec![0x02]));
    assert_eq!(sleep_of(&replay.step(ReplayInput::Transmitted)), Some(u64::MAX));
}

#[test]
fn tcp_connect_failure_ends_the_replay_at_once() {
    let mut replay = Replay::new(Protocol::Tcp, three_payloads(), "h", "1", 2u32);
    let out = replay.step(ReplayInput::SetupFailed("connection refused".to_string()));
    assert_eq!(shown(&out.events), vec!["2 ERR Replay connection failed: connection refused"]);
    assert!(stops(&out));
    assert!(replay.finished());
    assert!(!replay.reading());
    assert_eq!(replay.sent(), 0);
    let out = replay.step(ReplayInput::Ready);
    assert!(out.events.is_empty());
    assert!(stops(&out));
}

#[test]
fn udp_bind_failure_ends_the_replay_at_once() {
    let mut replay = Replay::new(Protocol::Udp, three_payloads(), "h", "1", 2u32);
    let out = replay.step(ReplayInput::SetupFailed("no address".to_string()));
    assert_eq!(shown(&out.events), vec!["2 ERR Replay UDP bind failed: no address"]);
    assert!(stops(&out));
    assert!(replay.finished());
}

#[test]
fn tcp_replay_drains_what_the_peer_sends() {
    let mut replay = Replay::new(Protocol::Tcp, three_payloads(), "h", "1", 6u32);
    let out = replay.step(ReplayInput::Ready);
    assert_eq!(shown(&out.events), vec!["6 INFO Replay connected to h:1"]);
    assert!(replay.reading());
    let out = replay.step(ReplayInput::Received(vec![0xde, 0xad, 0x01]));
    assert_eq!(shown(&out.events), vec!["6 INFO Received: dead01"]);
    assert!(matches!(out.action, ReplayAction::Read));
    assert!(replay.reading());
}

#[test]
fn tcp_replay_stops_sending_once_the_peer_closed() {
    let mut replay = Replay::new(Protocol::Tcp, three_payloads(), "h", "1", 6u32);
    replay.step(ReplayInput::Ready);
    let out = replay.step(ReplayInput::RemoteClosed);
    assert_eq!(shown(&out.events), vec!["6 INFO Connection closed by server"]);
    assert!(stops(&out));
    assert!(!replay.reading());
    assert!(!replay.finished());
    let out = replay.step(ReplayInput::DelayElapsed);
    assert_eq!(
        shown(&out.events),
        vec!["6 INFO Replay stopped due to disconnect", "6 INFO Replay finished"]
    );
    assert!(stops(&out));
    assert!(replay.finished());
    assert_eq!(replay.sent(), 0);
}

#[test]
fn tcp_replay_stops_before_the_next_payload_once_the_peer_closed() {
    let mut replay = Replay::new(Protocol::Tcp, three_payloads(), "h", "1", 6u32);
    replay.step(ReplayInput::Ready);
    replay.step(ReplayInput::DelayElapsed);
    replay.step(ReplayInput::ReadFailed("reset".to_string()));
    let out = replay.step(ReplayInput::Transmitted);
    assert_eq!(
        shown(&out.events),
        vec![
            "6 progress=1",
            "6 INFO Sent: 01",
            "6 INFO Replay stopped due to disconnect",
            "6 INFO Replay finished"
        ]
    );
    assert!(stops(&out));
    assert_eq!(replay.sent(), 1);
    assert_eq!(replay.position(), 1);
}

#[test]
fn tcp_replay_lasts_until_the_peer_closes() {
    let payloads = vec![payload("01", PayloadType::Hex, 0)];
    let mut replay = Replay::new(Protocol::Tcp, payloads, "h", "1", 6u32);
    replay.step(ReplayInput::Ready);
    replay.step(ReplayInput::DelayElapsed);
    let out = replay.step(ReplayInput::Transmitted);
    assert_eq!(shown(&out.events), vec!["6 progress=1", "6 INFO Sent: 01"]);
    assert!(stops(&out));
    assert!(!replay.finished());
    assert!(replay.reading());
    let out = replay.step(ReplayInput::Received(vec![0x00]));
    assert_eq!(shown(&out.events), vec!["6 INFO Received: 00"]);
    let out = replay.step(ReplayInput::RemoteClosed);
    assert_eq!(
        shown(&out.events),
        vec!["6 INFO Connection closed by server", "6 INFO Replay finished"]
    );
    assert!(replay.finished());
}

#[test]
fn tcp_read_error_raises_the_stop_signal() {
    let mut replay = Replay::new(Protocol::Tcp, Vec::new(), "h", "1", 6u32);
    let out = replay.step(ReplayInput::Ready);
    assert_eq!(shown(&out.events), vec!["6 INFO Replay connected to h:1"]);
    assert!(stops(&out));
    assert!(!replay.finished());
    let out = replay.step(ReplayInput::ReadFailed("reset by peer".to_string()));
    assert_eq!(
        shown(&out.events),
        vec!["6 ERR Replay read error: reset by peer", "6 INFO Replay finished"]
    );
    assert!(replay.finished());
}

#[test]
fn read_of_no_bytes_means_the_peer_closed() {
    let mut replay = Replay::new(Protocol::Tcp, three_payloads(), "h", "1", 6u32);
    replay.step(ReplayInput::Ready);
    let out = replay.step(ReplayInput::Received(Vec::new()));
    assert_eq!(shown(&out.events), vec!["6 INFO Connection closed by server"]);
    assert!(stops(&out));
    assert!(!replay.reading());
}

#[test]
fn udp_replay_has_no_reader_lane() {
    let mut replay = Replay::new(Protocol::Udp, three_payloads(), "h", "1", 6u32);
    replay.step(ReplayInput::Ready);
    for input in [
        ReplayInput::Received(vec![1]),
        ReplayInput::RemoteClosed,
        ReplayInput::ReadFailed("x".to_string()),
    ] {
        let out = replay.step(input);
        assert!(out.events.is_empty());
        assert!(stops(&out));
    }
    assert_eq!(bytes_of(&replay.step(ReplayInput::DelayElapsed)), Some(vec![0x01]));
}

#[test]
fn udp_replay_of_nothing_finishes_when_ready() {
    let mut replay = Replay::new(Protocol::Udp, Vec::new(), "h", "1", 6u32);
    let out = replay.step(ReplayInput::Ready);
    assert_eq!(
        shown(&out.events),
        vec!["6 INFO Replay UDP ready to h:1", "6 INFO Replay finished"]
    );
    assert!(stops(&out));
    assert!(replay.finished());
}

#[test]
fn reports_that_do_not_fit_change_nothing() {
    let mut replay = Replay::new(Protocol::Udp, three_payloads(), "h", "1", 6u32);
    for input in [
        ReplayInput::DelayElapsed,
        ReplayInput::Transmitted,
        ReplayInput::TransmitFailed("x".to_string()),
    ] {
        let out = replay.step(input);
        assert!(out.events.is_empty());
        assert!(stops(&out));
    }
    assert_eq!(replay.position(), 0);
    assert_eq!(sleep_of(&replay.step(ReplayInput::Ready)), Some(0));
    let out = replay.step(ReplayInput::Transmitted);
    assert!(out.events.is_empty());
    assert!(stops(&out));
    assert_eq!(bytes_of(&replay.step(ReplayInput::DelayElapsed)), Some(vec![0x01]));
    let out = replay.step(ReplayInput::DelayElapsed);
    assert!(out.events.is_empty());
    assert!(stops(&out));
    assert_eq!(replay.sent(), 0);
}

#[test]
fn replay_never_tells_of_a_connection() {
    let mut replay = Replay::new(Protocol::Tcp, three_payloads(), "h", "1", 6u32);
    let inputs = vec![
        ReplayInput::Ready,
        ReplayInput::DelayElapsed,
        ReplayInput::Transmitted,
        ReplayInput::Received(vec![1, 2]),
        ReplayInput::DelayElapsed,
        ReplayInput::TransmitFailed("x".to_string()),
        ReplayInput::RemoteClosed,
    ];
    for input in inputs {
        for event in replay.step(input).events {
            assert!(!matches!(event, Event::Connection { .. }));
        }
    }
    assert!(replay.finished());
}

#[test]
fn sent_line_shows_the_text_as_recorded() {
    let payloads = vec![payload("DE AD be ef", PayloadType::Hex, 0)];
    let mut replay = Replay::new(Protocol::Udp, payloads, "h", "1", 6u32);
    replay.step(ReplayInput::Ready);
    assert_eq!(bytes_of(&replay.step(ReplayInput::DelayElapsed)), Some(vec![0xde, 0xad, 0xbe, 0xef]));
    let out = replay.step(ReplayInput::Transmitted);
    assert_eq!(
        shown(&out.events),
        vec!["6 progress=1", "6 INFO Sent: DE AD be ef", "6 INFO Replay finished"]
    );
    match &out.events[1] {
        Event::Log { level, .. } => assert_eq!(*level, LogLevel::Info),
        _ => panic!("the second notice is a log line"),
    }
}

fn run_udp(payloads: Vec<ReplayablePayload>) -> (Vec<Vec<u8>>, Vec<String>) {
    let mut replay = Replay::new(Protocol::Udp, payloads, "h", "1", 8u32);
    let mut sent = Vec::new();
    let mut told = Vec::new();
    let mut out = replay.step(ReplayInput::Ready);
    let mut steps = 0;
    loop {
        steps += 1;
        assert!(steps < 1000);
        told.extend(shown(&out.events));
        let input = match out.action {
            ReplayAction::Sleep(_) => ReplayInput::DelayElapsed,
            ReplayAction::Transmit(bytes) => {
                sent.push(bytes);
                ReplayInput::Transmitted
            }
            _ => break,
        };
        out = replay.step(input);
    }
    assert!(replay.finished());
    (sent, told)
}

#[test]
fn skipped_first_payload_does_not_advance_the_count() {
    let (sent, told) = run_udp(vec![
        payload(" ", PayloadType::Hex, 0),
        payload("hi", PayloadType::Ascii, 0),
    ]);
    assert_eq!(sent, vec![b"hi".to_vec()]);
    assert_eq!(
        told,
        vec![
            "8 INFO Replay UDP ready to h:1",
            "8 progress=1",
            "8 INFO Sent: hi",
            "8 INFO Replay finished"
        ]
    );
}

#[test]
fn payload_of_no_bytes_leaves_no_trace() {
    let others = vec![
        payload("01", PayloadType::Hex, 1),
        payload("zz", PayloadType::Hex, 2),
        payload("two", PayloadType::Ascii, 3),
        payload("03 04", PayloadType::Hex, 4),
    ];
    let (sent, told) = run_udp(others.clone());
    assert_eq!(sent, vec![vec![1], b"two".to_vec(), vec![3, 4]]);
    assert_eq!(
        told.iter().filter(|s| s.contains("progress")).collect::<Vec<_>>(),
        vec!["8 progress=1", "8 progress=2", "8 progress=3"]
    );
    for at in 0..=others.len() {
        for empty in [payload("", PayloadType::Ascii, 9), payload("  ", PayloadType::Hex, 9)] {
            let mut with = others.clone();
            with.insert(at, empty);
            assert_eq!(run_udp(with), (sent.clone(), told.clone()));
        }
    }
}

#[test]
fn tcp_progress_counts_what_was_sent_before_the_peer_closed() {
    let payloads = vec![
        payload("", PayloadType::Hex, 0),
        payload("aa", PayloadType::Hex, 0),
        payload("bb", PayloadType::Hex, 0),
    ];
    let mut replay = Replay::new(Protocol::Tcp, payloads, "h", "1", 6u32);
    replay.step(ReplayInput::Ready);
    assert_eq!(sleep_of(&replay.step(ReplayInput::DelayElapsed)), Some(0));
    assert_eq!(bytes_of(&replay.step(ReplayInput::DelayElapsed)), Some(vec![0xaa]));
    let out = replay.step(ReplayInput::Transmitted);
    assert_eq!(shown(&out.events), vec!["6 progress=1", "6 INFO Sent: aa"]);
    assert_eq!(replay.sent(), 1);
    replay.step(ReplayInput::RemoteClosed);
    let out = replay.step(ReplayInput::DelayElapsed);
    assert_eq!(
        shown(&out.events),
        vec!["6 INFO Replay stopped due to disconnect", "6 INFO Replay finished"]
    );
    assert_eq!(replay.sent(), 1);
    assert_eq!(replay.position(), 2);
}

#[test]
fn progress_after_an_invalid_payload_counts_on() {
    let (sent, told) = run_udp(vec![
        payload("01", PayloadType::Hex, 0),
        payload("xyz", PayloadType::Hex, 0),
        payload("02", PayloadType::Hex, 0),
    ]);
    assert_eq!(sent, vec![vec![1], vec![2]]);
    assert_eq!(
        told,
        vec![
            "8 INFO Replay UDP ready to h:1",
            "8 progress=1",
            "8 INFO Sent: 01",
            "8 WARN Replay invalid payload",
            "8 progress=2",
            "8 INFO Sent: 02",
            "8 INFO Replay finished"
        ]
    );
}
