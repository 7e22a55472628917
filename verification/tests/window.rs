use replayr::types::{PayloadType, Protocol, ReplayablePayload, SessionCommand};
use replayr::window::{
    delay_between, export_file_name, invalid_input_message, Dispatch, SessionData, Window,
    WindowState,
};

fn session_of(window: &Window) -> &SessionData {
    match &window.state {
        WindowState::Session(data) => data,
        WindowState::Replay(_) => panic!("the window holds a session"),
    }
}

fn replay_window() -> Window {
    Window::replay(
        vec![ReplayablePayload {
            payload: "01".to_string(),
            payload_type: PayloadType::Hex,
            delay: 2,
        }],
        "capture.json".to_string(),
    )
}

#[test]
fn tcp_window_opens_disconnected() {
    let window = Window::session(Protocol::Tcp, "ff".to_string(), PayloadType::Ascii);
    assert_eq!(window.title, "replayr - Tcp session (disconnected)");
    let data = session_of(&window);
    assert_eq!(data.payload_input, "");
    assert_eq!(data.log, "");
    assert!(!data.connected);
    assert_eq!(data.payload_type, PayloadType::Hex);
    assert_eq!(data.protocol, Protocol::Tcp);
    assert!(data.replay_payloads.is_empty());
    assert_eq!(data.last_packet_time, None);
    assert_eq!(data.input_placeholder, "68656c6c6f20776f726c64");
    assert_eq!(data.initial_payload, "ff");
    assert_eq!(data.initial_payload_type, PayloadType::Ascii);
}

#[test]
fn udp_window_opens_connected() {
    let window = Window::session(Protocol::Udp, String::new(), PayloadType::Hex);
    assert_eq!(window.title, "replayr - Udp session");
    assert!(session_of(&window).connected);
    assert_eq!(session_of(&window).protocol, Protocol::Udp);
}

#[test]
fn payload_type_changes_the_placeholder() {
    let mut window = Window::session(Protocol::Tcp, String::new(), PayloadType::Hex);
    window.payload_type_changed(PayloadType::Ascii);
    assert_eq!(session_of(&window).payload_type, PayloadType::Ascii);
    assert_eq!(session_of(&window).input_placeholder, "Hello World");
    window.payload_type_changed(PayloadType::Hex);
    assert_eq!(session_of(&window).payload_type, PayloadType::Hex);
    assert_eq!(session_of(&window).input_placeholder, "68656c6c6f20776f726c64");
    assert_eq!(PayloadType::Ascii.placeholder(), "Hello World");
}

#[test]
fn submitted_text_is_recorded_with_its_delay() {
    let mut window = Window::session(Protocol::Tcp, String::new(), PayloadType::Hex);
    window.input_changed("01 02".to_string());
    assert_eq!(session_of(&window).payload_input, "01 02");
    match window.send_packet(1_000) {
        Dispatch::ToSession(SessionCommand::SendPacket(bytes, kind)) => {
            assert_eq!(bytes, vec![1, 2]);
            assert_eq!(kind, PayloadType::Hex);
        }
        _ => panic!("text that decodes goes to the session"),
    }
    window.payload_type_changed(PayloadType::Ascii);
    window.input_changed("hey".to_string());
    match window.send_packet(1_250) {
        Dispatch::ToSession(SessionCommand::SendPacket(bytes, kind)) => {
            assert_eq!(bytes, b"hey".to_vec());
            assert_eq!(kind, PayloadType::Ascii);
        }
        _ => panic!("text that decodes goes to the session"),
    }
    let data = session_of(&window);
    assert_eq!(data.last_packet_time, Some(1_250));
    assert_eq!(data.replay_payloads.len(), 2);
    assert_eq!(data.replay_payloads[0].payload, "01 02");
    assert_eq!(data.replay_payloads[0].payload_type, PayloadType::Hex);
    assert_eq!(data.replay_payloads[0].delay, 0);
    assert_eq!(data.replay_payloads[1].payload, "hey");
    assert_eq!(data.replay_payloads[1].payload_type, PayloadType::Ascii);
    assert_eq!(data.replay_payloads[1].delay, 250);
}

#[test]
fn invalid_text_is_not_recorded() {
    let mut window = Window::session(Protocol::Tcp, String::new(), PayloadType::Hex);
    window.input_changed("abc".to_string());
    assert!(matches!(window.send_packet(10), Dispatch::Invalid));
    let data = session_of(&window);
    assert!(data.replay_payloads.is_empty());
    assert_eq!(data.last_packet_time, None);
    let notice = invalid_input_message(3u8);
    assert_eq!(notice.window_id, 3);
    assert_eq!(notice.content, "Invalid input");
}

#[test]
fn text_of_no_bytes_is_not_recorded() {
    let mut window = Window::session(Protocol::Tcp, String::new(), PayloadType::Hex);
    match window.send_packet(10) {
        Dispatch::ToSession(SessionCommand::SendPacket(bytes, _)) => assert!(bytes.is_empty()),
        _ => panic!("text that decodes goes to the session"),
    }
    let data = session_of(&window);
    assert!(data.replay_payloads.is_empty());
    assert_eq!(data.last_packet_time, None);
}

#[test]
fn delay_is_measured_from_the_payload_sent_last() {
    let mut window = Window::session(Protocol::Tcp, String::new(), PayloadType::Hex);
    window.input_changed("01".to_string());
    window.send_packet(100);
    window.input_changed("  ".to_string());
    window.send_packet(400);
    window.input_changed("0".to_string());
    assert!(matches!(window.send_packet(500), Dispatch::Invalid));
    assert_eq!(session_of(&window).last_packet_time, Some(100));
    window.input_changed("02".to_string());
    window.send_packet(1_000);
    let data = session_of(&window);
    assert_eq!(data.last_packet_time, Some(1_000));
    assert_eq!(data.replay_payloads.len(), 2);
    assert_eq!(data.replay_payloads[0].delay, 0);
    assert_eq!(data.replay_payloads[1].payload, "02");
    assert_eq!(data.replay_payloads[1].delay, 900);
}

#[test]
fn udp_text_goes_out_as_a_datagram() {
    let mut window = Window::session(Protocol::Udp, String::new(), PayloadType::Hex);
    window.input_changed("ff".to_string());
    match window.send_packet(5) {
        Dispatch::Datagram(bytes, kind) => {
            assert_eq!(bytes, vec![0xff]);
            assert_eq!(kind, PayloadType::Hex);
        }
        _ => panic!("over UDP the bytes go out as a datagram"),
    }
    assert_eq!(session_of(&window).replay_payloads.len(), 1);
}

#[test]
fn delay_is_the_time_since_the_last_submission() {
    assert_eq!(delay_between(None, 500), 0);
    assert_eq!(delay_between(Some(100), 350), 250);
    assert_eq!(delay_between(Some(350), 350), 0);
    assert_eq!(delay_between(Some(351), 350), 0);
    assert_eq!(delay_between(Some(0), u64::MAX), u64::MAX);
}

#[test]
fn log_lines_are_added_with_a_line_break() {
    let mut window = Window::session(Protocol::Tcp, String::new(), PayloadType::Hex);
    window.log_received("first");
    window.log_received("second");
    assert_eq!(session_of(&window).log, "first\nsecond\n");
    let mut replay = replay_window();
    replay.log_received("a");
    replay.log_received("");
    match &replay.state {
        WindowState::Replay(data) => assert_eq!(data.log, "a\n\n"),
        WindowState::Session(_) => panic!("the window holds a replay"),
    }
}

#[test]
fn connection_status_sets_state_and_title() {
    let mut window = Window::session(Protocol::Tcp, String::new(), PayloadType::Hex);
    window.connection_status(true, "10.1.2.3");
    assert!(session_of(&window).connected);
    assert_eq!(window.title, "Tcp session (connected to 10.1.2.3)");
    window.connection_status(false, "10.1.2.3");
    assert!(!session_of(&window).connected);
    assert_eq!(window.title, "Tcp session (disconnected)");
    let mut replay = replay_window();
    replay.connection_status(true, "10.1.2.3");
    assert_eq!(replay.title, "Replay session");
}

#[test]
fn replay_window_tracks_progress() {
    let mut window = replay_window();
    assert_eq!(window.title, "Replay session");
    match &window.state {
        WindowState::Replay(data) => {
            assert_eq!(data.log, "");
            assert_eq!(data.payloads.len(), 1);
            assert!(!data.connected);
            assert_eq!(data.file_name, "capture.json");
            assert_eq!(data.current_index, 0);
        }
        WindowState::Session(_) => panic!("the window holds a replay"),
    }
    window.replay_started();
    window.replay_progress(1);
    match &window.state {
        WindowState::Replay(data) => {
            assert!(data.connected);
            assert_eq!(data.current_index, 1);
        }
        WindowState::Session(_) => panic!("the window holds a replay"),
    }
    window.input_changed("x".to_string());
    window.payload_type_changed(PayloadType::Ascii);
    assert!(matches!(window.send_packet(1), Dispatch::Nothing));
    assert!(window.export_session().is_none());
}

#[test]
fn session_window_ignores_replay_notices() {
    let mut window = Window::session(Protocol::Tcp, String::new(), PayloadType::Hex);
    window.replay_started();
    window.replay_progress(4);
    assert!(!session_of(&window).connected);
    assert_eq!(window.title, "replayr - Tcp session (disconnected)");
}

#[test]
fn export_holds_what_was_sent_in_order() {
    let mut window = Window::session(Protocol::Udp, String::new(), PayloadType::Hex);
    window.input_changed("01".to_string());
    window.send_packet(100);
    window.input_changed("zz".to_string());
    window.send_packet(150);
    window.input_changed("02".to_string());
    window.send_packet(300);
    let session = window.export_session().unwrap();
    assert_eq!(session.protocol, Protocol::Udp);
    assert_eq!(session.payloads.len(), 2);
    assert_eq!(session.payloads[0].payload, "01");
    assert_eq!(session.payloads[0].delay, 0);
    assert_eq!(session.payloads[1].payload, "02");
    assert_eq!(session.payloads[1].delay, 200);
    assert_eq!(session_of(&window).replay_payloads.len(), 2);
}

fn replaced(title: &str, ending: &str) -> String {
    let name = title.replace(" ", "_").replace("(", "").replace(")", "").replace("to_", "");
    format!("{}{}", name, ending)
}

#[test]
fn export_name_is_the_tidied_title() {
    assert_eq!(
        export_file_name("Tcp session (connected to 127.0.0.1)", ".json"),
        "Tcp_session_connected_127.0.0.1.json"
    );
    assert_eq!(
        export_file_name("Tcp session (disconnected)", "_logs.txt"),
        "Tcp_session_disconnected_logs.txt"
    );
    assert_eq!(export_file_name("replayr - Udp session", ".json"), "replayr_-_Udp_session.json");
    assert_eq!(export_file_name("", ".json"), ".json");
    assert_eq!(export_file_name("((  ))", ""), "__");
}

#[test]
fn export_name_leaves_out_every_to_from_the_left() {
    assert_eq!(export_file_name("tto_o_", ""), "to_");
    assert_eq!(export_file_name("to to to", "!"), "to!");
    assert_eq!(export_file_name("t(o)_x", ""), "x");
    assert_eq!(export_file_name("to", ""), "to");
    assert_eq!(export_file_name("auto_to_", ""), "au");
    assert_eq!(export_file_name("zu to é ✓", ".txt"), "zu_é_✓.txt");
    for title in [
        "Tcp session (connected to 127.0.0.1)",
        "tto_o_",
        "to (x",
        "t(o_",
        "toto__to_to",
        "  (to )_ ",
        "into the (photo_) to_",
        "héllo to wörld",
    ] {
        assert_eq!(export_file_name(title, ".json"), replaced(title, ".json"));
    }
}

#[test]
fn window_clone_holds_the_same() {
    let mut window = Window::session(Protocol::Tcp, "aa".to_string(), PayloadType::Hex);
    window.input_changed("01".to_string());
    window.send_packet(3);
    window.log_received("line");
    let copy = window.clone();
    assert_eq!(copy.title, window.title);
    let (a, b) = (session_of(&copy), session_of(&window));
    assert_eq!(a.payload_input, b.payload_input);
    assert_eq!(a.log, "line\n");
    assert_eq!(a.replay_payloads.len(), 1);
    assert_eq!(a.replay_payloads[0].payload, "01");
    assert_eq!(a.last_packet_time, Some(3));
    assert_eq!(a.initial_payload, "aa");
    let replay = replay_window().clone();
    match &replay.state {
        WindowState::Replay(data) => {
            assert_eq!(data.file_name, "capture.json");
            assert_eq!(data.payloads.len(), 1);
            assert_eq!(data.payloads[0].delay, 2);
        }
        WindowState::Session(_) => panic!("the window holds a replay"),
    }
}
