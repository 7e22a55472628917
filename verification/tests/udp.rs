use replayr::event::Event;
use replayr::log::LogLevel;
use replayr::types::PayloadType;
use replayr::udp::{UdpAction, UdpInput, UdpOutput, UdpSend, UdpState};

fn line(out: &UdpOutput<i32>) -> (i32, LogLevel, String) {
    assert_eq!(out.events.len(), 1);
    match &out.events[0] {
        Event::Log { session_id, level, message } => (*session_id, *level, message.clone()),
        _ => panic!("a one-shot send publishes log lines only"),
    }
}

#[test]
fn datagram_is_sent_once_and_logged() {
    let mut send = UdpSend::new(vec![0xca, 0xfe], "192.168.0.9", "53", -4, PayloadType::Hex);
    assert_eq!(send.target(), "192.168.0.9:53");
    assert_eq!(send.state(), UdpState::Binding);
    let out = send.step(UdpInput::Bound);
    assert!(out.events.is_empty());
    match &out.action {
        UdpAction::SendTo(bytes) => assert_eq!(bytes, &vec![0xca, 0xfe]),
        UdpAction::Stop => panic!("a bound socket sends"),
    }
    assert_eq!(send.state(), UdpState::Sending);
    let out = send.step(UdpInput::Sent);
    assert_eq!(line(&out), (-4, LogLevel::Info, "Sent: cafe".to_string()));
    assert!(matches!(out.action, UdpAction::Stop));
    assert_eq!(send.state(), UdpState::Done);
}

#[test]
fn ascii_datagram_is_shown_as_text() {
    let mut send = UdpSend::new(b"ping".to_vec(), "h", "1", 1, PayloadType::Ascii);
    send.step(UdpInput::Bound);
    let out = send.step(UdpInput::Sent);
    assert_eq!(line(&out), (1, LogLevel::Info, "Sent: ping".to_string()));
}

#[test]
fn bind_failure_is_logged() {
    let mut send = UdpSend::new(vec![1], "h", "1", 1, PayloadType::Hex);
    let out = send.step(UdpInput::BindFailed("address in use".to_string()));
    assert_eq!(line(&out), (1, LogLevel::Error, "UDP bind failed: address in use".to_string()));
    assert!(matches!(out.action, UdpAction::Stop));
    assert_eq!(send.state(), UdpState::Done);
}

#[test]
fn send_failure_is_logged_and_not_retried() {
    let mut send = UdpSend::new(vec![1], "h", "1", 1, PayloadType::Hex);
    send.step(UdpInput::Bound);
    let out = send.step(UdpInput::SendFailed("unreachable".to_string()));
    assert_eq!(line(&out), (1, LogLevel::Error, "UDP send failed: unreachable".to_string()));
    assert!(matches!(out.action, UdpAction::Stop));
    for input in [UdpInput::Bound, UdpInput::Sent, UdpInput::SendFailed("x".to_string())] {
        let out = send.step(input);
        assert!(out.events.is_empty());
        assert!(matches!(out.action, UdpAction::Stop));
        assert_eq!(send.state(), UdpState::Done);
    }
}

#[test]
fn datagram_of_no_bytes_is_not_sent() {
    let mut send = UdpSend::new(Vec::new(), "h", "1", 1, PayloadType::Hex);
    let out = send.step(UdpInput::Bound);
    assert_eq!(line(&out), (1, LogLevel::Info, "Sent: ".to_string()));
    assert!(matches!(out.action, UdpAction::Stop));
    assert_eq!(send.state(), UdpState::Done);
}

#[test]
fn udp_reports_that_do_not_fit_change_nothing() {
    let mut send = UdpSend::new(vec![1], "h", "1", 1, PayloadType::Hex);
    let out = send.step(UdpInput::Sent);
    assert!(out.events.is_empty());
    assert!(matches!(out.action, UdpAction::Stop));
    assert_eq!(send.state(), UdpState::Binding);
    send.step(UdpInput::Bound);
    let out = send.step(UdpInput::Bound);
    assert!(out.events.is_empty());
    assert!(matches!(out.action, UdpAction::Stop));
    assert_eq!(send.state(), UdpState::Sending);
}
