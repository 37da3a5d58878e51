use station_control::event::Event;
use station_control::input::ChangeDetector;
use station_control::mqtt::{
    link_action, link_step, online_message, will_payload, LinkAction, LinkCommand, LinkEvent,
    LinkState, RECONNECT_ATTEMPTS, RECONNECT_INTERVAL_MS,
};
use station_control::output_task::{pin_level, requested_write, write_outcome, Line};
use station_control::processing::timeout_message;
use station_control::schema::{encode_response, Command, Response, Status};

#[test]
fn failed_write_reports_failure_only() {
    assert_eq!(
        write_outcome(Line::TxPowerEnable, true, false),
        Event::SendStatus(Some("Failed to set TX power enable".to_string()))
    );
    assert_eq!(
        write_outcome(Line::PttEnable, false, false),
        Event::SendStatus(Some("Failed to set PTT enable".to_string()))
    );
}

#[test]
fn successful_write_reports_change() {
    assert_eq!(write_outcome(Line::TxPowerEnable, true, true), Event::TxPowerEnableStateChanged(true));
    assert_eq!(write_outcome(Line::PttEnable, false, true), Event::PttEnableStateChanged(false));
}

#[test]
fn write_requests_need_a_line() {
    assert_eq!(requested_write(&Event::SetPttEnable(true), true, true), Some((Line::PttEnable, true)));
    assert_eq!(requested_write(&Event::SetPttEnable(true), true, false), None);
    assert_eq!(
        requested_write(&Event::SetTxPowerEnable(false), true, false),
        Some((Line::TxPowerEnable, false))
    );
    assert_eq!(requested_write(&Event::SetTxPowerEnable(false), false, true), None);
    assert_eq!(requested_write(&Event::Exit, true, true), None);
}

#[test]
fn pin_level_applies_polarity() {
    assert_eq!(pin_level(true, false), 1);
    assert_eq!(pin_level(false, false), 0);
    assert_eq!(pin_level(true, true), 0);
    assert_eq!(pin_level(false, true), 1);
}

#[test]
fn change_detector_reports_transitions_only() {
    let mut d = ChangeDetector::new();
    assert_eq!(d.observe(0), Some(false));
    assert_eq!(d.observe(0), None);
    assert_eq!(d.observe(1), Some(true));
    assert_eq!(d.observe(1), None);
    assert_eq!(d.observe(0), Some(false));
}

#[test]
fn timeout_message_names_duration() {
    assert_eq!(timeout_message(500), "TX timed out after 500ms");
    assert_eq!(timeout_message(0), "TX timed out after 0ms");
    assert_eq!(timeout_message(18446744073709551615), "TX timed out after 18446744073709551615ms");
}

#[test]
fn command_parse_and_events() {
    let c = Command::parse("{\"enable_tx_power\":true}").unwrap();
    assert_eq!(c, Command { enable_tx_power: Some(true), enable_ptt: None });
    assert_eq!(c.generate_events(), vec![Event::SetTxPowerEnable(true)]);
    let c = Command::parse("{}").unwrap();
    assert!(c.generate_events().is_empty());
    assert_eq!(Command::parse("\"x\""), None);
    assert_eq!(Command::parse("{\"enable_tx_power\":\"yes\"}"), None);
}

#[test]
fn encode_response_exact() {
    let s = Status { tx_power_enabled: Some(false), tx_power_active: Some(true), ptt_enabled: None, ptt_active: None };
    let text = encode_response(&s, &Some("a\nb".to_string()), "T");
    assert_eq!(
        text,
        "{\"status\":{\"tx_power_enabled\":false,\"tx_power_active\":true,\"ptt_enabled\":null,\
         \"ptt_active\":null},\"message\":\"a\\nb\",\"timestamp\":\"T\"}"
    );
}

#[test]
fn response_new_and_to_json() {
    let r = Response::new(Status::default(), None);
    assert!(!r.timestamp.is_empty());
    let text = r.to_json();
    assert!(text.starts_with("{\"status\":{\"tx_power_enabled\":null,"));
    assert!(text.contains("\"message\":null"));
}

#[test]
fn will_payload_announces_offline() {
    assert_eq!(
        will_payload("T"),
        "{\"status\":{\"tx_power_enabled\":null,\"tx_power_active\":null,\"ptt_enabled\":null,\
         \"ptt_active\":null},\"message\":\"Station controller has gone offline\",\"timestamp\":\"T\"}"
    );
    assert_eq!(online_message(), "Station controller is now online");
}

#[test]
fn link_actions() {
    assert!(matches!(link_action(Event::Exit), LinkAction::Stop));
    match link_action(Event::MqttMessageSend(station_control::event::MqttMessageEvent::new("t", "p"))) {
        LinkAction::Publish(m) => {
            assert_eq!(m.topic, "t");
            assert_eq!(m.message, "p");
        }
        _ => panic!("expected a publish"),
    }
    assert!(matches!(link_action(Event::SendStatus(None)), LinkAction::Ignore));
}

#[test]
fn link_connects_and_reconnects() {
    let (s, c) = link_step(LinkState::Connecting, LinkEvent::ConnectSucceeded);
    assert_eq!((s, c), (LinkState::Connected, LinkCommand::Subscribe));
    let (s, c) = link_step(s, LinkEvent::ConnectionLost);
    assert_eq!((s, c), (LinkState::Reconnecting { failed: 0 }, LinkCommand::RetryAfter(1000)));
    let (s, c) = link_step(s, LinkEvent::ConnectFailed);
    assert_eq!((s, c), (LinkState::Reconnecting { failed: 1 }, LinkCommand::RetryAfter(RECONNECT_INTERVAL_MS)));
    let (s, c) = link_step(s, LinkEvent::ConnectSucceeded);
    assert_eq!((s, c), (LinkState::Connected, LinkCommand::Subscribe));
    assert_eq!(
        link_step(LinkState::Connecting, LinkEvent::ConnectFailed),
        (LinkState::Terminated, LinkCommand::Abort)
    );
    assert_eq!(link_step(LinkState::Connected, LinkEvent::Exit), (LinkState::Terminated, LinkCommand::Stop));
}

#[test]
fn link_gives_up_after_all_attempts() {
    let (mut s, _) = link_step(LinkState::Connected, LinkEvent::ConnectionLost);
    let mut retries: u32 = 0;
    loop {
        let (next, c) = link_step(s, LinkEvent::ConnectFailed);
        s = next;
        match c {
            LinkCommand::RetryAfter(ms) => {
                assert_eq!(ms, 1000);
                retries += 1;
            }
            LinkCommand::Shutdown => break,
            other => panic!("unexpected {:?}", other),
        }
    }
    assert_eq!(retries, RECONNECT_ATTEMPTS - 1);
    assert_eq!(s, LinkState::Terminated);
}
