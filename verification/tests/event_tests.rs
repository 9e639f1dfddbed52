use tln_mqtt::event::{
    handle, incoming_publish_log, is_disconnect, print_event, process_event, process_event_echo,
    process_event_hostname, process_event_onboard, process_event_os, process_event_send,
    process_event_sw_uptime, process_event_temperature, process_event_uptime, unexpected_line,
    DeviceInfo, Event, Outcome, Outgoing, Packet, PrintAction, Publish, RxStep,
    is_text_payload, reads_payload_to_process, reads_payload_to_show, receive_step,
};
use tln_mqtt::topic::Channel;

fn publish(topic: &str, payload: &[u8]) -> Event {
    Event::Incoming(Packet::Publish(Publish { topic: topic.to_string(), payload: payload.to_vec() }))
}

fn update_of(o: Outcome) -> Option<(String, DeviceInfo)> {
    match o {
        Outcome::Update(u) => Some((u.name, u.info)),
        _ => None,
    }
}

#[test]
fn routine_traffic_is_silent() {
    let routine = [
        Event::Incoming(Packet::PingResp),
        Event::Incoming(Packet::ConnAck),
        Event::Incoming(Packet::SubAck),
        Event::Incoming(Packet::PubAck),
        Event::Outgoing(Outgoing::PingReq),
        Event::Outgoing(Outgoing::Subscribe),
        Event::Outgoing(Outgoing::Publish),
    ];
    for e in routine.iter() {
        assert!(matches!(print_event(e, true), PrintAction::Silent));
        assert!(matches!(print_event(e, false), PrintAction::Silent));
    }
}

#[test]
fn other_notifications_are_unexpected() {
    let others = [
        Event::Incoming(Packet::Disconnect),
        Event::Incoming(Packet::PingReq),
        Event::Incoming(Packet::PubRec),
        Event::Outgoing(Outgoing::Disconnect),
        Event::Outgoing(Outgoing::PubAck),
        Event::Outgoing(Outgoing::AwaitAck),
    ];
    for e in others.iter() {
        assert!(matches!(print_event(e, true), PrintAction::Unexpected));
    }
}

#[test]
fn messages_on_send_topics_are_logged() {
    let e = publish("tln/pi5/send", b"secret");
    match print_event(&e, true) {
        PrintAction::Log { topic, text } => {
            assert_eq!(topic, "tln/pi5/send");
            assert_eq!(text, "secret");
        }
        _ => panic!("expected a log"),
    }
    assert!(matches!(print_event(&e, false), PrintAction::Silent));
    let e = publish("tln/pi5/uptime", b"5");
    assert!(matches!(print_event(&e, true), PrintAction::Silent));
    let e = publish("tln/sender/os", b"linux");
    assert!(matches!(print_event(&e, true), PrintAction::Log { .. }));
}

#[test]
fn payloads_read_as_text() {
    let bad = publish("tln/pi5/send", &[0xff, 0xfe]);
    assert!(!is_text_payload(&bad));
    assert!(is_text_payload(&publish("tln/pi5/send", "é".as_bytes())));
    assert!(is_text_payload(&Event::Incoming(Packet::PingResp)));
    assert!(reads_payload_to_show(&bad, true));
    assert!(!reads_payload_to_show(&bad, false));
    assert!(!reads_payload_to_show(&publish("tln/pi5/os", b"x"), true));
    assert!(matches!(print_event(&bad, false), PrintAction::Silent));
    assert!(reads_payload_to_process(&publish("tln/pi5/onboard", &[0xc3]), "me"));
    assert!(reads_payload_to_process(&publish("tln/me/send", b"x"), "me"));
    assert!(!reads_payload_to_process(&publish("tln/you/send", b"x"), "me"));
    assert!(!reads_payload_to_process(&publish("tln/me/nothing", b"x"), "me"));
    assert!(!reads_payload_to_process(&Event::Outgoing(Outgoing::PingReq), "me"));
}

#[test]
fn receive_steps() {
    assert!(matches!(receive_step(&Event::Outgoing(Outgoing::Disconnect), true, "me"), RxStep::Leave));
    match receive_step(&publish("tln/me/send", b"cipher"), true, "me") {
        RxStep::Handle { show, process } => {
            assert!(matches!(show, PrintAction::Log { ref text, .. } if text == "cipher"));
            assert!(matches!(process, Outcome::Forward(ref t) if t == "cipher"));
        }
        RxStep::Leave => panic!("expected a step"),
    }
    match receive_step(&Event::Incoming(Packet::Disconnect), true, "me") {
        RxStep::Handle { show, process } => {
            assert!(matches!(show, PrintAction::Unexpected));
            assert!(matches!(process, Outcome::Ignored));
        }
        RxStep::Leave => panic!("expected a step"),
    }
}

#[test]
fn log_and_error_lines() {
    assert_eq!(
        incoming_publish_log("tln/a/send", "hi"),
        "\u{1b}[32mIncoming publish\u{1b}[39m: tln/a/send::hi"
    );
    assert_eq!(unexpected_line("Incoming(Disconnect)"), "Err: Notification = \u{1b}[31mIncoming(Disconnect)\u{1b}[39m");
}

#[test]
fn only_outgoing_disconnect_leaves() {
    assert!(is_disconnect(&Event::Outgoing(Outgoing::Disconnect)));
    assert!(!is_disconnect(&Event::Incoming(Packet::Disconnect)));
    assert!(!is_disconnect(&publish("tln/a/send", b"x")));
}

#[test]
fn onboard_reads_zero_and_one() {
    let on = update_of(process_event_onboard(&publish("tln/pi5/onboard", b"1")));
    assert!(matches!(on, Some((ref n, DeviceInfo::Onboard(true))) if n == "pi5"));
    let off = update_of(process_event_onboard(&publish("tln/pi5/onboard", b"0")));
    assert!(matches!(off, Some((ref n, DeviceInfo::Onboard(false))) if n == "pi5"));
    let plus = update_of(process_event_onboard(&publish("tln/pi5/onboard", b"+1")));
    assert!(matches!(plus, Some((_, DeviceInfo::Onboard(true)))));
}

#[test]
fn onboard_ignores_other_values() {
    for p in [&b"2"[..], b"", b"yes", b" 1", b"-1", b"18446744073709551616"] {
        assert!(matches!(process_event_onboard(&publish("tln/pi5/onboard", p)), Outcome::Ignored));
    }
    assert!(matches!(process_event_onboard(&publish("tln/pi5/uptime", b"1")), Outcome::Ignored));
    assert!(matches!(process_event_onboard(&Event::Incoming(Packet::PingResp)), Outcome::Ignored));
}

#[test]
fn uptimes_are_numbers() {
    let u = update_of(process_event_uptime(&publish("tln/pi5/uptime", b"3600")));
    assert!(matches!(u, Some((ref n, DeviceInfo::Uptime(3600))) if n == "pi5"));
    assert!(matches!(process_event_uptime(&publish("tln/pi5/uptime", b"12.5")), Outcome::Ignored));
    let s = update_of(process_event_sw_uptime(&publish("tln/pi5/sw_uptime", b"42")));
    assert!(matches!(s, Some((_, DeviceInfo::SwUptime(42)))));
    assert!(matches!(process_event_sw_uptime(&publish("tln/pi5/sw_uptime", b"x")), Outcome::Ignored));
}

#[test]
fn hostname_and_os_are_texts() {
    let h = update_of(process_event_hostname(&publish("tln/pi5/hostname", b"raspberrypi")));
    assert!(matches!(h, Some((ref n, DeviceInfo::Hostname(ref v))) if n == "pi5" && v == "raspberrypi"));
    let o = update_of(process_event_os(&publish("tln/pi5/os", "Linux é".as_bytes())));
    assert!(matches!(o, Some((_, DeviceInfo::Os(ref v))) if v == "Linux é"));
    assert!(matches!(process_event_os(&publish("tln/pi5/hostname", &[0x80])), Outcome::Ignored));
}

#[test]
fn temperature_text_is_handed_on() {
    match process_event_temperature(&publish("tln/pi5/temperature", b"41.5")) {
        Outcome::Temperature { name, text } => {
            assert_eq!(name, "pi5");
            assert_eq!(text, "41.5");
        }
        _ => panic!("expected a temperature"),
    }
}

#[test]
fn send_and_echo_are_for_this_device_only() {
    match process_event_send(&publish("tln/me/send", b"cipher"), "me") {
        Outcome::Forward(t) => assert_eq!(t, "cipher"),
        _ => panic!("expected a forward"),
    }
    assert!(matches!(process_event_send(&publish("tln/you/send", b"cipher"), "me"), Outcome::Ignored));
    match process_event_echo(&publish("tln/me/echo", b"Hello"), "me") {
        Outcome::Echo(t) => assert_eq!(t, "Hello"),
        _ => panic!("expected an echo"),
    }
    assert!(matches!(process_event_echo(&publish("tln/you/echo", b"Hello"), "me"), Outcome::Ignored));
    assert!(matches!(process_event_send(&publish("tln/you/send", &[0xff]), "me"), Outcome::Ignored));
}

#[test]
fn process_event_takes_the_one_channel_that_acts() {
    let e = publish("tln/pi5/uptime", b"10");
    assert!(matches!(update_of(process_event(&e, "me")), Some((_, DeviceInfo::Uptime(10)))));
    let e = publish("tln/me/echo", b"hey");
    assert!(matches!(process_event(&e, "me"), Outcome::Echo(_)));
    let e = publish("tln/me/unknown", b"hey");
    assert!(matches!(process_event(&e, "me"), Outcome::Ignored));
    assert!(matches!(process_event(&Event::Outgoing(Outgoing::PingReq), "me"), Outcome::Ignored));
}

#[test]
fn at_most_one_handler_acts_on_samples() {
    let channels = [
        Channel::Onboard, Channel::Uptime, Channel::Hostname, Channel::Os,
        Channel::Send, Channel::Temperature, Channel::SwUptime, Channel::Echo,
    ];
    let events = [
        publish("tln/me/onboard", b"1"),
        publish("tln/me/send", b"x"),
        publish("tln/me/echo", b"x"),
        publish("tln/me/os", b"linux"),
        publish("tln/x/temperature", b"3"),
    ];
    for e in events.iter() {
        let acting = channels
            .iter()
            .filter(|c| !matches!(handle(**c, e, "me"), Outcome::Ignored))
            .count();
        assert_eq!(acting, 1);
    }
}
