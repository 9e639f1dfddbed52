use tln_mqtt::command::{
    devinfo_update_command, logs_add_command, restart_command, shell_cmd_command,
    shell_dest_command, shell_start_command, shell_stop_command,
};
use tln_mqtt::event::{process_event_onboard, DeviceInfo, Event, Outcome, Packet, Publish};
use tln_mqtt::plugin::{
    last_will, leave_line, loading_line, name, plan_action, plan_send, publish, receive_error_line,
    receiving_line, report_publication, on_receive_failure, RxAction, restart_line, show, startup, status, subscribe, tag,
    unload, unload_line, ActionPlan, ClientOp, QoS, RemoteShell, Report, SendPlan, ShellStep, BROKER,
    MODULE, PORT, RESTART_DELAY, SUBSCRIPTION, connection_options, initial_show, KEEP_ALIVE_SECS, REQUEST_CAPACITY,
};

const TAG: &str = "[\u{1b}[34mmqtt\u{1b}[39m]";

#[test]
fn name_status_and_show() {
    assert_eq!(name(), "mqtt");
    assert_eq!(MODULE, "mqtt");
    assert_eq!(BROKER, "broker.emqx.io");
    assert_eq!(PORT, 1883);
    assert_eq!(status("pi5"), "Broker: broker.emqx.io\nId: pi5\n");
    let help = show();
    assert!(help.contains("action plugin mqtt remote command"));
    assert!(help.starts_with('\n'));
    assert!(help.contains("Echo 'Hello' to device 'HomeUbuntu'"));
}

#[test]
fn publications() {
    let p = publish("tln/a/send", false, "x");
    assert_eq!(p.topic, "tln/a/send");
    assert_eq!(p.payload, "x");
    assert!(!p.retain);
    assert_eq!(p.qos, QoS::AtLeastOnce);
    match subscribe("tln/#") {
        ClientOp::Subscribe { topic, qos } => {
            assert_eq!(topic, "tln/#");
            assert_eq!(qos, QoS::AtMostOnce);
        }
        _ => panic!("expected a subscription"),
    }
    let w = last_will("pi5");
    assert_eq!(w.topic, "tln/pi5/onboard");
    assert_eq!(w.payload, "0");
    assert!(w.retain);
    assert_eq!(w.qos, QoS::AtMostOnce);
}

#[test]
fn startup_sequence() {
    let ops = startup("pi5", "center_default");
    assert_eq!(ops.len(), 3);
    match &ops[0] {
        ClientOp::Publish(p) => {
            assert_eq!(p.topic, "tln/center_default/onboard");
            assert_eq!(p.payload, "");
            assert!(p.retain);
            assert_eq!(p.qos, QoS::AtLeastOnce);
        }
        _ => panic!("expected a publication"),
    }
    match &ops[1] {
        ClientOp::Subscribe { topic, qos } => {
            assert_eq!(topic, SUBSCRIPTION);
            assert_eq!(topic, "tln/#");
            assert_eq!(*qos, QoS::AtMostOnce);
        }
        _ => panic!("expected a subscription"),
    }
    match &ops[2] {
        ClientOp::Publish(p) => {
            assert_eq!(p.topic, "tln/pi5/onboard");
            assert_eq!(p.payload, "1");
            assert!(p.retain);
        }
        _ => panic!("expected a publication"),
    }
}

#[test]
fn unload_sequence() {
    let ops = unload("pi5");
    assert_eq!(ops.len(), 2);
    match &ops[0] {
        ClientOp::Publish(p) => {
            assert_eq!(p.topic, "tln/pi5/onboard");
            assert_eq!(p.payload, "0");
            assert!(p.retain);
        }
        _ => panic!("expected a publication"),
    }
    assert!(matches!(ops[1], ClientOp::Disconnect));
}

#[test]
fn announcements_read_back() {
    for (op_list, online) in [(startup("pi5", "def"), true), (unload("pi5"), false)] {
        let p = op_list
            .iter()
            .filter_map(|op| match op {
                ClientOp::Publish(p) if p.topic == "tln/pi5/onboard" => Some(p),
                _ => None,
            })
            .next()
            .unwrap();
        let e = Event::Incoming(Packet::Publish(Publish {
            topic: p.topic.clone(),
            payload: p.payload.as_bytes().to_vec(),
        }));
        match process_event_onboard(&e) {
            Outcome::Update(u) => {
                assert_eq!(u.name, "pi5");
                assert!(matches!(u.info, DeviceInfo::Onboard(b) if b == online));
            }
            _ => panic!("expected an update"),
        }
    }
}

#[test]
fn send_plans() {
    assert_eq!(plan_send("report"), SendPlan::PublishReport);
    assert_eq!(plan_send("reports"), SendPlan::Nothing);
    assert_eq!(plan_send(""), SendPlan::Nothing);
    let p = report_publication(&Report { topic: "tln/pi5/send".to_string(), payload: "exit".to_string() });
    assert_eq!(p.topic, "tln/pi5/send");
    assert_eq!(p.payload, "exit");
    assert!(!p.retain);
    assert_eq!(p.qos, QoS::AtLeastOnce);
}

#[test]
fn action_plans() {
    match plan_action("report", "myself", "pi5") {
        ActionPlan::AnnounceOnline(p) => {
            assert_eq!(p.topic, "tln/pi5/onboard");
            assert_eq!(p.payload, "1");
            assert!(p.retain);
        }
        _ => panic!("expected an announcement"),
    }
    assert!(matches!(plan_action("report", "{\"topic\":\"a\",\"payload\":\"b\"}", "pi5"), ActionPlan::RelayReport));
    assert!(matches!(plan_action("remote", "command", "pi5"), ActionPlan::RemoteShell));
    assert!(matches!(plan_action("remote", "other", "pi5"), ActionPlan::Nothing));
    assert!(matches!(plan_action("other", "command", "pi5"), ActionPlan::Nothing));
}

#[test]
fn remote_shell_session() {
    let (mut shell, first) = RemoteShell::open("  pi5 \n", "laptop", true);
    assert_eq!(shell.topic(), "tln/pi5/send");
    assert_eq!(shell.prompt(), "pi5 > ");
    assert_eq!(first, vec![
        "action plugin command dest 'laptop'".to_string(),
        "action plugin command shell start".to_string(),
    ]);
    assert!(!shell.show_while_open());
    assert!(matches!(shell.on_line("\n"), ShellStep::Skip));
    assert!(matches!(shell.on_line("   "), ShellStep::Skip));
    match shell.on_line("  ls -l \n") {
        ShellStep::Send(c) => assert_eq!(c, "action plugin command cmd 'ls -l'"),
        _ => panic!("expected a command"),
    }
    match shell.on_line("exit now") {
        ShellStep::Send(c) => assert_eq!(c, "action plugin command cmd 'exit now'"),
        _ => panic!("expected a command"),
    }
    assert!(matches!(shell.on_line("exit\n"), ShellStep::Exit));
    // after exit, every line ends the session again
    assert!(matches!(shell.on_line("ls"), ShellStep::Exit));
    let (restore, last) = shell.close();
    assert!(restore);
    assert_eq!(last, "action plugin command shell stop");
}

#[test]
fn remote_shell_restores_show_switch() {
    for show in [true, false] {
        let (mut shell, _) = RemoteShell::open("pi5", "me", show);
        let _ = shell.on_line("uptime");
        let _ = shell.on_line("exit");
        let (restore, _) = shell.close();
        assert_eq!(restore, show);
    }
}

#[test]
fn command_lines() {
    assert_eq!(logs_add_command("abc"), "send plugin logs add 'abc'");
    assert_eq!(
        devinfo_update_command("{\"name\":\"pi5\"}"),
        "action plugin devinfo update '{\"name\":\"pi5\"}'"
    );
    assert_eq!(restart_command(), "restart plugin mqtt");
    assert_eq!(shell_dest_command("me"), "action plugin command dest 'me'");
    assert_eq!(shell_start_command(), "action plugin command shell start");
    assert_eq!(shell_cmd_command("ls"), "action plugin command cmd 'ls'");
    assert_eq!(shell_stop_command(), "action plugin command shell stop");
}

#[test]
fn console_lines() {
    assert_eq!(tag(), TAG);
    assert_eq!(loading_line(), format!("{TAG} Loading..."));
    assert_eq!(
        receiving_line(),
        format!("{TAG} Start to receive mqtt message (but ignore the outgoing ping req and incoming ping resp).")
    );
    assert_eq!(leave_line("Outgoing(Disconnect)"), format!("{TAG} Notification = Outgoing(Disconnect), leave"));
    assert_eq!(
        receive_error_line("Io(err)"),
        format!("{TAG} Mqtt rx err: Notification = \u{1b}[31mIo(err)\u{1b}[39m")
    );
    assert_eq!(RESTART_DELAY, 20);
    assert_eq!(restart_line(), format!("{TAG} Sleep 20 seconds to restart..."));
    assert_eq!(unload_line(), format!("{TAG} Unload"));
}

#[test]
fn shell_commands_reach_the_remote_device() {
    let (mut shell, _) = RemoteShell::open(" pi5\t", "me", true);
    let cmd = match shell.on_line("reboot") {
        ShellStep::Send(c) => c,
        _ => panic!("expected a command"),
    };
    let e = Event::Incoming(Packet::Publish(Publish {
        topic: shell.topic().to_string(),
        payload: cmd.as_bytes().to_vec(),
    }));
    match tln_mqtt::event::process_event_send(&e, "pi5") {
        Outcome::Forward(t) => assert_eq!(t, cmd),
        _ => panic!("expected a forward"),
    }
    assert!(matches!(tln_mqtt::event::process_event_send(&e, "me"), Outcome::Ignored));
}

#[test]
fn nothing_is_logged_while_the_shell_runs() {
    let (shell, _) = RemoteShell::open("pi5", "me", true);
    let show = shell.show_while_open();
    for topic in ["tln/me/send", "tln/pi5/send", "send", "tln/x/os"] {
        let e = Event::Incoming(Packet::Publish(Publish { topic: topic.to_string(), payload: vec![0xff] }));
        assert!(matches!(tln_mqtt::event::print_event(&e, show), tln_mqtt::event::PrintAction::Silent));
    }
}

#[test]
fn show_text_is_exact() {
    let expected = r#"
action plugin mqtt report '{"topic": "tln/pi5/send", "payload": "exit"}'
    Ask a remote device to exit.

action plugin mqtt report '{"topic": "tln/HomeUbuntu/echo", "payload": "Hello"}'
    Echo 'Hello' to device 'HomeUbuntu'

action plugin mqtt remote command
    Interative command
"#;
    assert_eq!(show(), expected);
}

#[test]
fn receive_failure_sequence() {
    let actions = on_receive_failure("Io(reset)");
    let err = format!("{TAG} Mqtt rx err: Notification = \u{1b}[31mIo(reset)\u{1b}[39m");
    let wait = format!("{TAG} Sleep 20 seconds to restart...");
    assert_eq!(actions.len(), 6);
    assert!(matches!(&actions[0], RxAction::Print(l) if *l == err));
    assert!(matches!(&actions[1], RxAction::Log(l) if *l == err));
    assert!(matches!(&actions[2], RxAction::Print(l) if *l == wait));
    assert!(matches!(&actions[3], RxAction::Log(l) if *l == wait));
    assert!(matches!(&actions[4], RxAction::Sleep(20)));
    assert!(matches!(&actions[5], RxAction::Send(c) if c == "restart plugin mqtt"));
}

#[test]
fn connection_of_the_device() {
    let o = connection_options("pi5");
    assert_eq!(o.client_id, "pi5");
    assert_eq!(o.broker, "broker.emqx.io");
    assert_eq!(o.port, 1883);
    assert_eq!(o.keep_alive_secs, 5);
    assert_eq!(KEEP_ALIVE_SECS, 5);
    assert_eq!(o.request_capacity, 10);
    assert_eq!(REQUEST_CAPACITY, 10);
    assert_eq!(o.last_will.topic, "tln/pi5/onboard");
    assert_eq!(o.last_will.payload, "0");
    assert!(o.last_will.retain);
    assert_eq!(o.last_will.qos, QoS::AtMostOnce);
}

#[test]
fn showing_starts_on_and_comes_back_on() {
    let show = initial_show();
    assert!(show);
    let (mut shell, _) = RemoteShell::open("pi5", "me", show);
    for line in ["ls", "", "exit", "more"] {
        let _ = shell.on_line(line);
    }
    let (restore, _) = shell.close();
    assert!(restore);
}

#[test]
fn session_over_a_sequence_of_lines() {
    let (mut shell, first) = RemoteShell::open("pi5", "me", false);
    let mut published: Vec<String> = first;
    for line in ["uptime", "  ", "\tdf -h ", "exit", "reboot"] {
        if let ShellStep::Send(c) = shell.on_line(line) {
            published.push(c);
        }
    }
    let (_, last) = shell.close();
    published.push(last);
    assert_eq!(
        published,
        vec![
            "action plugin command dest 'me'",
            "action plugin command shell start",
            "action plugin command cmd 'uptime'",
            "action plugin command cmd 'df -h'",
            "action plugin command shell stop",
        ]
    );
}

#[test]
fn relayed_report_reaches_the_device() {
    let report = Report { topic: "tln/HomeUbuntu/echo".to_string(), payload: "c2VjcmV0".to_string() };
    let p = report_publication(&report);
    let e = Event::Incoming(Packet::Publish(Publish { topic: p.topic.clone(), payload: p.payload.as_bytes().to_vec() }));
    match tln_mqtt::event::process_event_echo(&e, "HomeUbuntu") {
        Outcome::Echo(t) => assert_eq!(t, "c2VjcmV0"),
        _ => panic!("expected an echo"),
    }
}
