use tln_mqtt::topic::{device_in_topic, device_topic_of, is_device_topic, onboard_topic, selects, Channel};

const ALL: [Channel; 8] = [
    Channel::Onboard,
    Channel::Uptime,
    Channel::Hostname,
    Channel::Os,
    Channel::Send,
    Channel::Temperature,
    Channel::SwUptime,
    Channel::Echo,
];

#[test]
fn channel_words() {
    let words: Vec<&str> = ALL.iter().map(|c| c.word()).collect();
    assert_eq!(
        words,
        vec!["onboard", "uptime", "hostname", "os", "send", "temperature", "sw_uptime", "echo"]
    );
}

#[test]
fn builds_device_topics() {
    assert_eq!(device_topic_of("pi5", Channel::Onboard), "tln/pi5/onboard");
    assert_eq!(device_topic_of("HomeUbuntu", Channel::Echo), "tln/HomeUbuntu/echo");
    assert_eq!(onboard_topic("center_default"), "tln/center_default/onboard");
}

#[test]
fn finds_the_device_in_a_topic() {
    assert_eq!(device_in_topic("tln/pi5/onboard", Channel::Onboard), Some("pi5".to_string()));
    assert_eq!(device_in_topic("tln/héllo wörld/os", Channel::Os), Some("héllo wörld".to_string()));
    assert_eq!(device_in_topic("tln/a/sw_uptime", Channel::SwUptime), Some("a".to_string()));
    assert_eq!(device_in_topic("tln/a/sw_uptime", Channel::Uptime), None);
}

#[test]
fn rejects_topics_outside_the_pattern() {
    for t in [
        "tln//onboard",
        "tln/a/b/onboard",
        "xtln/a/onboard",
        "tln/a/onboardx",
        "tln/a/onboard/",
        "tln/a/onboard\n",
        "TLN/a/onboard",
        "tln/a/uptime",
        "",
    ] {
        assert_eq!(device_in_topic(t, Channel::Onboard), None, "{t:?}");
    }
}

#[test]
fn device_topic_round_trip_samples() {
    for name in ["pi5", "x", "HomeUbuntu", "dev ice", "δ"] {
        for c in ALL {
            let t = device_topic_of(name, c);
            assert_eq!(device_in_topic(&t, c), Some(name.to_string()));
        }
    }
    // a name with a slash is not read back
    let t = device_topic_of("a/b", Channel::Os);
    assert_eq!(device_in_topic(&t, Channel::Os), None);
}

#[test]
fn own_topics_are_exact() {
    assert!(is_device_topic("tln/me/send", "me", Channel::Send));
    assert!(!is_device_topic("tln/you/send", "me", Channel::Send));
    assert!(!is_device_topic("tln/me/send/", "me", Channel::Send));
    assert!(is_device_topic("tln/a/b/echo", "a/b", Channel::Echo));
}

#[test]
fn at_most_one_channel_selects_a_topic() {
    let topics = [
        "tln/me/onboard", "tln/me/uptime", "tln/me/hostname", "tln/me/os", "tln/me/send",
        "tln/me/temperature", "tln/me/sw_uptime", "tln/me/echo", "tln/other/send",
        "tln/me/nothing", "tln/#",
    ];
    for t in topics {
        let n = ALL.iter().filter(|c| selects(**c, t, "me")).count();
        assert!(n <= 1, "{t}");
    }
    assert!(selects(Channel::Send, "tln/me/send", "me"));
    assert!(!selects(Channel::Send, "tln/other/send", "me"));
    assert!(selects(Channel::Temperature, "tln/other/temperature", "me"));
}
