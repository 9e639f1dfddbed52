//! Notifications of the MQTT connection and what the plugin does with each:
//! which are shown, and which device-information channel takes a message.
use crate::style::{green, red};
use crate::text::{
    contains, decimal_text, decimal_u64, has_infix, lemma_decimal_round_trip, parse_u64,
};
use crate::topic::{
    channel_selects, channel_word, device_of_topic, device_in_topic, has_no_slash,
    is_device_topic, is_own_channel, lemma_at_most_one_channel, lemma_channel_word_plain,
    lemma_device_topic_round_trip, opt_text, selects, Channel,
};
use vstd::prelude::*;
use vstd::utf8::{
    decode_utf8, encode_utf8, encode_utf8_decode_utf8, encode_utf8_valid_utf8, valid_utf8,
};

verus! {

// ---------------------------------------------------------------------------
// Notifications
// ---------------------------------------------------------------------------

/// A message published to the broker: its topic and its payload bytes.
pub struct Publish {
    pub topic: String,
    pub payload: Vec<u8>,
}

/// A packet received from the broker.
pub enum Packet {
    Connect,
    ConnAck,
    Publish(Publish),
    PubAck,
    PubRec,
    PubRel,
    PubComp,
    Subscribe,
    SubAck,
    Unsubscribe,
    UnsubAck,
    PingReq,
    PingResp,
    Disconnect,
}

/// A packet sent to the broker.
pub enum Outgoing {
    Publish,
    Subscribe,
    Unsubscribe,
    PubAck,
    PubRec,
    PubRel,
    PubComp,
    PingReq,
    PingResp,
    Disconnect,
    AwaitAck,
}

/// One notification of the connection's event loop.
pub enum Event {
    Incoming(Packet),
    Outgoing(Outgoing),
}

/// The text of a payload, when its bytes are valid UTF-8.
pub open spec fn utf8_text(bytes: Seq<u8>) -> Option<Seq<char>> {
    if valid_utf8(bytes) {
        Some(decode_utf8(bytes))
    } else {
        None
    }
}

/// `std::str::from_utf8`: `Ok` exactly when the bytes are valid UTF-8, and
/// then the string whose UTF-8 encoding they are.
#[verifier::external_body]
fn decode_payload(bytes: &[u8]) -> (res: Option<String>)
    ensures
        opt_text(res) == utf8_text(bytes@),
{
    match std::str::from_utf8(bytes) {
        Ok(s) => Some(s.to_string()),
        Err(_) => None,
    }
}

/// The notification that ends the receiving loop: the client sent a
/// `Disconnect`.
pub open spec fn is_disconnect_event(e: Event) -> bool {
    e matches Event::Outgoing(Outgoing::Disconnect)
}

/// Whether the receiving loop stops at this notification.
pub fn is_disconnect(notif: &Event) -> (b: bool)
    ensures
        b == is_disconnect_event(*notif),
{
    match notif {
        Event::Outgoing(Outgoing::Disconnect) => true,
        _ => false,
    }
}

// ---------------------------------------------------------------------------
// Showing notifications
// ---------------------------------------------------------------------------

/// What is shown of a notification.
pub enum PrintAction {
    /// Routine traffic: nothing is shown.
    Silent,
    /// An incoming message on a `send` topic: logged, after its text is
    /// decrypted.
    Log { topic: String, text: String },
    /// Anything else: shown as an error.
    Unexpected,
}

pub enum PrintModel {
    Silent,
    Log(Seq<char>, Seq<char>),
    Unexpected,
}

impl View for PrintAction {
    type V = PrintModel;

    open spec fn view(&self) -> PrintModel {
        match self {
            PrintAction::Silent => PrintModel::Silent,
            PrintAction::Log { topic, text } => PrintModel::Log(topic@, text@),
            PrintAction::Unexpected => PrintModel::Unexpected,
        }
    }
}

/// The notifications that are routine traffic: pings, acknowledgements of
/// connection, subscription and publication, and the client's own
/// subscriptions and publications.
pub open spec fn is_routine(e: Event) -> bool {
    match e {
        Event::Incoming(Packet::PingResp) => true,
        Event::Incoming(Packet::ConnAck) => true,
        Event::Incoming(Packet::SubAck) => true,
        Event::Incoming(Packet::PubAck) => true,
        Event::Outgoing(Outgoing::PingReq) => true,
        Event::Outgoing(Outgoing::Subscribe) => true,
        Event::Outgoing(Outgoing::Publish) => true,
        _ => false,
    }
}

/// The word that marks the topics whose messages are logged.
pub open spec fn send_word() -> Seq<char> {
    channel_word(Channel::Send)
}

/// The payload of `e`, if it is a message, is valid UTF-8.
pub open spec fn payload_is_text(e: Event) -> bool {
    match e {
        Event::Incoming(Packet::Publish(p)) => valid_utf8(p.payload@),
        _ => true,
    }
}

/// Showing `e` reads its payload as text: `e` is an incoming message whose
/// topic contains `send`, and showing is on. A payload that is not UTF-8 is
/// then a failure of the receiving loop.
pub open spec fn shows_payload(e: Event, show: bool) -> bool {
    match e {
        Event::Incoming(Packet::Publish(p)) => has_infix(p.topic@, send_word()) && show,
        _ => false,
    }
}

/// Whether the payload of `notif`, if it is a message, is valid UTF-8.
pub fn is_text_payload(notif: &Event) -> (b: bool)
    ensures
        b == payload_is_text(*notif),
{
    match notif {
        Event::Incoming(Packet::Publish(p)) => decode_payload(p.payload.as_slice()).is_some(),
        _ => true,
    }
}

/// Whether showing `notif` reads its payload as text.
pub fn reads_payload_to_show(notif: &Event, show: bool) -> (b: bool)
    ensures
        b == shows_payload(*notif, show),
{
    match notif {
        Event::Incoming(Packet::Publish(p)) => contains(p.topic.as_str(), Channel::Send.word())
            && show,
        _ => false,
    }
}

/// What is shown of `e`: routine traffic is silent; an incoming message
/// whose topic contains `send` is logged, with its payload read as UTF-8
/// text, while showing is on (and is silent while it is off); every other
/// notification is shown as an error.
pub open spec fn print_model(e: Event, show: bool) -> PrintModel {
    if is_routine(e) {
        PrintModel::Silent
    } else {
        match e {
            Event::Incoming(Packet::Publish(p)) => {
                if has_infix(p.topic@, send_word()) && show {
                    PrintModel::Log(p.topic@, decode_utf8(p.payload@))
                } else {
                    PrintModel::Silent
                }
            },
            _ => PrintModel::Unexpected,
        }
    }
}

/// Decides what is shown of a notification; `show` is the switch that the
/// remote shell turns off while it runs.
pub fn print_event(notif: &Event, show: bool) -> (res: PrintAction)
    requires
        shows_payload(*notif, show) ==> payload_is_text(*notif),
    ensures
        res@ == print_model(*notif, show),
{
    match notif {
        Event::Incoming(Packet::PingResp) | Event::Incoming(Packet::ConnAck) | Event::Incoming(
            Packet::SubAck,
        ) | Event::Incoming(Packet::PubAck) | Event::Outgoing(Outgoing::PingReq)
        | Event::Outgoing(Outgoing::Subscribe) | Event::Outgoing(Outgoing::Publish) => {
            PrintAction::Silent
        },
        Event::Incoming(Packet::Publish(p)) => {
            if contains(p.topic.as_str(), Channel::Send.word()) && show {
                match decode_payload(p.payload.as_slice()) {
                    Some(text) => PrintAction::Log { topic: p.topic.clone(), text },
                    None => PrintAction::Silent,
                }
            } else {
                PrintAction::Silent
            }
        },
        _ => PrintAction::Unexpected,
    }
}

/// `<green "Incoming publish">: <topic>::<text>`, the line logged for a
/// message on a `send` topic.
pub fn incoming_publish_log(topic: &str, text: &str) -> (line: String)
    ensures
        line@ == crate::style::coloured('2', "Incoming publish"@) + ": "@ + topic@ + "::"@
            + text@,
{
    let mut line = green("Incoming publish");
    line.append(": ");
    line.append(topic);
    line.append("::");
    line.append(text);
    line
}

/// `Err: Notification = <red text>`, the line shown for an unexpected
/// notification, given the notification's debug text.
pub fn unexpected_line(debug_text: &str) -> (line: String)
    ensures
        line@ == "Err: Notification = "@ + crate::style::coloured('1', debug_text@),
{
    let mut line = String::from_str("Err: Notification = ");
    let coloured = red(debug_text);
    line.append(coloured.as_str());
    line
}

// ---------------------------------------------------------------------------
// Device information
// ---------------------------------------------------------------------------

/// A piece of information about a device.
pub enum DeviceInfo {
    Onboard(bool),
    Uptime(u64),
    Hostname(String),
    Os(String),
    SwUptime(u64),
}

/// An update of the device-information table: a device and one field.
pub struct DeviceUpdate {
    pub name: String,
    pub info: DeviceInfo,
}

/// What a channel does with an incoming message.
pub enum Outcome {
    /// The channel does not take the message, or its payload has no meaning.
    Ignored,
    /// A device-information update to announce.
    Update(DeviceUpdate),
    /// A temperature report: the device and the payload text, to be read as a
    /// floating-point number.
    Temperature { name: String, text: String },
    /// An encrypted command for this device: to be decrypted and handed to
    /// the host.
    Forward(String),
    /// An encrypted text for this device: to be decrypted and shown on the
    /// console.
    Echo(String),
}

pub enum DeviceInfoModel {
    Onboard(bool),
    Uptime(u64),
    Hostname(Seq<char>),
    Os(Seq<char>),
    SwUptime(u64),
}

pub enum OutcomeModel {
    Ignored,
    Update(Seq<char>, DeviceInfoModel),
    Temperature(Seq<char>, Seq<char>),
    Forward(Seq<char>),
    Echo(Seq<char>),
}

impl View for DeviceInfo {
    type V = DeviceInfoModel;

    open spec fn view(&self) -> DeviceInfoModel {
        match self {
            DeviceInfo::Onboard(b) => DeviceInfoModel::Onboard(*b),
            DeviceInfo::Uptime(v) => DeviceInfoModel::Uptime(*v),
            DeviceInfo::Hostname(s) => DeviceInfoModel::Hostname(s@),
            DeviceInfo::Os(s) => DeviceInfoModel::Os(s@),
            DeviceInfo::SwUptime(v) => DeviceInfoModel::SwUptime(*v),
        }
    }
}

impl View for Outcome {
    type V = OutcomeModel;

    open spec fn view(&self) -> OutcomeModel {
        match self {
            Outcome::Ignored => OutcomeModel::Ignored,
            Outcome::Update(u) => OutcomeModel::Update(u.name@, u.info@),
            Outcome::Temperature { name, text } => OutcomeModel::Temperature(name@, text@),
            Outcome::Forward(s) => OutcomeModel::Forward(s@),
            Outcome::Echo(s) => OutcomeModel::Echo(s@),
        }
    }
}

/// The device a message on `topic` is about, for a channel that takes it:
/// this device on `send` and `echo`, the device named in the topic on the
/// others.
pub open spec fn subject_device(c: Channel, topic: Seq<char>, device: Seq<char>) -> Seq<char> {
    if is_own_channel(c) {
        device
    } else {
        device_of_topic(topic, channel_word(c))->0
    }
}

/// What channel `c` makes of the text `text` about the device `name`:
/// `onboard` takes the numbers 0 and 1 as offline and online and ignores
/// anything else; `uptime` and `sw_uptime` take a number and ignore anything
/// else; `hostname` and `os` take the text as it is; `temperature` hands the
/// text on to be read as a number; `send` forwards it; `echo` echoes it.
pub open spec fn channel_outcome(c: Channel, name: Seq<char>, text: Seq<char>) -> OutcomeModel {
    match c {
        Channel::Onboard => match decimal_u64(text) {
            Some(v) => if v == 0 || v == 1 {
                OutcomeModel::Update(name, DeviceInfoModel::Onboard(v == 1))
            } else {
                OutcomeModel::Ignored
            },
            None => OutcomeModel::Ignored,
        },
        Channel::Uptime => match decimal_u64(text) {
            Some(v) => OutcomeModel::Update(name, DeviceInfoModel::Uptime(v)),
            None => OutcomeModel::Ignored,
        },
        Channel::Hostname => OutcomeModel::Update(name, DeviceInfoModel::Hostname(text)),
        Channel::Os => OutcomeModel::Update(name, DeviceInfoModel::Os(text)),
        Channel::Send => OutcomeModel::Forward(text),
        Channel::Temperature => OutcomeModel::Temperature(name, text),
        Channel::SwUptime => match decimal_u64(text) {
            Some(v) => OutcomeModel::Update(name, DeviceInfoModel::SwUptime(v)),
            None => OutcomeModel::Ignored,
        },
        Channel::Echo => OutcomeModel::Echo(text),
    }
}

/// Channel `c` takes `e`, for the device `device`, and so reads its payload
/// as text: `e` is an incoming message on a topic that `c` takes. A payload
/// that is not UTF-8 is then a failure of the receiving loop.
pub open spec fn channel_reads_payload(c: Channel, e: Event, device: Seq<char>) -> bool {
    match e {
        Event::Incoming(Packet::Publish(p)) => channel_selects(c, p.topic@, device),
        _ => false,
    }
}

/// Some channel takes `e`, for the device `device`.
pub open spec fn process_reads_payload(e: Event, device: Seq<char>) -> bool {
    exists|c: Channel| channel_reads_payload(c, e, device)
}

/// What channel `c` does with the notification `e`, for the device
/// `device`: it ignores everything but an incoming message on a topic that
/// it takes; of such a message it decodes the payload as UTF-8 and reads it.
pub open spec fn handle_model(c: Channel, e: Event, device: Seq<char>) -> OutcomeModel {
    match e {
        Event::Incoming(Packet::Publish(p)) => {
            if channel_selects(c, p.topic@, device) {
                channel_outcome(c, subject_device(c, p.topic@, device), decode_utf8(p.payload@))
            } else {
                OutcomeModel::Ignored
            }
        },
        _ => OutcomeModel::Ignored,
    }
}

fn channel_result(channel: Channel, name: String, text: String) -> (res: Outcome)
    ensures
        res@ == channel_outcome(channel, name@, text@),
{
    match channel {
        Channel::Onboard => match parse_u64(text.as_str()) {
            Some(v) => if v == 0 || v == 1 {
                Outcome::Update(DeviceUpdate { name, info: DeviceInfo::Onboard(v == 1) })
            } else {
                Outcome::Ignored
            },
            None => Outcome::Ignored,
        },
        Channel::Uptime => match parse_u64(text.as_str()) {
            Some(v) => Outcome::Update(DeviceUpdate { name, info: DeviceInfo::Uptime(v) }),
            None => Outcome::Ignored,
        },
        Channel::Hostname => Outcome::Update(DeviceUpdate { name, info: DeviceInfo::Hostname(text) }),
        Channel::Os => Outcome::Update(DeviceUpdate { name, info: DeviceInfo::Os(text) }),
        Channel::Send => Outcome::Forward(text),
        Channel::Temperature => Outcome::Temperature { name, text },
        Channel::SwUptime => match parse_u64(text.as_str()) {
            Some(v) => Outcome::Update(DeviceUpdate { name, info: DeviceInfo::SwUptime(v) }),
            None => Outcome::Ignored,
        },
        Channel::Echo => Outcome::Echo(text),
    }
}

/// What `channel` does with `notif`, for the device named `device`.
pub fn handle(channel: Channel, notif: &Event, device: &str) -> (res: Outcome)
    requires
        channel_reads_payload(channel, *notif, device@) ==> payload_is_text(*notif),
    ensures
        res@ == handle_model(channel, *notif, device@),
{
    match notif {
        Event::Incoming(Packet::Publish(p)) => {
            let topic = p.topic.as_str();
            let name = match channel {
                Channel::Send | Channel::Echo => {
                    if !is_device_topic(topic, device, channel) {
                        return Outcome::Ignored;
                    }
                    String::from_str(device)
                },
                _ => match device_in_topic(topic, channel) {
                    Some(name) => name,
                    None => return Outcome::Ignored,
                },
            };
            match decode_payload(p.payload.as_slice()) {
                Some(text) => channel_result(channel, name, text),
                None => Outcome::Ignored,
            }
        },
        _ => Outcome::Ignored,
    }
}

/// `e` is an incoming message whose topic names a device under the channel
/// `c` (`tln/<device>/<c>`).
pub open spec fn names_a_device(c: Channel, e: Event) -> bool {
    match e {
        Event::Incoming(Packet::Publish(p)) => device_of_topic(p.topic@, channel_word(c)) is Some,
        _ => false,
    }
}

/// `tln/<device>/onboard` carries 1 or 0 as the device comes online or goes
/// offline.
pub fn process_event_onboard(notif: &Event) -> (res: Outcome)
    requires
        names_a_device(Channel::Onboard, *notif) ==> payload_is_text(*notif),
    ensures
        forall|device: Seq<char>| res@ == handle_model(Channel::Onboard, *notif, device),
{
    handle(Channel::Onboard, notif, "")
}

/// `tln/<device>/uptime` carries the device's uptime in seconds.
pub fn process_event_uptime(notif: &Event) -> (res: Outcome)
    requires
        names_a_device(Channel::Uptime, *notif) ==> payload_is_text(*notif),
    ensures
        forall|device: Seq<char>| res@ == handle_model(Channel::Uptime, *notif, device),
{
    handle(Channel::Uptime, notif, "")
}

/// `tln/<device>/hostname` carries the device's host name.
pub fn process_event_hostname(notif: &Event) -> (res: Outcome)
    requires
        names_a_device(Channel::Hostname, *notif) ==> payload_is_text(*notif),
    ensures
        forall|device: Seq<char>| res@ == handle_model(Channel::Hostname, *notif, device),
{
    handle(Channel::Hostname, notif, "")
}

/// `tln/<device>/os` carries the device's operating system.
pub fn process_event_os(notif: &Event) -> (res: Outcome)
    requires
        names_a_device(Channel::Os, *notif) ==> payload_is_text(*notif),
    ensures
        forall|device: Seq<char>| res@ == handle_model(Channel::Os, *notif, device),
{
    handle(Channel::Os, notif, "")
}

/// `tln/<this device>/send` carries an encrypted command for this device.
pub fn process_event_send(notif: &Event, device: &str) -> (res: Outcome)
    requires
        channel_reads_payload(Channel::Send, *notif, device@) ==> payload_is_text(*notif),
    ensures
        res@ == handle_model(Channel::Send, *notif, device@),
{
    handle(Channel::Send, notif, device)
}

/// `tln/<device>/temperature` carries the device's temperature.
pub fn process_event_temperature(notif: &Event) -> (res: Outcome)
    requires
        names_a_device(Channel::Temperature, *notif) ==> payload_is_text(*notif),
    ensures
        forall|device: Seq<char>| res@ == handle_model(Channel::Temperature, *notif, device),
{
    handle(Channel::Temperature, notif, "")
}

/// `tln/<device>/sw_uptime` carries the uptime of the device's software.
pub fn process_event_sw_uptime(notif: &Event) -> (res: Outcome)
    requires
        names_a_device(Channel::SwUptime, *notif) ==> payload_is_text(*notif),
    ensures
        forall|device: Seq<char>| res@ == handle_model(Channel::SwUptime, *notif, device),
{
    handle(Channel::SwUptime, notif, "")
}

/// `tln/<this device>/echo` carries a text to echo on the console.
pub fn process_event_echo(notif: &Event, device: &str) -> (res: Outcome)
    requires
        channel_reads_payload(Channel::Echo, *notif, device@) ==> payload_is_text(*notif),
    ensures
        res@ == handle_model(Channel::Echo, *notif, device@),
{
    handle(Channel::Echo, notif, device)
}

/// Channel `c` acts on `e`: it does something other than ignore it.
pub open spec fn acts(c: Channel, e: Event, device: Seq<char>) -> bool {
    !(handle_model(c, e, device) is Ignored)
}

/// At most one channel acts on a notification.
pub proof fn lemma_at_most_one_handler(c1: Channel, c2: Channel, e: Event, device: Seq<char>)
    requires
        acts(c1, e, device),
        acts(c2, e, device),
    ensures
        c1 == c2,
{
    match e {
        Event::Incoming(Packet::Publish(p)) => {
            lemma_at_most_one_channel(c1, c2, p.topic@, device);
        },
        _ => {},
    }
}

/// Whether some channel takes `notif`, for the device `device`, and so reads
/// its payload as text.
pub fn reads_payload_to_process(notif: &Event, device: &str) -> (b: bool)
    ensures
        b == process_reads_payload(*notif, device@),
{
    match notif {
        Event::Incoming(Packet::Publish(p)) => {
            let topic = p.topic.as_str();
            let b = selects(Channel::Onboard, topic, device) || selects(Channel::Uptime, topic, device)
                || selects(Channel::Hostname, topic, device) || selects(Channel::Os, topic, device)
                || selects(Channel::Send, topic, device) || selects(
                Channel::Temperature,
                topic,
                device,
            ) || selects(Channel::SwUptime, topic, device) || selects(Channel::Echo, topic, device);
            proof {
                if process_reads_payload(*notif, device@) {
                    let c = choose|c: Channel| channel_reads_payload(c, *notif, device@);
                    assert(channel_selects(c, p.topic@, device@));
                    match c {
                        Channel::Onboard => {},
                        Channel::Uptime => {},
                        Channel::Hostname => {},
                        Channel::Os => {},
                        Channel::Send => {},
                        Channel::Temperature => {},
                        Channel::SwUptime => {},
                        Channel::Echo => {},
                    }
                }
                if b {
                    if channel_selects(Channel::Onboard, p.topic@, device@) {
                        assert(channel_reads_payload(Channel::Onboard, *notif, device@));
                    } else if channel_selects(Channel::Uptime, p.topic@, device@) {
                        assert(channel_reads_payload(Channel::Uptime, *notif, device@));
                    } else if channel_selects(Channel::Hostname, p.topic@, device@) {
                        assert(channel_reads_payload(Channel::Hostname, *notif, device@));
                    } else if channel_selects(Channel::Os, p.topic@, device@) {
                        assert(channel_reads_payload(Channel::Os, *notif, device@));
                    } else if channel_selects(Channel::Send, p.topic@, device@) {
                        assert(channel_reads_payload(Channel::Send, *notif, device@));
                    } else if channel_selects(Channel::Temperature, p.topic@, device@) {
                        assert(channel_reads_payload(Channel::Temperature, *notif, device@));
                    } else if channel_selects(Channel::SwUptime, p.topic@, device@) {
                        assert(channel_reads_payload(Channel::SwUptime, *notif, device@));
                    } else {
                        assert(channel_reads_payload(Channel::Echo, *notif, device@));
                    }
                }
            }
            b
        },
        _ => false,
    }
}

/// Hands a notification to every channel in turn (onboard, uptime, hostname,
/// os, send, temperature, sw_uptime, echo) and gives what the one that acts
/// does, or `Ignored` when none acts.
pub fn process_event(notif: &Event, device: &str) -> (res: Outcome)
    requires
        process_reads_payload(*notif, device@) ==> payload_is_text(*notif),
    ensures
        forall|c: Channel| acts(c, *notif, device@) ==> res@ == handle_model(c, *notif, device@),
        (forall|c: Channel| !acts(c, *notif, device@)) ==> res@ is Ignored,
{
    let order = [
        Channel::Onboard,
        Channel::Uptime,
        Channel::Hostname,
        Channel::Os,
        Channel::Send,
        Channel::Temperature,
        Channel::SwUptime,
        Channel::Echo,
    ];
    let mut i: usize = 0;
    while i < 8
        invariant
            i <= 8,
            order@ == seq![
                Channel::Onboard,
                Channel::Uptime,
                Channel::Hostname,
                Channel::Os,
                Channel::Send,
                Channel::Temperature,
                Channel::SwUptime,
                Channel::Echo,
            ],
            forall|k: int| 0 <= k < i ==> !acts(#[trigger] order@[k], *notif, device@),
            process_reads_payload(*notif, device@) ==> payload_is_text(*notif),
        decreases 8 - i,
    {
        proof {
            if channel_reads_payload(order@[i as int], *notif, device@) {
                assert(process_reads_payload(*notif, device@));
            }
        }
        let out = handle(order[i], notif, device);
        match out {
            Outcome::Ignored => {},
            _ => {
                proof {
                    assert(acts(order@[i as int], *notif, device@));
                    assert forall|c: Channel| acts(c, *notif, device@) implies out@ == handle_model(
                        c,
                        *notif,
                        device@,
                    ) by {
                        lemma_at_most_one_handler(c, order@[i as int], *notif, device@);
                    }
                }
                return out;
            },
        }
        i = i + 1;
    }
    proof {
        assert forall|c: Channel| !acts(c, *notif, device@) by {
            match c {
                Channel::Onboard => assert(order@[0] == c),
                Channel::Uptime => assert(order@[1] == c),
                Channel::Hostname => assert(order@[2] == c),
                Channel::Os => assert(order@[3] == c),
                Channel::Send => assert(order@[4] == c),
                Channel::Temperature => assert(order@[5] == c),
                Channel::SwUptime => assert(order@[6] == c),
                Channel::Echo => assert(order@[7] == c),
            }
        }
    }
    Outcome::Ignored
}

/// What the receiving loop does with one notification.
pub enum RxStep {
    /// The client disconnected: the loop ends.
    Leave,
    /// The notification is shown, and then processed.
    Handle { show: PrintAction, process: Outcome },
}

/// One step of the receiving loop, under the showing switch `show`: an
/// outgoing `Disconnect` ends the loop; any other notification is first
/// shown as `print_event` decides and then processed as `process_event`
/// decides. A payload read as text must be UTF-8 (the loop fails
/// otherwise).
pub fn receive_step(notif: &Event, show: bool, device: &str) -> (step: RxStep)
    requires
        !is_disconnect_event(*notif) ==> (shows_payload(*notif, show) ==> payload_is_text(*notif)),
        !is_disconnect_event(*notif) ==> (process_reads_payload(*notif, device@) ==> payload_is_text(
            *notif,
        )),
    ensures
        (step is Leave) == is_disconnect_event(*notif),
        step matches RxStep::Handle { show: a, process: o } ==> {
            &&& a@ == print_model(*notif, show)
            &&& forall|c: Channel| acts(c, *notif, device@) ==> o@ == handle_model(c, *notif, device@)
            &&& (forall|c: Channel| !acts(c, *notif, device@)) ==> o@ is Ignored
        },
{
    if is_disconnect(notif) {
        RxStep::Leave
    } else {
        let shown = print_event(notif, show);
        let processed = process_event(notif, device);
        RxStep::Handle { show: shown, process: processed }
    }
}

// ---------------------------------------------------------------------------
// Laws of the device-information channels
// ---------------------------------------------------------------------------

/// `e` is an incoming message on `tln/<d>/<word>` whose payload is the UTF-8
/// encoding of `x`.
pub open spec fn message_on(e: Event, d: Seq<char>, word: Seq<char>, x: Seq<char>) -> bool {
    e matches Event::Incoming(Packet::Publish(p)) && p.topic@ == seq!['t', 'l', 'n', '/'] + d
        + seq!['/'] + word && p.payload@ == encode_utf8(x)
}

/// A device name as topics carry it: at least one character, no `/`.
pub open spec fn is_device_name(d: Seq<char>) -> bool {
    d.len() > 0 && has_no_slash(d)
}

proof fn lemma_message_read(c: Channel, e: Event, d: Seq<char>, x: Seq<char>, any: Seq<char>)
    requires
        !is_own_channel(c),
        is_device_name(d),
        message_on(e, d, channel_word(c), x),
    ensures
        handle_model(c, e, any) == channel_outcome(c, d, x),
{
    lemma_channel_word_plain(c);
    lemma_device_topic_round_trip(d, channel_word(c));
    encode_utf8_valid_utf8(x);
    encode_utf8_decode_utf8(x);
}

/// A channel that reads device information files what it reads under the
/// device named in the topic: for every device name `d` and every payload
/// text, an update or a temperature that a message on `tln/<d>/<channel>`
/// gives is about `d` and no other device, and it is never a forward or an
/// echo.
pub proof fn lemma_update_names_topic_device(
    c: Channel,
    e: Event,
    d: Seq<char>,
    x: Seq<char>,
    any: Seq<char>,
)
    requires
        !is_own_channel(c),
        is_device_name(d),
        message_on(e, d, channel_word(c), x),
    ensures
        match handle_model(c, e, any) {
            OutcomeModel::Update(n, _) => n == d,
            OutcomeModel::Temperature(n, t) => n == d && t == x,
            OutcomeModel::Ignored => true,
            _ => false,
        },
{
    lemma_message_read(c, e, d, x, any);
}

/// `tln/<d>/hostname` with the text `x` records `x` as the host name of `d`;
/// `tln/<d>/os` records `x` as its operating system; whatever the text.
pub proof fn lemma_text_fields_recorded(e: Event, d: Seq<char>, x: Seq<char>, any: Seq<char>)
    requires
        is_device_name(d),
    ensures
        message_on(e, d, seq!['h', 'o', 's', 't', 'n', 'a', 'm', 'e'], x) ==> handle_model(
            Channel::Hostname,
            e,
            any,
        ) == OutcomeModel::Update(d, DeviceInfoModel::Hostname(x)),
        message_on(e, d, seq!['o', 's'], x) ==> handle_model(Channel::Os, e, any)
            == OutcomeModel::Update(d, DeviceInfoModel::Os(x)),
{
    if message_on(e, d, seq!['h', 'o', 's', 't', 'n', 'a', 'm', 'e'], x) {
        assert(channel_word(Channel::Hostname) == seq!['h', 'o', 's', 't', 'n', 'a', 'm', 'e']);
        lemma_message_read(Channel::Hostname, e, d, x, any);
    }
    if message_on(e, d, seq!['o', 's'], x) {
        assert(channel_word(Channel::Os) == seq!['o', 's']);
        lemma_message_read(Channel::Os, e, d, x, any);
    }
}

/// Every number is recorded: for every `u64` value `n`, a message on
/// `tln/<d>/uptime` whose text is the decimal writing of `n` records `n` as
/// the uptime of `d`, and on `tln/<d>/sw_uptime` as its software uptime.
pub proof fn lemma_uptimes_recorded(e: Event, d: Seq<char>, n: u64, any: Seq<char>)
    requires
        is_device_name(d),
    ensures
        message_on(e, d, seq!['u', 'p', 't', 'i', 'm', 'e'], decimal_text(n as nat))
            ==> handle_model(Channel::Uptime, e, any) == OutcomeModel::Update(
            d,
            DeviceInfoModel::Uptime(n),
        ),
        message_on(e, d, seq!['s', 'w', '_', 'u', 'p', 't', 'i', 'm', 'e'], decimal_text(n as nat))
            ==> handle_model(Channel::SwUptime, e, any) == OutcomeModel::Update(
            d,
            DeviceInfoModel::SwUptime(n),
        ),
{
    lemma_decimal_round_trip(n);
    let x = decimal_text(n as nat);
    if message_on(e, d, seq!['u', 'p', 't', 'i', 'm', 'e'], x) {
        assert(channel_word(Channel::Uptime) == seq!['u', 'p', 't', 'i', 'm', 'e']);
        lemma_message_read(Channel::Uptime, e, d, x, any);
    }
    if message_on(e, d, seq!['s', 'w', '_', 'u', 'p', 't', 'i', 'm', 'e'], x) {
        assert(channel_word(Channel::SwUptime) == seq!['s', 'w', '_', 'u', 'p', 't', 'i', 'm', 'e']);
        lemma_message_read(Channel::SwUptime, e, d, x, any);
    }
}

/// Every temperature text is handed on: a message on `tln/<d>/temperature`
/// with any text `x`, of any length, is handed on as the temperature text
/// `x` of `d`.
pub proof fn lemma_temperature_handed_on(e: Event, d: Seq<char>, x: Seq<char>, any: Seq<char>)
    requires
        is_device_name(d),
        message_on(e, d, seq!['t', 'e', 'm', 'p', 'e', 'r', 'a', 't', 'u', 'r', 'e'], x),
    ensures
        handle_model(Channel::Temperature, e, any) == OutcomeModel::Temperature(d, x),
{
    assert(channel_word(Channel::Temperature) == seq![
        't',
        'e',
        'm',
        'p',
        'e',
        'r',
        'a',
        't',
        'u',
        'r',
        'e',
    ]);
    lemma_message_read(Channel::Temperature, e, d, x, any);
}

/// `tln/<d>/onboard` takes exactly the numbers 0 and 1: for every `u64`
/// value `n`, a message whose text is the decimal writing of `n` records `d`
/// as online when `n` is 1 and offline when `n` is 0, and is ignored for
/// every other number.
pub proof fn lemma_onboard_values(e: Event, d: Seq<char>, n: u64, any: Seq<char>)
    requires
        is_device_name(d),
        message_on(e, d, seq!['o', 'n', 'b', 'o', 'a', 'r', 'd'], decimal_text(n as nat)),
    ensures
        n == 1 ==> handle_model(Channel::Onboard, e, any) == OutcomeModel::Update(
            d,
            DeviceInfoModel::Onboard(true),
        ),
        n == 0 ==> handle_model(Channel::Onboard, e, any) == OutcomeModel::Update(
            d,
            DeviceInfoModel::Onboard(false),
        ),
        n > 1 ==> handle_model(Channel::Onboard, e, any) is Ignored,
{
    lemma_decimal_round_trip(n);
    assert(channel_word(Channel::Onboard) == seq!['o', 'n', 'b', 'o', 'a', 'r', 'd']);
    lemma_message_read(Channel::Onboard, e, d, decimal_text(n as nat), any);
}

/// What is shown of an incoming message: with showing on, a message whose
/// topic contains `send` anywhere is logged with its topic and its payload
/// text; a message whose topic does not contain `send`, or any message
/// while showing is off, is not shown.
pub proof fn lemma_messages_shown(e: Event, show: bool)
    requires
        e is Incoming,
        e->Incoming_0 is Publish,
    ensures
        ({
            let p = e->Incoming_0->Publish_0;
            &&& (show && has_infix(p.topic@, seq!['s', 'e', 'n', 'd'])) ==> print_model(e, show)
                == PrintModel::Log(p.topic@, decode_utf8(p.payload@))
            &&& !(show && has_infix(p.topic@, seq!['s', 'e', 'n', 'd'])) ==> print_model(e, show)
                == PrintModel::Silent
        }),
{
    assert(send_word() == seq!['s', 'e', 'n', 'd']);
}

/// Every notification other than an incoming message and the routine
/// traffic (pings, acknowledgements of connection, subscription and
/// publication, the client's own subscriptions and publications) is shown as
/// unexpected, whatever the showing switch.
pub proof fn lemma_other_notifications_unexpected(e: Event, show: bool)
    requires
        !(e matches Event::Incoming(Packet::Publish(_))),
        !(e matches Event::Incoming(Packet::PingResp)),
        !(e matches Event::Incoming(Packet::ConnAck)),
        !(e matches Event::Incoming(Packet::SubAck)),
        !(e matches Event::Incoming(Packet::PubAck)),
        !(e matches Event::Outgoing(Outgoing::PingReq)),
        !(e matches Event::Outgoing(Outgoing::Subscribe)),
        !(e matches Event::Outgoing(Outgoing::Publish)),
    ensures
        print_model(e, show) == PrintModel::Unexpected,
{
}

/// Routine traffic is never shown.
pub proof fn lemma_routine_silent(show: bool)
    ensures
        print_model(Event::Incoming(Packet::PingResp), show) == PrintModel::Silent,
        print_model(Event::Incoming(Packet::ConnAck), show) == PrintModel::Silent,
        print_model(Event::Incoming(Packet::SubAck), show) == PrintModel::Silent,
        print_model(Event::Incoming(Packet::PubAck), show) == PrintModel::Silent,
        print_model(Event::Outgoing(Outgoing::PingReq), show) == PrintModel::Silent,
        print_model(Event::Outgoing(Outgoing::Subscribe), show) == PrintModel::Silent,
        print_model(Event::Outgoing(Outgoing::Publish), show) == PrintModel::Silent,
{
}

/// `send` and `echo` are for this device alone: a message on
/// `tln/<other>/send` or `tln/<other>/echo`, for any name other than this
/// device's, is ignored.
pub proof fn lemma_own_channels_ignore_others(e: Event, device: Seq<char>, other: Seq<char>, x: Seq<char>)
    requires
        other != device,
    ensures
        message_on(e, other, seq!['s', 'e', 'n', 'd'], x) ==> handle_model(Channel::Send, e, device)
            is Ignored,
        message_on(e, other, seq!['e', 'c', 'h', 'o'], x) ==> handle_model(Channel::Echo, e, device)
            is Ignored,
{
    let pre = seq!['t', 'l', 'n', '/'];
    if message_on(e, other, seq!['s', 'e', 'n', 'd'], x) {
        let w = seq!['s', 'e', 'n', 'd'];
        let t = pre + other + seq!['/'] + w;
        if t == pre + device + seq!['/'] + w {
            assert(other.len() == device.len());
            assert forall|i: int| 0 <= i < other.len() implies other[i] == device[i] by {
                assert(t[i + 4] == other[i]);
            }
            assert(other =~= device);
        }
    }
    if message_on(e, other, seq!['e', 'c', 'h', 'o'], x) {
        let w = seq!['e', 'c', 'h', 'o'];
        let t = pre + other + seq!['/'] + w;
        if t == pre + device + seq!['/'] + w {
            assert(other.len() == device.len());
            assert forall|i: int| 0 <= i < other.len() implies other[i] == device[i] by {
                assert(t[i + 4] == other[i]);
            }
            assert(other =~= device);
        }
    }
}

} // verus!
