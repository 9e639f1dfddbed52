//! The plugin's requests to the MQTT client, its answers to the host's
//! commands, its console lines, and the remote shell session.
use crate::command::{
    restart_command, shell_cmd_command, shell_dest_command, shell_start_command, shell_stop_command,
};
use crate::event::{handle_model, print_model, shows_payload, DeviceInfoModel, Event, OutcomeModel, Packet};
use crate::style::{blue, coloured, red};
use crate::text::{
    all_digits, decimal_text, decimal_u64, digits_value, lemma_trim_idempotent, render_u64, trim,
    trimmed, unsigned_part,
};
use crate::topic::{
    channel_word, device_topic, device_topic_of, has_no_slash, is_own_channel, lemma_channel_word_plain,
    lemma_device_topic_round_trip, onboard_topic, Channel,
};
use vstd::prelude::*;
use vstd::utf8::{encode_utf8, encode_utf8_decode_utf8, encode_utf8_valid_utf8};

verus! {

/// The plugin's name.
pub const MODULE: &'static str = "mqtt";

/// The broker the plugin connects to.
pub const BROKER: &'static str = "broker.emqx.io";

/// The broker's port.
pub const PORT: u16 = 1883;

/// The keep-alive interval of the connection, in seconds.
pub const KEEP_ALIVE_SECS: u64 = 5;

/// How long the receiving loop waits before it asks for a restart, in
/// seconds.
pub const RESTART_DELAY: u64 = 20;

/// The capacity of the client's request channel.
pub const REQUEST_CAPACITY: usize = 10;

/// The topic filter the plugin subscribes to: the whole `tln` tree.
pub const SUBSCRIPTION: &'static str = "tln/#";

/// The help text of the plugin.
pub const SHOW: &'static str = "
action plugin mqtt report '{\"topic\": \"tln/pi5/send\", \"payload\": \"exit\"}'
    Ask a remote device to exit.

action plugin mqtt report '{\"topic\": \"tln/HomeUbuntu/echo\", \"payload\": \"Hello\"}'
    Echo 'Hello' to device 'HomeUbuntu'

action plugin mqtt remote command
    Interative command
";

/// The question that opens a remote shell.
pub const REMOTE_PROMPT: &'static str = "Please enter remote device: ";

/// The line shown when a remote shell ends.
pub const EXITING: &'static str = "Exiting...";

/// The answer to `send`.
pub const SEND_REPLY: &'static str = "send";

/// The answer to `action`.
pub const ACTION_REPLY: &'static str = "action";

/// The answer to `unload`.
pub const UNLOAD_REPLY: &'static str = "unload";

// ---------------------------------------------------------------------------
// Requests to the client
// ---------------------------------------------------------------------------

/// The delivery guarantee of a message.
#[derive(PartialEq, Eq, Structural, Clone, Copy, Debug)]
pub enum QoS {
    AtMostOnce,
    AtLeastOnce,
    ExactlyOnce,
}

/// A message to publish.
pub struct Publication {
    pub topic: String,
    pub qos: QoS,
    pub retain: bool,
    pub payload: String,
}

/// A request to the client.
pub enum ClientOp {
    Publish(Publication),
    Subscribe { topic: String, qos: QoS },
    Disconnect,
}

pub struct PublicationModel {
    pub topic: Seq<char>,
    pub qos: QoS,
    pub retain: bool,
    pub payload: Seq<char>,
}

pub enum ClientOpModel {
    Publish(PublicationModel),
    Subscribe(Seq<char>, QoS),
    Disconnect,
}

impl View for Publication {
    type V = PublicationModel;

    open spec fn view(&self) -> PublicationModel {
        PublicationModel {
            topic: self.topic@,
            qos: self.qos,
            retain: self.retain,
            payload: self.payload@,
        }
    }
}

impl View for ClientOp {
    type V = ClientOpModel;

    open spec fn view(&self) -> ClientOpModel {
        match self {
            ClientOp::Publish(p) => ClientOpModel::Publish(p@),
            ClientOp::Subscribe { topic, qos } => ClientOpModel::Subscribe(topic@, *qos),
            ClientOp::Disconnect => ClientOpModel::Disconnect,
        }
    }
}

/// The plugin publishes with "at least once" delivery.
pub open spec fn publication_model(topic: Seq<char>, retain: bool, payload: Seq<char>) -> PublicationModel {
    PublicationModel { topic, qos: QoS::AtLeastOnce, retain, payload }
}

/// A message from the plugin: at-least-once delivery, retained or not.
pub fn publish(topic: &str, retain: bool, payload: &str) -> (p: Publication)
    ensures
        p@ == publication_model(topic@, retain, payload@),
{
    Publication {
        topic: String::from_str(topic),
        qos: QoS::AtLeastOnce,
        retain,
        payload: String::from_str(payload),
    }
}

/// A subscription from the plugin, with at-most-once delivery.
pub fn subscribe(topic: &str) -> (op: ClientOp)
    ensures
        op@ == ClientOpModel::Subscribe(topic@, QoS::AtMostOnce),
{
    ClientOp::Subscribe { topic: String::from_str(topic), qos: QoS::AtMostOnce }
}

/// The onboard topic of `device`.
pub open spec fn onboard_of(device: Seq<char>) -> Seq<char> {
    device_topic(device, channel_word(Channel::Onboard))
}

/// The retained message that says whether `device` is online (`1`) or not
/// (`0`); an empty one clears it.
pub open spec fn onboard_model(device: Seq<char>, payload: Seq<char>) -> PublicationModel {
    publication_model(onboard_of(device), true, payload)
}

/// The broker publishes this for the device when the connection is lost:
/// `0`, retained, on its onboard topic, with at-most-once delivery.
pub fn last_will(device: &str) -> (p: Publication)
    ensures
        p@ == (PublicationModel {
            topic: onboard_of(device@),
            qos: QoS::AtMostOnce,
            retain: true,
            payload: "0"@,
        }),
{
    Publication {
        topic: onboard_topic(device),
        qos: QoS::AtMostOnce,
        retain: true,
        payload: String::from_str("0"),
    }
}

/// The showing switch when the plugin starts: on.
pub fn initial_show() -> (show: bool)
    ensures
        show,
{
    true
}

/// How the client connects.
pub struct ConnectionOptions {
    /// The client id: the device name.
    pub client_id: String,
    pub broker: String,
    pub port: u16,
    pub keep_alive_secs: u64,
    pub last_will: Publication,
    /// The capacity of the client's request channel.
    pub request_capacity: usize,
}

/// The connection of `device`: its name as the client id, the broker and
/// its port, a keep-alive of 5 seconds, the last will that says it is
/// offline, and a request channel of 10.
pub fn connection_options(device: &str) -> (o: ConnectionOptions)
    ensures
        o.client_id@ == device@,
        o.broker@ == BROKER@,
        o.port == PORT,
        o.keep_alive_secs == KEEP_ALIVE_SECS,
        o.last_will@ == (PublicationModel {
            topic: onboard_of(device@),
            qos: QoS::AtMostOnce,
            retain: true,
            payload: "0"@,
        }),
        o.request_capacity == REQUEST_CAPACITY,
{
    ConnectionOptions {
        client_id: String::from_str(device),
        broker: String::from_str(BROKER),
        port: PORT,
        keep_alive_secs: KEEP_ALIVE_SECS,
        last_will: last_will(device),
        request_capacity: REQUEST_CAPACITY,
    }
}

/// What the plugin asks of the client once it is connected: it clears the
/// onboard message of the default device name, subscribes to the whole
/// `tln` tree, and says that `device` is online.
pub fn startup(device: &str, default_name: &str) -> (ops: Vec<ClientOp>)
    ensures
        ops@.len() == 3,
        ops@[0]@ == ClientOpModel::Publish(onboard_model(default_name@, ""@)),
        ops@[1]@ == ClientOpModel::Subscribe(SUBSCRIPTION@, QoS::AtMostOnce),
        ops@[2]@ == ClientOpModel::Publish(onboard_model(device@, "1"@)),
{
    let mut ops: Vec<ClientOp> = Vec::new();
    let clear_topic = onboard_topic(default_name);
    ops.push(ClientOp::Publish(publish(clear_topic.as_str(), true, "")));
    ops.push(subscribe(SUBSCRIPTION));
    let own_topic = onboard_topic(device);
    ops.push(ClientOp::Publish(publish(own_topic.as_str(), true, "1")));
    ops
}

/// What the plugin asks of the client when it is unloaded: it says that
/// `device` is offline, then disconnects.
pub fn unload(device: &str) -> (ops: Vec<ClientOp>)
    ensures
        ops@.len() == 2,
        ops@[0]@ == ClientOpModel::Publish(onboard_model(device@, "0"@)),
        ops@[1]@ == ClientOpModel::Disconnect,
{
    let mut ops: Vec<ClientOp> = Vec::new();
    let topic = onboard_topic(device);
    ops.push(ClientOp::Publish(publish(topic.as_str(), true, "0")));
    ops.push(ClientOp::Disconnect);
    ops
}

/// A device reads back what it announces about itself: a message on the
/// onboard topic of `device` whose payload is the UTF-8 encoding of the text
/// published by `startup` (`1`) or by `unload` and the last will (`0`) is
/// taken by the onboard channel as an update that `device` is online or
/// offline, for every device name of at least one character without `/`.
pub proof fn lemma_onboard_read_back(device: Seq<char>, online: bool, e: Event, any: Seq<char>)
    requires
        device.len() > 0,
        has_no_slash(device),
        e matches Event::Incoming(Packet::Publish(p)) && p.topic@ == onboard_of(device)
            && p.payload@ == encode_utf8(
            if online {
                "1"@
            } else {
                "0"@
            },
        ),
    ensures
        handle_model(Channel::Onboard, e, any) == OutcomeModel::Update(
            device,
            DeviceInfoModel::Onboard(online),
        ),
{
    reveal_strlit("1");
    reveal_strlit("0");
    let text = if online {
        "1"@
    } else {
        "0"@
    };
    lemma_channel_word_plain(Channel::Onboard);
    lemma_device_topic_round_trip(device, channel_word(Channel::Onboard));
    encode_utf8_valid_utf8(text);
    encode_utf8_decode_utf8(text);
    assert(text.drop_last() =~= Seq::<char>::empty());
    assert(digits_value(Seq::<char>::empty()) == 0);
    assert(all_digits(text));
    assert(unsigned_part(text) == text);
    assert(decimal_u64(text) == Some(if online { 1u64 } else { 0u64 }));
}

// ---------------------------------------------------------------------------
// Answers to the host
// ---------------------------------------------------------------------------

/// The plugin's name.
pub fn name() -> (n: &'static str)
    ensures
        n@ == MODULE@,
{
    MODULE
}

/// The help text.
pub fn show() -> (text: String)
    ensures
        text@ == SHOW@,
{
    String::from_str(SHOW)
}

/// `Broker: broker.emqx.io`, newline, `Id: <device>`, newline.
pub fn status(device: &str) -> (text: String)
    ensures
        text@ == "Broker: "@ + BROKER@ + "\n"@ + "Id: "@ + device@ + "\n"@,
{
    let mut text = String::from_str("Broker: ");
    text.append(BROKER);
    text.append("\n");
    text.append("Id: ");
    text.append(device);
    text.append("\n");
    text
}

/// A report to publish: `{"topic": ..., "payload": ...}` in the host's
/// command.
pub struct Report {
    pub topic: String,
    pub payload: String,
}

/// What a `send` command asks for.
#[derive(PartialEq, Eq, Structural, Clone, Copy, Debug)]
pub enum SendPlan {
    /// Nothing to do.
    Nothing,
    /// Read the data as a report and publish it as it is.
    PublishReport,
}

/// `send report <json>` publishes the report; every other `send` does
/// nothing.
pub fn plan_send(action: &str) -> (plan: SendPlan)
    ensures
        plan == (if action@ == "report"@ {
            SendPlan::PublishReport
        } else {
            SendPlan::Nothing
        }),
{
    let a = String::from_str(action);
    let report = String::from_str("report");
    if a == report {
        SendPlan::PublishReport
    } else {
        SendPlan::Nothing
    }
}

/// The message that carries a report: its payload on its topic, not
/// retained.
pub fn report_publication(report: &Report) -> (p: Publication)
    ensures
        p@ == publication_model(report.topic@, false, report.payload@),
{
    publish(report.topic.as_str(), false, report.payload.as_str())
}

/// What an `action` command asks for.
pub enum ActionPlan {
    /// Nothing to do.
    Nothing,
    /// Say again that this device is online.
    AnnounceOnline(Publication),
    /// Read the data as a report, encrypt its payload, and publish it on its
    /// topic, not retained.
    RelayReport,
    /// Open a remote shell on a device named on the console.
    RemoteShell,
}

pub enum ActionModel {
    Nothing,
    AnnounceOnline(PublicationModel),
    RelayReport,
    RemoteShell,
}

impl View for ActionPlan {
    type V = ActionModel;

    open spec fn view(&self) -> ActionModel {
        match self {
            ActionPlan::Nothing => ActionModel::Nothing,
            ActionPlan::AnnounceOnline(p) => ActionModel::AnnounceOnline(p@),
            ActionPlan::RelayReport => ActionModel::RelayReport,
            ActionPlan::RemoteShell => ActionModel::RemoteShell,
        }
    }
}

/// `action report myself` says again that this device is online; `action
/// report <json>` relays an encrypted report; `action remote command` opens
/// a remote shell; anything else does nothing.
pub open spec fn action_model(action: Seq<char>, data: Seq<char>, device: Seq<char>) -> ActionModel {
    if action == "report"@ {
        if data == "myself"@ {
            ActionModel::AnnounceOnline(onboard_model(device, "1"@))
        } else {
            ActionModel::RelayReport
        }
    } else if action == "remote"@ && data == "command"@ {
        ActionModel::RemoteShell
    } else {
        ActionModel::Nothing
    }
}

fn same_text(a: &str, b: &str) -> (eq: bool)
    ensures
        eq == (a@ == b@),
{
    let x = String::from_str(a);
    let y = String::from_str(b);
    x == y
}

/// Decides what an `action` command does.
pub fn plan_action(action: &str, data: &str, device: &str) -> (plan: ActionPlan)
    ensures
        plan@ == action_model(action@, data@, device@),
{
    if same_text(action, "report") {
        if same_text(data, "myself") {
            let topic = onboard_topic(device);
            ActionPlan::AnnounceOnline(publish(topic.as_str(), true, "1"))
        } else {
            ActionPlan::RelayReport
        }
    } else if same_text(action, "remote") && same_text(data, "command") {
        ActionPlan::RemoteShell
    } else {
        ActionPlan::Nothing
    }
}

/// What `action` does depends on the action and on whether the data is
/// `myself`, and on nothing else: `report` with any data other than
/// `myself` relays that data as a report; `report myself` announces this
/// device online (retained `1` on its onboard topic); `remote command`
/// opens a remote shell.
pub proof fn lemma_action_plans(data: Seq<char>, device: Seq<char>)
    ensures
        data != "myself"@ ==> action_model("report"@, data, device) == ActionModel::RelayReport,
        action_model("report"@, "myself"@, device) == ActionModel::AnnounceOnline(
            PublicationModel {
                topic: onboard_of(device),
                qos: QoS::AtLeastOnce,
                retain: true,
                payload: "1"@,
            },
        ),
        action_model("remote"@, "command"@, device) == ActionModel::RemoteShell,
{
    reveal_strlit("report");
    reveal_strlit("remote");
    assert("remote"@[2] != "report"@[2]);
}

// ---------------------------------------------------------------------------
// Remote shell
// ---------------------------------------------------------------------------

/// A remote shell session: the commands typed on the console go, encrypted,
/// to `tln/<remote>/send`. Showing of incoming messages is off while it
/// runs, and back to what it was when it ends. The session remembers the
/// lines typed so far, and whether one of them was `exit`.
pub struct RemoteShell {
    remote: String,
    topic: String,
    saved_show: bool,
    finished: bool,
    lines: Ghost<Seq<Seq<char>>>,
}

pub struct RemoteShellModel {
    pub remote: Seq<char>,
    pub topic: Seq<char>,
    pub saved_show: bool,
    pub finished: bool,
    pub lines: Seq<Seq<char>>,
}

impl View for RemoteShell {
    type V = RemoteShellModel;

    closed spec fn view(&self) -> RemoteShellModel {
        RemoteShellModel {
            remote: self.remote@,
            topic: self.topic@,
            saved_show: self.saved_show,
            finished: self.finished,
            lines: self.lines@,
        }
    }
}

/// What one console line does in the remote shell.
pub enum ShellStep {
    /// An empty (or blank) line: nothing.
    Skip,
    /// `exit`: the session ends.
    Exit,
    /// Any other line: this command is published.
    Send(String),
}

pub enum ShellStepModel {
    Skip,
    Exit,
    Send(Seq<char>),
}

impl View for ShellStep {
    type V = ShellStepModel;

    open spec fn view(&self) -> ShellStepModel {
        match self {
            ShellStep::Skip => ShellStepModel::Skip,
            ShellStep::Exit => ShellStepModel::Exit,
            ShellStep::Send(s) => ShellStepModel::Send(s@),
        }
    }
}

/// The session opened with the remote device name typed as `remote_line`,
/// while showing was `show`: no line typed yet.
pub open spec fn shell_open_model(remote_line: Seq<char>, show: bool) -> RemoteShellModel {
    RemoteShellModel {
        remote: trimmed(remote_line),
        topic: device_topic(trimmed(remote_line), channel_word(Channel::Send)),
        saved_show: show,
        finished: false,
        lines: Seq::empty(),
    }
}

/// `action plugin command cmd '<text>'`.
pub open spec fn cmd_text(t: Seq<char>) -> Seq<char> {
    "action plugin command cmd '"@ + t + "'"@
}

/// What a console line does: blank lines are skipped, `exit` (with any
/// surrounding white space) ends the session, and any other line is sent,
/// trimmed, as `action plugin command cmd '<line>'`.
pub open spec fn shell_step_model(line: Seq<char>) -> ShellStepModel {
    let t = trimmed(line);
    if t.len() == 0 {
        ShellStepModel::Skip
    } else if t == "exit"@ {
        ShellStepModel::Exit
    } else {
        ShellStepModel::Send(cmd_text(t))
    }
}

/// One of `lines` is `exit` (with any surrounding white space).
pub open spec fn typed_exit(lines: Seq<Seq<char>>) -> bool
    decreases lines.len(),
{
    lines.len() > 0 && (trimmed(lines[0]) == "exit"@ || typed_exit(lines.drop_first()))
}

/// The commands that a session publishes for the console lines `lines`, in
/// order: one `action plugin command cmd '<line>'` for each line that is not
/// blank, up to the first `exit`; nothing for the lines after it.
pub open spec fn session_commands(lines: Seq<Seq<char>>) -> Seq<Seq<char>>
    decreases lines.len(),
{
    if lines.len() == 0 {
        Seq::empty()
    } else {
        let t = trimmed(lines[0]);
        if t.len() == 0 {
            session_commands(lines.drop_first())
        } else if t == "exit"@ {
            Seq::empty()
        } else {
            seq![cmd_text(t)] + session_commands(lines.drop_first())
        }
    }
}

/// Everything a session publishes, for the console lines `lines` typed
/// until it closes: where the output goes (`device`), `shell start`, the
/// commands of the lines, then `shell stop`.
pub open spec fn session_transcript(device: Seq<char>, lines: Seq<Seq<char>>) -> Seq<Seq<char>> {
    seq!["action plugin command dest '"@ + device + "'"@, "action plugin command shell start"@]
        + session_commands(lines) + seq!["action plugin command shell stop"@]
}

/// The commands after one more line: this line's command is added when it
/// sends one and no `exit` came before.
pub open spec fn next_commands(lines: Seq<Seq<char>>, line: Seq<char>) -> Seq<Seq<char>> {
    if typed_exit(lines) {
        session_commands(lines)
    } else {
        match shell_step_model(line) {
            ShellStepModel::Send(c) => session_commands(lines).push(c),
            _ => session_commands(lines),
        }
    }
}

/// Typing one more line after `lines`: `exit` is then typed if it was
/// before or this line is `exit`, and the commands grow by this line's
/// command when it sends one and no `exit` came before.
pub proof fn lemma_session_extends(lines: Seq<Seq<char>>, line: Seq<char>)
    ensures
        typed_exit(lines.push(line)) == (typed_exit(lines) || trimmed(line) == "exit"@),
        session_commands(lines.push(line)) == next_commands(lines, line),
    decreases lines.len(),
{
    reveal_strlit("exit");
    let l2 = lines.push(line);
    let empty = Seq::<Seq<char>>::empty();
    assert(l2.len() > 0);
    if lines.len() == 0 {
        assert(l2.drop_first() =~= empty);
        assert(l2[0] == line);
        assert(session_commands(empty) == empty);
        assert(!typed_exit(empty));
        let t = trimmed(line);
        if t.len() == 0 {
            assert(session_commands(l2) == session_commands(empty));
        } else if t == "exit"@ {
            assert(session_commands(l2) == empty);
        } else {
            assert(session_commands(l2) == seq![cmd_text(t)] + session_commands(empty));
            assert(seq![cmd_text(t)] + empty =~= empty.push(cmd_text(t)));
        }
        assert(session_commands(l2) == next_commands(lines, line));
    } else {
        assert(l2.drop_first() =~= lines.drop_first().push(line));
        assert(l2[0] == lines[0]);
        lemma_session_extends(lines.drop_first(), line);
        let t = trimmed(lines[0]);
        let rest = session_commands(lines.drop_first());
        if t.len() == 0 {
            assert(session_commands(l2) == session_commands(lines.drop_first().push(line)));
            assert(session_commands(lines) == rest);
            assert(typed_exit(lines) == typed_exit(lines.drop_first()));
            assert(session_commands(l2) == next_commands(lines, line));
        } else if t == "exit"@ {
            assert(session_commands(l2) == empty);
            assert(session_commands(lines) == empty);
            assert(typed_exit(lines));
            assert(session_commands(l2) == next_commands(lines, line));
        } else {
            assert(typed_exit(lines) == typed_exit(lines.drop_first()));
            assert(session_commands(l2) == seq![cmd_text(t)] + session_commands(
                lines.drop_first().push(line),
            ));
            assert(session_commands(lines) == seq![cmd_text(t)] + rest);
            match shell_step_model(line) {
                ShellStepModel::Send(c) => {
                    assert(seq![cmd_text(t)] + rest.push(c) =~= (seq![cmd_text(t)] + rest).push(
                        c,
                    ));
                },
                _ => {},
            }
        }
    }
}

/// The session's internal invariant: it is finished exactly when `exit` was
/// typed, and its topic is the `send` topic of its remote device.
pub open spec fn shell_wf(m: RemoteShellModel) -> bool {
    &&& m.finished == typed_exit(m.lines)
    &&& m.topic == device_topic(m.remote, channel_word(Channel::Send))
}

impl RemoteShell {
    #[verifier::type_invariant]
    closed spec fn wf(&self) -> bool {
        shell_wf(self@)
    }

    /// Opens a session with the device typed as `remote_line`. Gives the
    /// session and the two commands to publish first: where the output goes
    /// (`device`), and `shell start`.
    pub fn open(remote_line: &str, device: &str, show: bool) -> (res: (RemoteShell, Vec<String>))
        ensures
            res.0@ == shell_open_model(remote_line@, show),
            shell_wf(res.0@),
            res.1@.len() == 2,
            res.1@[0]@ == "action plugin command dest '"@ + device@ + "'"@,
            res.1@[1]@ == "action plugin command shell start"@,
    {
        let remote = trim(remote_line);
        let topic = device_topic_of(remote.as_str(), Channel::Send);
        let mut first: Vec<String> = Vec::new();
        first.push(shell_dest_command(device));
        first.push(shell_start_command());
        (
            RemoteShell {
                remote,
                topic,
                saved_show: show,
                finished: false,
                lines: Ghost(Seq::empty()),
            },
            first,
        )
    }

    /// The prompt of the session: `<remote> > `.
    pub fn prompt(&self) -> (p: String)
        ensures
            p@ == self@.remote + " > "@,
    {
        let mut p = self.remote.clone();
        p.append(" > ");
        p
    }

    /// The topic the session's commands go to.
    pub fn topic(&self) -> (t: &str)
        ensures
            t@ == self@.topic,
    {
        self.topic.as_str()
    }

    /// Showing of incoming messages while the session runs: off.
    pub fn show_while_open(&self) -> (show: bool)
        ensures
            !show,
    {
        false
    }

    /// What the console line `line` does. Once `exit` has been typed, every
    /// line ends the session again and changes nothing. Otherwise the line
    /// is added to the session's lines, and the command it sends, if any, is
    /// the next of the session's commands.
    pub fn on_line(&mut self, line: &str) -> (step: ShellStep)
        ensures
            shell_wf(old(self)@) && shell_wf(final(self)@),
            old(self)@.finished ==> step@ is Exit && final(self)@ == old(self)@,
            !old(self)@.finished ==> {
                &&& step@ == shell_step_model(line@)
                &&& final(self)@.lines == old(self)@.lines.push(line@)
                &&& final(self)@.finished == (step@ is Exit)
                &&& final(self)@.remote == old(self)@.remote
                &&& final(self)@.topic == old(self)@.topic
                &&& final(self)@.saved_show == old(self)@.saved_show
                &&& session_commands(final(self)@.lines) == match step@ {
                    ShellStepModel::Send(c) => session_commands(old(self)@.lines).push(c),
                    _ => session_commands(old(self)@.lines),
                }
            },
    {
        proof {
            use_type_invariant(&*self);
        }
        if self.finished {
            return ShellStep::Exit;
        }
        let t = trim(line);
        let step = if t.unicode_len() == 0 {
            ShellStep::Skip
        } else if same_text(t.as_str(), "exit") {
            ShellStep::Exit
        } else {
            ShellStep::Send(shell_cmd_command(t.as_str()))
        };
        let ghost new_lines = self.lines@.push(line@);
        proof {
            lemma_session_extends(self.lines@, line@);
            reveal_strlit("exit");
        }
        let finished = match step {
            ShellStep::Exit => true,
            _ => false,
        };
        assert(finished == (trimmed(line@) == "exit"@));
        assert(finished == typed_exit(new_lines));
        let remote = self.remote.clone();
        let topic = self.topic.clone();
        *self = RemoteShell {
            remote,
            topic,
            saved_show: self.saved_show,
            finished,
            lines: Ghost(new_lines),
        };
        step
    }

    /// Ends the session: gives the showing switch as it was when the session
    /// opened, and the command to publish last, `shell stop`.
    pub fn close(self) -> (res: (bool, String))
        ensures
            res.0 == self@.saved_show,
            res.1@ == "action plugin command shell stop"@,
    {
        (self.saved_show, shell_stop_command())
    }
}

/// Every line that is neither blank nor `exit` is sent: for every console
/// line whose trimmed text `t` is not empty and is not `exit`, the step sends
/// `action plugin command cmd '<t>'`, whatever characters `t` holds; and while
/// no `exit` has been typed, that command is the next one the session
/// publishes.
pub proof fn lemma_every_command_line_sent(lines: Seq<Seq<char>>, line: Seq<char>)
    requires
        trimmed(line).len() > 0,
        trimmed(line) != "exit"@,
    ensures
        shell_step_model(line) == ShellStepModel::Send(
            "action plugin command cmd '"@ + trimmed(line) + "'"@,
        ),
        !typed_exit(lines) ==> session_commands(lines.push(line)) == session_commands(lines).push(
            "action plugin command cmd '"@ + trimmed(line) + "'"@,
        ),
        !typed_exit(lines) ==> !typed_exit(lines.push(line)),
{
    lemma_session_extends(lines, line);
}

/// Blank lines send nothing and `exit` ends the session: a line whose
/// trimmed text is empty is skipped and adds no command; a line whose
/// trimmed text is `exit` ends the session, and no later line adds a
/// command.
pub proof fn lemma_blank_and_exit_lines(lines: Seq<Seq<char>>, line: Seq<char>)
    ensures
        trimmed(line).len() == 0 ==> shell_step_model(line) == ShellStepModel::Skip
            && session_commands(lines.push(line)) == session_commands(lines),
        trimmed(line) == "exit"@ ==> shell_step_model(line) == ShellStepModel::Exit
            && session_commands(lines.push(line)) == session_commands(lines) && typed_exit(
            lines.push(line),
        ),
        typed_exit(lines) ==> session_commands(lines.push(line)) == session_commands(lines),
{
    reveal_strlit("exit");
    lemma_session_extends(lines, line);
}

/// Closing a session gives back the showing switch it was opened with,
/// whatever lines were typed in between (`on_line` keeps `saved_show`).
/// Showing starts on (`initial_show`) and only a session turns it off, so it
/// is on between the host's calls.
pub proof fn lemma_shell_restores_show(remote_line: Seq<char>, show: bool)
    ensures
        shell_open_model(remote_line, show).saved_show == show,
{
}

/// White space around a console line never changes what it does.
pub proof fn lemma_shell_line_blanks_ignored(line: Seq<char>)
    ensures
        shell_step_model(trimmed(line)) == shell_step_model(line),
{
    lemma_trim_idempotent(line);
}

/// White space around the typed name of the remote device never changes
/// the session's topic.
pub proof fn lemma_shell_remote_blanks_ignored(remote_line: Seq<char>, show: bool)
    ensures
        shell_open_model(trimmed(remote_line), show) == shell_open_model(remote_line, show),
{
    lemma_trim_idempotent(remote_line);
}

/// Nothing is logged while a remote shell runs: with showing off, no
/// notification is logged, nor its payload decoded.
pub proof fn lemma_nothing_logged_while_shell_open(e: Event)
    ensures
        !(print_model(e, false) is Log),
        !shows_payload(e, false),
{
}

/// A message on the `send` topic of `device` whose payload is the UTF-8
/// encoding of `text` is forwarded by that device as `text`; on its `echo`
/// topic, it is echoed.
pub proof fn lemma_own_channel_delivers(c: Channel, device: Seq<char>, text: Seq<char>, e: Event)
    requires
        is_own_channel(c),
        e matches Event::Incoming(Packet::Publish(p)) && p.topic@ == device_topic(
            device,
            channel_word(c),
        ) && p.payload@ == encode_utf8(text),
    ensures
        handle_model(c, e, device) == (if c == Channel::Send {
            OutcomeModel::Forward(text)
        } else {
            OutcomeModel::Echo(text)
        }),
{
    encode_utf8_valid_utf8(text);
    encode_utf8_decode_utf8(text);
}

/// A report relayed to the `send` (or `echo`) topic of a device reaches it:
/// the device forwards (or echoes) exactly the report's payload, as the
/// message carries it (`action` encrypts it first; the device decrypts it).
pub proof fn lemma_report_reaches_device(
    c: Channel,
    device: Seq<char>,
    report: PublicationModel,
    e: Event,
)
    requires
        is_own_channel(c),
        report.topic == device_topic(device, channel_word(c)),
        e matches Event::Incoming(Packet::Publish(p)) && p.topic@ == report.topic && p.payload@
            == encode_utf8(report.payload),
    ensures
        handle_model(c, e, device) == (if c == Channel::Send {
            OutcomeModel::Forward(report.payload)
        } else {
            OutcomeModel::Echo(report.payload)
        }),
{
    lemma_own_channel_delivers(c, device, report.payload, e);
}

/// The commands of a remote shell reach the device named on the console: a
/// message on the session's topic whose payload is the UTF-8 encoding of a
/// command is forwarded, as that command, by the device whose name is the
/// trimmed console line.
pub proof fn lemma_shell_reaches_remote(remote_line: Seq<char>, show: bool, cmd: Seq<char>, e: Event)
    requires
        e matches Event::Incoming(Packet::Publish(p)) && p.topic@ == shell_open_model(
            remote_line,
            show,
        ).topic && p.payload@ == encode_utf8(cmd),
    ensures
        handle_model(Channel::Send, e, trimmed(remote_line)) == OutcomeModel::Forward(cmd),
{
    lemma_own_channel_delivers(Channel::Send, trimmed(remote_line), cmd, e);
}

// ---------------------------------------------------------------------------
// Console lines
// ---------------------------------------------------------------------------

/// `[mqtt]` with the name in blue: the tag of the plugin's console lines.
pub open spec fn tag_model() -> Seq<char> {
    "["@ + coloured('4', MODULE@) + "]"@
}

/// The tag of the plugin's console lines.
pub fn tag() -> (t: String)
    ensures
        t@ == tag_model(),
{
    let mut t = String::from_str("[");
    let name = blue(MODULE);
    t.append(name.as_str());
    t.append("]");
    t
}

/// `[mqtt] Loading...`
pub fn loading_line() -> (line: String)
    ensures
        line@ == tag_model() + " Loading..."@,
{
    let mut line = tag();
    line.append(" Loading...");
    line
}

/// The line shown when the receiving loop starts.
pub fn receiving_line() -> (line: String)
    ensures
        line@ == tag_model()
            + " Start to receive mqtt message (but ignore the outgoing ping req and incoming ping resp)."@,
{
    let mut line = tag();
    line.append(
        " Start to receive mqtt message (but ignore the outgoing ping req and incoming ping resp).",
    );
    line
}

/// `[mqtt] Notification = <debug>, leave`: the receiving loop ends.
pub fn leave_line(debug_text: &str) -> (line: String)
    ensures
        line@ == tag_model() + " Notification = "@ + debug_text@ + ", leave"@,
{
    let mut line = tag();
    line.append(" Notification = ");
    line.append(debug_text);
    line.append(", leave");
    line
}

/// `[mqtt] Mqtt rx err: Notification = <red debug>`.
pub open spec fn receive_error_model(debug_text: Seq<char>) -> Seq<char> {
    tag_model() + " Mqtt rx err: Notification = "@ + coloured('1', debug_text)
}

/// `[mqtt] Sleep 20 seconds to restart...`.
pub open spec fn restart_model() -> Seq<char> {
    tag_model() + " Sleep "@ + decimal_text(RESTART_DELAY as nat) + " seconds to restart..."@
}

/// The line shown when the connection fails, given the error's debug text.
pub fn receive_error_line(debug_text: &str) -> (line: String)
    ensures
        line@ == receive_error_model(debug_text@),
{
    let mut line = tag();
    line.append(" Mqtt rx err: Notification = ");
    let coloured = red(debug_text);
    line.append(coloured.as_str());
    line
}

/// The line shown before the receiving loop waits to be restarted.
pub fn restart_line() -> (line: String)
    ensures
        line@ == restart_model(),
{
    let mut line = tag();
    line.append(" Sleep ");
    let delay = render_u64(RESTART_DELAY);
    line.append(delay.as_str());
    line.append(" seconds to restart...");
    line
}

/// `[mqtt] Unload`
pub fn unload_line() -> (line: String)
    ensures
        line@ == tag_model() + " Unload"@,
{
    let mut line = tag();
    line.append(" Unload");
    line
}

/// A step of the receiving loop after the connection has failed.
pub enum RxAction {
    /// Show this line on the console.
    Print(String),
    /// Add this line, encrypted, to the host's log.
    Log(String),
    /// Wait this many seconds.
    Sleep(u64),
    /// Hand this command to the host.
    Send(String),
}

pub enum RxActionModel {
    Print(Seq<char>),
    Log(Seq<char>),
    Sleep(u64),
    Send(Seq<char>),
}

impl View for RxAction {
    type V = RxActionModel;

    open spec fn view(&self) -> RxActionModel {
        match self {
            RxAction::Print(s) => RxActionModel::Print(s@),
            RxAction::Log(s) => RxActionModel::Log(s@),
            RxAction::Sleep(n) => RxActionModel::Sleep(*n),
            RxAction::Send(s) => RxActionModel::Send(s@),
        }
    }
}

/// What the receiving loop does when the connection fails, before it ends:
/// it shows and logs the error, shows and logs that it waits, waits
/// `RESTART_DELAY` seconds, and asks the host to restart the plugin.
pub fn on_receive_failure(debug_text: &str) -> (actions: Vec<RxAction>)
    ensures
        actions@.len() == 6,
        actions@[0]@ == RxActionModel::Print(receive_error_model(debug_text@)),
        actions@[1]@ == RxActionModel::Log(receive_error_model(debug_text@)),
        actions@[2]@ == RxActionModel::Print(restart_model()),
        actions@[3]@ == RxActionModel::Log(restart_model()),
        actions@[4]@ == RxActionModel::Sleep(RESTART_DELAY),
        actions@[5]@ == RxActionModel::Send("restart plugin mqtt"@),
{
    let mut actions: Vec<RxAction> = Vec::new();
    let error = receive_error_line(debug_text);
    actions.push(RxAction::Print(error.clone()));
    actions.push(RxAction::Log(error));
    let wait = restart_line();
    actions.push(RxAction::Print(wait.clone()));
    actions.push(RxAction::Log(wait));
    actions.push(RxAction::Sleep(RESTART_DELAY));
    actions.push(RxAction::Send(restart_command()));
    actions
}

} // verus!
