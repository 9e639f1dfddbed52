//! Topics of the `tln/<device>/<channel>` tree and how an incoming topic is
//! matched to a channel.
use vstd::prelude::*;

verus! {

/// The first level of every topic: `tln/`.
pub open spec fn tln_prefix() -> Seq<char> {
    seq!['t', 'l', 'n', '/']
}

/// A channel name: one or more lower-case ASCII letters or underscores, so
/// that it holds no `/` and nothing that a regular expression reads as an
/// operator.
pub open spec fn is_plain_word(w: Seq<char>) -> bool {
    &&& w.len() > 0
    &&& forall|i: int| 0 <= i < w.len() ==> ('a' <= #[trigger] w[i] && w[i] <= 'z') || w[i] == '_'
}

pub open spec fn has_no_slash(s: Seq<char>) -> bool {
    forall|i: int| 0 <= i < s.len() ==> #[trigger] s[i] != '/'
}

/// `tln/<device>/<word>`.
pub open spec fn device_topic(device: Seq<char>, word: Seq<char>) -> Seq<char> {
    tln_prefix() + device + seq!['/'] + word
}

/// The device named by `topic` under the channel `word`: the topic is
/// `tln/<device>/<word>` with a device name of at least one character and no
/// `/`.
pub open spec fn device_of_topic(topic: Seq<char>, word: Seq<char>) -> Option<Seq<char>> {
    let end = topic.len() - word.len() - 1;
    if end > 4 && topic.take(4) == tln_prefix() && topic.skip(end) == seq!['/'] + word
        && has_no_slash(topic.subrange(4, end)) {
        Some(topic.subrange(4, end))
    } else {
        None
    }
}

/// The regular expression `^tln/([^/]+)/<word>$`.
pub open spec fn device_regex(word: Seq<char>) -> Seq<char> {
    seq!['^', 't', 'l', 'n', '/', '(', '[', '^', '/', ']', '+', ')', '/'] + word + seq!['$']
}

/// `Some` of the view of the string, or `None`.
pub open spec fn opt_text(o: Option<String>) -> Option<Seq<char>> {
    match o {
        Some(s) => Some(s@),
        None => None,
    }
}

/// What the `regex` crate gives as the text of the first capture group when
/// the regular expression `pattern` is searched for in `haystack` (`None`
/// when the pattern is invalid, does not match, or the group takes no part).
pub uninterp spec fn regex_group_one(pattern: Seq<char>, haystack: Seq<char>) -> Option<Seq<char>>;

/// `regex::Regex::new(pattern)`, then `Regex::captures(haystack)`, then
/// `Captures::get(1)`: the text of the first capture group of the leftmost
/// match, or `None`. For a pattern `^tln/([^/]+)/<word>$` whose word is made
/// of lower-case letters and underscores, the regex syntax (`^` and `$`
/// anchor at the ends of the haystack, `[^/]+` is one or more characters
/// other than `/`, parentheses capture) gives the result exactly: it is
/// `device_of_topic(haystack, word)`.
#[verifier::external_body]
fn regex_first_group(pattern: &str, haystack: &str) -> (res: Option<String>)
    ensures
        opt_text(res) == regex_group_one(pattern@, haystack@),
        forall|word: Seq<char>|
            #[trigger] device_regex(word) == pattern@ && is_plain_word(word) ==> opt_text(res)
                == device_of_topic(haystack@, word),
{
    let re = match regex::Regex::new(pattern) {
        Ok(re) => re,
        Err(_) => return None,
    };
    let caps = re.captures(haystack)?;
    let group = caps.get(1)?;
    Some(group.as_str().to_string())
}

/// The last level of the topics that this plugin reads.
#[derive(PartialEq, Eq, Structural, Clone, Copy, Debug)]
pub enum Channel {
    Onboard,
    Uptime,
    Hostname,
    Os,
    Send,
    Temperature,
    SwUptime,
    Echo,
}

/// The topic level of each channel.
pub open spec fn channel_word(c: Channel) -> Seq<char> {
    match c {
        Channel::Onboard => seq!['o', 'n', 'b', 'o', 'a', 'r', 'd'],
        Channel::Uptime => seq!['u', 'p', 't', 'i', 'm', 'e'],
        Channel::Hostname => seq!['h', 'o', 's', 't', 'n', 'a', 'm', 'e'],
        Channel::Os => seq!['o', 's'],
        Channel::Send => seq!['s', 'e', 'n', 'd'],
        Channel::Temperature => seq!['t', 'e', 'm', 'p', 'e', 'r', 'a', 't', 'u', 'r', 'e'],
        Channel::SwUptime => seq!['s', 'w', '_', 'u', 'p', 't', 'i', 'm', 'e'],
        Channel::Echo => seq!['e', 'c', 'h', 'o'],
    }
}

/// The channels that carry a message for this device alone; the others carry
/// information about any device, named in the topic.
pub open spec fn is_own_channel(c: Channel) -> bool {
    c == Channel::Send || c == Channel::Echo
}

/// The channel `c` takes a message on `topic`, for the device `device`: on
/// `send` and `echo` the topic is exactly `tln/<device>/<word>`; on the others
/// it names some device as `device_of_topic` reads it.
pub open spec fn channel_selects(c: Channel, topic: Seq<char>, device: Seq<char>) -> bool {
    if is_own_channel(c) {
        topic == device_topic(device, channel_word(c))
    } else {
        device_of_topic(topic, channel_word(c)) is Some
    }
}

impl Channel {
    /// The topic level of the channel.
    pub fn word(&self) -> (w: &'static str)
        ensures
            w@ == channel_word(*self),
    {
        match self {
            Channel::Onboard => {
                proof {
                    reveal_strlit("onboard");
                }
                "onboard"
            },
            Channel::Uptime => {
                proof {
                    reveal_strlit("uptime");
                }
                "uptime"
            },
            Channel::Hostname => {
                proof {
                    reveal_strlit("hostname");
                }
                "hostname"
            },
            Channel::Os => {
                proof {
                    reveal_strlit("os");
                }
                "os"
            },
            Channel::Send => {
                proof {
                    reveal_strlit("send");
                }
                "send"
            },
            Channel::Temperature => {
                proof {
                    reveal_strlit("temperature");
                }
                "temperature"
            },
            Channel::SwUptime => {
                proof {
                    reveal_strlit("sw_uptime");
                }
                "sw_uptime"
            },
            Channel::Echo => {
                proof {
                    reveal_strlit("echo");
                }
                "echo"
            },
        }
    }
}

/// Every channel word is a plain word.
pub proof fn lemma_channel_word_plain(c: Channel)
    ensures
        is_plain_word(channel_word(c)),
{
}

/// `tln/<device>/<channel>`.
pub fn device_topic_of(device: &str, channel: Channel) -> (t: String)
    ensures
        t@ == device_topic(device@, channel_word(channel)),
{
    let mut t = String::from_str("tln/");
    t.append(device);
    t.append("/");
    t.append(channel.word());
    proof {
        reveal_strlit("tln/");
        reveal_strlit("/");
        assert(t@ =~= device_topic(device@, channel_word(channel)));
    }
    t
}

/// `tln/<device>/onboard`, where a device says whether it is online.
pub fn onboard_topic(device: &str) -> (t: String)
    ensures
        t@ == device_topic(device@, channel_word(Channel::Onboard)),
{
    device_topic_of(device, Channel::Onboard)
}

/// The regular expression `^tln/([^/]+)/<word>$`.
fn device_regex_of(word: &str) -> (p: String)
    ensures
        p@ == device_regex(word@),
{
    let mut p = String::from_str("^tln/([^/]+)/");
    p.append(word);
    p.append("$");
    proof {
        reveal_strlit("^tln/([^/]+)/");
        reveal_strlit("$");
        assert(p@ =~= device_regex(word@));
    }
    p
}

/// The device that `topic` names under `channel`, found with the regular
/// expression `^tln/([^/]+)/<channel>$`.
pub fn device_in_topic(topic: &str, channel: Channel) -> (res: Option<String>)
    ensures
        opt_text(res) == device_of_topic(topic@, channel_word(channel)),
{
    let word = channel.word();
    let pattern = device_regex_of(word);
    let res = regex_first_group(pattern.as_str(), topic);
    proof {
        lemma_channel_word_plain(channel);
        assert(device_regex(word@) == pattern@);
    }
    res
}

/// Whether `topic` is exactly `tln/<device>/<channel>`.
pub fn is_device_topic(topic: &str, device: &str, channel: Channel) -> (b: bool)
    ensures
        b == (topic@ == device_topic(device@, channel_word(channel))),
{
    let expected = device_topic_of(device, channel);
    let t = String::from_str(topic);
    t == expected
}

/// Whether `channel` takes a message published on `topic`, for the device
/// `device`.
pub fn selects(channel: Channel, topic: &str, device: &str) -> (b: bool)
    ensures
        b == channel_selects(channel, topic@, device@),
{
    match channel {
        Channel::Send | Channel::Echo => is_device_topic(topic, device, channel),
        _ => device_in_topic(topic, channel).is_some(),
    }
}

// ---------------------------------------------------------------------------
// Laws
// ---------------------------------------------------------------------------

/// `topic` ends with `/<word>`.
pub open spec fn ends_with_word(topic: Seq<char>, word: Seq<char>) -> bool {
    &&& topic.len() >= word.len() + 1
    &&& topic.skip(topic.len() - word.len() - 1) == seq!['/'] + word
}

proof fn lemma_selects_ends_with(c: Channel, topic: Seq<char>, device: Seq<char>)
    requires
        channel_selects(c, topic, device),
    ensures
        ends_with_word(topic, channel_word(c)),
{
    let w = channel_word(c);
    if is_own_channel(c) {
        let t = device_topic(device, w);
        assert(t.skip(t.len() - w.len() - 1) =~= seq!['/'] + w);
    }
}

/// A topic that ends with `/<w1>` and with `/<w2>`, for two plain words,
/// ends with the same word twice: `w1 == w2`.
proof fn lemma_one_word_ends_a_topic(topic: Seq<char>, w1: Seq<char>, w2: Seq<char>)
    requires
        is_plain_word(w1),
        is_plain_word(w2),
        ends_with_word(topic, w1),
        ends_with_word(topic, w2),
    ensures
        w1 == w2,
{
    let n = topic.len();
    if w1.len() < w2.len() {
        // the `/` before w1 falls inside w2
        let k = n - w1.len() - 1;
        assert(topic.skip(n - w1.len() - 1)[0] == '/');
        assert(topic[k] == '/');
        let j = k - (n - w2.len());
        assert(topic.skip(n - w2.len() - 1)[j + 1] == topic[k]);
        assert(w2[j] == '/');
    } else if w2.len() < w1.len() {
        let k = n - w2.len() - 1;
        assert(topic.skip(n - w2.len() - 1)[0] == '/');
        assert(topic[k] == '/');
        let j = k - (n - w1.len());
        assert(topic.skip(n - w1.len() - 1)[j + 1] == topic[k]);
        assert(w1[j] == '/');
    } else {
        assert forall|i: int| 0 <= i < w1.len() implies w1[i] == w2[i] by {
            assert(topic.skip(n - w1.len() - 1)[i + 1] == w1[i]);
            assert(topic.skip(n - w2.len() - 1)[i + 1] == w2[i]);
        }
        assert(w1 =~= w2);
    }
}

/// Distinct channels have distinct words.
proof fn lemma_channel_word_injective(c1: Channel, c2: Channel)
    requires
        channel_word(c1) == channel_word(c2),
    ensures
        c1 == c2,
{
    let w1 = channel_word(c1);
    let w2 = channel_word(c2);
    assert(w1.len() == w2.len());
    assert(w1[0] == w2[0]);
    if w1.len() > 1 {
        assert(w1[1] == w2[1]);
    }
}

/// At most one channel takes a message: whatever the topic and the device,
/// two channels that both take it are the same channel.
pub proof fn lemma_at_most_one_channel(c1: Channel, c2: Channel, topic: Seq<char>, device: Seq<char>)
    requires
        channel_selects(c1, topic, device),
        channel_selects(c2, topic, device),
    ensures
        c1 == c2,
{
    lemma_selects_ends_with(c1, topic, device);
    lemma_selects_ends_with(c2, topic, device);
    lemma_channel_word_plain(c1);
    lemma_channel_word_plain(c2);
    lemma_one_word_ends_a_topic(topic, channel_word(c1), channel_word(c2));
    lemma_channel_word_injective(c1, c2);
}

/// The topic `tln/<device>/<word>` names `device` under `word`, for every
/// device name of at least one character without `/`, and for no other.
pub proof fn lemma_device_topic_round_trip(device: Seq<char>, word: Seq<char>)
    requires
        is_plain_word(word),
    ensures
        device_of_topic(device_topic(device, word), word) == (if device.len() > 0 && has_no_slash(
            device,
        ) {
            Some(device)
        } else {
            None
        }),
{
    let t = device_topic(device, word);
    let end = t.len() - word.len() - 1;
    assert(end == 4 + device.len());
    assert(t.take(4) =~= tln_prefix());
    assert(t.skip(end) =~= seq!['/'] + word);
    assert(t.subrange(4, end) =~= device);
}

} // verus!
