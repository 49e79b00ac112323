//! The lines that the bot sends to the chat server, and its answers to lines
//! that are not private messages.
use crate::text::{
    all_space, is_space, law_trim_is_final, law_trim_takes_space_alone, law_trim_undoes_padding, padded,
    same, trim, trimmed, Text,
};
use vstd::prelude::*;

verus! {

/// Whether the bot goes on after a line.
#[derive(Clone, Copy, Debug, PartialEq, Eq, Structural)]
pub enum Command {
    Stop,
    Continue,
}

/// A line for the chat server, with its line end.
#[derive(Debug, PartialEq, Eq)]
pub struct IRCMessage(pub String);

impl View for IRCMessage {
    type V = Text;

    open spec fn view(&self) -> Text {
        self.0@
    }
}

/// The login line with the password.
pub open spec fn pass_line(pass: Text) -> Text {
    "PASS "@ + pass + "\r\n"@
}

/// The login line with the name of the bot.
pub open spec fn nick_line(nick: Text) -> Text {
    "NICK "@ + nick + "\r\n"@
}

/// The line that enters a channel.
pub open spec fn join_line(channel: Text) -> Text {
    "JOIN #"@ + channel + "\r\n"@
}

/// A line with nothing around the given text.
pub open spec fn raw_line(text: Text) -> Text {
    text + "\r\n"@
}

/// The line that says `text` in a channel.
pub open spec fn chat_line(text: Text, channel: Text) -> Text {
    "PRIVMSG #"@ + channel + " :"@ + text + "\r\n"@
}

/// The answer to a ping.
pub open spec fn pong_line() -> Text {
    "PONG :tmi.twitch.tv\r\n"@
}

/// The formats of the lines.
pub struct TwitchFmt {}

impl TwitchFmt {
    pub fn pass(pass: &str) -> (r: IRCMessage)
        ensures
            r@ == pass_line(pass@),
    {
        let mut s = "PASS ".to_owned();
        s.append(pass);
        s.append("\r\n");
        IRCMessage(s)
    }

    pub fn nick(nick: &str) -> (r: IRCMessage)
        ensures
            r@ == nick_line(nick@),
    {
        let mut s = "NICK ".to_owned();
        s.append(nick);
        s.append("\r\n");
        IRCMessage(s)
    }

    pub fn join(join: &str) -> (r: IRCMessage)
        ensures
            r@ == join_line(join@),
    {
        let mut s = "JOIN #".to_owned();
        s.append(join);
        s.append("\r\n");
        IRCMessage(s)
    }

    pub fn text(text: &str) -> (r: IRCMessage)
        ensures
            r@ == raw_line(text@),
    {
        let mut s = text.to_owned();
        s.append("\r\n");
        IRCMessage(s)
    }

    pub fn privmsg(text: &str, channel: &str) -> (r: IRCMessage)
        ensures
            r@ == chat_line(text@, channel@),
    {
        let mut s = "PRIVMSG #".to_owned();
        s.append(channel);
        s.append(" :");
        s.append(text);
        s.append("\r\n");
        IRCMessage(s)
    }

    pub fn pong() -> (r: IRCMessage)
        ensures
            r@ == pong_line(),
    {
        IRCMessage("PONG :tmi.twitch.tv\r\n".to_owned())
    }
}

/// The lines that log the bot in and enter its channel, in the order in which
/// the server takes them.
pub fn authenticate(secret: &str, nick: &str, channel: &str) -> (r: Vec<IRCMessage>)
    ensures
        r.len() == 3,
        r[0]@ == pass_line(secret@),
        r[1]@ == nick_line(nick@),
        r[2]@ == join_line(channel@),
{
    let mut lines: Vec<IRCMessage> = Vec::new();
    lines.push(TwitchFmt::pass(secret));
    lines.push(TwitchFmt::nick(nick));
    lines.push(TwitchFmt::join(channel));
    lines
}

/// The milliseconds between two lines that the bot sends.
pub const WRITE_PAUSE: u64 = 100;

/// What the writing side of the bot does next.
#[derive(Debug, PartialEq, Eq)]
pub enum Outgoing {
    /// Writes a line, and then pauses for so many milliseconds.
    Write { line: IRCMessage, pause_ms: u64 },
    /// Ends.
    End,
}

/// Decides what to do about a line from the queue; there is none once the queue
/// is closed.
pub fn next_write(received: Option<IRCMessage>) -> (r: Outgoing)
    ensures
        received is None <==> r is End,
        received matches Some(m) ==> (r matches Outgoing::Write { line, pause_ms } && line@ == m@
            && pause_ms == 100),
{
    match received {
        Some(line) => Outgoing::Write { line, pause_ms: WRITE_PAUSE },
        None => Outgoing::End,
    }
}

/// Whether the bot goes on after a line that is no private message: not after
/// a blank one, which is what a closed connection gives.
pub open spec fn twitch_command(line: Text) -> Command {
    if trimmed(line).len() == 0 {
        Command::Stop
    } else {
        Command::Continue
    }
}

/// Whether a line is the ping that the server wants answered.
pub open spec fn is_ping(line: Text) -> bool {
    trimmed(line) == "PING :tmi.twitch.tv"@
}

/// Deals with a line that is no private message.
pub fn handle_twitch(line: &str) -> (r: (Command, Option<IRCMessage>))
    ensures
        r.0 == twitch_command(line@),
        match r.1 {
            Some(reply) => is_ping(line@) && reply@ == pong_line(),
            None => !is_ping(line@),
        },
{
    let line = trim(line);
    proof {
        reveal_strlit("PING :tmi.twitch.tv");
    }
    if line.as_str().is_empty() {
        (Command::Stop, None)
    } else if same(line.as_str(), "PING :tmi.twitch.tv") {
        (Command::Continue, Some(TwitchFmt::pong()))
    } else {
        (Command::Continue, None)
    }
}

/// The lines that the bot sends, as they read on the wire.
pub proof fn law_lines_on_the_wire(text: Text, channel: Text)
    ensures
        pass_line(text) == "PASS "@ + text + "\r\n"@,
        nick_line(text) == "NICK "@ + text + "\r\n"@,
        join_line(channel) == "JOIN #"@ + channel + "\r\n"@,
        raw_line(text) == text + "\r\n"@,
        chat_line(text, channel) == "PRIVMSG #"@ + channel + " :"@ + text + "\r\n"@,
        pong_line() == "PONG :tmi.twitch.tv\r\n"@,
{
}

/// A line in the chat holds what is said: its text stands behind the channel, and
/// two texts never make the same line.
pub proof fn law_lines_hold_their_text(text: Text, other: Text, channel: Text)
    ensures
        chat_line(text, channel) == chat_line(other, channel) ==> text == other,
        raw_line(text) == raw_line(other) ==> text == other,
{
    let start = "PRIVMSG #"@ + channel + " :"@;
    let n = start.len() as int;
    let end = "\r\n"@.len();
    assert(chat_line(text, channel).len() == n + text.len() + end);
    assert(chat_line(other, channel).len() == n + other.len() + end);
    assert(raw_line(text).len() == text.len() + end);
    assert(raw_line(other).len() == other.len() + end);
    if chat_line(text, channel) == chat_line(other, channel) {
        assert(text.len() == other.len());
        assert(chat_line(text, channel).subrange(n, n + text.len()) =~= text);
        assert(chat_line(other, channel).subrange(n, n + other.len()) =~= other);
    }
    if raw_line(text) == raw_line(other) {
        assert(text.len() == other.len());
        assert(raw_line(text).take(text.len() as int) =~= text);
        assert(raw_line(other).take(other.len() as int) =~= other);
    }
}

/// The bot stops on a line of white space, and on no other.
pub proof fn law_blank_lines_end_the_connection(line: Text)
    ensures
        twitch_command(line) == Command::Stop <==> all_space(line),
{
    law_trim_is_final(line);
    law_trim_takes_space_alone(line);
    let (before, after) = choose|before: Text, after: Text| #[trigger]
        padded(line, before, trimmed(line), after);
    if trimmed(line).len() > 0 {
        assert(line[before.len() as int] == trimmed(line)[0]);
    } else {
        assert forall|i: int| 0 <= i < line.len() implies is_space(#[trigger] line[i]) by {
            if i < before.len() {
                assert(line[i] == before[i]);
            } else {
                assert(line[i] == after[i - before.len()]);
            }
        }
    }
}

/// The ping of the server is known with white space around it, and nothing else
/// is a ping.
pub proof fn law_pings(line: Text, before: Text, after: Text)
    ensures
        padded(line, before, "PING :tmi.twitch.tv"@, after) ==> is_ping(line),
        is_ping(line) ==> exists|before: Text, after: Text| #[trigger]
            padded(line, before, "PING :tmi.twitch.tv"@, after),
{
    reveal_strlit("PING :tmi.twitch.tv");
    if padded(line, before, "PING :tmi.twitch.tv"@, after) {
        law_trim_undoes_padding(line, before, "PING :tmi.twitch.tv"@, after);
    }
    if is_ping(line) {
        law_trim_takes_space_alone(line);
    }
}

} // verus!
