//! What a line from the server means to the bot, when the bot saves its players
//! between two lines, and when it stops reading.
use crate::grammar::{
    all_words, chat_command, law_privmsg_always_splits, law_privmsg_is_read_back, privmsg,
    privmsg_line, split_chat, split_privmsg,
};
use crate::text::{all_space, is_space, padded, trimmed, Text};
use crate::wire::{
    handle_twitch, is_ping, law_blank_lines_end_the_connection, law_pings, pong_line, twitch_command,
    Command, IRCMessage,
};
use vstd::prelude::*;

verus! {

/// What a line from the server asks of the bot.
#[derive(Debug, PartialEq, Eq)]
pub enum Incoming<S, M> {
    /// The connection is over.
    Stopped,
    /// A line is to be sent back.
    Reply(M),
    /// Nothing.
    Ignored,
    /// A viewer has said something: who, how the bot was addressed, and the
    /// command line.
    Chat { name: S, prefix: S, command: S },
}

impl View for Incoming<String, IRCMessage> {
    type V = Incoming<Text, Text>;

    open spec fn view(&self) -> Incoming<Text, Text> {
        match self {
            Incoming::Stopped => Incoming::Stopped,
            Incoming::Reply(m) => Incoming::Reply(m@),
            Incoming::Ignored => Incoming::Ignored,
            Incoming::Chat { name, prefix, command } => Incoming::Chat {
                name: name@,
                prefix: prefix@,
                command: command@,
            },
        }
    }
}

/// What a line from the server asks of the bot.
pub open spec fn meaning(line: Text) -> Incoming<Text, Text> {
    match privmsg(line) {
        Some(m) => match chat_command(m.1) {
            Some(c) => Incoming::Chat { name: m.0, prefix: c.0, command: c.1 },
            None => Incoming::Ignored,
        },
        None => if twitch_command(line) == Command::Stop {
            Incoming::Stopped
        } else if is_ping(line) {
            Incoming::Reply(pong_line())
        } else {
            Incoming::Ignored
        },
    }
}

/// The seconds that pass between two saves, at least.
pub const SAVE_INTERVAL: u64 = 300;

/// Whether the players are to be saved: the last save is longer ago than the
/// interval.
pub open spec fn save_due(last_save: u64, now: u64) -> bool {
    last_save + SAVE_INTERVAL < now
}

/// The reading side of the bot.
pub struct Reader {
    /// When the players were last saved, in seconds.
    pub last_save: u64,
}

impl Reader {
    pub fn new() -> (r: Reader)
        ensures
            r.last_save == 0,
    {
        Reader { last_save: 0 }
    }

    /// Takes a line that came in at `now`. The first result tells whether to
    /// save the players before anything else.
    pub fn receive(&mut self, line: &str, now: u64) -> (r: (bool, Incoming<String, IRCMessage>))
        requires
            old(self).last_save <= u64::MAX - SAVE_INTERVAL,
        ensures
            r.0 == save_due(old(self).last_save, now),
            final(self).last_save == if r.0 {
                now
            } else {
                old(self).last_save
            },
            r.1@ == meaning(line@),
    {
        let save = self.last_save + SAVE_INTERVAL < now;
        if save {
            self.last_save = now;
        }
        let incoming = match split_privmsg(line) {
            Some((name, message)) => match split_chat(message.as_str()) {
                Some((prefix, command)) => Incoming::Chat { name, prefix, command },
                None => Incoming::Ignored,
            },
            None => match handle_twitch(line) {
                (Command::Stop, _) => Incoming::Stopped,
                (Command::Continue, Some(reply)) => Incoming::Reply(reply),
                (Command::Continue, None) => Incoming::Ignored,
            },
        };
        (save, incoming)
    }
}

/// Why the bot stops reading.
#[derive(Clone, Copy, Debug, PartialEq, Eq, Structural)]
pub enum End {
    /// The server has closed the connection.
    Twitch,
    /// A viewer has told the bot to stop.
    Command,
}

impl End {
    /// What the bot reports when it has stopped.
    pub open spec fn text(self) -> Text {
        match self {
            End::Twitch => "Stopped due to twitch."@,
            End::Command => "Received stop command."@,
        }
    }

    /// Tells what the bot reports when it has stopped.
    pub fn words(self) -> (r: &'static str)
        ensures
            r@ == self.text(),
    {
        match self {
            End::Twitch => "Stopped due to twitch.",
            End::Command => "Received stop command.",
        }
    }
}

/// What a round of reading has brought, if it has brought a line.
pub open spec fn heard_view(heard: Option<Incoming<String, IRCMessage>>) -> Option<
    Incoming<Text, Text>,
> {
    match heard {
        Some(incoming) => Some(incoming@),
        None => None,
    }
}

/// Why reading ends after a round, if it does. A round that has failed to read a
/// line has heard nothing; `turn` is how the turn of a chat message has ended.
pub open spec fn ending(heard: Option<Incoming<Text, Text>>, turn: Command) -> Option<End> {
    match heard {
        Some(Incoming::Stopped) => Some(End::Twitch),
        Some(Incoming::Chat { .. }) => if turn == Command::Stop {
            Some(End::Command)
        } else {
            None
        },
        _ => None,
    }
}

/// Finds out whether reading ends after a round, and why.
pub fn find_end(heard: &Option<Incoming<String, IRCMessage>>, turn: Command) -> (r: Option<End>)
    ensures
        r == ending(heard_view(*heard), turn),
{
    match heard {
        Some(Incoming::Stopped) => Some(End::Twitch),
        Some(Incoming::Chat { .. }) => match turn {
            Command::Stop => Some(End::Command),
            Command::Continue => None,
        },
        _ => None,
    }
}

/// A round of reading.
pub enum Round {
    /// No line could be read.
    Failed,
    /// A line was read; `turn` is how the turn of its chat message ended, if it
    /// was one.
    Line { line: Text, turn: Command },
}

/// Why reading ends after a round, if it does.
pub open spec fn round_end(round: Round) -> Option<End> {
    match round {
        Round::Failed => ending(None, Command::Continue),
        Round::Line { line, turn } => ending(Some(meaning(line)), turn),
    }
}

/// The round after which reading ends, from round `i` on, and why.
pub open spec fn reading_from(rounds: Seq<Round>, i: int) -> Option<(int, End)>
    decreases rounds.len() - i,
{
    if i >= rounds.len() {
        None
    } else {
        match round_end(rounds[i]) {
            Some(end) => Some((i, end)),
            None => reading_from(rounds, i + 1),
        }
    }
}

/// The round after which reading ends, and why: the first that ends it.
pub open spec fn reading(rounds: Seq<Round>) -> Option<(int, End)> {
    reading_from(rounds, 0)
}

/// A round brings a chat message whose turn stops the bot.
pub open spec fn is_stop_command(round: Round) -> bool {
    round matches Round::Line { line, turn } && privmsg(line) is Some && turn == Command::Stop
}

/// A round brings a blank line that is no private message.
pub open spec fn is_blank_line(round: Round) -> bool {
    round matches Round::Line { line, .. } && privmsg(line) is None && trimmed(line).len() == 0
}

/// A line means that the connection is over just if it is no private message
/// and blank.
pub proof fn law_blank_lines_stop(line: Text)
    ensures
        meaning(line) is Stopped <==> privmsg(line) is None && trimmed(line).len() == 0,
{
}

/// A round ends reading just if it brings a command to stop, which is then
/// reported, or a blank line that is no private message, which is then reported.
/// A round that fails to read a line does not.
pub proof fn law_rounds_end_reading(round: Round)
    ensures
        round_end(round) == Some(End::Command) <==> is_stop_command(round),
        round_end(round) == Some(End::Twitch) <==> is_blank_line(round),
        round is Failed ==> round_end(round) is None,
{
    match round {
        Round::Line { line, .. } => if privmsg(line) is Some {
            law_privmsg_always_splits(line);
        },
        Round::Failed => {},
    }
}

proof fn lemma_reading_from(rounds: Seq<Round>, i: int)
    requires
        0 <= i <= rounds.len(),
    ensures
        match reading_from(rounds, i) {
            Some((last, end)) => i <= last < rounds.len() && round_end(rounds[last]) == Some(end)
                && forall|k: int| i <= k < last ==> round_end(#[trigger] rounds[k]) is None,
            None => forall|k: int|
                i <= k < rounds.len() ==> round_end(#[trigger] rounds[k]) is None,
        },
    decreases rounds.len() - i,
{
    if i < rounds.len() && round_end(rounds[i]) is None {
        lemma_reading_from(rounds, i + 1);
    }
}

/// Reading goes on until a command to stop or a blank line that is no private
/// message. Whichever comes first is the last thing read, and the words that the
/// bot reports tell which of the two it was. A failure to read a line never ends
/// it.
pub proof fn law_reading_ends_with_its_reason(rounds: Seq<Round>)
    ensures
        match reading(rounds) {
            Some((last, end)) => {
                &&& 0 <= last < rounds.len()
                &&& rounds[last] is Line
                &&& end.text() == "Received stop command."@ <==> is_stop_command(rounds[last])
                &&& end.text() == "Stopped due to twitch."@ <==> is_blank_line(rounds[last])
                &&& is_stop_command(rounds[last]) || is_blank_line(rounds[last])
                &&& forall|k: int|
                    0 <= k < last ==> !is_stop_command(#[trigger] rounds[k]) && !is_blank_line(
                        rounds[k],
                    )
            },
            None => forall|k: int|
                0 <= k < rounds.len() ==> !is_stop_command(#[trigger] rounds[k]) && !is_blank_line(
                    rounds[k],
                ),
        },
{
    lemma_reading_from(rounds, 0);
    assert forall|k: int| 0 <= k < rounds.len() implies {
        &&& round_end(#[trigger] rounds[k]) == Some(End::Command) <==> is_stop_command(rounds[k])
        &&& round_end(rounds[k]) == Some(End::Twitch) <==> is_blank_line(rounds[k])
    } by {
        law_rounds_end_reading(rounds[k]);
    }
    reveal_strlit("Received stop command.");
    reveal_strlit("Stopped due to twitch.");
    assert("Received stop command."@[0] != "Stopped due to twitch."@[0]);
}

/// Saves are at least the interval apart: after one at `first`, no line makes
/// another until more than that has passed.
pub proof fn law_saves_keep_their_distance(last_save: u64, first: u64, second: u64)
    requires
        save_due(last_save, first),
        save_due(first, second),
    ensures
        second - first > SAVE_INTERVAL,
{
}

/// Whatever a viewer says reaches the bot as a chat message of that viewer: no
/// private message is ignored.
pub proof fn law_private_messages_are_heard(line: Text)
    requires
        privmsg(line) is Some,
    ensures
        meaning(line) matches Incoming::Chat { name, .. } && name == (privmsg(line)->0).0,
{
    law_privmsg_always_splits(line);
}

/// A line that carries a viewer's message means just that: the viewer's name,
/// and the message split into address and command line.
pub proof fn law_chat_is_attributed_to_its_sender(
    sender: Text,
    login: Text,
    host: Text,
    channel: Text,
    message: Text,
    tail: Text,
)
    requires
        all_words(sender),
        all_words(login),
        all_words(host),
        all_words(channel),
        !message.contains('\n'),
        message.len() > 0 ==> !is_space(message[0]),
        message.len() == 0 ==> all_space(tail),
        tail.len() > 0 ==> tail[0] == '\n',
    ensures
        chat_command(message) matches Some(c) && meaning(
            privmsg_line(sender, login, host, channel, message, tail),
        ) == (Incoming::<Text, Text>::Chat { name: sender, prefix: c.0, command: c.1 }),
{
    law_privmsg_is_read_back(sender, login, host, channel, message, tail);
    law_privmsg_always_splits(privmsg_line(sender, login, host, channel, message, tail));
}

/// What lines mean that are no private messages: a ping, with white space around
/// it, wants its pong; any other line that is not blank means nothing.
pub proof fn law_other_lines(line: Text, before: Text, after: Text)
    requires
        privmsg(line) is None,
    ensures
        padded(line, before, "PING :tmi.twitch.tv"@, after) ==> meaning(line)
            == Incoming::<Text, Text>::Reply("PONG :tmi.twitch.tv\r\n"@),
        !all_space(line) && trimmed(line) != "PING :tmi.twitch.tv"@ ==> meaning(line) is Ignored,
{
    law_blank_lines_end_the_connection(line);
    law_pings(line, before, after);
    reveal_strlit("PING :tmi.twitch.tv");
    if padded(line, before, "PING :tmi.twitch.tv"@, after) {
        assert(line[before.len() as int] == "PING :tmi.twitch.tv"@[0]);
    }
}

/// Players are saved when more than 300 seconds have passed since the last time.
pub proof fn law_when_players_are_saved(last_save: u64, now: u64)
    ensures
        save_due(last_save, now) <==> now - last_save > 300,
{
}

/// What a contract sees of a line's meaning is the meaning.
pub proof fn law_lines_are_seen_as_they_are(incoming: Incoming<String, IRCMessage>)
    ensures
        match (incoming, incoming@) {
            (Incoming::Stopped, Incoming::Stopped) => true,
            (Incoming::Ignored, Incoming::Ignored) => true,
            (Incoming::Reply(reply), Incoming::Reply(seen)) => seen == reply.0@,
            (
                Incoming::Chat { name, prefix, command },
                Incoming::Chat { name: a, prefix: b, command: c },
            ) => a == name@ && b == prefix@ && c == command@,
            _ => false,
        },
{
}

} // verus!
