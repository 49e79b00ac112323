//! The three line formats of the bot: a private message as the server sends
//! it, a chat message as a viewer types it, and the definition of a command.
//! Each is a regular expression; what it finds in a text is stated here as a
//! function on the text.
use crate::text::{
    all_space, is_space, law_trim_is_final, law_trim_takes_space_alone, occurs, padded, stands_at,
    trim_end, trim_start, trimmed, Text,
};
use vstd::prelude::*;

verus! {

/// A private message: who sent it, and what it says.
pub const PRIV_RE: &'static str = r":(\w*)!\w*@\w*\.tmi\.twitch\.tv PRIVMSG #\w* :\s*(.*)";

/// A chat message: what addresses the bot, and the command line.
pub const COMMAND_RE: &'static str = r"^(bot |folder |[^\s\w]|)\s*(.*?)\s*$";

/// The definition of a command: its prefix, its name, and its response.
pub const DEFINITION_RE: &'static str = r"^([^\s\w]?)(.*?)\s+(.+)$";

/// Whether the class `\w` of the `regex` crate holds `c`, for a `c` outside
/// ASCII. The class is Unicode's `Alphabetic`, `M`, `Nd`, `Pc` and
/// `Join_Control` together; `captures` shows it on a chat message of one
/// character, which addresses the bot unless it is a word character.
pub uninterp spec fn unicode_word(c: char) -> bool;

pub open spec fn is_ascii(c: char) -> bool {
    (c as int) < 0x80
}

/// The word characters: letters, digits and the underscore, and what Unicode
/// counts among them.
pub open spec fn is_word(c: char) -> bool {
    if is_ascii(c) {
        'a' <= c <= 'z' || 'A' <= c <= 'Z' || '0' <= c <= '9' || c == '_'
    } else {
        unicode_word(c)
    }
}

/// Where the run of word characters ends that starts at `i`.
pub open spec fn word_end(s: Text, i: int) -> int
    decreases s.len() - i,
{
    if 0 <= i < s.len() && is_word(s[i]) {
        word_end(s, i + 1)
    } else {
        i
    }
}

/// Where the run of white space ends that starts at `i`.
pub open spec fn space_end(s: Text, i: int) -> int
    decreases s.len() - i,
{
    if 0 <= i < s.len() && is_space(s[i]) {
        space_end(s, i + 1)
    } else {
        i
    }
}

/// Where the line ends that `i` stands in.
pub open spec fn line_end(s: Text, i: int) -> int
    decreases s.len() - i,
{
    if 0 <= i < s.len() && s[i] != '\n' {
        line_end(s, i + 1)
    } else {
        i
    }
}

/// The sender and the text of the private message that starts at `i`:
/// `:sender!word@word.tmi.twitch.tv PRIVMSG #word :text`. The text is the rest
/// of the line, without leading white space.
pub open spec fn privmsg_at(s: Text, i: int) -> Option<(Text, Text)> {
    let sender = i + 1;
    let login = word_end(s, sender);
    let host = word_end(s, login + 1);
    let verb = word_end(s, host + 1);
    let channel = verb + ".tmi.twitch.tv PRIVMSG #"@.len();
    let colon = word_end(s, channel);
    let start = space_end(s, colon + " :"@.len());
    if stands_at(s, i, ":"@) && stands_at(s, login, "!"@) && stands_at(s, host, "@"@) && stands_at(
        s,
        verb,
        ".tmi.twitch.tv PRIVMSG #"@,
    ) && stands_at(s, colon, " :"@) {
        Some((s.subrange(sender, login), s.subrange(start, line_end(s, start))))
    } else {
        None
    }
}

/// The first private message in `s` that starts at `i` or later.
pub open spec fn privmsg_from(s: Text, i: int) -> Option<(Text, Text)>
    decreases s.len() - i,
{
    if i >= s.len() {
        None
    } else if privmsg_at(s, i) is Some {
        privmsg_at(s, i)
    } else {
        privmsg_from(s, i + 1)
    }
}

/// The sender and the text of the first private message in `s`.
pub open spec fn privmsg(s: Text) -> Option<(Text, Text)> {
    privmsg_from(s, 0)
}

/// Whether `s` starts with a mark: neither white space nor a word character.
pub open spec fn starts_with_mark(s: Text) -> bool {
    s.len() > 0 && !is_space(s[0]) && !is_word(s[0])
}

/// How much of a chat message addresses the bot.
pub open spec fn address_len(s: Text) -> int {
    if stands_at(s, 0, "bot "@) {
        "bot "@.len() as int
    } else if stands_at(s, 0, "folder "@) {
        "folder "@.len() as int
    } else if starts_with_mark(s) {
        1
    } else {
        0
    }
}

/// What addresses the bot in a chat message, and the command line after it,
/// trimmed. There is none if the command line would hold a line break.
pub open spec fn chat_command(s: Text) -> Option<(Text, Text)> {
    let n = address_len(s);
    let line = trimmed(s.skip(n));
    if line.contains('\n') {
        None
    } else {
        Some((s.take(n), line))
    }
}

/// The mark at the start of a definition, if any.
pub open spec fn mark_len(s: Text) -> int {
    if starts_with_mark(s) {
        1
    } else {
        0
    }
}

/// Where the response starts in a definition whose name ends at `j`: after the
/// white space there, which leaves at least one character.
pub open spec fn response_start(s: Text, j: int) -> int {
    let e = space_end(s, j);
    if e < s.len() {
        e
    } else {
        s.len() - 1
    }
}

/// The name of a definition can end at `j`: white space separates it from a
/// response, which runs to the end of the text on one line.
pub open spec fn name_ends(s: Text, j: int) -> bool {
    let e = response_start(s, j);
    j < e && !s.skip(e).contains('\n')
}

/// The first place at `j` or later where the name of a definition can end. A
/// name has no line break.
pub open spec fn name_end(s: Text, j: int) -> Option<int>
    decreases s.len() - j,
{
    if name_ends(s, j) {
        Some(j)
    } else if 0 <= j < s.len() && s[j] != '\n' {
        name_end(s, j + 1)
    } else {
        None
    }
}

/// The prefix, the name and the response of the command that `s` defines. The
/// name is as short as can be.
pub open spec fn definition(s: Text) -> Option<(Text, Text, Text)> {
    let n = mark_len(s);
    match name_end(s, n) {
        Some(j) => Some((s.take(n), s.subrange(n, j), s.skip(response_start(s, j)))),
        None => None,
    }
}

/// `r` holds the groups `g`, after a first element for the match as a whole;
/// it is `None` if `g` is.
pub open spec fn has_groups(r: Option<Vec<Option<String>>>, g: Option<Seq<Text>>) -> bool {
    match (r, g) {
        (Some(v), Some(g)) => v.len() == g.len() + 1 && forall|i: int|
            1 <= i < v.len() ==> (#[trigger] v[i] matches Some(t) && t@ == g[i - 1]),
        (None, None) => true,
        _ => false,
    }
}

/// The groups of a private message.
pub open spec fn privmsg_groups(s: Text) -> Option<Seq<Text>> {
    match privmsg(s) {
        Some(m) => Some(seq![m.0, m.1]),
        None => None,
    }
}

/// The groups of a chat message.
pub open spec fn chat_groups(s: Text) -> Option<Seq<Text>> {
    match chat_command(s) {
        Some(m) => Some(seq![m.0, m.1]),
        None => None,
    }
}

/// The groups of a definition.
pub open spec fn definition_groups(s: Text) -> Option<Seq<Text>> {
    match definition(s) {
        Some(m) => Some(seq![m.0, m.1, m.2]),
        None => None,
    }
}

/// The groups that `regex::Regex::captures` finds in `text`, for each of the
/// three patterns above, which `regex::Regex::new` accepts. A match is the
/// leftmost one; among those that start at one place, the crate prefers the
/// earlier alternative, the longer greedy repetition and the shorter lazy one,
/// with white space (`\s`) as in `is_space`, word characters (`\w`) as in
/// `is_word`, `.` for all but a line feed, and `^` and `$` for the two ends of
/// the text. Every group of the three takes part in every match. Nothing is
/// said of the match as a whole. The pattern is compiled anew for each text,
/// which is fast enough for lines that people type.
#[verifier::external_body]
fn captures(pattern: &str, text: &str) -> (r: Option<Vec<Option<String>>>)
    requires
        pattern@ == PRIV_RE@ || pattern@ == COMMAND_RE@ || pattern@ == DEFINITION_RE@,
    ensures
        pattern@ == PRIV_RE@ ==> has_groups(r, privmsg_groups(text@)),
        pattern@ == COMMAND_RE@ ==> has_groups(r, chat_groups(text@)),
        pattern@ == DEFINITION_RE@ ==> has_groups(r, definition_groups(text@)),
        pattern@ == COMMAND_RE@ && text@.len() == 1 && !is_ascii(text@[0]) && !is_space(text@[0])
            ==> unicode_word(text@[0]) == (r->0[1]->0@.len() == 0),
{
    let found = regex::Regex::new(pattern).unwrap().captures(text)?;
    Some(found.iter().map(|group| group.map(|m| m.as_str().to_string())).collect())
}

/// The text of group `i`.
pub fn str_at(groups: &Vec<Option<String>>, i: usize) -> (r: String)
    requires
        i < groups.len(),
        groups[i as int] is Some,
    ensures
        groups[i as int] == Some(r),
{
    match &groups[i] {
        Some(s) => s.clone(),
        None => String::new(),
    }
}

/// Finds the sender and the text of a private message in a line from the
/// server.
pub fn split_privmsg(line: &str) -> (r: Option<(String, String)>)
    ensures
        match r {
            Some(m) => privmsg(line@) == Some((m.0@, m.1@)),
            None => privmsg(line@) is None,
        },
{
    match captures(PRIV_RE, line) {
        Some(groups) => Some((str_at(&groups, 1), str_at(&groups, 2))),
        None => None,
    }
}

/// Splits a chat message into what addresses the bot and the command line.
pub fn split_chat(message: &str) -> (r: Option<(String, String)>)
    ensures
        match r {
            Some(m) => chat_command(message@) == Some((m.0@, m.1@)),
            None => chat_command(message@) is None,
        },
{
    match captures(COMMAND_RE, message) {
        Some(groups) => Some((str_at(&groups, 1), str_at(&groups, 2))),
        None => None,
    }
}

/// Splits the definition of a command into prefix, name and response.
pub fn split_definition(args: &str) -> (r: Option<(String, String, String)>)
    ensures
        match r {
            Some(m) => definition(args@) == Some((m.0@, m.1@, m.2@)),
            None => definition(args@) is None,
        },
{
    match captures(DEFINITION_RE, args) {
        Some(groups) => Some((str_at(&groups, 1), str_at(&groups, 2), str_at(&groups, 3))),
        None => None,
    }
}

/// Every character of `s` is a word character.
pub open spec fn all_words(s: Text) -> bool {
    forall|i: int| 0 <= i < s.len() ==> is_word(#[trigger] s[i])
}

/// A line from the server that carries a private message.
pub open spec fn privmsg_line(
    sender: Text,
    login: Text,
    host: Text,
    channel: Text,
    message: Text,
    tail: Text,
) -> Text {
    ":"@ + sender + "!"@ + login + "@"@ + host + ".tmi.twitch.tv PRIVMSG #"@ + channel + " :"@
        + message + tail
}

proof fn lemma_word_end(s: Text, i: int, j: int)
    requires
        0 <= i <= j <= s.len(),
        forall|k: int| i <= k < j ==> is_word(#[trigger] s[k]),
        j == s.len() || !is_word(s[j]),
    ensures
        word_end(s, i) == j,
    decreases j - i,
{
    if i < j {
        assert(is_word(s[i]));
        lemma_word_end(s, i + 1, j);
    }
}

proof fn lemma_space_end(s: Text, i: int, j: int)
    requires
        0 <= i <= j <= s.len(),
        forall|k: int| i <= k < j ==> is_space(#[trigger] s[k]),
        j == s.len() || !is_space(s[j]),
    ensures
        space_end(s, i) == j,
    decreases j - i,
{
    if i < j {
        assert(is_space(s[i]));
        lemma_space_end(s, i + 1, j);
    }
}

proof fn lemma_line_end(s: Text, i: int, j: int)
    requires
        0 <= i <= j <= s.len(),
        forall|k: int| i <= k < j ==> #[trigger] s[k] != '\n',
        j == s.len() || s[j] == '\n',
    ensures
        line_end(s, i) == j,
    decreases j - i,
{
    if i < j {
        assert(s[i] != '\n');
        lemma_line_end(s, i + 1, j);
    }
}

proof fn lemma_space_end_bounds(s: Text, i: int)
    requires
        0 <= i <= s.len(),
    ensures
        i <= space_end(s, i) <= s.len(),
        forall|k: int| i <= k < space_end(s, i) ==> is_space(#[trigger] s[k]),
        space_end(s, i) < s.len() ==> !is_space(s[space_end(s, i)]),
    decreases s.len() - i,
{
    if i < s.len() && is_space(s[i]) {
        lemma_space_end_bounds(s, i + 1);
    }
}

proof fn lemma_line_end_bounds(s: Text, i: int)
    requires
        0 <= i <= s.len(),
    ensures
        i <= line_end(s, i) <= s.len(),
        forall|k: int| i <= k < line_end(s, i) ==> #[trigger] s[k] != '\n',
    decreases s.len() - i,
{
    if i < s.len() && s[i] != '\n' {
        lemma_line_end_bounds(s, i + 1);
    }
}

/// Where a part of a text stands, with the text put together from the left or
/// from the right.
proof fn lemma_part(before: Text, part: Text, after: Text)
    ensures
        stands_at(before + part + after, before.len() as int, part),
        before + part + after == before + (part + after),
{
    let s = before + part + after;
    assert(s.subrange(before.len() as int, (before.len() + part.len()) as int) =~= part);
    assert(s =~= before + (part + after));
}

/// The run of word characters that a part of a text is.
proof fn lemma_word_part(s: Text, i: int, part: Text, stop: Text)
    requires
        stands_at(s, i, part),
        stands_at(s, i + part.len(), stop),
        all_words(part),
        stop.len() > 0,
        !is_word(stop[0]),
    ensures
        word_end(s, i) == i + part.len(),
{
    let j = i + part.len();
    assert forall|k: int| i <= k < j implies is_word(#[trigger] s[k]) by {
        assert(s[k] == s.subrange(i, j)[k - i]);
        assert(is_word(part[k - i]));
    }
    assert(s[j] == s.subrange(j, j + stop.len())[0]);
    lemma_word_end(s, i, j);
}

/// The text of a private message, where it stands.
proof fn lemma_message_part(s: Text, i: int, message: Text, tail: Text)
    requires
        stands_at(s, i, message),
        stands_at(s, i + message.len(), tail),
        i + message.len() + tail.len() == s.len(),
        !message.contains('\n'),
        message.len() > 0 ==> !is_space(message[0]),
        message.len() == 0 ==> all_space(tail),
        tail.len() > 0 ==> tail[0] == '\n',
    ensures
        s.subrange(space_end(s, i), line_end(s, space_end(s, i))) == message,
{
    let j = i + message.len();
    let n = s.len() as int;
    if message.len() > 0 {
        assert(s[i] == s.subrange(i, j)[0]);
        assert forall|k: int| i <= k < j implies #[trigger] s[k] != '\n' by {
            assert(s[k] == s.subrange(i, j)[k - i]);
            assert(message.contains(message[k - i]));
        }
        if tail.len() > 0 {
            assert(s[j] == s.subrange(j, n)[0]);
        }
        lemma_line_end(s, i, j);
    } else {
        assert forall|k: int| i <= k < n implies is_space(#[trigger] s[k]) by {
            assert(s[k] == s.subrange(j, n)[k - j]);
            assert(is_space(tail[k - j]));
        }
        lemma_space_end(s, i, n);
        assert(s.subrange(n, n) =~= message);
    }
}

/// A private message is found at the start of a text that has all its parts.
proof fn lemma_privmsg_parts(
    s: Text,
    sender: Text,
    login: Text,
    host: Text,
    channel: Text,
    message: Text,
    tail: Text,
)
    requires
        all_words(sender),
        all_words(login),
        all_words(host),
        all_words(channel),
        !message.contains('\n'),
        message.len() > 0 ==> !is_space(message[0]),
        message.len() == 0 ==> all_space(tail),
        tail.len() > 0 ==> tail[0] == '\n',
        ({
            let a: int = 1int + sender.len();
            let b: int = a + 1 + login.len();
            let c: int = b + 1 + host.len();
            let d: int = c + ".tmi.twitch.tv PRIVMSG #"@.len();
            let e: int = d + channel.len();
            let f: int = e + " :"@.len();
            &&& stands_at(s, 0, ":"@)
            &&& stands_at(s, 1, sender)
            &&& stands_at(s, a, "!"@)
            &&& stands_at(s, a + 1, login)
            &&& stands_at(s, b, "@"@)
            &&& stands_at(s, b + 1, host)
            &&& stands_at(s, c, ".tmi.twitch.tv PRIVMSG #"@)
            &&& stands_at(s, d, channel)
            &&& stands_at(s, e, " :"@)
            &&& stands_at(s, f, message)
            &&& stands_at(s, f + message.len(), tail)
            &&& s.len() == f + message.len() + tail.len()
        }),
    ensures
        privmsg(s) == Some((sender, message)),
{
    reveal_strlit(":");
    reveal_strlit("!");
    reveal_strlit("@");
    reveal_strlit(".tmi.twitch.tv PRIVMSG #");
    reveal_strlit(" :");
    let a: int = 1int + sender.len();
    let b: int = a + 1 + login.len();
    let c: int = b + 1 + host.len();
    let d: int = c + ".tmi.twitch.tv PRIVMSG #"@.len();
    let e: int = d + channel.len();
    let f: int = e + " :"@.len();
    lemma_word_part(s, 1, sender, "!"@);
    lemma_word_part(s, a + 1, login, "@"@);
    lemma_word_part(s, b + 1, host, ".tmi.twitch.tv PRIVMSG #"@);
    lemma_word_part(s, d, channel, " :"@);
    lemma_message_part(s, f, message, tail);
    assert(privmsg_at(s, 0) == Some((sender, message)));
}

/// A private message is read back as it was sent: the sender and the text of a
/// well-formed line are found in it. White space at the start of the text is
/// not part of it, so the text does not start with any; an empty text is found
/// where nothing but white space follows.
pub proof fn law_privmsg_is_read_back(
    sender: Text,
    login: Text,
    host: Text,
    channel: Text,
    message: Text,
    tail: Text,
)
    requires
        all_words(sender),
        all_words(login),
        all_words(host),
        all_words(channel),
        !message.contains('\n'),
        message.len() > 0 ==> !is_space(message[0]),
        message.len() == 0 ==> all_space(tail),
        tail.len() > 0 ==> tail[0] == '\n',
    ensures
        privmsg(privmsg_line(sender, login, host, channel, message, tail)) == Some(
            (sender, message),
        ),
{
    let s = privmsg_line(sender, login, host, channel, message, tail);
    let verb = ".tmi.twitch.tv PRIVMSG #"@;
    let none = Seq::<char>::empty();
    let p1 = none + ":"@;
    let p2 = p1 + sender;
    let p3 = p2 + "!"@;
    let p4 = p3 + login;
    let p5 = p4 + "@"@;
    let p6 = p5 + host;
    let p7 = p6 + verb;
    let p8 = p7 + channel;
    let p9 = p8 + " :"@;
    let p10 = p9 + message;
    let r10 = tail + none;
    let r9 = message + r10;
    let r8 = " :"@ + r9;
    let r7 = channel + r8;
    let r6 = verb + r7;
    let r5 = host + r6;
    let r4 = "@"@ + r5;
    let r3 = login + r4;
    let r2 = "!"@ + r3;
    let r1 = sender + r2;
    assert(none + ":"@ =~= ":"@);
    assert(s == p10 + tail);
    assert(p10 + tail + none =~= p10 + tail);
    lemma_part(p10, tail, none);
    lemma_part(p9, message, r10);
    lemma_part(p8, " :"@, r9);
    lemma_part(p7, channel, r8);
    lemma_part(p6, verb, r7);
    lemma_part(p5, host, r6);
    lemma_part(p4, "@"@, r5);
    lemma_part(p3, login, r4);
    lemma_part(p2, "!"@, r3);
    lemma_part(p1, sender, r2);
    lemma_part(none, ":"@, r1);
    reveal_strlit(":");
    reveal_strlit("!");
    reveal_strlit("@");
    lemma_privmsg_parts(s, sender, login, host, channel, message, tail);
}

proof fn lemma_privmsg_from_one_line(s: Text, i: int)
    requires
        0 <= i,
        privmsg_from(s, i) is Some,
    ensures
        !(privmsg_from(s, i)->0).1.contains('\n'),
    decreases s.len() - i,
{
    if privmsg_at(s, i) is Some {
        let login = word_end(s, i + 1);
        let host = word_end(s, login + 1);
        let verb = word_end(s, host + 1);
        let colon = word_end(s, verb + ".tmi.twitch.tv PRIVMSG #"@.len());
        let text = colon + " :"@.len();
        lemma_space_end_bounds(s, text);
        lemma_line_end_bounds(s, space_end(s, text));
    } else {
        lemma_privmsg_from_one_line(s, i + 1);
    }
}

proof fn lemma_trim_start_part(s: Text, c: char)
    requires
        trim_start(s).contains(c),
    ensures
        s.contains(c),
    decreases s.len(),
{
    if s.len() > 0 && is_space(s[0]) {
        lemma_trim_start_part(s.skip(1), c);
        let k = choose|k: int| 0 <= k < s.skip(1).len() && s.skip(1)[k] == c;
        assert(s[k + 1] == c);
    }
}

proof fn lemma_trim_end_part(s: Text, c: char)
    requires
        trim_end(s).contains(c),
    ensures
        s.contains(c),
    decreases s.len(),
{
    if s.len() > 0 && is_space(s.last()) {
        lemma_trim_end_part(s.drop_last(), c);
        let k = choose|k: int| 0 <= k < s.drop_last().len() && s.drop_last()[k] == c;
        assert(s[k] == c);
    }
}

/// Every private message holds a chat message: its text is one line, which
/// always splits into an address and a command line.
pub proof fn law_privmsg_always_splits(line: Text)
    requires
        privmsg(line) is Some,
    ensures
        chat_command((privmsg(line)->0).1) is Some,
{
    lemma_privmsg_from_one_line(line, 0);
    let s = (privmsg(line)->0).1;
    let rest = s.skip(address_len(s));
    if trimmed(rest).contains('\n') {
        lemma_trim_end_part(trim_start(rest), '\n');
        lemma_trim_start_part(rest, '\n');
        reveal_strlit("bot ");
        reveal_strlit("folder ");
        let k = choose|k: int| 0 <= k < rest.len() && rest[k] == '\n';
        assert(s[k + address_len(s)] == '\n');
    }
}

/// A command line has no white space at either end, so splitting it again
/// trims nothing; the bot is addressed by `bot `, by `folder `, by one mark, or
/// not at all.
pub proof fn law_chat_command_shape(s: Text)
    requires
        chat_command(s) is Some,
    ensures
        trimmed((chat_command(s)->0).1) == (chat_command(s)->0).1,
        ({
            let address = (chat_command(s)->0).0;
            ||| address == "bot "@
            ||| address == "folder "@
            ||| address.len() == 1 && starts_with_mark(address)
            ||| address.len() == 0
        }),
{
    let n = address_len(s);
    law_trim_is_final(s.skip(n));
    if stands_at(s, 0, "bot "@) || stands_at(s, 0, "folder "@) {
        assert(s.subrange(0, n) =~= s.take(n));
    }
}

/// A chat message is what addresses the bot, white space, the command line, and
/// white space: splitting loses nothing else.
pub proof fn law_chat_command_recomposes(s: Text)
    requires
        chat_command(s) is Some,
    ensures
        exists|rest: Text, before: Text, after: Text|
            s == (chat_command(s)->0).0 + rest && #[trigger] padded(
                rest,
                before,
                (chat_command(s)->0).1,
                after,
            ),
{
    let n = address_len(s);
    let rest = s.skip(n);
    law_trim_takes_space_alone(rest);
    let (before, after) = choose|before: Text, after: Text| #[trigger]
        padded(rest, before, trimmed(rest), after);
    assert(s =~= s.take(n) + rest);
    assert(padded(rest, before, (chat_command(s)->0).1, after));
}

/// A definition is read back as it was written: a mark or none, a name without
/// white space, white space, and a response on one line that starts with
/// something else. Without a mark the name must not start with one, or it would
/// be taken for the prefix.
pub proof fn law_definition_is_read_back(mark: Text, name: Text, space: Text, response: Text)
    requires
        mark.len() == 0 || mark.len() == 1 && starts_with_mark(mark),
        mark.len() == 0 ==> !starts_with_mark(name),
        forall|i: int| 0 <= i < name.len() ==> !is_space(#[trigger] name[i]),
        space.len() > 0,
        all_space(space),
        response.len() > 0,
        !is_space(response[0]),
        !response.contains('\n'),
    ensures
        definition(mark + name + space + response) == Some((mark, name, response)),
{
    let s = mark + name + space + response;
    let n = mark.len() as int;
    let j = n + name.len();
    let e = j + space.len();
    if mark.len() == 1 {
        assert(s[0] == mark[0]);
    } else if name.len() > 0 {
        assert(s[0] == name[0]);
    } else {
        assert(s[0] == space[0]);
    }
    assert(mark_len(s) == n);
    assert forall|k: int| j <= k < e implies is_space(#[trigger] s[k]) by {
        assert(s[k] == space[k - j]);
    }
    assert(s[e] == response[0]);
    lemma_space_end(s, j, e);
    assert(s.skip(e) =~= response);
    assert forall|k: int| n <= k < j implies !is_space(#[trigger] s[k]) by {
        assert(s[k] == name[k - n]);
    }
    lemma_name_end(s, n, j);
    assert(s.take(n) =~= mark);
    assert(s.subrange(n, j) =~= name);
}

proof fn lemma_name_end(s: Text, i: int, j: int)
    requires
        0 <= i <= j < s.len(),
        forall|k: int| i <= k < j ==> !is_space(#[trigger] s[k]),
        name_ends(s, j),
    ensures
        name_end(s, i) == Some(j),
    decreases j - i,
{
    if i < j {
        assert(!is_space(s[i]));
        assert(space_end(s, i) == i);
        lemma_name_end(s, i + 1, j);
    }
}

/// The word characters of ASCII: digits, capital letters, the underscore, and
/// small letters.
pub proof fn law_ascii_words(c: char)
    requires
        (c as int) < 0x80,
    ensures
        is_word(c) <==> 48 <= c as int <= 57 || 65 <= c as int <= 90 || c as int == 95 || 97
            <= c as int <= 122,
{
}

/// The ways to address the bot: `bot `, `folder `, one mark, or nothing. What
/// follows is the command line, without white space around it.
pub proof fn law_ways_to_address_the_bot(rest: Text, mark: char)
    requires
        !rest.contains('\n'),
        !is_space(mark),
        !is_word(mark),
    ensures
        chat_command("bot "@ + rest) == Some(("bot "@, trimmed(rest))),
        chat_command("folder "@ + rest) == Some(("folder "@, trimmed(rest))),
        chat_command(seq![mark] + rest) == Some((seq![mark], trimmed(rest))),
        !starts_with_mark(rest) && !stands_at(rest, 0, "bot "@) && !stands_at(rest, 0, "folder "@)
            ==> chat_command(rest) == Some((Seq::<char>::empty(), trimmed(rest))),
{
    reveal_strlit("bot ");
    reveal_strlit("folder ");
    if trimmed(rest).contains('\n') {
        lemma_trim_end_part(trim_start(rest), '\n');
        lemma_trim_start_part(rest, '\n');
    }
    let s1 = "bot "@ + rest;
    assert(s1.subrange(0, 4) =~= "bot "@);
    assert(s1.take(4) =~= "bot "@);
    assert(s1.skip(4) =~= rest);
    let s2 = "folder "@ + rest;
    assert(s2.subrange(0, 7) =~= "folder "@);
    assert(s2[0] != "bot "@[0]);
    assert(!stands_at(s2, 0, "bot "@)) by {
        if stands_at(s2, 0, "bot "@) {
            assert(s2.subrange(0, 4)[0] == s2[0]);
        }
    }
    assert(s2.take(7) =~= "folder "@);
    assert(s2.skip(7) =~= rest);
    let s3 = seq![mark] + rest;
    assert(s3[0] == mark);
    assert(!stands_at(s3, 0, "bot "@)) by {
        if stands_at(s3, 0, "bot "@) {
            assert(s3.subrange(0, 4)[0] == s3[0]);
        }
    }
    assert(!stands_at(s3, 0, "folder "@)) by {
        if stands_at(s3, 0, "folder "@) {
            assert(s3.subrange(0, 7)[0] == s3[0]);
        }
    }
    assert(s3.take(1) =~= seq![mark]);
    assert(s3.skip(1) =~= rest);
    assert(rest.take(0) =~= Seq::<char>::empty());
    assert(rest.skip(0) =~= rest);
}

/// A line that does not speak of a private message to a channel carries none.
pub proof fn law_lines_without_privmsg(s: Text)
    requires
        !occurs(s, ".tmi.twitch.tv PRIVMSG #"@),
    ensures
        privmsg(s) is None,
{
    lemma_no_privmsg_from(s, 0);
}

proof fn lemma_no_privmsg_from(s: Text, i: int)
    requires
        !occurs(s, ".tmi.twitch.tv PRIVMSG #"@),
    ensures
        privmsg_from(s, i) is None,
    decreases s.len() - i,
{
    if i < s.len() {
        lemma_no_privmsg_from(s, i + 1);
    }
}

/// A text without white space defines nothing.
pub proof fn law_definitions_need_white_space(s: Text)
    requires
        forall|i: int| 0 <= i < s.len() ==> !is_space(#[trigger] s[i]),
    ensures
        definition(s) is None,
{
    lemma_no_name_end(s, mark_len(s));
}

proof fn lemma_no_name_end(s: Text, j: int)
    requires
        0 <= j <= s.len(),
        forall|i: int| 0 <= i < s.len() ==> !is_space(#[trigger] s[i]),
    ensures
        name_end(s, j) is None,
    decreases s.len() - j,
{
    if j < s.len() {
        assert(!is_space(s[j]));
        lemma_no_name_end(s, j + 1);
    }
}

/// The three patterns, as they are handed to the `regex` crate.
pub proof fn law_patterns()
    ensures
        PRIV_RE@ == r":(\w*)!\w*@\w*\.tmi\.twitch\.tv PRIVMSG #\w* :\s*(.*)"@,
        COMMAND_RE@ == r"^(bot |folder |[^\s\w]|)\s*(.*?)\s*$"@,
        DEFINITION_RE@ == r"^([^\s\w]?)(.*?)\s+(.+)$"@,
{
}

} // verus!
