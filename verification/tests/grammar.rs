use folderbot_chat::grammar::{
    split_chat, split_definition, split_privmsg, str_at, COMMAND_RE, DEFINITION_RE, PRIV_RE,
};
use regex::Regex;

fn pair(a: &str, b: &str) -> Option<(String, String)> {
    Some((a.to_string(), b.to_string()))
}

fn triple(a: &str, b: &str, c: &str) -> Option<(String, String, String)> {
    Some((a.to_string(), b.to_string(), c.to_string()))
}

/// Every text of up to `n` of the given parts.
fn texts(parts: &[&str], n: usize) -> Vec<String> {
    let mut all = vec![String::new()];
    let mut last = all.clone();
    for _ in 0..n {
        let mut next = Vec::new();
        for s in &last {
            for p in parts {
                next.push(format!("{}{}", s, p));
            }
        }
        all.extend(next.iter().cloned());
        last = next;
    }
    all
}

fn groups(re: &Regex, s: &str) -> Option<Vec<String>> {
    let caps = re.captures(s)?;
    Some((1..caps.len()).map(|i| caps.get(i).unwrap().as_str().to_string()).collect())
}

fn is_word(c: char) -> bool {
    c == '_' || c.is_alphanumeric()
}

fn word_end(s: &[char], i: usize) -> usize {
    if i < s.len() && is_word(s[i]) { word_end(s, i + 1) } else { i }
}

fn space_end(s: &[char], i: usize) -> usize {
    if i < s.len() && s[i].is_whitespace() { space_end(s, i + 1) } else { i }
}

fn line_end(s: &[char], i: usize) -> usize {
    if i < s.len() && s[i] != '\n' { line_end(s, i + 1) } else { i }
}

fn stands_at(s: &[char], i: usize, p: &str) -> bool {
    let p: Vec<char> = p.chars().collect();
    i <= s.len() && s[i..].starts_with(&p)
}

fn text(s: &[char]) -> String {
    s.iter().collect()
}

fn privmsg(s: &[char]) -> Option<Vec<String>> {
    for i in 0..s.len() {
        let sender = i + 1;
        let login = word_end(s, sender);
        let host = word_end(s, login + 1);
        let verb = word_end(s, host + 1);
        let channel = verb + ".tmi.twitch.tv PRIVMSG #".len();
        let colon = word_end(s, channel);
        let start = space_end(s, colon + 2);
        if stands_at(s, i, ":") && stands_at(s, login, "!") && stands_at(s, host, "@")
            && stands_at(s, verb, ".tmi.twitch.tv PRIVMSG #") && stands_at(s, colon, " :")
        {
            return Some(vec![text(&s[sender..login]), text(&s[start..line_end(s, start)])]);
        }
    }
    None
}

fn starts_with_mark(s: &[char]) -> bool {
    !s.is_empty() && !s[0].is_whitespace() && !is_word(s[0])
}

fn chat(s: &[char]) -> Option<Vec<String>> {
    let n = if stands_at(s, 0, "bot ") {
        4
    } else if stands_at(s, 0, "folder ") {
        7
    } else if starts_with_mark(s) {
        1
    } else {
        0
    };
    let line = text(&s[n..]).trim().to_string();
    if line.contains('\n') { None } else { Some(vec![text(&s[..n]), line]) }
}

fn definition(s: &[char]) -> Option<Vec<String>> {
    let n = if starts_with_mark(s) { 1 } else { 0 };
    let mut j = n;
    loop {
        let e = space_end(s, j);
        let e = if e < s.len() { e as i64 } else { s.len() as i64 - 1 };
        if (j as i64) < e && !s[e as usize..].contains(&'\n') {
            return Some(vec![text(&s[..n]), text(&s[n..j]), text(&s[e as usize..])]);
        }
        if j < s.len() && s[j] != '\n' {
            j += 1;
        } else {
            return None;
        }
    }
}

#[test]
fn private_messages_are_found_where_the_grammar_has_them() {
    let re = Regex::new(PRIV_RE).unwrap();
    let parts = [":", "a", "!", "@", ".tmi.twitch.tv PRIVMSG #", " :", " ", "\n"];
    for s in texts(&parts, 5) {
        let s = format!(":u!{}", s);
        let v: Vec<char> = s.chars().collect();
        assert_eq!(groups(&re, &s), privmsg(&v), "{:?}", s);
    }
    for s in texts(&parts, 4) {
        for (before, after) in [("", ""), (":!@.tmi.twitch.tv PRIVMSG # :", ""), ("", ":é!_@9.tmi.twitch.tv PRIVMSG #c : x y\r\n")] {
            let s = format!("{}{}{}", before, s, after);
            let v: Vec<char> = s.chars().collect();
            assert_eq!(groups(&re, &s), privmsg(&v), "{:?}", s);
        }
    }
}

#[test]
fn chat_messages_split_as_the_grammar_has_them() {
    let re = Regex::new(COMMAND_RE).unwrap();
    for s in texts(&["bot ", "folder ", "b", "!", " ", "\n", "é", "\u{a0}", "\r"], 5) {
        let v: Vec<char> = s.chars().collect();
        assert_eq!(groups(&re, &s), chat(&v), "{:?}", s);
    }
}

#[test]
fn definitions_split_as_the_grammar_has_them() {
    let re = Regex::new(DEFINITION_RE).unwrap();
    for s in texts(&["a", "!", " ", "\n", "\t", "?", "é"], 6) {
        let v: Vec<char> = s.chars().collect();
        assert_eq!(groups(&re, &s), definition(&v), "{:?}", s);
    }
}

#[test]
fn the_classes_are_those_of_the_grammar() {
    let space = Regex::new(r"^\s$").unwrap();
    let word = Regex::new(r"^\w$").unwrap();
    let chat = Regex::new(COMMAND_RE).unwrap();
    for n in 0..=0x10ffffu32 {
        if let Some(c) = char::from_u32(n) {
            let s = c.to_string();
            assert_eq!(space.is_match(&s), folderbot_chat::text::white_space(c), "{:x}", n);
            if n < 0x80 {
                assert_eq!(word.is_match(&s), c == '_' || c.is_ascii_alphanumeric(), "{:x}", n);
            } else if !c.is_whitespace() {
                let caps = chat.captures(&s).unwrap();
                assert_eq!(word.is_match(&s), caps.get(1).unwrap().as_str().is_empty(), "{:x}", n);
            }
        }
    }
}

#[test]
fn a_private_message_is_read_back() {
    assert_eq!(
        split_privmsg(":ann!ann@ann.tmi.twitch.tv PRIVMSG #desktopfolder :!roll trident\r\n"),
        pair("ann", "!roll trident\r")
    );
    assert_eq!(split_privmsg(":a!b@c.tmi.twitch.tv PRIVMSG #d :   hi"), pair("a", "hi"));
    assert_eq!(split_privmsg(":!@.tmi.twitch.tv PRIVMSG # :\r\n"), pair("", ""));
    assert_eq!(split_privmsg("@tags :a!b@c.tmi.twitch.tv PRIVMSG #d :x"), pair("a", "x"));
}

#[test]
fn other_lines_are_no_private_messages() {
    assert_eq!(split_privmsg("PING :tmi.twitch.tv\r\n"), None);
    assert_eq!(split_privmsg(":a!b@c.tmi.twitch.tv JOIN #d\r\n"), None);
    assert_eq!(split_privmsg(":a-b!b@c.tmi.twitch.tv PRIVMSG #d :x"), None);
    assert_eq!(split_privmsg(""), None);
}

#[test]
fn a_chat_message_splits_into_address_and_command() {
    assert_eq!(split_chat("!todo buy milk\r"), pair("!", "todo buy milk"));
    assert_eq!(split_chat("bot roll trident"), pair("bot ", "roll trident"));
    assert_eq!(split_chat("folder  help "), pair("folder ", "help"));
    assert_eq!(split_chat("hello"), pair("", "hello"));
    assert_eq!(split_chat("!!todo"), pair("!", "!todo"));
    assert_eq!(split_chat("botany"), pair("", "botany"));
    assert_eq!(split_chat(""), pair("", ""));
    assert_eq!(split_chat("  ! x"), pair("", "! x"));
    assert_eq!(split_chat("a\nb"), None);
}

#[test]
fn a_definition_splits_into_prefix_name_and_response() {
    assert_eq!(split_definition("!hi there you"), triple("!", "hi", "there you"));
    assert_eq!(split_definition("hi  there"), triple("", "hi", "there"));
    assert_eq!(split_definition("? x"), triple("?", "", "x"));
    assert_eq!(split_definition("a  "), triple("", "a", " "));
    assert_eq!(split_definition("hi"), None);
    assert_eq!(split_definition("a "), None);
    assert_eq!(split_definition(""), None);
    assert_eq!(split_definition("a b\nc d"), triple("", "a b", "c d"));
}

#[test]
fn a_group_is_taken_by_its_number() {
    let groups = vec![Some("whole".to_string()), Some("first".to_string())];
    assert_eq!(str_at(&groups, 1), "first");
}

#[test]
fn splitting_loses_white_space_alone() {
    for message in ["bot  roll it \r", "!  x", " hi there ", "folder ", "", "? \t", "\u{a0}a\u{3000}"] {
        let (address, command) = split_chat(message).unwrap();
        let rest = message.strip_prefix(address.as_str()).unwrap();
        let at = rest.find(command.as_str()).unwrap();
        assert!(rest[..at].chars().all(char::is_whitespace), "{:?}", message);
        assert!(rest[at + command.len()..].chars().all(char::is_whitespace), "{:?}", message);
    }
}
