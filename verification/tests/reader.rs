use folderbot_chat::reader::{find_end, End, Incoming, Reader, SAVE_INTERVAL};
use folderbot_chat::wire::{
    authenticate, handle_twitch, next_write, Command, IRCMessage, Outgoing, TwitchFmt,
};

#[test]
fn lines_have_their_formats() {
    assert_eq!(TwitchFmt::pass("oauth").0, "PASS oauth\r\n");
    assert_eq!(TwitchFmt::nick("folder").0, "NICK folder\r\n");
    assert_eq!(TwitchFmt::join("chan").0, "JOIN #chan\r\n");
    assert_eq!(TwitchFmt::text("PART #x").0, "PART #x\r\n");
    assert_eq!(TwitchFmt::privmsg("hi all", "chan").0, "PRIVMSG #chan :hi all\r\n");
    assert_eq!(TwitchFmt::pong().0, "PONG :tmi.twitch.tv\r\n");
}

#[test]
fn login_comes_in_order() {
    let lines = authenticate("secret", "nick", "chan");
    assert_eq!(
        lines,
        vec![
            IRCMessage("PASS secret\r\n".to_string()),
            IRCMessage("NICK nick\r\n".to_string()),
            IRCMessage("JOIN #chan\r\n".to_string()),
        ]
    );
}

#[test]
fn pings_are_answered_and_blank_lines_stop() {
    assert_eq!(handle_twitch(" PING :tmi.twitch.tv\r\n"), (Command::Continue, Some(TwitchFmt::pong())));
    assert_eq!(handle_twitch("\r\n"), (Command::Stop, None));
    assert_eq!(handle_twitch(""), (Command::Stop, None));
    assert_eq!(handle_twitch("PING :elsewhere\r\n"), (Command::Continue, None));
}

#[test]
fn lines_mean_what_they_say() {
    let mut reader = Reader::new();
    let (_, incoming) = reader.receive(":ann!a@a.tmi.twitch.tv PRIVMSG #c :bot  roll trident \r\n", 0);
    assert_eq!(
        incoming,
        Incoming::Chat {
            name: "ann".to_string(),
            prefix: "bot ".to_string(),
            command: "roll trident".to_string()
        }
    );
    assert_eq!(reader.receive("PING :tmi.twitch.tv\r\n", 0).1, Incoming::Reply(TwitchFmt::pong()));
    assert_eq!(reader.receive(":server 001 nick :Welcome\r\n", 0).1, Incoming::Ignored);
    assert_eq!(reader.receive("", 0).1, Incoming::Stopped);
}

#[test]
fn every_private_message_is_heard() {
    let mut reader = Reader::new();
    for said in ["", "x", "!", "bot ", "\r", "a\tb", "???"] {
        let line = format!(":ann!a@a.tmi.twitch.tv PRIVMSG #c :{}\r\n", said);
        match reader.receive(&line, 0).1 {
            Incoming::Chat { name, .. } => assert_eq!(name, "ann"),
            other => panic!("{:?}", other),
        }
    }
}

#[test]
fn saves_keep_their_distance() {
    let mut reader = Reader::new();
    assert_eq!(reader.receive("x", SAVE_INTERVAL).0, false);
    assert_eq!(reader.receive("x", SAVE_INTERVAL + 1).0, true);
    assert_eq!(reader.last_save, 301);
    assert_eq!(reader.receive("x", 601).0, false);
    assert_eq!(reader.last_save, 301);
    assert_eq!(reader.receive("x", 602).0, true);
    assert_eq!(reader.last_save, 602);
}

#[test]
fn reading_ends_with_its_reason() {
    let mut reader = Reader::new();
    let chat = ":ann!a@a.tmi.twitch.tv PRIVMSG #c :!stop\r\n";
    let blank_chat = ":ann!a@a.tmi.twitch.tv PRIVMSG #c :\r\n";
    for (line, turn, end) in [
        (chat, Command::Stop, Some(End::Command)),
        (chat, Command::Continue, None),
        (blank_chat, Command::Continue, None),
        (blank_chat, Command::Stop, Some(End::Command)),
        ("", Command::Continue, Some(End::Twitch)),
        (" \r\n", Command::Continue, Some(End::Twitch)),
        ("PING :tmi.twitch.tv\r\n", Command::Continue, None),
        (":server 001 nick :Welcome\r\n", Command::Continue, None),
    ] {
        let heard = Some(reader.receive(line, 0).1);
        assert_eq!(find_end(&heard, turn), end, "{:?}", line);
    }
    assert_eq!(find_end(&None, Command::Continue), None);
    assert_eq!(End::Twitch.words(), "Stopped due to twitch.");
    assert_eq!(End::Command.words(), "Received stop command.");
}

#[test]
fn lines_are_written_at_a_pace() {
    assert_eq!(
        next_write(Some(TwitchFmt::pong())),
        Outgoing::Write { line: TwitchFmt::pong(), pause_ms: 100 }
    );
    assert_eq!(next_write(None), Outgoing::End);
}
