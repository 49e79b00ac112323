use folderbot_chat::define::{read_definition, rule, Inspection, Ruling};
use folderbot_chat::engine::do_command;
use folderbot_chat::enchant::Offer;
use folderbot_chat::luck::Luck;
use folderbot_chat::player::Player;
use folderbot_chat::protocol::{Answer, CmdValue, CommandNode, Effect, Next, Question, Step};
use folderbot_chat::song::Playing;
use folderbot_chat::tasks::{classify, Task};
use folderbot_chat::trident::Hazard;
use folderbot_chat::turn::{Stage, Turn};
use folderbot_chat::wire::Command;

fn nobody() -> Player {
    Player {
        sent_messages: 0,
        sent_commands: 0,
        last_message: 0,
        files: 100,
        death: None,
        deaths: 0,
        tridents_rolled: 20,
        max_trident: 200,
        trident_acc: 1000,
        rolled_250s: 0,
        enchants_rolled: 0,
    }
}

fn luck() -> Luck {
    Luck {
        rest: 100,
        durability: 250,
        roll: 120,
        deduction: 20,
        selection: 50,
        rarity: 4000,
        of_three: 0,
        of_four: 0,
        of_five: 0,
        of_seven: 0,
    }
}

fn node(value: CmdValue<String>) -> CommandNode<String> {
    CommandNode {
        value,
        prefix: "!".to_string(),
        sound: String::new(),
        admin_only: false,
        super_only: false,
    }
}

fn built_in(name: &str) -> CommandNode<String> {
    node(CmdValue::Generic(name.to_string()))
}

fn start_as(user: &str, is_admin: bool, player: &mut Player, now: u64) -> Turn<String> {
    let (turn, step) = do_command(
        user.to_string(),
        "Ann".to_string(),
        "chan".to_string(),
        "desktopfolder".to_string(),
        is_admin,
        false,
        "bot ".to_string(),
        "cmd with args".to_string(),
        player,
        now,
    );
    assert_eq!(step.effects, vec![]);
    assert_eq!(step.next, Next::Ask(Question::Find("cmd with args".to_string())));
    turn
}

fn start(player: &mut Player) -> Turn<String> {
    start_as("ann", false, player, 10)
}

fn found(node: CommandNode<String>, rest: &str) -> Answer<String> {
    Answer::Found { node: Some(node), rest: rest.to_string() }
}

fn words(s: &str) -> Answer<String> {
    Answer::Words(s.to_string())
}

fn said(s: &str) -> Effect<String> {
    Effect::Send(format!("PRIVMSG #chan :{}\r\n", s))
}

fn insisted(s: &str) -> Effect<String> {
    Effect::Insist(format!("PRIVMSG #chan :{}\r\n", s))
}

fn go(turn: &mut Turn<String>, player: &mut Player, answer: Answer<String>) -> Step {
    assert!(turn.is_ready(player, &answer, &luck()), "{:?} {:?}", turn, answer);
    turn.step(player, answer, 10, &luck())
}

/// Starts a turn of `command` with `args` and takes it to its first question
/// or its end.
fn run(command: &str, args: &str, player: &mut Player) -> (Turn<String>, Step) {
    let mut turn = start(player);
    let step = go(&mut turn, player, found(built_in(command), args));
    (turn, step)
}

fn done(effects: Vec<Effect<String>>) -> Step {
    Step { effects, next: Next::Done(Command::Continue) }
}

fn asks(question: Question<String>) -> Step {
    Step { effects: vec![], next: Next::Ask(question) }
}

fn response(name: &str) -> Question<String> {
    Question::Response(name.to_string())
}

fn death_response(name: &str) -> Question<String> {
    Question::DbResponse { name: name.to_string(), collection: "deaths".to_string() }
}

#[test]
fn a_turn_starts_with_the_command_line() {
    let mut p = nobody();
    let turn = start_as("ann", true, &mut p, 5000);
    assert_eq!(p.sent_messages, 1);
    assert_eq!(p.files, 125);
    assert_eq!(p.last_message, 5000);
    assert_eq!(turn.prefix, "!");
    assert_eq!(turn.cmd_name, "cmd");
    assert_eq!(turn.stage, Stage::Finding);
}

#[test]
fn other_prefixes_stay() {
    let mut p = nobody();
    for (given, counted) in [("?", "?"), ("", ""), ("folder ", "!"), ("bot ", "!"), ("bot", "bot")] {
        let (turn, _) = do_command(
            "ann".to_string(),
            "Ann".to_string(),
            "chan".to_string(),
            "boss".to_string(),
            false,
            false,
            given.to_string(),
            "word".to_string(),
            &mut p,
            0,
        );
        assert_eq!(turn.prefix, counted);
        assert_eq!(turn.cmd_name, "word");
    }
}

#[test]
fn a_fixed_response_is_said_with_its_sound() {
    let mut p = nobody();
    let mut turn = start(&mut p);
    let step = go(&mut turn, &mut p, found(node(CmdValue::StringResponse("hi".to_string())), ""));
    assert_eq!(step, done(vec![said("hi")]));
    assert_eq!(p.sent_commands, 1);
    let mut turn = start(&mut p);
    let mut loud = node(CmdValue::StringResponse("hi".to_string()));
    loud.sound = "boo.mp3".to_string();
    let step = go(&mut turn, &mut p, found(loud, ""));
    assert_eq!(step, done(vec![said("hi"), Effect::PlaySound("boo.mp3".to_string())]));
}

#[test]
fn an_alias_says_nothing() {
    let mut p = nobody();
    let mut turn = start(&mut p);
    let step = go(&mut turn, &mut p, found(node(CmdValue::Alias("x".to_string())), ""));
    assert_eq!(step, done(vec![]));
}

#[test]
fn another_prefix_is_ignored() {
    let mut p = nobody();
    let mut turn = start(&mut p);
    let mut other = built_in("meta:stop");
    other.prefix = "?".to_string();
    let before = p;
    assert_eq!(go(&mut turn, &mut p, found(other, "")), done(vec![]));
    assert_eq!(p, before);
}

#[test]
fn a_caret_wants_no_prefix() {
    let mut p = nobody();
    let mut turn = start(&mut p);
    turn.prefix = String::new();
    let mut bare = node(CmdValue::StringResponse("yes".to_string()));
    bare.prefix = "^".to_string();
    assert_eq!(go(&mut turn, &mut p, found(bare, "")), done(vec![said("yes")]));
}

#[test]
fn the_unauthorised_are_told_off() {
    let mut p = nobody();
    let denied = done(vec![said("Naughty naughty, that's not for you!")]);
    for (user, admin, super_only, stops) in [
        ("ann", false, false, false),
        ("ann", true, false, true),
        ("ann", true, true, false),
        ("desktopfolder", true, true, true),
        ("desktopfolder", false, true, false),
    ] {
        let mut turn = start_as(user, admin, &mut p, 10);
        let mut n = built_in("meta:stop");
        n.admin_only = true;
        n.super_only = super_only;
        let step = go(&mut turn, &mut p, found(n, ""));
        if stops {
            assert_eq!(step, Step { effects: vec![], next: Next::Done(Command::Stop) });
        } else {
            assert_eq!(step, denied);
        }
    }
}

#[test]
fn a_message_without_command_gets_a_greeting_or_nothing() {
    let mut p = nobody();
    let nothing = || Answer::Found { node: None, rest: "hello".to_string() };

    let mut turn = start(&mut p);
    assert_eq!(go(&mut turn, &mut p, nothing()), asks(Question::TryGreet));
    assert_eq!(go(&mut turn, &mut p, Answer::Flag(false)), done(vec![]));

    let mut turn = start(&mut p);
    go(&mut turn, &mut p, nothing());
    let step = go(&mut turn, &mut p, Answer::Flag(true));
    assert_eq!(step, asks(Question::HasResponses("USER_GREET_ann".to_string())));
    assert_eq!(go(&mut turn, &mut p, Answer::Flag(true)), asks(response("USER_GREET_ann")));
    assert_eq!(go(&mut turn, &mut p, words("Hi {ur}!")), done(vec![said("Hi Ann!")]));

    let mut turn = start(&mut p);
    go(&mut turn, &mut p, nothing());
    go(&mut turn, &mut p, Answer::Flag(true));
    assert_eq!(go(&mut turn, &mut p, Answer::Flag(false)), asks(Question::OneIn(3)));
    assert_eq!(go(&mut turn, &mut p, Answer::Flag(true)), asks(response("USER_GREET_GENERIC")));
    assert_eq!(p.sent_commands, 0);
}

#[test]
fn a_message_can_name_the_built_in_command() {
    let mut p = nobody();
    let (turn, step) = run("debug:use_internal_mapping", "meta:help", &mut p);
    assert_eq!(step, done(vec![insisted("No help for you, good sir!")]));
    assert_eq!(turn.command, "meta:help");
}

#[test]
fn the_stop_command_stops_however_it_is_called() {
    let stopped = |effects| Step { effects, next: Next::Done(Command::Stop) };
    for (command, args) in [("meta:stop", "now"), ("debug:use_internal_mapping", "meta:stop")] {
        let mut p = nobody();
        assert_eq!(run(command, args, &mut p).1, stopped(vec![]));

        p.death = Some(1000);
        let mut turn = start(&mut p);
        let step = turn.step(&mut p, found(built_in(command), args), 1130, &luck());
        assert_eq!(step, asks(death_response("DEAD_COMMAND_ATTEMPT")));
        assert_eq!(go(&mut turn, &mut p, words("no")), done(vec![said("no")]));

        let mut turn = start(&mut p);
        let step = turn.step(&mut p, found(built_in(command), args), 1131, &luck());
        assert_eq!(step, asks(death_response("RESURRECTION")));
        let step = go(&mut turn, &mut p, words("welcome {ur}"));
        assert_eq!(step, stopped(vec![said("welcome Ann")]));
    }
    let mut p = nobody();
    assert_eq!(run("debug:use_internal_mapping", "meta:stop now", &mut p).1, done(vec![]));
}

#[test]
fn short_commands_do_what_they_are_for() {
    let mut p = nobody();
    for (command, args, effects) in [
        ("meta:help", "", vec![insisted("No help for you, good sir!")]),
        ("meta:issuper", "desktopfolder", vec![insisted("Status of desktopfolder: true")]),
        ("meta:issuper", "ann", vec![insisted("Status of ann: false")]),
        ("meta:say", "a b", vec![said("a b")]),
        ("meta:say_raw", "PART #x", vec![Effect::Send("PART #x\r\n".to_string())]),
        ("meta:reload_commands", "", vec![Effect::ReloadCommands("commands.json".to_string())]),
        ("meta:save_commands_test", "", vec![Effect::DumpCommands("commands.test.json".to_string())]),
        ("meta:save_commands", "", vec![Effect::DumpCommands("commands.json".to_string())]),
        ("game:reload", "", vec![Effect::ReloadGame]),
        ("game:save", "", vec![Effect::SaveGame]),
        ("game:autosave", "", vec![Effect::EnableAutosave]),
        ("feature:tridentpb", "", vec![said("ann's trident pb is: 200")]),
        ("feature:tridentchance", "  ", vec![]),
        ("feature:tridentchance", " 250 ", vec![said("You have a 1 in 31626 chance of rolling 250.. on the up side, if you round it, you have a 1 in 1 chance of not rolling 250 monkaLaugh")]),
        ("feature:tridentchance", "x", vec![said("You might find it difficult to roll a x, Ann... but feel free to try")]),
        ("admin:nick", "bob", vec![said("Not enough arguments.")]),
        ("admin:nick", "bob|B|b", vec![Effect::SetPlayerNick { player: "bob".to_string(), nick: "B|b".to_string() }]),
        ("core:play_audio", "", vec![Effect::PlayAudio]),
        ("internal:cancel", "", vec![Effect::StopAudio]),
        ("no:such", "", vec![]),
    ] {
        assert_eq!(run(command, args, &mut p).1, done(effects), "{}", command);
    }
}

#[test]
fn questions_lead_to_what_is_said() {
    let mut p = nobody();
    for (command, args, question, answer, effects) in [
        ("meta:isadmin", "bob", Question::IsAdmin("bob".to_string()), Answer::Flag(true), vec![insisted("Status of bob: true")]),
        ("meta:playerdata", "BÖB", Question::Describe { player: "böb".to_string(), otherwise: "ann".to_string() }, words("data"), vec![insisted("data")]),
        ("game:bet_for", "5", Question::BetFor("5".to_string()), Answer::MaybeWords(Some("no".to_string())), vec![said("no")]),
        ("game:bet_against", "5", Question::BetAgainst("5".to_string()), Answer::MaybeWords(None), vec![]),
        ("game:failed", "", Question::GameFailed, words("lost"), vec![said("lost")]),
        ("game:worked", "", Question::GameWorked, words("won"), vec![said("won")]),
        ("game:status", "", Question::GameStatus("ann".to_string()), words("fine"), vec![said("fine")]),
        ("game:status", "bob", Question::GameStatus("bob".to_string()), words("fine"), vec![said("fine")]),
        ("feature:rsg", "", Question::Fetch("http://shnenanigans.pythonanywhere.com/".to_string()), Answer::MaybeWords(Some("rsg".to_string())), vec![said("rsg")]),
        ("feature:rsg", "", Question::Fetch("http://shnenanigans.pythonanywhere.com/".to_string()), Answer::MaybeWords(None), vec![]),
        ("feature:tridentlb", "", Question::Leaderboard, words("1. ann"), vec![said("Trident Leaderboard: 1. ann")]),
        ("feature:elo", "bob", Question::Elo("bob".to_string()), words("1500"), vec![said("1500")]),
        ("core:functioning_get_song", "", Question::CurrentSong, Answer::Playing(Playing::Track { artists: vec!["A".to_string(), "C".to_string()], title: "B".to_string() }), vec![said("A, C - B")]),
    ] {
        let (mut turn, step) = run(command, args, &mut p);
        assert_eq!(step, asks(question), "{}", command);
        assert_eq!(go(&mut turn, &mut p, answer), done(effects), "{}", command);
        assert_eq!(turn.stage, Stage::Over);
    }
}

#[test]
fn the_song_command_wants_to_know_what_is_playing() {
    for (playing, text) in [
        (Playing::Other, "no song, I'm just listening to Folding@Home podcast :)"),
        (Playing::Nothing, "Error: No song is currently playing."),
        (Playing::Unknown, "Error: Couldn't get the current song."),
    ] {
        let mut p = nobody();
        let (mut turn, _) = run("core:functioning_get_song", "", &mut p);
        assert!(!turn.is_ready(&p, &words("A - B"), &luck()));
        assert_eq!(go(&mut turn, &mut p, Answer::Playing(playing)), done(vec![said(text)]));
    }
}

#[test]
fn a_whole_turn_counts_one_command_and_takes_files_once() {
    let mut p = nobody();
    let mut turn = start_as("ann", false, &mut p, 10);
    let mut low = luck();
    low.roll = 4;
    let replies = vec![
        found(built_in("feature:trident"), ""),
        Answer::Roll(9),
        Answer::Flag(true),
        Answer::Flag(true),
    ];
    for answer in replies {
        assert_eq!(p.files, 100);
        turn.step(&mut p, answer, 10, &low);
        assert_eq!(p.sent_commands, 1);
        assert_eq!(p.sent_messages, 1);
    }
    assert_eq!(p.files, 80);
    assert_eq!(turn.stage, Stage::Over);
}

#[test]
fn long_pages_are_not_quoted() {
    let mut p = nobody();
    let broken = done(vec![said("@shenaningans this command be broken again :sob:")]);
    for (page, quoted) in [("x".repeat(100), true), ("x".repeat(101), false), ("é".repeat(50), true), ("é".repeat(51), false)] {
        let (mut turn, _) = run("feature:rsg", "", &mut p);
        let step = go(&mut turn, &mut p, Answer::MaybeWords(Some(page.clone())));
        assert_eq!(step, if quoted { done(vec![said(&page)]) } else { done(vec![said("@shenaningans this command be broken again :sob:")]) });
    }
    assert_eq!(broken.effects.len(), 1);
}

#[test]
fn rounds_are_saved_when_autosave_is_on() {
    let mut p = nobody();
    let (mut turn, _) = run("game:failed", "", &mut p);
    turn.autosave = true;
    assert_eq!(go(&mut turn, &mut p, words("lost")), done(vec![said("lost"), Effect::SaveGame]));
}

#[test]
fn a_nickname_is_set_and_used() {
    let mut p = nobody();
    let (mut turn, step) = run("feature:nick", "Queen Ann", &mut p);
    assert_eq!(
        step,
        Step { effects: vec![Effect::SetNick("Queen Ann".to_string())], next: Next::Ask(Question::Name) }
    );
    assert_eq!(go(&mut turn, &mut p, words("Queen Ann")), asks(response("NICK_SET")));
    assert_eq!(go(&mut turn, &mut p, words("ok {ur}")), done(vec![said("ok Queen Ann")]));
    let (_, step) = run("feature:nick", "", &mut p);
    assert_eq!(step, asks(Question::Name));
}

fn known(editable: Option<bool>, present: bool, generic: bool) -> Answer<String> {
    Answer::Known(Inspection { editable, present, generic })
}

#[test]
fn commands_are_defined() {
    let mut p = nobody();
    let (mut turn, step) = run("meta:insert", "?hi there you", &mut p);
    assert_eq!(step, asks(Question::Inspect("hi".to_string())));
    let step = go(&mut turn, &mut p, known(None, false, false));
    assert_eq!(
        step,
        done(vec![
            Effect::InsertCommand {
                key: "hi".to_string(),
                response: "there you".to_string(),
                prefix: "?".to_string()
            },
            Effect::DumpCommands("commands.json".to_string()),
        ])
    );
    let (mut turn, step) = run("meta:edit", "HI there", &mut p);
    assert_eq!(
        step,
        Step {
            effects: vec![said("Warning: Converting to case-insensitive.")],
            next: Next::Ask(Question::Inspect("hi".to_string()))
        }
    );
    let step = go(&mut turn, &mut p, known(Some(true), true, false));
    assert_eq!(
        step,
        done(vec![
            Effect::SetValue { key: "hi".to_string(), response: "there".to_string() },
            Effect::SetPrefix { key: "hi".to_string(), prefix: "!".to_string() },
            Effect::DumpCommands("commands.json".to_string()),
        ])
    );
}

#[test]
fn definitions_are_refused() {
    let mut p = nobody();
    let (_, step) = run("meta:insert", "nothing", &mut p);
    assert_eq!(step, done(vec![said("Nice try, but you have been thwarted by the command regex! Mwuahaha.")]));
    for (command, answer, text) in [
        ("meta:insert", known(Some(false), true, false), "Command is not editable."),
        ("meta:edit", known(Some(false), false, false), "Command is not editable."),
        ("meta:insert", known(Some(true), true, false), "Command already exists. Use !edit instead."),
        ("meta:insert", known(Some(true), true, true), "Command already exists. Use !edit instead."),
        ("meta:edit", known(Some(true), true, true), "You cannot edit Generic commands."),
    ] {
        let (mut turn, _) = run(command, "hi there", &mut p);
        assert_eq!(go(&mut turn, &mut p, answer), done(vec![said(text)]));
    }
}

#[test]
fn definitions_are_read_and_ruled_on() {
    let d = read_definition("!ÀB c").unwrap();
    assert_eq!((d.prefix.as_str(), d.key.as_str(), d.response.as_str(), d.lowered), ("!", "àb", "c", true));
    let d = read_definition("FoO_9Z[ c").unwrap();
    assert_eq!((d.prefix.as_str(), d.key.as_str(), d.response.as_str(), d.lowered), ("!", "foo_9z[", "c", true));
    assert_eq!(read_definition("abc"), None);
    let k = |editable, present, generic| Inspection { editable, present, generic };
    assert_eq!(rule(true, k(None, false, false)), Ruling::Insert);
    assert_eq!(rule(true, k(Some(true), true, false)), Ruling::Update);
    assert_eq!(rule(false, k(Some(true), false, false)), Ruling::Insert);
}

#[test]
fn the_dead_do_nothing_until_they_are_back() {
    let mut p = nobody();
    p.death = Some(1000);
    let mut turn = start(&mut p);
    let step = turn.step(&mut p, found(built_in("meta:help"), ""), 1130, &luck());
    assert_eq!(step, asks(death_response("DEAD_COMMAND_ATTEMPT")));
    assert_eq!(go(&mut turn, &mut p, words("{ur}, no {m.com}")), done(vec![said("Ann, no cmd")]));

    let mut turn = start(&mut p);
    let step = turn.step(&mut p, found(built_in("feature:trident"), ""), 1130, &luck());
    assert_eq!(step, asks(death_response("DEAD_TRIDENT_ATTEMPT")));
    assert_eq!(go(&mut turn, &mut p, words("no, {ur}")), done(vec![said("no, Ann")]));
    assert_eq!(p.death, Some(1000));

    let mut turn = start(&mut p);
    let step = turn.step(&mut p, found(built_in("meta:help"), ""), 1131, &luck());
    assert_eq!(step, asks(death_response("RESURRECTION")));
    assert_eq!(p.death, None);
    let step = go(&mut turn, &mut p, words("welcome {ur}"));
    assert_eq!(step, done(vec![said("welcome Ann"), insisted("No help for you, good sir!")]));
}

#[test]
fn a_roll_goes_through_its_hazards() {
    let mut p = nobody();
    let mut turn = start(&mut p);
    let mut low = luck();
    low.roll = 1;
    let step = turn.step(&mut p, found(built_in("feature:trident"), ""), 10, &low);
    assert_eq!(step, asks(Question::SwapRoll(1)));
    assert_eq!(go(&mut turn, &mut p, Answer::Roll(9)), asks(Question::TryDent));
    assert_eq!((p.tridents_rolled, p.trident_acc, p.max_trident), (21, 1001, 200));
    assert_eq!(go(&mut turn, &mut p, Answer::Flag(true)), asks(Question::OneIn(6)));
    assert_eq!(go(&mut turn, &mut p, Answer::Flag(false)), asks(Question::OneIn(5)));
    assert_eq!(turn.stage, Stage::Risking { roll: 1, hazard: Hazard::LowDeath });
    let step = go(&mut turn, &mut p, Answer::Flag(false));
    assert_eq!(
        step,
        done(vec![said("Hehe. A 1. So close, and yet so far, eh Ann?"), said("/timeout ann 15")])
    );
    assert_eq!(p.files, 100);
}

fn rolled(user: &str, roll: i32, player: &mut Player) -> Turn<String> {
    let mut turn = start_as(user, false, player, 10);
    let mut l = luck();
    l.roll = roll;
    turn.step(player, found(built_in("feature:trident"), ""), 10, &l);
    turn
}

#[test]
fn low_rolls_can_cost_files_or_kill() {
    let mut p = nobody();
    let mut turn = rolled("ann", 3, &mut p);
    go(&mut turn, &mut p, Answer::Roll(9));
    go(&mut turn, &mut p, Answer::Flag(true));
    let step = go(&mut turn, &mut p, Answer::Flag(true));
    assert_eq!(step, done(vec![said("Ew... a 3. What a gross low roll, Ann. I'm deducting 20 files from you, just for that...")]));
    assert_eq!(p.files, 80);

    let mut turn = rolled("ann", 0, &mut p);
    go(&mut turn, &mut p, Answer::Roll(9));
    go(&mut turn, &mut p, Answer::Flag(true));
    go(&mut turn, &mut p, Answer::Flag(false));
    assert_eq!(go(&mut turn, &mut p, Answer::Flag(true)), asks(death_response("DEATH_LOW")));
    assert_eq!((p.deaths, p.death), (1, Some(10)));
    assert_eq!(go(&mut turn, &mut p, words("{ur} died of {t.r}")), done(vec![said("Ann died of 0")]));
}

#[test]
fn high_rolls_can_kill() {
    let mut p = nobody();
    let mut turn = rolled("ann", 160, &mut p);
    go(&mut turn, &mut p, Answer::Roll(9));
    assert_eq!(go(&mut turn, &mut p, Answer::Flag(true)), asks(Question::OneIn(5)));
    assert_eq!(go(&mut turn, &mut p, Answer::Flag(true)), asks(death_response("DEATH_HIGH")));
    assert_eq!(p.deaths, 1);
}

#[test]
fn one_player_gets_a_remark_of_their_own() {
    let mut p = nobody();
    let mut turn = rolled("pacmanmvc", 60, &mut p);
    go(&mut turn, &mut p, Answer::Roll(9));
    assert_eq!(go(&mut turn, &mut p, Answer::Flag(true)), asks(Question::OneIn(10)));
    let step = go(&mut turn, &mut p, Answer::Flag(true));
    assert_eq!(step, done(vec![said("60. Ouch. Just 6 more, and you could have finished the TAS with that, eh \"Pac\" man? Whatever that means...")]));
}

#[test]
fn notable_rolls_are_remarked_on_first() {
    let mut p = nobody();
    let mut turn = rolled("ann", 250, &mut p);
    assert_eq!(go(&mut turn, &mut p, Answer::Roll(9)), asks(response("TRIDENT_VALUE_250")));
    assert_eq!((p.rolled_250s, p.max_trident), (1, 250));
    assert_eq!(
        go(&mut turn, &mut p, words("{ur}: {t.r} after {t.rolled}")),
        done(vec![said("Ann: 250 after 21")])
    );
    let mut p = nobody();
    let mut turn = rolled("ann", 201, &mut p);
    assert_eq!(go(&mut turn, &mut p, Answer::Roll(9)), asks(response("TRIDENT_PB_GENERIC")));
    let mut turn = rolled("ann", 2, &mut p);
    assert_eq!(go(&mut turn, &mut p, Answer::Roll(2)), asks(response("TRIDENT_DOUBLE_LOW")));
}

#[test]
fn rolling_too_often_is_noted() {
    let mut p = nobody();
    let mut turn = rolled("ann", 50, &mut p);
    go(&mut turn, &mut p, Answer::Roll(9));
    assert_eq!(go(&mut turn, &mut p, Answer::Flag(false)), asks(response("TRIDENT_RATELIMIT_RESPONSE")));
}

#[test]
fn rolls_get_rare_remarks() {
    for (selection, roll, question) in [
        (77, 50, response("MISC_RARE_TRIDENTS")),
        (84, 9, response("MISC_LOW_TRIDENTS")),
        (84, 50, Question::RareTrident { roll: 50, rarity: 4000, name: "Ann".to_string() }),
        (100, 9, Question::RareTrident { roll: 9, rarity: 4000, name: "Ann".to_string() }),
    ] {
        let mut p = nobody();
        let mut turn = rolled("ann", roll, &mut p);
        go(&mut turn, &mut p, Answer::Roll(-1));
        let mut l = luck();
        l.selection = selection;
        assert_eq!(turn.step(&mut p, Answer::Flag(true), 10, &l), asks(question));
    }
}

#[test]
fn the_owner_chooses_rolls_within_limits() {
    let mut p = nobody();
    let mut turn = start_as("desktopfolder", true, &mut p, 10);
    let step = go(&mut turn, &mut p, found(built_in("feature:trident"), "-5"));
    assert_eq!(step, asks(Question::SwapRoll(-5)));
    assert!(!turn.is_ready(&p, &Answer::Roll(0), &luck()));
    p.trident_acc = 4;
    assert!(turn.is_ready(&p, &Answer::Roll(0), &luck()));
    let mut turn = start_as("desktopfolder", true, &mut p, 10);
    p.max_trident = 1000;
    go(&mut turn, &mut p, found(built_in("feature:trident"), "300"));
    assert_eq!(go(&mut turn, &mut p, Answer::Roll(0)), asks(Question::TryDent));
    assert!(!turn.is_ready(&p, &Answer::Flag(true), &luck()));
    assert!(turn.is_ready(&p, &Answer::Flag(false), &luck()));
    let mut rare = luck();
    rare.selection = 80;
    assert!(turn.is_ready(&p, &Answer::Flag(true), &rare));
    assert_eq!(
        turn.step(&mut p, Answer::Flag(true), 10, &rare),
        asks(response("MISC_RARE_TRIDENTS"))
    );
}

#[test]
fn a_turn_that_cannot_go_on_stays_as_it_is() {
    let mut p = nobody();
    let mut turn = start(&mut p);
    p.sent_commands = u64::MAX;
    let before = p;
    assert_eq!(turn.advance(&mut p, found(built_in("meta:help"), ""), 10), None);
    assert_eq!(turn.advance(&mut p, words("x"), 10), None);
    assert_eq!(p, before);
    assert_eq!(turn, start(&mut nobody()));
    p.sent_commands = 0;
    assert_eq!(
        turn.advance(&mut p, found(built_in("meta:help"), ""), 10),
        Some(done(vec![insisted("No help for you, good sir!")]))
    );
    assert_eq!(p.sent_commands, 1);
}

#[test]
fn offers_are_answered_in_a_turn() {
    let offer = |level| Offer {
        name: "Mending".to_string(),
        level,
        cost: 3,
        row: 1,
        bookshelves: 2,
        special_response: false,
    };
    let impossible = "Somehow you rolled an impossible enchant... good for you";
    for (o, text, count) in [
        (Some(offer(1)), "You rolled Mending I for 3 levels with 2 bookshelves!", 1),
        (Some(offer(5)), impossible, 0),
        (Some(offer(0)), impossible, 0),
        (None, impossible, 0),
    ] {
        let mut p = nobody();
        let (mut turn, step) = run("feature:enchant", "", &mut p);
        assert_eq!(step, asks(Question::RollEnchant));
        assert_eq!(go(&mut turn, &mut p, Answer::Offered(o)), done(vec![said(text)]));
        assert_eq!(p.enchants_rolled, count);
    }
}

#[test]
fn turns_take_the_answers_that_they_asked_for() {
    let mut p = nobody();
    let turn = start(&mut p);
    assert!(!turn.is_ready(&p, &Answer::Flag(true), &luck()));
    assert!(!turn.is_ready(&p, &words("x"), &luck()));
    let (turn, _) = run("meta:help", "", &mut p);
    assert!(!turn.is_ready(&p, &found(built_in("x"), ""), &luck()));
    let (turn, _) = run("meta:insert", "a b", &mut p);
    assert!(turn.is_ready(&p, &known(None, false, false), &luck()));
    assert!(!turn.is_ready(&p, &Answer::Roll(1), &luck()));
}

#[test]
fn full_records_stop_what_would_count() {
    let mut p = nobody();
    let turn = start(&mut p);
    p.sent_commands = u64::MAX;
    assert!(!turn.is_ready(&p, &found(built_in("meta:help"), ""), &luck()));
    let mut other = built_in("meta:help");
    other.prefix = "?".to_string();
    assert!(turn.is_ready(&p, &found(other, ""), &luck()));
    assert!(turn.is_ready(&p, &Answer::Found { node: None, rest: String::new() }, &luck()));
    p.sent_commands = 0;
    p.death = Some(u64::MAX - 29);
    assert!(!turn.is_ready(&p, &found(built_in("meta:help"), ""), &luck()));
    assert!(turn.is_ready(&p, &found(node(CmdValue::StringResponse("x".to_string())), ""), &luck()));
}

#[test]
fn a_step_draws_its_own_luck() {
    let mut rolls = Vec::new();
    for _ in 0..200 {
        let mut p = nobody();
        let mut turn = start(&mut p);
        match turn.advance(&mut p, found(built_in("feature:trident"), ""), 10).map(|s| s.next) {
            Some(Next::Ask(Question::SwapRoll(roll))) => {
                assert!(0 <= roll && roll <= 250);
                rolls.push(roll);
            }
            other => panic!("{:?}", other),
        }
    }
    rolls.sort();
    rolls.dedup();
    assert!(rolls.len() > 20);
}

#[test]
fn built_in_commands_are_found_by_name() {
    assert_eq!(classify("meta:insert"), Task::Insert);
    assert_eq!(classify("feature:trident"), Task::Trident);
    assert_eq!(classify("internal:cancel"), Task::Cancel);
    assert_eq!(classify("feature:trident "), Task::Unknown);
    assert_eq!(classify(""), Task::Unknown);
}

#[test]
fn turns_end_after_nine_answers_at_most() {
    let mut p = nobody();
    p.death = Some(0);
    p.max_trident = 250;
    let mut turn = start_as("pacmanmvc", false, &mut p, 10);
    let mut low = luck();
    low.roll = 1;
    low.selection = 100;
    let mut count = 0;
    let mut answer = found(built_in("feature:trident"), "");
    loop {
        count += 1;
        assert!(turn.is_ready(&p, &answer, &low));
        match turn.step(&mut p, answer, 1000, &low).next {
            Next::Done(command) => {
                assert_eq!(command, Command::Continue);
                break;
            }
            Next::Ask(Question::SwapRoll(_)) => answer = Answer::Roll(7),
            Next::Ask(Question::TryDent) => answer = Answer::Flag(true),
            Next::Ask(Question::OneIn(_)) => answer = Answer::Flag(false),
            Next::Ask(_) => answer = words("x"),
        }
    }
    assert_eq!(count, 8);
}
