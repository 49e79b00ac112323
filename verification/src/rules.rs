//! What the steps of a turn do, said of each kind of step by itself: who may call
//! what, what each built-in command does, and what comes of each answer.
use crate::define::{requested, Definition, Inspection};
use crate::enchant::{law_answers_to_offers, law_numerals_and_endings, offer_answer, Offer};
use crate::luck::Luck;
use crate::odds::odds_answer;
use crate::player::Player;
use crate::protocol::{Answer, CmdValue, CommandNode, Effect, Next, Question};
use crate::song::{song_text, Playing};
use crate::tasks::{law_tasks_are_found_by_name, Task};
use crate::text::{first_index, law_first_index, lowered, parsed, replaced, shown, trimmed, Text};
use crate::trident::{
    law_the_hazards_of_a_roll, law_the_lowest_rolls_silence, law_the_owner_alone_chooses, pac_text,
    penalty_text, plain_remark, Hazard,
};
use crate::turn::{started, Fill, Outcome, Stage, Turn};
use crate::wire::Command;
use vstd::prelude::*;

verus! {

/// The line that says `text` in the channel of the turn, as it is sent.
pub open spec fn line(turn: Turn<Text>, text: Text) -> Text {
    "PRIVMSG #"@ + turn.channel + " :"@ + text + "\r\n"@
}

/// A step ends the turn, with the player and the effects given, and the bot goes
/// on.
pub open spec fn is_over(
    o: Outcome,
    turn: Turn<Text>,
    player: Player,
    effects: Seq<Effect<Text>>,
) -> bool {
    &&& o.player == player
    &&& o.effects == effects
    &&& o.next == Next::<Text>::Done(Command::Continue)
    &&& o.turn == (Turn { stage: Stage::Over, ..turn })
}

/// A step says `text`, and the turn is over.
pub open spec fn is_said(o: Outcome, turn: Turn<Text>, player: Player, text: Text) -> bool {
    is_over(o, turn, player, seq![Effect::Send(line(turn, text))])
}

/// A step does nothing but ask, and waits at `stage`.
pub open spec fn is_asked(
    o: Outcome,
    turn: Turn<Text>,
    player: Player,
    question: Question<Text>,
    stage: Stage<Text>,
) -> bool {
    &&& o.player == player
    &&& o.effects.len() == 0
    &&& o.next == Next::Ask(question)
    &&& o.turn == (Turn { stage, ..turn })
}

/// A turn starts with the message as it came: to call the bot by name counts as
/// `!`, any other prefix as itself, and the name of the command ends before the
/// first space.
pub proof fn law_turns_start_with_the_message(
    user: Text,
    name: Text,
    channel: Text,
    superuser: Text,
    is_admin: bool,
    autosave: bool,
    prefix: Text,
    cmd: Text,
)
    ensures
        ({
            let t = started(user, name, channel, superuser, is_admin, autosave, prefix, cmd);
            let n = t.cmd_name.len() as int;
            &&& prefix == "bot "@ || prefix == "folder "@ ==> t.prefix == "!"@
            &&& prefix != "bot "@ && prefix != "folder "@ ==> t.prefix == prefix
            &&& n <= cmd.len() && t.cmd_name == cmd.take(n)
            &&& !t.cmd_name.contains(' ')
            &&& n < cmd.len() ==> cmd[n] == ' '
            &&& t.user == user && t.name == name && t.channel == channel && t.superuser == superuser
            &&& t.is_admin == is_admin && t.autosave == autosave
            &&& t.args == cmd
            &&& t.stage is Finding
        }),
{
    law_first_index(cmd, ' ');
    let n = first_index(cmd, ' ');
    assert(!cmd.take(n).contains(' '));
}

/// A command with a fixed response says it, in the channel of the turn, and plays
/// its sound if it has one: whatever follows the command, and whoever the player
/// is, as long as the prefix is the one that the command wants and the user may
/// call it. The turn is then over.
pub proof fn law_fixed_responses_are_said(
    turn: Turn<Text>,
    player: Player,
    node: CommandNode<Text>,
    response: Text,
    rest: Text,
    now: u64,
    luck: Luck,
)
    requires
        turn.stage is Finding,
        turn.prefix == node.prefix || turn.prefix.len() == 0 && node.prefix == "^"@,
        !node.admin_only || turn.is_admin && (!node.super_only || turn.user == turn.superuser),
        node.value == CmdValue::StringResponse(response),
        player.sent_commands < u64::MAX,
    ensures
        ({
            let o = turn.goes_on(player, Answer::Found { node: Some(node), rest }, now, luck);
            let said = Effect::Send(line(turn, response));
            &&& node.sound.len() == 0 ==> o.effects == seq![said]
            &&& node.sound.len() > 0 ==> o.effects == seq![said, Effect::PlaySound(node.sound)]
            &&& o.next == Next::<Text>::Done(Command::Continue)
            &&& o.turn.stage is Over
            &&& o.player.sent_commands == player.sent_commands + 1
            &&& o.player == (Player { sent_commands: o.player.sent_commands, ..player })
        }),
{
    let said = Effect::Send(line(turn, response));
    assert(seq![said].push(Effect::PlaySound(node.sound)) =~= seq![
        said,
        Effect::PlaySound(node.sound),
    ]);
}

/// A command that stands for another is counted, and nothing is said.
pub proof fn law_aliases_say_nothing(
    turn: Turn<Text>,
    player: Player,
    node: CommandNode<Text>,
    rest: Text,
    now: u64,
    luck: Luck,
)
    requires
        turn.stage is Finding,
        turn.prefix == node.prefix || turn.prefix.len() == 0 && node.prefix == "^"@,
        !node.admin_only || turn.is_admin && (!node.super_only || turn.user == turn.superuser),
        node.value is Alias,
    ensures
        is_over(
            turn.goes_on(player, Answer::Found { node: Some(node), rest }, now, luck),
            Turn { args: rest, ..turn },
            Player { sent_commands: (player.sent_commands + 1) as u64, ..player },
            Seq::empty(),
        ),
{
}

/// A command does something just if its prefix is that of the message, or it
/// wants none (`^`) and the message has none: otherwise nothing is done, said or
/// counted; so are messages without a prefix kept from commands that want one.
pub proof fn law_prefixes_decide(
    turn: Turn<Text>,
    player: Player,
    node: CommandNode<Text>,
    rest: Text,
    now: u64,
    luck: Luck,
)
    requires
        turn.stage is Finding,
        player.sent_commands < u64::MAX,
    ensures
        ({
            let o = turn.goes_on(player, Answer::Found { node: Some(node), rest }, now, luck);
            &&& turn.prefix == node.prefix || turn.prefix.len() == 0 && node.prefix == "^"@
                ==> o.player.sent_commands == player.sent_commands + 1
            &&& turn.prefix != node.prefix && turn.prefix.len() > 0 ==> is_over(
                o,
                Turn { args: rest, ..turn },
                player,
                Seq::empty(),
            )
            &&& turn.prefix != node.prefix && node.prefix != "^"@ ==> is_over(
                o,
                Turn { args: rest, ..turn },
                player,
                Seq::empty(),
            )
        }),
{
}

/// A command for administrators is refused to anyone else, and one for the owner
/// to any other administrator. The refusal is said, the call is counted, and
/// nothing else happens.
pub proof fn law_refusals_are_said(
    turn: Turn<Text>,
    player: Player,
    node: CommandNode<Text>,
    rest: Text,
    now: u64,
    luck: Luck,
)
    requires
        turn.stage is Finding,
        turn.prefix == node.prefix || turn.prefix.len() == 0 && node.prefix == "^"@,
        node.admin_only,
        !turn.is_admin || node.super_only && turn.user != turn.superuser,
    ensures
        is_said(
            turn.goes_on(player, Answer::Found { node: Some(node), rest }, now, luck),
            Turn { args: rest, ..turn },
            Player { sent_commands: (player.sent_commands + 1) as u64, ..player },
            "Naughty naughty, that's not for you!"@,
        ),
{
}

/// A built-in command that a living user may call is performed, with what follows
/// it: the one that the node stands for, or the one that follows it, if it stands
/// for the internal mapping.
pub proof fn law_built_in_commands_are_performed(
    turn: Turn<Text>,
    player: Player,
    node: CommandNode<Text>,
    x: Text,
    rest: Text,
    now: u64,
    luck: Luck,
)
    requires
        turn.stage is Finding,
        turn.prefix == node.prefix || turn.prefix.len() == 0 && node.prefix == "^"@,
        !node.admin_only || turn.is_admin && (!node.super_only || turn.user == turn.superuser),
        node.value == CmdValue::Generic(x),
        player.death is None,
    ensures
        ({
            let o = turn.goes_on(player, Answer::Found { node: Some(node), rest }, now, luck);
            let counted = Player { sent_commands: (player.sent_commands + 1) as u64, ..player };
            &&& x != "debug:use_internal_mapping"@ ==> o == Turn {
                args: rest,
                command: x,
                ..turn
            }.performs(counted, luck)
            &&& x == "debug:use_internal_mapping"@ ==> o == Turn {
                args: rest,
                command: rest,
                ..turn
            }.performs(counted, luck)
        }),
{
}

/// What comes of a built-in command of a dead player, who may call it. Until they
/// are back they are told so, in other words for a roll than for other commands;
/// when they are, they are welcomed first.
pub proof fn law_the_dead_are_told_or_welcomed(
    turn: Turn<Text>,
    player: Player,
    death: u64,
    now: u64,
    luck: Luck,
)
    requires
        player.death == Some(death),
    ensures
        ({
            let o = turn.runs(player, now, luck);
            let filling = |fill: Fill| Stage::Filling { name: turn.name, fill };
            &&& now - death <= 30 + luck.rest && turn.command == "feature:trident"@ ==> is_asked(
                o,
                turn,
                player,
                Question::DbResponse { name: "DEAD_TRIDENT_ATTEMPT"@, collection: "deaths"@ },
                filling(Fill::Name),
            )
            &&& now - death <= 30 + luck.rest && turn.command != "feature:trident"@ ==> is_asked(
                o,
                turn,
                player,
                Question::DbResponse { name: "DEAD_COMMAND_ATTEMPT"@, collection: "deaths"@ },
                filling(Fill::Command),
            )
            &&& now - death > 30 + luck.rest ==> is_asked(
                o,
                turn,
                Player { death: None, ..player },
                Question::DbResponse { name: "RESURRECTION"@, collection: "deaths"@ },
                Stage::Reviving,
            )
        }),
{
}

/// A dead player's built-in command runs into that, once the prefix fits and the
/// user may call it.
pub proof fn law_calls_of_the_dead(
    turn: Turn<Text>,
    player: Player,
    node: CommandNode<Text>,
    x: Text,
    rest: Text,
    now: u64,
    luck: Luck,
)
    requires
        turn.stage is Finding,
        turn.prefix == node.prefix || turn.prefix.len() == 0 && node.prefix == "^"@,
        !node.admin_only || turn.is_admin && (!node.super_only || turn.user == turn.superuser),
        node.value == CmdValue::Generic(x),
    ensures
        ({
            let o = turn.goes_on(player, Answer::Found { node: Some(node), rest }, now, luck);
            let counted = Player { sent_commands: (player.sent_commands + 1) as u64, ..player };
            let command = if x == "debug:use_internal_mapping"@ {
                rest
            } else {
                x
            };
            o == Turn { args: rest, command, ..turn }.runs(counted, now, luck)
        }),
{
}

/// A player who is back is welcomed, and the command is performed after that.
pub proof fn law_those_who_are_back_go_on(
    turn: Turn<Text>,
    player: Player,
    welcome: Text,
    now: u64,
    luck: Luck,
)
    requires
        turn.stage is Reviving,
    ensures
        ({
            let o = turn.goes_on(player, Answer::Words(welcome), now, luck);
            let done = turn.performs(player, luck);
            &&& o.effects == seq![
                Effect::Send(line(turn, replaced(welcome, "{ur}"@, turn.name))),
            ] + done.effects
            &&& o.next == done.next
            &&& o.turn == done.turn
            &&& o.player == done.player
        }),
{
}

/// Who is greeted, and how: a message without a command asks whether its user is
/// due a greeting. If so, the greetings of that user are used if there are any,
/// and otherwise, once in three times, those for anyone.
pub proof fn law_greetings(turn: Turn<Text>, player: Player, rest: Text, now: u64, luck: Luck)
    ensures
        ({
            let own = "USER_GREET_"@ + turn.user;
            let named = Stage::Filling { name: turn.name, fill: Fill::Name };
            let on = |flag: bool| turn.goes_on(player, Answer::Flag(flag), now, luck);
            &&& turn.stage is Finding ==> is_asked(
                turn.goes_on(player, Answer::Found { node: None, rest }, now, luck),
                Turn { args: rest, ..turn },
                player,
                Question::TryGreet,
                Stage::Greeting,
            )
            &&& turn.stage is Greeting ==> is_over(on(false), turn, player, Seq::empty()) && is_asked(
                on(true),
                turn,
                player,
                Question::HasResponses(own),
                Stage::OwnGreeting,
            )
            &&& turn.stage is OwnGreeting ==> is_asked(
                on(true),
                turn,
                player,
                Question::Response(own),
                named,
            ) && is_asked(on(false), turn, player, Question::OneIn(3), Stage::AnyGreeting)
            &&& turn.stage is AnyGreeting ==> is_over(on(false), turn, player, Seq::empty()) && is_asked(
                on(true),
                turn,
                player,
                Question::Response("USER_GREET_GENERIC"@),
                named,
            )
        }),
{
}

/// A response is said with its marks filled in: `{ur}` by the name, and also
/// `{m.com}` by the name of the command, or `{t.r}` by the roll and `{t.rolled}`
/// by the number of rolls.
pub proof fn law_responses_are_said(
    turn: Turn<Text>,
    player: Player,
    name: Text,
    roll: i32,
    words: Text,
    now: u64,
    luck: Luck,
)
    ensures
        ({
            let o = turn.goes_on(player, Answer::Words(words), now, luck);
            let named = replaced(words, "{ur}"@, name);
            &&& turn.stage == (Stage::Filling { name, fill: Fill::Name }) ==> is_said(
                o,
                turn,
                player,
                named,
            )
            &&& turn.stage == (Stage::Filling { name, fill: Fill::Command }) ==> is_said(
                o,
                turn,
                player,
                replaced(named, "{m.com}"@, turn.cmd_name),
            )
            &&& turn.stage == (Stage::Filling { name, fill: Fill::Roll(roll) }) ==> is_said(
                o,
                turn,
                player,
                replaced(
                    replaced(named, "{t.r}"@, shown(roll as int)),
                    "{t.rolled}"@,
                    shown(player.tridents_rolled as int),
                ),
            )
        }),
{
}

/// The commands that say something at once. Two of them cannot do without it.
pub proof fn law_commands_that_speak(turn: Turn<Text>, player: Player, luck: Luck)
    ensures
        ({
            let o = turn.performs(player, luck);
            &&& turn.command == "meta:help"@ ==> is_over(o, turn, player, seq![Effect::Insist(line(turn, "No help for you, good sir!"@))])
            &&& turn.command == "meta:issuper"@ ==> (turn.args == turn.superuser ==> is_over(o, turn, player, seq![Effect::Insist(line(turn, "Status of "@ + turn.args + ": true"@))]))
                && (turn.args != turn.superuser ==> is_over(o, turn, player, seq![Effect::Insist(line(turn, "Status of "@ + turn.args + ": false"@))]))
            &&& turn.command == "meta:say"@ ==> is_said(o, turn, player, turn.args)
            &&& turn.command == "meta:say_raw"@ ==> is_over(o, turn, player, seq![Effect::Send(turn.args + "\r\n"@)])
            &&& turn.command == "feature:tridentpb"@ ==> is_said(o, turn, player, turn.user + "'s trident pb is: "@ + shown(player.max_trident as int))
            &&& turn.command == "feature:tridentchance"@ ==> (trimmed(turn.args).len() > 0 ==> is_said(o, turn, player, odds_answer(trimmed(turn.args), turn.name)))
                && (trimmed(turn.args).len() == 0 ==> is_over(o, turn, player, Seq::empty()))
        }),
{
    reveal_strlit(": ");
    reveal_strlit("true");
    reveal_strlit("false");
    reveal_strlit(": true");
    reveal_strlit(": false");
    let start = "Status of "@ + turn.args;
    assert(start + ": "@ + "true"@ =~= start + ": true"@);
    assert(start + ": "@ + "false"@ =~= start + ": false"@);
    law_tasks_are_found_by_name(Task::Help);
    law_tasks_are_found_by_name(Task::IsSuper);
    law_tasks_are_found_by_name(Task::Say);
    law_tasks_are_found_by_name(Task::SayRaw);
    law_tasks_are_found_by_name(Task::TridentPb);
    law_tasks_are_found_by_name(Task::TridentChance);
}

/// The commands that do one thing at once, and say nothing.
pub proof fn law_commands_that_act(turn: Turn<Text>, player: Player, luck: Luck)
    ensures
        ({
            let o = turn.performs(player, luck);
            &&& turn.command == "meta:reload_commands"@ ==> is_over(o, turn, player, seq![Effect::ReloadCommands("commands.json"@)])
            &&& turn.command == "meta:save_commands_test"@ ==> is_over(o, turn, player, seq![Effect::DumpCommands("commands.test.json"@)])
            &&& turn.command == "meta:save_commands"@ ==> is_over(o, turn, player, seq![Effect::DumpCommands("commands.json"@)])
            &&& turn.command == "game:reload"@ ==> is_over(o, turn, player, seq![Effect::ReloadGame])
            &&& turn.command == "game:save"@ ==> is_over(o, turn, player, seq![Effect::SaveGame])
            &&& turn.command == "game:autosave"@ ==> is_over(o, turn, player, seq![Effect::EnableAutosave])
            &&& turn.command == "core:play_audio"@ ==> is_over(o, turn, player, seq![Effect::PlayAudio])
            &&& turn.command == "internal:cancel"@ ==> is_over(o, turn, player, seq![Effect::StopAudio])
            &&& turn.command == "meta:stop"@ ==> o.player == player && o.effects.len() == 0 && o.turn.stage is Over
                && o.next == Next::<Text>::Done(Command::Stop)
        }),
{
    law_tasks_are_found_by_name(Task::ReloadCommands);
    law_tasks_are_found_by_name(Task::SaveCommandsTest);
    law_tasks_are_found_by_name(Task::SaveCommands);
    law_tasks_are_found_by_name(Task::ReloadGame);
    law_tasks_are_found_by_name(Task::SaveGame);
    law_tasks_are_found_by_name(Task::Autosave);
    law_tasks_are_found_by_name(Task::PlayAudio);
    law_tasks_are_found_by_name(Task::Cancel);
    law_tasks_are_found_by_name(Task::Stop);
}

/// The commands that need to know something first, and what they wait for then.
pub proof fn law_commands_that_ask(turn: Turn<Text>, player: Player, luck: Luck)
    ensures
        ({
            let o = turn.performs(player, luck);
            &&& turn.command == "meta:isadmin"@ ==> is_asked(o, turn, player, Question::IsAdmin(turn.args), Stage::AdminStatus)
            &&& turn.command == "meta:playerdata"@ ==> is_asked(o, turn, player, Question::Describe { player: lowered(turn.args), otherwise: turn.user }, Stage::Insisting)
            &&& turn.command == "game:bet_for"@ ==> is_asked(o, turn, player, Question::BetFor(turn.args), Stage::Betting)
            &&& turn.command == "game:bet_against"@ ==> is_asked(o, turn, player, Question::BetAgainst(turn.args), Stage::Betting)
            &&& turn.command == "game:failed"@ ==> is_asked(o, turn, player, Question::GameFailed, Stage::Ending)
            &&& turn.command == "game:worked"@ ==> is_asked(o, turn, player, Question::GameWorked, Stage::Ending)
            &&& turn.command == "game:status"@ ==> (turn.args.len() == 0 ==> is_asked(o, turn, player, Question::GameStatus(turn.user), Stage::Relaying))
                && (turn.args.len() > 0 ==> is_asked(o, turn, player, Question::GameStatus(turn.args), Stage::Relaying))
            &&& turn.command == "feature:rsg"@ ==> is_asked(o, turn, player, Question::Fetch("http://shnenanigans.pythonanywhere.com/"@), Stage::Quoting)
            &&& turn.command == "feature:tridentlb"@ ==> is_asked(o, turn, player, Question::Leaderboard, Stage::Boasting)
            &&& turn.command == "feature:enchant"@ ==> is_asked(o, turn, player, Question::RollEnchant, Stage::Enchanting)
            &&& turn.command == "feature:elo"@ ==> is_asked(o, turn, player, Question::Elo(turn.args), Stage::Relaying)
            &&& turn.command == "core:functioning_get_song"@ ==> is_asked(o, turn, player, Question::CurrentSong, Stage::Listening)
        }),
{
    law_tasks_are_found_by_name(Task::IsAdmin);
    law_tasks_are_found_by_name(Task::PlayerData);
    law_tasks_are_found_by_name(Task::BetFor);
    law_tasks_are_found_by_name(Task::BetAgainst);
    law_tasks_are_found_by_name(Task::Failed);
    law_tasks_are_found_by_name(Task::Worked);
    law_tasks_are_found_by_name(Task::Status);
    law_tasks_are_found_by_name(Task::Rsg);
    law_tasks_are_found_by_name(Task::TridentLb);
    law_tasks_are_found_by_name(Task::Enchant);
    law_tasks_are_found_by_name(Task::Elo);
    law_tasks_are_found_by_name(Task::GetSong);
}

/// A roll is the one that was drawn, unless the owner asks for another, and takes
/// the place of the player's last one.
pub proof fn law_a_roll_is_made(turn: Turn<Text>, player: Player, n: i32, luck: Luck)
    requires
        turn.command == "feature:trident"@,
    ensures
        ({
            let o = turn.performs(player, luck);
            &&& turn.user != "desktopfolder"@ ==> is_asked(
                o,
                turn,
                player,
                Question::SwapRoll(luck.roll),
                Stage::Rolled { roll: luck.roll },
            )
            &&& turn.user == "desktopfolder"@ && turn.args == shown(n as int) ==> is_asked(
                o,
                turn,
                player,
                Question::SwapRoll(n),
                Stage::Rolled { roll: n },
            )
            &&& parsed(turn.args) is None ==> is_asked(
                o,
                turn,
                player,
                Question::SwapRoll(luck.roll),
                Stage::Rolled { roll: luck.roll },
            )
        }),
{
    law_tasks_are_found_by_name(Task::Trident);
    law_the_owner_alone_chooses(turn.user, turn.args, n, luck.roll);
}

/// A player who asks for a nickname gets it, if they name one, and is then told
/// what they are called now, by that name.
pub proof fn law_nicknames(
    turn: Turn<Text>,
    player: Player,
    name: Text,
    now: u64,
    luck: Luck,
)
    ensures
        turn.command == "feature:nick"@ ==> ({
            let o = turn.performs(player, luck);
            &&& turn.args.len() == 0 ==> o.effects.len() == 0
            &&& turn.args.len() > 0 ==> o.effects == seq![Effect::SetNick(turn.args)]
            &&& o.next == Next::Ask(Question::<Text>::Name)
            &&& o.turn.stage is Naming
            &&& o.player == player
        }),
        turn.stage is Naming ==> is_asked(
            turn.goes_on(player, Answer::Words(name), now, luck),
            turn,
            player,
            Question::Response("NICK_SET"@),
            Stage::Filling { name, fill: Fill::Name },
        ),
{
    law_tasks_are_found_by_name(Task::Nick);
}

/// An administrator gives a player a nickname by naming both, with a bar between
/// them; without a bar they are told that something is missing.
pub proof fn law_nicknames_of_others(
    turn: Turn<Text>,
    player: Player,
    who: Text,
    nick: Text,
    luck: Luck,
)
    requires
        turn.command == "admin:nick"@,
    ensures
        !turn.args.contains('|') ==> is_said(
            turn.performs(player, luck),
            turn,
            player,
            "Not enough arguments."@,
        ),
        turn.args == who + seq!['|'] + nick && !who.contains('|') ==> is_over(
            turn.performs(player, luck),
            turn,
            player,
            seq![Effect::SetPlayerNick { player: who, nick }],
        ),
{
    law_tasks_are_found_by_name(Task::AdminNick);
    law_first_index(turn.args, '|');
    let i = first_index(turn.args, '|');
    if turn.args == who + seq!['|'] + nick && !who.contains('|') {
        let n = who.len() as int;
        assert(turn.args[n] == '|');
        if i < n {
            assert(who[i] == turn.args[i]);
        }
        assert(i == n);
        assert(turn.args.take(i) =~= who);
        assert(turn.args.skip(i + 1) =~= nick);
    }
}

/// Every built-in command has one of these names.
pub open spec fn is_built_in(command: Text) -> bool {
    ||| command == "meta:insert"@
    ||| command == "meta:edit"@
    ||| command == "meta:isadmin"@
    ||| command == "meta:issuper"@
    ||| command == "meta:help"@
    ||| command == "meta:stop"@
    ||| command == "meta:playerdata"@
    ||| command == "meta:say"@
    ||| command == "meta:say_raw"@
    ||| command == "meta:reload_commands"@
    ||| command == "meta:save_commands_test"@
    ||| command == "meta:save_commands"@
    ||| command == "game:bet_for"@
    ||| command == "game:bet_against"@
    ||| command == "game:failed"@
    ||| command == "game:worked"@
    ||| command == "game:status"@
    ||| command == "game:reload"@
    ||| command == "game:save"@
    ||| command == "game:autosave"@
    ||| command == "feature:rsg"@
    ||| command == "feature:tridentpb"@
    ||| command == "feature:tridentlb"@
    ||| command == "feature:trident"@
    ||| command == "feature:tridentchance"@
    ||| command == "feature:enchant"@
    ||| command == "feature:nick"@
    ||| command == "admin:nick"@
    ||| command == "feature:elo"@
    ||| command == "core:play_audio"@
    ||| command == "core:functioning_get_song"@
    ||| command == "internal:cancel"@
}

/// A command of any other name does nothing.
pub proof fn law_unknown_commands_do_nothing(turn: Turn<Text>, player: Player, luck: Luck)
    requires
        !is_built_in(turn.command),
    ensures
        is_over(turn.performs(player, luck), turn, player, Seq::empty()),
{
}

/// What is said, or done, about the answers that commands have asked for.
pub proof fn law_answers_are_passed_on(
    turn: Turn<Text>,
    player: Player,
    words: Text,
    now: u64,
    luck: Luck,
)
    ensures
        ({
            let o = turn.goes_on(player, Answer::Words(words), now, luck);
            let said = Effect::Send(line(turn, words));
            &&& turn.stage is Relaying ==> is_over(o, turn, player, seq![said])
            &&& turn.stage is Insisting ==> is_over(
                o,
                turn,
                player,
                seq![Effect::Insist(line(turn, words))],
            )
            &&& turn.stage is Ending && !turn.autosave ==> is_over(o, turn, player, seq![said])
            &&& turn.stage is Ending && turn.autosave ==> is_over(
                o,
                turn,
                player,
                seq![said, Effect::SaveGame],
            )
            &&& turn.stage is Boasting ==> is_said(
                o,
                turn,
                player,
                "Trident Leaderboard: "@ + words,
            )
        }),
{
    let said = Effect::Send(line(turn, words));
    assert(seq![said].push(Effect::SaveGame) =~= seq![said, Effect::SaveGame]);
}

/// What is said of a bet, a page and a song. A bet in order gets no answer, and a
/// page longer than 100 bytes is not quoted.
pub proof fn law_bets_pages_and_songs(
    turn: Turn<Text>,
    player: Player,
    words: Text,
    playing: Playing,
    now: u64,
    luck: Luck,
)
    ensures
        ({
            let none = turn.goes_on(player, Answer::MaybeWords(None), now, luck);
            let some = turn.goes_on(player, Answer::MaybeWords(Some(words)), now, luck);
            let bytes = vstd::utf8::encode_utf8(words).len();
            &&& turn.stage is Betting || turn.stage is Quoting ==> is_over(
                none,
                turn,
                player,
                Seq::empty(),
            )
            &&& turn.stage is Betting ==> is_said(some, turn, player, words)
            &&& turn.stage is Quoting && bytes <= 100 ==> is_said(some, turn, player, words)
            &&& turn.stage is Quoting && bytes >= 101 ==> is_said(
                some,
                turn,
                player,
                "@shenaningans this command be broken again :sob:"@,
            )
            &&& turn.stage is Listening ==> is_said(
                turn.goes_on(player, Answer::Playing(playing), now, luck),
                turn,
                player,
                song_text(playing),
            )
        }),
{
}

/// What is said of an administrator, and of anyone else.
pub proof fn law_standing_is_told(turn: Turn<Text>, player: Player, now: u64, luck: Luck)
    requires
        turn.stage is AdminStatus,
    ensures
        is_over(
            turn.goes_on(player, Answer::Flag(true), now, luck),
            turn,
            player,
            seq![Effect::Insist(line(turn, "Status of "@ + turn.args + ": true"@))],
        ),
        is_over(
            turn.goes_on(player, Answer::Flag(false), now, luck),
            turn,
            player,
            seq![Effect::Insist(line(turn, "Status of "@ + turn.args + ": false"@))],
        ),
{
    reveal_strlit(": ");
    reveal_strlit("true");
    reveal_strlit("false");
    reveal_strlit(": true");
    reveal_strlit(": false");
    let start = "Status of "@ + turn.args;
    assert(start + ": "@ + "true"@ =~= start + ": true"@);
    assert(start + ": "@ + "false"@ =~= start + ": false"@);
}

/// Commands are defined and edited in the same way: a text that is no definition
/// is refused, a name in capital letters gets a warning, and then the turn asks
/// what is known of the name.
pub proof fn law_definitions_are_asked_for(turn: Turn<Text>, player: Player, luck: Luck)
    requires
        turn.command == "meta:insert"@ || turn.command == "meta:edit"@,
    ensures
        ({
            let o = turn.performs(player, luck);
            match requested(turn.args) {
                None => is_said(
                    o,
                    turn,
                    player,
                    "Nice try, but you have been thwarted by the command regex! Mwuahaha."@,
                ),
                Some(definition) => {
                    &&& o.player == player
                    &&& o.next == Next::Ask(Question::Inspect(definition.key))
                    &&& o.turn.stage == (Stage::Defining {
                        definition,
                        edit: turn.command == "meta:edit"@,
                    })
                    &&& definition.lowered ==> o.effects == seq![
                        Effect::Send(line(turn, "Warning: Converting to case-insensitive."@)),
                    ]
                    &&& !definition.lowered ==> o.effects.len() == 0
                },
            }
        }),
{
    law_tasks_are_found_by_name(Task::Insert);
    law_tasks_are_found_by_name(Task::Edit);
    reveal_strlit("meta:insert");
    reveal_strlit("meta:edit");
    assert("meta:insert"@.len() != "meta:edit"@.len());
}

/// What is done about a definition, by what is known of its name: a new command
/// is made, and one that is there gets the response and the prefix, if it may be
/// edited and this is an edit; then the commands are saved. Otherwise the reason
/// is said.
pub proof fn law_definitions_are_carried_out(
    turn: Turn<Text>,
    player: Player,
    definition: Definition<Text>,
    edit: bool,
    known: Inspection,
    now: u64,
    luck: Luck,
)
    requires
        turn.stage == (Stage::Defining { definition, edit }),
    ensures
        ({
            let o = turn.goes_on(player, Answer::Known(known), now, luck);
            let key = definition.key;
            let response = definition.response;
            let prefix = definition.prefix;
            let saved = Effect::DumpCommands("commands.json"@);
            let free = known.editable != Some(false);
            &&& !free ==> is_said(o, turn, player, "Command is not editable."@)
            &&& free && !known.present ==> is_over(
                o,
                turn,
                player,
                seq![Effect::InsertCommand { key, response, prefix }, saved],
            )
            &&& free && known.present && !edit ==> is_said(
                o,
                turn,
                player,
                "Command already exists. Use !edit instead."@,
            )
            &&& free && known.present && edit && known.generic ==> is_said(
                o,
                turn,
                player,
                "You cannot edit Generic commands."@,
            )
            &&& free && known.present && edit && !known.generic ==> is_over(
                o,
                turn,
                player,
                seq![Effect::SetValue { key, response }, Effect::SetPrefix { key, prefix }, saved],
            )
        }),
{
    let key = definition.key;
    let response = definition.response;
    let prefix = definition.prefix;
    let saved = Effect::<Text>::DumpCommands("commands.json"@);
    let made = Effect::<Text>::InsertCommand { key, response, prefix };
    let value = Effect::<Text>::SetValue { key, response };
    let mark = Effect::<Text>::SetPrefix { key, prefix };
    assert(seq![made].push(saved) =~= seq![made, saved]);
    assert(seq![value].push(mark).push(saved) =~= seq![value, mark, saved]);
}

/// What comes of a roll once the one before is known: it is counted, a perfect one
/// as such too; a roll that stands out gets a remark from the pool for it, and any
/// other goes on if the player may roll again already.
pub proof fn law_rolls_are_counted_and_remarked_on(
    turn: Turn<Text>,
    player: Player,
    roll: i32,
    previous: i32,
    now: u64,
    luck: Luck,
)
    requires
        turn.stage == (Stage::<Text>::Rolled { roll }),
        player.can_add(roll),
    ensures
        ({
            let o = turn.goes_on(player, Answer::Roll(previous), now, luck);
            let rolled = player.tridents_rolled + 1;
            let best = Player::score(roll) > player.max_trident;
            let counted = player.after_roll(roll);
            let perfect = Player { rolled_250s: (player.rolled_250s + 1) as u64, ..counted };
            let filling = Stage::Filling { name: turn.name, fill: Fill::Roll(roll) };
            let double = roll <= 4 && roll == previous;
            &&& roll == 250 ==> is_asked(
                o,
                turn,
                perfect,
                Question::Response("TRIDENT_VALUE_250"@),
                filling,
            )
            &&& roll != 250 && best && rolled >= 6 ==> is_asked(
                o,
                turn,
                counted,
                Question::Response("TRIDENT_PB_GENERIC"@),
                filling,
            )
            &&& roll != 250 && roll >= 100 && rolled <= 5 ==> is_asked(
                o,
                turn,
                counted,
                Question::Response("EARLY_HIGH_TRIDENT"@),
                filling,
            )
            &&& roll < 100 && rolled == 1 ==> is_asked(
                o,
                turn,
                counted,
                Question::Response("FIRST_TRIDENT_GENERIC"@),
                filling,
            )
            &&& double && rolled >= 2 && !(best && rolled >= 6) ==> is_asked(
                o,
                turn,
                counted,
                Question::Response("TRIDENT_DOUBLE_LOW"@),
                filling,
            )
            &&& roll != 250 && !double && (2 <= rolled <= 5 && roll < 100 || rolled >= 6 && !best)
                ==> is_asked(o, turn, counted, Question::TryDent, Stage::Denting { roll })
        }),
{
}

/// A player who may not roll again yet is told so; the roll of one who may is put
/// to its hazards, one after the other, until one happens, and gets a remark if
/// none does.
pub proof fn law_rolls_are_put_to_their_hazards(
    turn: Turn<Text>,
    player: Player,
    roll: i32,
    now: u64,
    luck: Luck,
)
    ensures
        ({
            let on = |flag: bool| turn.goes_on(player, Answer::Flag(flag), now, luck);
            let tried = |o: Outcome, hazard: Hazard, odds: u32|
                is_asked(o, turn, player, Question::OneIn(odds), Stage::Risking { roll, hazard });
            let pac = roll <= 65 && turn.user == "pacmanmvc"@;
            let last = |o: Outcome|
                if pac {
                    tried(o, Hazard::PacRemark, 10)
                } else {
                    o == turn.remarks(player, roll, luck)
                };
            &&& turn.stage == (Stage::<Text>::Denting { roll }) ==> {
                &&& is_asked(
                    on(false),
                    turn,
                    player,
                    Question::Response("TRIDENT_RATELIMIT_RESPONSE"@),
                    Stage::Filling { name: turn.name, fill: Fill::Roll(roll) },
                )
                &&& roll <= 4 ==> tried(on(true), Hazard::Penalty, 6)
                &&& 151 <= roll <= 175 ==> tried(on(true), Hazard::HighDeath, 5)
                &&& 5 <= roll <= 150 || 176 <= roll ==> last(on(true))
            }
            &&& turn.stage == (Stage::<Text>::Risking { roll, hazard: Hazard::Penalty }) ==> {
                &&& roll <= 1 ==> tried(on(false), Hazard::LowDeath, 5)
                &&& 2 <= roll <= 4 ==> last(on(false))
            }
            &&& turn.stage == (Stage::<Text>::Risking { roll, hazard: Hazard::LowDeath }) && roll
                <= 1 ==> last(on(false))
            &&& turn.stage == (Stage::<Text>::Risking { roll, hazard: Hazard::HighDeath }) && 151
                <= roll <= 175 ==> on(false) == turn.remarks(player, roll, luck)
            &&& turn.stage == (Stage::<Text>::Risking { roll, hazard: Hazard::PacRemark })
                ==> on(false) == turn.remarks(player, roll, luck)
        }),
{
    law_the_hazards_of_a_roll(roll, turn.user);
}

/// What happens to a player whom a hazard strikes: files are lost and that is
/// said; or the player dies, now, and the turn asks for words on it; or the
/// distance to 66 is told.
pub proof fn law_hazards_strike(
    turn: Turn<Text>,
    player: Player,
    roll: i32,
    hazard: Hazard,
    now: u64,
    luck: Luck,
)
    requires
        turn.stage == (Stage::<Text>::Risking { roll, hazard }),
        i64::MIN <= player.files - luck.deduction <= i64::MAX,
        player.deaths < u64::MAX,
    ensures
        ({
            let o = turn.goes_on(player, Answer::Flag(true), now, luck);
            let poorer = Player { files: (player.files - luck.deduction) as i64, ..player };
            let dead = Player {
                deaths: (player.deaths + 1) as u64,
                death: Some(now),
                ..player
            };
            let filling = Stage::Filling { name: turn.name, fill: Fill::Roll(roll) };
            &&& hazard == Hazard::Penalty ==> is_said(
                o,
                turn,
                poorer,
                penalty_text(turn.name, roll, player.tridents_rolled, luck.deduction as int),
            )
            &&& hazard == Hazard::LowDeath ==> is_asked(
                o,
                turn,
                dead,
                Question::DbResponse { name: "DEATH_LOW"@, collection: "deaths"@ },
                filling,
            )
            &&& hazard == Hazard::HighDeath ==> is_asked(
                o,
                turn,
                dead,
                Question::DbResponse { name: "DEATH_HIGH"@, collection: "deaths"@ },
                filling,
            )
            &&& hazard == Hazard::PacRemark ==> is_said(
                o,
                turn,
                player,
                pac_text(turn.name, roll, player.tridents_rolled),
            )
        }),
{
}

/// The remark on a roll that nothing else has happened to, by the number that was
/// drawn for it: a plain one, and after a roll of 0 or 1 a silence of ten or
/// fifteen seconds; one from a pool; or a rare one.
pub proof fn law_remarks(turn: Turn<Text>, player: Player, roll: i32, luck: Luck)
    ensures
        ({
            let o = turn.remarks(player, roll, luck);
            let plain = Effect::Send(
                line(
                    turn,
                    plain_remark(
                        roll,
                        turn.name,
                        luck.of_four as int,
                        luck.of_five as int,
                        luck.of_seven as int,
                    ),
                ),
            );
            let silenced = |seconds: Text|
                Effect::Send(line(turn, "/timeout "@ + turn.user + seconds));
            let filling = Stage::Filling { name: turn.name, fill: Fill::Roll(roll) };
            &&& luck.selection <= 76 && roll == 0 ==> is_over(
                o,
                turn,
                player,
                seq![plain, silenced(" 10"@)],
            )
            &&& luck.selection <= 76 && roll == 1 ==> is_over(
                o,
                turn,
                player,
                seq![plain, silenced(" 15"@)],
            )
            &&& luck.selection <= 76 && roll != 0 && roll != 1 ==> is_over(o, turn, player, seq![plain])
            &&& 77 <= luck.selection <= 81 && roll != 250 ==> is_asked(
                o,
                turn,
                player,
                Question::Response("MISC_RARE_TRIDENTS"@),
                filling,
            )
            &&& 82 <= luck.selection <= 84 && roll <= 9 ==> is_asked(
                o,
                turn,
                player,
                Question::Response("MISC_LOW_TRIDENTS"@),
                filling,
            )
            &&& luck.selection >= 85 || luck.selection >= 82 && roll >= 10 ==> is_asked(
                o,
                turn,
                player,
                Question::RareTrident { roll, rarity: luck.rarity, name: turn.name },
                Stage::Relaying,
            )
        }),
{
    law_the_lowest_rolls_silence(roll, turn.user);
    let plain = Effect::Send(
        line(
            turn,
            plain_remark(
                roll,
                turn.name,
                luck.of_four as int,
                luck.of_five as int,
                luck.of_seven as int,
            ),
        ),
    );
    let ten = Effect::Send(line(turn, "/timeout "@ + turn.user + " 10"@));
    let fifteen = Effect::Send(line(turn, "/timeout "@ + turn.user + " 15"@));
    assert(seq![plain].push(ten) =~= seq![plain, ten]);
    assert(seq![plain].push(fifteen) =~= seq![plain, fifteen]);
}

/// An offer of level 1, 2, 3 or 4 is counted once and answered as such; any other
/// offer, or none, is called impossible and not counted.
pub proof fn law_offers_are_counted_and_answered(
    turn: Turn<Text>,
    player: Player,
    offer: Offer<Text>,
    now: u64,
    luck: Luck,
)
    requires
        turn.stage is Enchanting,
        player.enchants_rolled < u64::MAX,
    ensures
        ({
            let o = turn.goes_on(player, Answer::Offered(Some(offer)), now, luck);
            let impossible = "Somehow you rolled an impossible enchant... good for you"@;
            &&& 1 <= offer.level <= 4 ==> {
                &&& o.player.enchants_rolled == player.enchants_rolled + 1
                &&& is_said(
                    o,
                    turn,
                    Player { enchants_rolled: o.player.enchants_rolled, ..player },
                    offer_answer(
                        offer,
                        turn.name,
                        luck.of_three as int,
                        luck.of_four as int,
                        luck.of_five as int,
                    ),
                )
            }
            &&& offer.level <= 0 || 5 <= offer.level ==> is_said(o, turn, player, impossible)
            &&& is_said(
                turn.goes_on(player, Answer::Offered(None), now, luck),
                turn,
                player,
                impossible,
            )
        }),
{
}

/// What is said of an offer of level 1, 2, 3 or 4 that is not fancy, word for
/// word: its name, its level in Roman numerals, its cost and its bookshelves.
pub proof fn law_offers_in_words(
    turn: Turn<Text>,
    player: Player,
    offer: Offer<Text>,
    numeral: Text,
    now: u64,
    luck: Luck,
)
    requires
        turn.stage is Enchanting,
        !offer.special_response,
        offer.level == 1 && numeral == "I"@ || offer.level == 2 && numeral == "II"@ || offer.level
            == 3 && numeral == "III"@ || offer.level == 4 && numeral == "IV"@,
    ensures
        turn.goes_on(player, Answer::Offered(Some(offer)), now, luck).effects == seq![
            Effect::Send(
                line(
                    turn,
                    "You rolled "@ + offer.name + " "@ + numeral + " for "@ + shown(
                        offer.cost as int,
                    ) + " levels with "@ + (shown(offer.bookshelves as int) + if offer.bookshelves
                        == 1 {
                        " bookshelf"@
                    } else {
                        " bookshelves"@
                    }) + "!"@,
                ),
            ),
        ],
{
    law_answers_to_offers(
        offer,
        turn.name,
        luck.of_three as int,
        luck.of_four as int,
        luck.of_five as int,
    );
    law_numerals_and_endings(offer.bookshelves as int);
}

/// The answers that a question can have.
pub open spec fn answers(question: Question<Text>, answer: Answer<Text>) -> bool {
    match question {
        Question::Find(_) => answer is Found,
        Question::TryGreet | Question::HasResponses(_) | Question::OneIn(_) | Question::IsAdmin(_)
        | Question::TryDent => answer is Flag,
        Question::Inspect(_) => answer is Known,
        Question::BetFor(_) | Question::BetAgainst(_) | Question::Fetch(_) => answer is MaybeWords,
        Question::SwapRoll(_) => answer is Roll,
        Question::RollEnchant => answer is Offered,
        Question::CurrentSong => answer is Playing,
        _ => answer is Words,
    }
}

/// After a step, the turn takes `answer` just if its question can have it, and
/// when it is over it does not.
pub open spec fn suits(o: Outcome, answer: Answer<Text>) -> bool {
    match o.next {
        Next::Ask(question) => o.turn.takes(answer) <==> answers(question, answer),
        Next::Done(_) => !o.turn.takes(answer),
    }
}

proof fn lemma_commands_suit(turn: Turn<Text>, player: Player, luck: Luck, answer: Answer<Text>)
    ensures
        suits(turn.performs(player, luck), answer),
{
}

proof fn lemma_calls_suit(
    turn: Turn<Text>,
    player: Player,
    node: Option<CommandNode<Text>>,
    rest: Text,
    now: u64,
    luck: Luck,
    answer: Answer<Text>,
)
    ensures
        suits(turn.found(player, node, rest, now, luck), answer),
{
    let t = Turn { args: rest, ..turn };
    let counted = Player { sent_commands: (player.sent_commands + 1) as u64, ..player };
    match node {
        Some(node) => match node.value {
            CmdValue::Generic(x) => {
                lemma_commands_suit(Turn { command: x, ..t }, counted, luck, answer);
                lemma_commands_suit(Turn { command: rest, ..t }, counted, luck, answer);
            },
            _ => {},
        },
        None => {},
    }
}

proof fn lemma_remarks_suit(
    turn: Turn<Text>,
    player: Player,
    roll: i32,
    luck: Luck,
    answer: Answer<Text>,
)
    ensures
        suits(turn.remarks(player, roll, luck), answer),
{
}

/// A turn takes the answers that its question can have, and no others; when it is
/// over it takes none.
pub proof fn law_turns_take_answers_to_their_questions(
    turn: Turn<Text>,
    player: Player,
    reply: Answer<Text>,
    now: u64,
    luck: Luck,
    answer: Answer<Text>,
)
    requires
        turn.takes(reply),
    ensures
        turn.stage is Finding ==> answers(Question::Find(turn.args), reply),
        suits(turn.goes_on(player, reply, now, luck), answer),
{
    match (turn.stage, reply) {
        (Stage::Finding, Answer::Found { node, rest }) => {
            lemma_calls_suit(turn, player, node, rest, now, luck, answer);
        },
        (Stage::Reviving, _) => {
            lemma_commands_suit(turn, player, luck, answer);
        },
        (Stage::Denting { roll }, _) => {
            lemma_remarks_suit(turn, player, roll, luck, answer);
        },
        (Stage::Risking { roll, .. }, _) => {
            lemma_remarks_suit(turn, player, roll, luck, answer);
        },
        _ => {},
    }
}

/// A turn can take every answer to its question, as long as no number in the
/// record of the player is at its limit, and a roll is below 250 where a remark
/// may be due.
pub proof fn law_turns_are_ready_for_answers(
    turn: Turn<Text>,
    player: Player,
    answer: Answer<Text>,
    luck: Luck,
)
    requires
        turn.takes(answer),
        luck.in_range(),
        player.sent_commands < u64::MAX,
        player.death matches Some(death) ==> death <= u64::MAX - 300,
        player.deaths < u64::MAX,
        player.enchants_rolled < u64::MAX,
        player.files >= i64::MIN + 31,
        turn.stage matches Stage::Rolled { roll } ==> {
            &&& player.tridents_rolled < u64::MAX
            &&& player.rolled_250s < u64::MAX
            &&& 0 <= roll <= u64::MAX - player.trident_acc
        },
        turn.stage matches Stage::Denting { roll } ==> roll < 250,
    ensures
        turn.ready(player, answer, luck),
{
}

} // verus!
