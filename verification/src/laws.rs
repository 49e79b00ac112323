//! What holds of every step of a turn.
use crate::define::{ruling, Ruling};
use crate::luck::Luck;
use crate::player::{Player, DEATH_SECONDS};
use crate::protocol::{Answer, CmdValue, CommandNode, Effect, Next, Question};
use crate::tasks::{law_tasks_are_found_by_name, task_of, Task};
use crate::text::{replaced, Text};
use crate::trident::{law_hazards_are_tried_in_order, Hazard};
use crate::turn::{prefix_fits, Fill, Outcome, Stage, Turn, COMMANDS_FILE, DENIED};
use crate::wire::{chat_line, Command};
use vstd::prelude::*;

verus! {

/// How many answers a turn can still take at most.
pub open spec fn answers_left(stage: Stage<Text>) -> nat {
    match stage {
        Stage::Over => 0,
        Stage::Filling { .. } => 1,
        Stage::Defining { .. } => 1,
        Stage::AdminStatus => 1,
        Stage::Relaying => 1,
        Stage::Insisting => 1,
        Stage::Betting => 1,
        Stage::Ending => 1,
        Stage::Quoting => 1,
        Stage::Boasting => 1,
        Stage::Enchanting => 1,
        Stage::Listening => 1,
        Stage::Naming => 2,
        Stage::AnyGreeting => 2,
        Stage::OwnGreeting => 3,
        Stage::Greeting => 4,
        Stage::Risking { hazard, .. } => hazard.left() + 1,
        Stage::Denting { .. } => 6,
        Stage::Rolled { .. } => 7,
        Stage::Reviving => 8,
        Stage::Finding => 9,
    }
}

/// Every answer brings a turn nearer to its end: nine at most are taken.
pub proof fn law_turns_end(
    turn: Turn<Text>,
    player: Player,
    answer: Answer<Text>,
    now: u64,
    luck: Luck,
)
    requires
        turn.well_formed(),
        turn.takes(answer),
    ensures
        answers_left(turn.goes_on(player, answer, now, luck).turn.stage) < answers_left(turn.stage),
{
    match turn.stage {
        Stage::Denting { roll } => {
            law_hazards_are_tried_in_order(Hazard::Penalty, roll, turn.user);
        },
        Stage::Risking { roll, hazard } => {
            law_hazards_are_tried_in_order(hazard, roll, turn.user);
        },
        _ => {},
    }
}

/// A turn is over just when it says so, and otherwise it asks a question.
pub proof fn law_turns_ask_until_they_are_over(
    turn: Turn<Text>,
    player: Player,
    answer: Answer<Text>,
    now: u64,
    luck: Luck,
)
    requires
        turn.takes(answer),
    ensures
        turn.goes_on(player, answer, now, luck).next is Done <==> turn.goes_on(
            player,
            answer,
            now,
            luck,
        ).turn.stage is Over,
{
}

/// Nothing but the command to stop stops the bot.
pub proof fn law_only_the_stop_command_stops(
    turn: Turn<Text>,
    player: Player,
    answer: Answer<Text>,
    now: u64,
    luck: Luck,
)
    requires
        turn.takes(answer),
        turn.goes_on(player, answer, now, luck).next == Next::<Text>::Done(Command::Stop),
    ensures
        turn.goes_on(player, answer, now, luck).turn.command == "meta:stop"@,
{
}

/// The built-in command that a call of `node` with `rest` names, if it names
/// one: the one that the node stands for, or what follows, if the node stands for
/// the internal mapping.
pub open spec fn named_command(node: CommandNode<Text>, rest: Text) -> Option<Text> {
    match node.value {
        CmdValue::Generic(x) => Some(
            if x == "debug:use_internal_mapping"@ {
                rest
            } else {
                x
            },
        ),
        _ => None,
    }
}

/// The command to stop does stop the bot, for a living player who may call it,
/// whether it is called by a command of its own or through the internal mapping.
pub proof fn law_the_stop_command_stops(
    turn: Turn<Text>,
    player: Player,
    node: CommandNode<Text>,
    rest: Text,
    now: u64,
    luck: Luck,
)
    requires
        prefix_fits(turn.prefix, node.prefix),
        !turn.denied(node),
        named_command(node, rest) == Some("meta:stop"@),
        player.death is None,
    ensures
        turn.found(player, Some(node), rest, now, luck).next == Next::<Text>::Done(Command::Stop),
{
    law_tasks_are_found_by_name(Task::Stop);
}

/// The command to stop also stops the bot for a dead player who comes back with
/// it: the turn asks for words of welcome, and once it has them, they are said
/// and the bot stops.
pub proof fn law_the_stop_command_stops_for_those_who_come_back(
    turn: Turn<Text>,
    player: Player,
    node: CommandNode<Text>,
    rest: Text,
    now: u64,
    luck: Luck,
    player_later: Player,
    welcome: Text,
    later: u64,
    luck_later: Luck,
)
    requires
        prefix_fits(turn.prefix, node.prefix),
        !turn.denied(node),
        named_command(node, rest) == Some("meta:stop"@),
        player.death matches Some(death) && Player::is_back(death, luck.rest, now),
    ensures
        ({
            let first = turn.found(player, Some(node), rest, now, luck);
            let second = first.turn.goes_on(
                player_later,
                Answer::Words(welcome),
                later,
                luck_later,
            );
            &&& first.turn.stage is Reviving
            &&& first.player.death is None
            &&& first.next == Next::Ask(
                Question::DbResponse { name: "RESURRECTION"@, collection: "deaths"@ },
            )
            &&& second.effects == seq![turn.say(replaced(welcome, "{ur}"@, turn.name))]
            &&& second.next == Next::<Text>::Done(Command::Stop)
        }),
{
    law_tasks_are_found_by_name(Task::Stop);
    let first = turn.found(player, Some(node), rest, now, luck);
    assert(first.turn.command == "meta:stop"@);
    let said = seq![turn.say(replaced(welcome, "{ur}"@, turn.name))];
    assert(said + Seq::<Effect<Text>>::empty() =~= said);
}

/// A command for administrators does nothing for anyone else, and one for the
/// owner alone does nothing for other administrators: the user is told off, the
/// call is counted, and that is all.
pub proof fn law_the_unauthorised_are_told_off(
    turn: Turn<Text>,
    player: Player,
    node: CommandNode<Text>,
    rest: Text,
    now: u64,
    luck: Luck,
)
    requires
        prefix_fits(turn.prefix, node.prefix),
        node.admin_only,
        !turn.is_admin || node.super_only && turn.user != turn.superuser,
    ensures
        ({
            let o = turn.found(player, Some(node), rest, now, luck);
            &&& o.effects == seq![turn.say(DENIED@)]
            &&& o.next == Next::<Text>::Done(Command::Continue)
            &&& o.player == Player {
                sent_commands: (player.sent_commands + 1) as u64,
                ..player
            }
        }),
{
}

/// A command whose prefix is another than that of the message is left alone:
/// nothing is done, said or counted. The one exception is a command of prefix `^`
/// that is called without any.
pub proof fn law_other_prefixes_are_ignored(
    turn: Turn<Text>,
    player: Player,
    node: CommandNode<Text>,
    rest: Text,
    now: u64,
    luck: Luck,
)
    requires
        turn.prefix != node.prefix,
        turn.prefix.len() > 0 || node.prefix != "^"@,
    ensures
        ({
            let o = turn.found(player, Some(node), rest, now, luck);
            &&& o.effects.len() == 0
            &&& o.next == Next::<Text>::Done(Command::Continue)
            &&& o.player == player
        }),
{
}

/// Whether a turn is about a greeting.
pub open spec fn is_greeting(stage: Stage<Text>) -> bool {
    stage is Greeting || stage is OwnGreeting || stage is AnyGreeting
}

/// A message without a command gets a greeting or nothing: the turn does
/// nothing until it has a greeting to say, and changes nothing of the player.
pub proof fn law_messages_without_commands_get_greetings(
    turn: Turn<Text>,
    player: Player,
    answer: Answer<Text>,
    now: u64,
    luck: Luck,
)
    requires
        turn.takes(answer),
        is_greeting(turn.stage) || (answer matches Answer::Found { node, .. } && node is None),
    ensures
        ({
            let o = turn.goes_on(player, answer, now, luck);
            &&& o.effects.len() == 0
            &&& o.player == player
            &&& is_greeting(o.turn.stage) || o.turn.stage == (Stage::Filling {
                name: turn.name,
                fill: Fill::Name,
            }) || o.next == Next::<Text>::Done(Command::Continue)
        }),
{
}

/// The dead do nothing: until the fixed seconds are over, a built-in command
/// of a dead player does nothing and changes nothing, and the turn is over with
/// what is said to the player about it.
pub proof fn law_the_dead_do_nothing(turn: Turn<Text>, player: Player, now: u64, luck: Luck)
    requires
        player.death matches Some(death) && now <= death + DEATH_SECONDS,
    ensures
        ({
            let o = turn.runs(player, now, luck);
            &&& o.effects.len() == 0
            &&& o.player == player
            &&& o.turn.stage is Filling
        }),
{
}

/// No one stays dead for ever: once the longest rest is over, the next built-in
/// command brings the player back.
pub proof fn law_the_dead_come_back(turn: Turn<Text>, player: Player, now: u64, luck: Luck)
    requires
        luck.in_range(),
        player.death matches Some(death) && now > death + DEATH_SECONDS + 270,
    ensures
        turn.runs(player, now, luck).player == (Player { death: None, ..player }),
        turn.runs(player, now, luck).turn.stage is Reviving,
{
}

/// A line of the bot says something in `channel`.
pub open spec fn speaks_in(e: Effect<Text>, channel: Text) -> bool {
    match e {
        Effect::Send(line) => exists|text: Text| line == #[trigger] chat_line(text, channel),
        Effect::Insist(line) => exists|text: Text| line == #[trigger] chat_line(text, channel),
        _ => true,
    }
}

/// Every line among the effects says something in `channel`.
pub open spec fn all_speak_in(effects: Seq<Effect<Text>>, channel: Text) -> bool {
    forall|i: int| 0 <= i < effects.len() ==> speaks_in(#[trigger] effects[i], channel)
}

/// The bot speaks in its own channel alone, unless it is told to send a line
/// as it is.
pub proof fn law_the_bot_keeps_to_its_channel(
    turn: Turn<Text>,
    player: Player,
    answer: Answer<Text>,
    now: u64,
    luck: Luck,
)
    requires
        turn.takes(answer),
        task_of(turn.goes_on(player, answer, now, luck).turn.command) != Task::SayRaw,
    ensures
        all_speak_in(turn.goes_on(player, answer, now, luck).effects, turn.channel),
{
}

/// A turn stays with its user, its channel and their standing, and with the
/// message; once it has found its command, with that and what follows it, too.
pub proof fn law_turns_keep_their_user(
    turn: Turn<Text>,
    player: Player,
    answer: Answer<Text>,
    now: u64,
    luck: Luck,
)
    requires
        turn.takes(answer),
    ensures
        ({
            let t = turn.goes_on(player, answer, now, luck).turn;
            &&& t.user == turn.user
            &&& t.name == turn.name
            &&& t.channel == turn.channel
            &&& t.superuser == turn.superuser
            &&& t.is_admin == turn.is_admin
            &&& t.autosave == turn.autosave
            &&& t.prefix == turn.prefix
            &&& t.cmd_name == turn.cmd_name
            &&& turn.stage !is Finding ==> t.args == turn.args && t.command == turn.command
            &&& answer matches Answer::Found { rest, .. } ==> t.args == rest
        }),
{
}

/// The counts of a player never fall, a step counts at most one command, and
/// files are lost to a low roll alone: no more than 31, and no fewer than 12.
pub proof fn law_counts_never_fall(
    turn: Turn<Text>,
    player: Player,
    answer: Answer<Text>,
    now: u64,
    luck: Luck,
)
    requires
        turn.ready(player, answer, luck),
        luck.in_range(),
    ensures
        ({
            let p = turn.goes_on(player, answer, now, luck).player;
            &&& p.sent_messages == player.sent_messages
            &&& player.sent_commands <= p.sent_commands <= player.sent_commands + 1
            &&& p.deaths >= player.deaths
            &&& p.tridents_rolled >= player.tridents_rolled
            &&& p.max_trident >= player.max_trident
            &&& p.trident_acc >= player.trident_acc
            &&& p.rolled_250s >= player.rolled_250s
            &&& p.enchants_rolled >= player.enchants_rolled
            &&& p.files == player.files || {
                &&& turn.stage matches Stage::Risking { hazard, .. } && hazard == Hazard::Penalty
                &&& 12 <= player.files - p.files <= 31
            }
        }),
{
}

/// A roll is counted once: the step that learns of the roll before counts this
/// one, and no other step touches the record of rolls.
pub proof fn law_rolls_are_counted_once(
    turn: Turn<Text>,
    player: Player,
    answer: Answer<Text>,
    now: u64,
    luck: Luck,
)
    requires
        turn.ready(player, answer, luck),
    ensures
        ({
            let p = turn.goes_on(player, answer, now, luck).player;
            match turn.stage {
                Stage::Rolled { roll } => p.tridents_rolled == player.tridents_rolled + 1
                    && p.trident_acc == player.trident_acc + Player::score(roll) && p.rolled_250s
                    == player.rolled_250s + (if roll == 250 {
                    1int
                } else {
                    0int
                }),
                _ => p.tridents_rolled == player.tridents_rolled && p.trident_acc
                    == player.trident_acc && p.max_trident == player.max_trident && p.rolled_250s
                    == player.rolled_250s,
            }
        }),
{
}

/// A perfect roll comes first, whatever else it may be: it is counted as one,
/// and gets a remark of its own kind.
pub proof fn law_perfect_rolls_come_first(turn: Turn<Text>, player: Player, previous: i32)
    requires
        player.can_add(250),
    ensures
        ({
            let o = turn.rolled(player, 250, previous);
            &&& o.next == Next::Ask(Question::Response("TRIDENT_VALUE_250"@))
            &&& o.turn.stage == (Stage::Filling { name: turn.name, fill: Fill::Roll(250) })
            &&& o.player.rolled_250s == player.rolled_250s + 1
        }),
{
}

/// A roll that the bot draws itself lies between 0 and 250.
pub proof fn law_drawn_rolls_are_in_range(turn: Turn<Text>, player: Player, luck: Luck)
    requires
        luck.in_range(),
        turn.command == "feature:trident"@,
        turn.user != "desktopfolder"@,
    ensures
        turn.performs(player, luck).next matches Next::Ask(Question::SwapRoll(roll)) && 0 <= roll
            <= 250,
{
    law_tasks_are_found_by_name(Task::Trident);
}

/// Whether an effect changes the commands that the bot knows.
pub open spec fn changes_commands(e: Effect<Text>) -> bool {
    e is SetValue || e is SetPrefix || e is InsertCommand || e is ReloadCommands
}

/// The commands change in two ways alone. A definition changes them as it is
/// ruled on: the response and the prefix of a command that may be edited, or a
/// new command. The command to reload them reads them all from their file.
pub proof fn law_commands_change_by_definition_or_reload(
    turn: Turn<Text>,
    player: Player,
    answer: Answer<Text>,
    now: u64,
    luck: Luck,
    i: int,
)
    requires
        turn.takes(answer),
        0 <= i < turn.goes_on(player, answer, now, luck).effects.len(),
        changes_commands(turn.goes_on(player, answer, now, luck).effects[i]),
    ensures
        ({
            let o = turn.goes_on(player, answer, now, luck);
            match (turn.stage, answer, o.effects[i]) {
                (
                    Stage::Defining { definition, edit },
                    Answer::Known(known),
                    Effect::SetValue { key, response },
                ) => key == definition.key && response == definition.response && ruling(edit, known)
                    == Ruling::Update,
                (
                    Stage::Defining { definition, edit },
                    Answer::Known(known),
                    Effect::SetPrefix { key, prefix },
                ) => key == definition.key && prefix == definition.prefix && ruling(edit, known)
                    == Ruling::Update,
                (
                    Stage::Defining { definition, edit },
                    Answer::Known(known),
                    Effect::InsertCommand { key, response, prefix },
                ) => key == definition.key && response == definition.response && prefix
                    == definition.prefix && ruling(edit, known) == Ruling::Insert,
                (_, _, Effect::ReloadCommands(file)) => file == COMMANDS_FILE@ && task_of(
                    o.turn.command,
                ) == Task::ReloadCommands,
                _ => false,
            }
        }),
{
}

} // verus!
