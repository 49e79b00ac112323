//! What holds of a whole turn, from its message to its last answer.
use crate::laws::{answers_left, law_turns_ask_until_they_are_over, law_turns_end, named_command};
use crate::luck::Luck;
use crate::player::Player;
use crate::protocol::{Answer, Next, Question};
use crate::tasks::{law_tasks_are_found_by_name, Task};
use crate::text::Text;
use crate::turn::{law_steps_keep_turns_well_formed, prefix_fits, Outcome, Stage, Turn};
use crate::wire::Command;
use vstd::prelude::*;

verus! {

/// An answer, when it came, and the random numbers that were drawn for it.
pub struct Reply {
    pub answer: Answer<Text>,
    pub now: u64,
    pub luck: Luck,
}

/// How things stand after some answers: at first, the command is asked for.
pub open spec fn after(turn: Turn<Text>, player: Player, replies: Seq<Reply>) -> Outcome
    decreases replies.len(),
{
    if replies.len() == 0 {
        Outcome { turn, player, effects: Seq::empty(), next: Next::Ask(Question::Find(turn.args)) }
    } else {
        let o = after(turn, player, replies.drop_last());
        let r = replies.last();
        o.turn.goes_on(o.player, r.answer, r.now, r.luck)
    }
}

/// The turn can take each of the answers when it comes.
pub open spec fn plays(turn: Turn<Text>, player: Player, replies: Seq<Reply>) -> bool
    decreases replies.len(),
{
    replies.len() == 0 || {
        let o = after(turn, player, replies.drop_last());
        let r = replies.last();
        &&& plays(turn, player, replies.drop_last())
        &&& o.turn.ready(o.player, r.answer, r.luck)
        &&& r.luck.in_range()
    }
}

/// An answer finds a command that may be called as it was.
pub open spec fn finds_command(turn: Turn<Text>, answer: Answer<Text>) -> bool {
    match answer {
        Answer::Found { node: Some(node), .. } => prefix_fits(turn.prefix, node.prefix),
        _ => false,
    }
}

/// A reply finds the command to stop, for a user who may call it and is alive, or
/// comes back with it.
pub open spec fn finds_stop(turn: Turn<Text>, player: Player, reply: Reply) -> bool {
    match reply.answer {
        Answer::Found { node: Some(node), rest } => {
            &&& prefix_fits(turn.prefix, node.prefix)
            &&& !turn.denied(node)
            &&& named_command(node, rest) == Some("meta:stop"@)
            &&& player.death matches Some(death) ==> Player::is_back(
                death,
                reply.luck.rest,
                reply.now,
            )
        },
        _ => false,
    }
}

/// The turn makes a roll of `roll`.
pub open spec fn makes_roll(
    turn: Turn<Text>,
    player: Player,
    replies: Seq<Reply>,
    roll: i32,
) -> bool {
    exists|k: int|
        0 <= k <= replies.len() && (#[trigger] after(turn, player, replies.take(k))).turn.stage
            == (Stage::<Text>::Rolled { roll })
}

/// The roll that a turn is about.
pub open spec fn current_roll(stage: Stage<Text>) -> Option<i32> {
    match stage {
        Stage::Rolled { roll } => Some(roll),
        Stage::Denting { roll } => Some(roll),
        Stage::Risking { roll, .. } => Some(roll),
        _ => None,
    }
}

/// A turn looks its command up once, and can bring its player back just then; no
/// other step can stop the bot.
proof fn lemma_step_order(turn: Turn<Text>, player: Player, r: Reply)
    requires
        turn.takes(r.answer),
    ensures
        ({
            let o = turn.goes_on(player, r.answer, r.now, r.luck);
            &&& o.turn.stage !is Finding
            &&& o.turn.stage is Reviving ==> turn.stage is Finding
            &&& o.next == Next::<Text>::Done(Command::Stop) ==> turn.stage is Finding
                || turn.stage is Reviving
        }),
{
}

/// The first step of a turn, as far as the command to stop goes.
proof fn lemma_first_step(turn: Turn<Text>, player: Player, r: Reply)
    requires
        turn.stage is Finding,
        turn.takes(r.answer),
    ensures
        ({
            let o = turn.goes_on(player, r.answer, r.now, r.luck);
            let revived = o.turn.stage is Reviving && o.turn.command == "meta:stop"@;
            &&& finds_stop(turn, player, r) <==> revived || o.next == Next::<Text>::Done(
                Command::Stop,
            )
        }),
{
    law_tasks_are_found_by_name(Task::Stop);
}

/// The step that follows when the player is back.
proof fn lemma_revived_step(turn: Turn<Text>, player: Player, r: Reply)
    requires
        turn.stage is Reviving,
        turn.takes(r.answer),
    ensures
        turn.goes_on(player, r.answer, r.now, r.luck).next == Next::<Text>::Done(Command::Stop)
            <==> turn.command == "meta:stop"@,
{
    law_tasks_are_found_by_name(Task::Stop);
}

proof fn lemma_course(turn: Turn<Text>, player: Player, replies: Seq<Reply>)
    requires
        turn.stage is Finding,
        plays(turn, player, replies),
        replies.len() > 0,
    ensures
        ({
            let o = after(turn, player, replies);
            &&& o.turn.well_formed()
            &&& o.turn.stage !is Finding
            &&& o.turn.stage is Reviving ==> replies.len() == 1
            &&& o.next is Done <==> o.turn.stage is Over
            &&& replies.len() + answers_left(o.turn.stage) <= 9
            &&& finds_stop(turn, player, replies[0]) <==> {
                ||| o.turn.stage is Reviving && o.turn.command == "meta:stop"@
                ||| o.next == Next::<Text>::Done(Command::Stop)
            }
        }),
    decreases replies.len(),
{
    let before = replies.drop_last();
    let r = replies.last();
    let p = after(turn, player, before);
    if before.len() > 0 {
        lemma_course(turn, player, before);
        assert(before[0] == replies[0]);
    } else {
        lemma_first_step(turn, player, r);
    }
    law_steps_keep_turns_well_formed(p.turn, p.player, r.answer, r.now, r.luck);
    law_turns_ask_until_they_are_over(p.turn, p.player, r.answer, r.now, r.luck);
    law_turns_end(p.turn, p.player, r.answer, r.now, r.luck);
    lemma_step_order(p.turn, p.player, r);
    if p.turn.stage is Reviving {
        lemma_revived_step(p.turn, p.player, r);
    }
}

/// A turn stops the bot just if its message calls the command to stop, by its
/// name or through the internal mapping, with the prefix that it wants, and the
/// user may call it and is alive, or comes back with it.
pub proof fn law_turns_stop_on_the_stop_command_alone(
    turn: Turn<Text>,
    player: Player,
    replies: Seq<Reply>,
)
    requires
        turn.stage is Finding,
        plays(turn, player, replies),
        after(turn, player, replies).next is Done,
    ensures
        replies.len() > 0,
        after(turn, player, replies).next == Next::<Text>::Done(Command::Stop) <==> finds_stop(
            turn,
            player,
            replies[0],
        ),
{
    lemma_course(turn, player, replies);
}

/// A turn takes nine answers at most.
pub proof fn law_whole_turns_are_short(turn: Turn<Text>, player: Player, replies: Seq<Reply>)
    requires
        turn.stage is Finding,
        plays(turn, player, replies),
    ensures
        replies.len() <= 9,
{
    if replies.len() > 0 {
        lemma_course(turn, player, replies);
    }
}

proof fn lemma_later_steps_count_no_command(turn: Turn<Text>, player: Player, r: Reply)
    requires
        turn.stage !is Finding,
        turn.takes(r.answer),
    ensures
        turn.goes_on(player, r.answer, r.now, r.luck).player.sent_commands == player.sent_commands,
        turn.goes_on(player, r.answer, r.now, r.luck).player.sent_messages == player.sent_messages,
{
}

/// A command is counted once in a turn, with the first answer, just if the
/// message calls it with the prefix that it wants. No answer counts a message.
pub proof fn law_commands_are_counted_once(
    turn: Turn<Text>,
    player: Player,
    replies: Seq<Reply>,
)
    requires
        turn.stage is Finding,
        plays(turn, player, replies),
        replies.len() > 0,
    ensures
        after(turn, player, replies).player.sent_commands == player.sent_commands + (
        if finds_command(turn, replies[0].answer) {
            1int
        } else {
            0int
        }),
        after(turn, player, replies).player.sent_messages == player.sent_messages,
    decreases replies.len(),
{
    let before = replies.drop_last();
    if before.len() > 0 {
        law_commands_are_counted_once(turn, player, before);
        lemma_course(turn, player, before);
        let p = after(turn, player, before);
        lemma_later_steps_count_no_command(p.turn, p.player, replies.last());
        assert(before[0] == replies[0]);
    }
}

proof fn lemma_rolls_stay(
    turn: Turn<Text>,
    player: Player,
    before: Seq<Reply>,
    r: Reply,
    roll: i32,
)
    requires
        makes_roll(turn, player, before, roll),
    ensures
        makes_roll(turn, player, before.push(r), roll),
{
    let k = choose|k: int|
        0 <= k <= before.len() && (#[trigger] after(turn, player, before.take(k))).turn.stage == (
        Stage::<Text>::Rolled { roll });
    assert(before.push(r).take(k) =~= before.take(k));
}

/// A step goes on with the roll that the turn is about, or makes one; it takes
/// files for a low roll alone, and then the turn is over.
proof fn lemma_step_roll(turn: Turn<Text>, player: Player, r: Reply)
    requires
        turn.well_formed(),
        turn.ready(player, r.answer, r.luck),
        r.luck.in_range(),
    ensures
        ({
            let o = turn.goes_on(player, r.answer, r.now, r.luck);
            &&& current_roll(o.turn.stage) is Some && !(o.turn.stage is Rolled) ==> current_roll(
                o.turn.stage,
            ) == current_roll(turn.stage)
            &&& o.player.files != player.files ==> {
                &&& 12 <= player.files - o.player.files <= 31
                &&& o.next == Next::<Text>::Done(Command::Continue)
                &&& current_roll(turn.stage) matches Some(roll) && roll < 5
            }
        }),
{
}

proof fn lemma_files(turn: Turn<Text>, player: Player, replies: Seq<Reply>)
    requires
        turn.stage is Finding,
        plays(turn, player, replies),
    ensures
        ({
            let o = after(turn, player, replies);
            &&& current_roll(o.turn.stage) matches Some(roll) ==> makes_roll(
                turn,
                player,
                replies,
                roll,
            )
            &&& o.player.files != player.files ==> {
                &&& 12 <= player.files - o.player.files <= 31
                &&& o.next == Next::<Text>::Done(Command::Continue)
                &&& o.turn.stage is Over
                &&& exists|roll: i32| roll < 5 && #[trigger] makes_roll(turn, player, replies, roll)
            }
        }),
    decreases replies.len(),
{
    if replies.len() > 0 {
        let before = replies.drop_last();
        let r = replies.last();
        let p = after(turn, player, before);
        let o = after(turn, player, replies);
        lemma_files(turn, player, before);
        if before.len() > 0 {
            lemma_course(turn, player, before);
        }
        lemma_course(turn, player, replies);
        lemma_step_roll(p.turn, p.player, r);
        assert(before.push(r) =~= replies);
        match current_roll(p.turn.stage) {
            Some(roll) => lemma_rolls_stay(turn, player, before, r, roll),
            None => {},
        }
        if o.turn.stage is Rolled {
            let roll = current_roll(o.turn.stage)->0;
            assert(replies.take(replies.len() as int) =~= replies);
            assert(after(turn, player, replies.take(replies.len() as int)).turn.stage == (
            Stage::<Text>::Rolled { roll }));
        }
    }
}

/// A turn that has taken answers was not over before the last of them.
proof fn lemma_last_answer(turn: Turn<Text>, player: Player, replies: Seq<Reply>)
    requires
        plays(turn, player, replies),
        replies.len() > 0,
    ensures
        plays(turn, player, replies.drop_last()),
        after(turn, player, replies.drop_last()).turn.stage !is Over,
{
}

#[verifier::spinoff_prover]
#[verifier::rlimit(40)]
proof fn lemma_plays_from_the_start(
    turn: Turn<Text>,
    player: Player,
    replies: Seq<Reply>,
    k: int,
)
    requires
        plays(turn, player, replies),
        0 <= k <= replies.len(),
    ensures
        plays(turn, player, replies.take(k)),
        k < replies.len() ==> after(turn, player, replies.take(k)).turn.stage !is Over,
    decreases replies.len(),
{
    if k == replies.len() {
        assert(replies.take(k) =~= replies);
    } else {
        let before = replies.drop_last();
        lemma_last_answer(turn, player, replies);
        lemma_plays_from_the_start(turn, player, before, k);
        assert(before.take(k) =~= replies.take(k));
        if k == before.len() {
            assert(replies.take(k) =~= before);
        }
    }
}

/// A turn takes files at most once, with its last answer: no fewer than 12 and no
/// more than 31, and only after a roll below 5. It gives none.
pub proof fn law_files_fall_once_on_a_low_roll(
    turn: Turn<Text>,
    player: Player,
    replies: Seq<Reply>,
)
    requires
        turn.stage is Finding,
        plays(turn, player, replies),
    ensures
        ({
            let files = after(turn, player, replies).player.files;
            files == player.files || {
                &&& 12 <= player.files - files <= 31
                &&& after(turn, player, replies).next == Next::<Text>::Done(Command::Continue)
                &&& exists|roll: i32| roll < 5 && #[trigger] makes_roll(turn, player, replies, roll)
            }
        }),
        forall|k: int|
            0 <= k < replies.len() ==> (#[trigger] after(
                turn,
                player,
                replies.take(k),
            )).player.files == player.files,
{
    lemma_files(turn, player, replies);
    assert forall|k: int| 0 <= k < replies.len() implies (#[trigger] after(
        turn,
        player,
        replies.take(k),
    )).player.files == player.files by {
        lemma_plays_from_the_start(turn, player, replies, k);
        lemma_files(turn, player, replies.take(k));
    }
}

} // verus!
