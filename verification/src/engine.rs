//! The steps of a turn, carried out.
use crate::define::{read_definition, rule, Definition, Inspection, Ruling};
use crate::enchant::{answer_offer, Offer, IMPOSSIBLE};
use crate::luck::Luck;
use crate::odds::answer_odds;
use crate::player::{Player, DEATH_SECONDS};
use crate::protocol::{
    and_then, effects_view, just, node_view, nothing, offer_view, preceded_by, Answer, CmdValue,
    CommandNode, Effect, Next, Question, Step,
};
use crate::song::song_message;
use crate::tasks::{classify, Task};
use crate::text::{
    find_char, join3, replace, same, show_bool, show_u64, to_lowercase, trim, Text,
};
use crate::trident::{
    norm_fmt, notable, pac_remark, penalty, pick_remark, plain, settle_roll, timeout, Hazard, Remark,
};
use crate::turn::{
    law_steps_keep_turns_well_formed, nick_request, own_greetings, prefix_fits, quote, started,
    status_text, Fill, Outcome, Stage, Turn, COMMANDS_FILE, COMMANDS_TEST_FILE, DENIED, EXISTS, HELP,
    IS_GENERIC, LOWERING, NOT_EDITABLE, RSG_BROKEN, RSG_PAGE, THWARTED, TOO_FEW,
};
use crate::wire::{Command, TwitchFmt};
use vstd::prelude::*;

verus! {

/// A turn, its player and a step of it are as `o` says.
pub open spec fn realizes(turn: Turn<String>, player: Player, step: Step, o: Outcome) -> bool {
    &&& turn@ == o.turn
    &&& player == o.player
    &&& effects_view(step.effects@) == o.effects
    &&& step.next@ == o.next
}

/// A turn that was `before`, with a player who was `was`, has taken an answer if
/// it could, and otherwise nothing has changed.
pub open spec fn moves(
    before: Turn<Text>,
    was: Player,
    answer: Answer<Text>,
    now: u64,
    luck: Luck,
    turn: Turn<String>,
    player: Player,
    step: Option<Step>,
) -> bool {
    match step {
        Some(step) => before.ready(was, answer, luck) && realizes(
            turn,
            player,
            step,
            before.goes_on(was, answer, now, luck),
        ),
        None => !before.ready(was, answer, luck) && turn@ == before && player == was,
    }
}

fn status(user: &str, holds: bool) -> (r: String)
    ensures
        r@ == status_text(user@, holds),
{
    let mut s = join3("Status of ", user, ": ");
    s.append(show_bool(holds));
    s
}

fn greetings(user: &str) -> (r: String)
    ensures
        r@ == own_greetings(user@),
{
    let mut s = "USER_GREET_".to_owned();
    s.append(user);
    s
}

fn deaths(name: &str) -> (r: Question<String>)
    ensures
        r@ == (Question::DbResponse { name: name@, collection: "deaths"@ }),
{
    Question::DbResponse { name: name.to_owned(), collection: "deaths".to_owned() }
}

fn pool(name: &str) -> (r: Question<String>)
    ensures
        r@ == Question::Response(name@),
{
    Question::Response(name.to_owned())
}

fn quoted(page: &str) -> (r: &str)
    ensures
        r@ == quote(page@),
{
    if page.as_bytes().len() > 100 {
        RSG_BROKEN
    } else {
        page
    }
}

fn split_nick(args: &str) -> (r: Option<(String, String)>)
    ensures
        match r {
            Some(n) => nick_request(args@) == Some((n.0@, n.1@)),
            None => nick_request(args@) is None,
        },
{
    let n: usize = args.unicode_len();
    let i: usize = find_char(args, '|');
    if i == n {
        None
    } else {
        assert(args@.subrange(0, i as int) =~= args@.take(i as int));
        assert(args@.subrange(i + 1, n as int) =~= args@.skip(i + 1));
        Some((args.substring_char(0, i).to_owned(), args.substring_char(i + 1, n).to_owned()))
    }
}

impl Turn<String> {
    fn says(&self, text: &str) -> (r: Effect<String>)
        ensures
            r@ == self@.say(text@),
    {
        Effect::Send(TwitchFmt::privmsg(text, self.channel.as_str()).0)
    }

    fn insists(&self, text: &str) -> (r: Effect<String>)
        ensures
            r@ == self@.insist(text@),
    {
        Effect::Insist(TwitchFmt::privmsg(text, self.channel.as_str()).0)
    }

    fn fits(&self, node: &CommandNode<String>) -> (r: bool)
        ensures
            r == prefix_fits(self@.prefix, node@.prefix),
    {
        self.prefix == node.prefix || self.prefix.as_str().is_empty() && same(
            node.prefix.as_str(),
            "^",
        )
    }

    fn denies(&self, node: &CommandNode<String>) -> (r: bool)
        ensures
            r == self@.denied(node@),
    {
        node.admin_only && (node.super_only && self.user != self.superuser || !self.is_admin)
    }

    fn end(&mut self, effects: Vec<Effect<String>>, command: Command) -> (r: Step)
        ensures
            final(self)@ == old(self)@.at(Stage::Over),
            effects_view(r.effects@) == effects_view(effects@),
            r.next@ == Next::<Text>::Done(command),
    {
        self.stage = Stage::Over;
        Step { effects, next: Next::Done(command) }
    }

    fn finish(&mut self, effects: Vec<Effect<String>>) -> (r: Step)
        ensures
            final(self)@ == old(self)@.at(Stage::Over),
            effects_view(r.effects@) == effects_view(effects@),
            r.next@ == Next::<Text>::Done(Command::Continue),
    {
        self.stage = Stage::Over;
        Step { effects, next: Next::Done(Command::Continue) }
    }

    fn ask(
        &mut self,
        effects: Vec<Effect<String>>,
        question: Question<String>,
        stage: Stage<String>,
    ) -> (r: Step)
        ensures
            final(self)@ == old(self)@.at(stage@),
            effects_view(r.effects@) == effects_view(effects@),
            r.next@ == Next::Ask(question@),
    {
        self.stage = stage;
        Step { effects, next: Next::Ask(question) }
    }

    fn wonder(&mut self, question: Question<String>, stage: Stage<String>) -> (r: Step)
        ensures
            final(self)@ == old(self)@.at(stage@),
            effects_view(r.effects@) == Seq::<Effect<Text>>::empty(),
            r.next@ == Next::Ask(question@),
    {
        self.stage = stage;
        Step { effects: nothing(), next: Next::Ask(question) }
    }

    fn respond(&mut self, question: Question<String>, fill: Fill) -> (r: Step)
        ensures
            final(self)@ == old(self)@.at(Stage::Filling { name: old(self)@.name, fill }),
            effects_view(r.effects@) == Seq::<Effect<Text>>::empty(),
            r.next@ == Next::Ask(question@),
    {
        let name = self.name.clone();
        self.wonder(question, Stage::Filling { name, fill })
    }

    fn fill_in(&self, template: &str, name: &str, fill: Fill, rolled: u64) -> (r: String)
        ensures
            r@ == self@.filled(template@, name@, fill, rolled),
    {
        proof {
            reveal_strlit("{ur}");
            reveal_strlit("{m.com}");
        }
        match fill {
            Fill::Name => replace(template, "{ur}", name),
            Fill::Command => replace(
                replace(template, "{ur}", name).as_str(),
                "{m.com}",
                self.cmd_name.as_str(),
            ),
            Fill::Roll(roll) => norm_fmt(template, name, roll, rolled),
        }
    }

    fn define(&mut self, player: &Player, edit: bool) -> (r: Step)
        ensures
            realizes(*final(self), *player, r, old(self)@.defines(*player, edit)),
    {
        match read_definition(self.args.as_str()) {
            None => {
                let effects = just(self.says(THWARTED));
                self.finish(effects)
            },
            Some(definition) => {
                let effects = if definition.lowered {
                    just(self.says(LOWERING))
                } else {
                    nothing()
                };
                let question = Question::Inspect(definition.key.clone());
                self.ask(effects, question, Stage::Defining { definition, edit })
            },
        }
    }

    fn perform(&mut self, player: &Player, luck: &Luck) -> (r: Step)
        ensures
            realizes(*final(self), *player, r, old(self)@.performs(*player, *luck)),
    {
        match classify(self.command.as_str()) {
            Task::Insert => self.define(player, false),
            Task::Edit => self.define(player, true),
            Task::IsAdmin => {
                let question = Question::IsAdmin(self.args.clone());
                self.wonder(question, Stage::AdminStatus)
            },
            Task::IsSuper => {
                let text = status(self.args.as_str(), self.superuser == self.args);
                let effects = just(self.insists(text.as_str()));
                self.finish(effects)
            },
            Task::Help => {
                let effects = just(self.insists(HELP));
                self.finish(effects)
            },
            Task::Stop => self.end(nothing(), Command::Stop),
            Task::PlayerData => {
                let question = Question::Describe {
                    player: to_lowercase(self.args.as_str()),
                    otherwise: self.user.clone(),
                };
                self.wonder(question, Stage::Insisting)
            },
            Task::Say => {
                let effects = just(self.says(self.args.as_str()));
                self.finish(effects)
            },
            Task::SayRaw => {
                let effects = just(Effect::Send(TwitchFmt::text(self.args.as_str()).0));
                self.finish(effects)
            },
            Task::ReloadCommands => self.finish(
                just(Effect::ReloadCommands(COMMANDS_FILE.to_owned())),
            ),
            Task::SaveCommandsTest => self.finish(
                just(Effect::DumpCommands(COMMANDS_TEST_FILE.to_owned())),
            ),
            Task::SaveCommands => self.finish(just(Effect::DumpCommands(COMMANDS_FILE.to_owned()))),
            Task::BetFor => {
                let question = Question::BetFor(self.args.clone());
                self.wonder(question, Stage::Betting)
            },
            Task::BetAgainst => {
                let question = Question::BetAgainst(self.args.clone());
                self.wonder(question, Stage::Betting)
            },
            Task::Failed => self.wonder(Question::GameFailed, Stage::Ending),
            Task::Worked => self.wonder(Question::GameWorked, Stage::Ending),
            Task::Status => {
                let whose = if self.args.as_str().is_empty() {
                    self.user.clone()
                } else {
                    self.args.clone()
                };
                self.wonder(Question::GameStatus(whose), Stage::Relaying)
            },
            Task::ReloadGame => self.finish(just(Effect::ReloadGame)),
            Task::SaveGame => self.finish(just(Effect::SaveGame)),
            Task::Autosave => self.finish(just(Effect::EnableAutosave)),
            Task::Rsg => self.wonder(Question::Fetch(RSG_PAGE.to_owned()), Stage::Quoting),
            Task::TridentPb => {
                let text = join3(
                    self.user.as_str(),
                    "'s trident pb is: ",
                    show_u64(player.max_trident).as_str(),
                );
                let effects = just(self.says(text.as_str()));
                self.finish(effects)
            },
            Task::TridentLb => self.wonder(Question::Leaderboard, Stage::Boasting),
            Task::Trident => {
                let roll: i32 = settle_roll(self.user.as_str(), self.args.as_str(), luck.roll);
                self.wonder(Question::SwapRoll(roll), Stage::Rolled { roll })
            },
            Task::TridentChance => {
                let wanted = trim(self.args.as_str());
                let effects = if wanted.as_str().is_empty() {
                    nothing()
                } else {
                    just(self.says(answer_odds(wanted.as_str(), self.name.as_str()).as_str()))
                };
                self.finish(effects)
            },
            Task::Enchant => self.wonder(Question::RollEnchant, Stage::Enchanting),
            Task::Nick => {
                let effects = if self.args.as_str().is_empty() {
                    nothing()
                } else {
                    just(Effect::SetNick(self.args.clone()))
                };
                self.ask(effects, Question::Name, Stage::Naming)
            },
            Task::AdminNick => {
                let effects = match split_nick(self.args.as_str()) {
                    None => just(self.says(TOO_FEW)),
                    Some((player, nick)) => just(Effect::SetPlayerNick { player, nick }),
                };
                self.finish(effects)
            },
            Task::Elo => {
                let question = Question::Elo(self.args.clone());
                self.wonder(question, Stage::Relaying)
            },
            Task::PlayAudio => self.finish(just(Effect::PlayAudio)),
            Task::GetSong => self.wonder(Question::CurrentSong, Stage::Listening),
            Task::Cancel => self.finish(just(Effect::StopAudio)),
            Task::Unknown => self.finish(nothing()),
        }
    }

    fn run(&mut self, player: &mut Player, now: u64, luck: &Luck) -> (r: Step)
        requires
            old(player).death matches Some(t) ==> t + DEATH_SECONDS + luck.rest <= u64::MAX,
        ensures
            realizes(
                *final(self),
                *final(player),
                r,
                old(self)@.runs(*old(player), now, *luck),
            ),
    {
        match player.death {
            None => self.perform(player, luck),
            Some(death) => if Player::returned(death, luck.rest, now) {
                player.death = None;
                self.wonder(deaths("RESURRECTION"), Stage::Reviving)
            } else if same(self.command.as_str(), "feature:trident") {
                self.respond(deaths("DEAD_TRIDENT_ATTEMPT"), Fill::Name)
            } else {
                self.respond(deaths("DEAD_COMMAND_ATTEMPT"), Fill::Command)
            },
        }
    }

    fn call(
        &mut self,
        player: &mut Player,
        node: CommandNode<String>,
        now: u64,
        luck: &Luck,
    ) -> (r: Step)
        requires
            !old(self)@.denied(node@) && node@.value is Generic ==> (old(player).death matches Some(
                t,
            ) ==> t + DEATH_SECONDS + luck.rest <= u64::MAX),
        ensures
            realizes(
                *final(self),
                *final(player),
                r,
                old(self)@.called(*old(player), node@, now, *luck),
            ),
    {
        if self.denies(&node) {
            let effects = just(self.says(DENIED));
            return self.finish(effects);
        }
        match node.value {
            CmdValue::StringResponse(x) => {
                let effects = just(self.says(x.as_str()));
                let effects = if node.sound.as_str().is_empty() {
                    effects
                } else {
                    and_then(effects, Effect::PlaySound(node.sound))
                };
                self.finish(effects)
            },
            CmdValue::Alias(_) => self.finish(nothing()),
            CmdValue::Generic(x) => {
                if same(x.as_str(), "debug:use_internal_mapping") {
                    self.command = self.args.clone();
                } else {
                    self.command = x;
                }
                self.run(player, now, luck)
            },
        }
    }

    fn find(
        &mut self,
        player: &mut Player,
        node: Option<CommandNode<String>>,
        rest: String,
        now: u64,
        luck: &Luck,
    ) -> (r: Step)
        requires
            old(self)@.ready(
                *old(player),
                Answer::Found { node: node_view(node), rest: rest@ },
                *luck,
            ),
        ensures
            realizes(
                *final(self),
                *final(player),
                r,
                old(self)@.found(
                    *old(player),
                    node_view(node),
                    rest@,
                    now,
                    *luck,
                ),
            ),
    {
        self.args = rest;
        match node {
            None => self.wonder(Question::TryGreet, Stage::Greeting),
            Some(node) => if !self.fits(&node) {
                self.finish(nothing())
            } else {
                player.sent_commands = player.sent_commands + 1;
                self.call(player, node, now, luck)
            },
        }
    }

    fn decide(
        &mut self,
        player: &Player,
        definition: &Definition<String>,
        edit: bool,
        known: Inspection,
    ) -> (r: Step)
        ensures
            realizes(
                *final(self),
                *player,
                r,
                old(self)@.decided(*player, definition@, edit, known),
            ),
    {
        let effects = match rule(edit, known) {
            Ruling::NotEditable => just(self.says(NOT_EDITABLE)),
            Ruling::Exists => just(self.says(EXISTS)),
            Ruling::IsGeneric => just(self.says(IS_GENERIC)),
            Ruling::Update => {
                let value = Effect::SetValue {
                    key: definition.key.clone(),
                    response: definition.response.clone(),
                };
                let prefix = Effect::SetPrefix {
                    key: definition.key.clone(),
                    prefix: definition.prefix.clone(),
                };
                and_then(
                    and_then(just(value), prefix),
                    Effect::DumpCommands(COMMANDS_FILE.to_owned()),
                )
            },
            Ruling::Insert => {
                let command = Effect::InsertCommand {
                    key: definition.key.clone(),
                    response: definition.response.clone(),
                    prefix: definition.prefix.clone(),
                };
                and_then(just(command), Effect::DumpCommands(COMMANDS_FILE.to_owned()))
            },
        };
        self.finish(effects)
    }

    fn roll(&mut self, player: &mut Player, roll: i32, previous: i32) -> (r: Step)
        requires
            old(player).can_add(roll),
        ensures
            realizes(
                *final(self),
                *final(player),
                r,
                old(self)@.rolled(*old(player), roll, previous),
            ),
    {
        let best = player.note_roll(roll);
        match notable(player, best, roll, previous) {
            Some(name) => {
                if roll == 250 {
                    player.rolled_250s = player.rolled_250s + 1;
                }
                self.respond(pool(name), Fill::Roll(roll))
            },
            None => self.wonder(Question::TryDent, Stage::Denting { roll }),
        }
    }

    fn remark(&mut self, player: &Player, roll: i32, luck: &Luck) -> (r: Step)
        requires
            roll < 250 || luck.selection >= 77,
        ensures
            realizes(*final(self), *player, r, old(self)@.remarks(*player, roll, *luck)),
    {
        match pick_remark(luck.selection, roll) {
            Remark::Plain => {
                let remark = plain(
                    roll,
                    self.name.as_str(),
                    luck.of_four,
                    luck.of_five,
                    luck.of_seven,
                );
                let effects = just(self.says(remark.as_str()));
                let effects = match timeout(roll, self.user.as_str()) {
                    Some(text) => {
                        let silence = self.says(text.as_str());
                        and_then(effects, silence)
                    },
                    None => effects,
                };
                self.finish(effects)
            },
            Remark::RarePool => self.respond(pool("MISC_RARE_TRIDENTS"), Fill::Roll(roll)),
            Remark::LowPool => self.respond(pool("MISC_LOW_TRIDENTS"), Fill::Roll(roll)),
            Remark::Rare => {
                let question = Question::RareTrident {
                    roll,
                    rarity: luck.rarity,
                    name: self.name.clone(),
                };
                self.wonder(question, Stage::Relaying)
            },
        }
    }

    fn risk(&mut self, player: &Player, roll: i32, hazard: Option<Hazard>, luck: &Luck) -> (r: Step)
        requires
            roll < 250 || luck.selection >= 77,
        ensures
            realizes(*final(self), *player, r, old(self)@.risks(*player, roll, hazard, *luck)),
    {
        match hazard {
            Some(hazard) => self.wonder(
                Question::OneIn(hazard.one_in()),
                Stage::Risking { roll, hazard },
            ),
            None => self.remark(player, roll, luck),
        }
    }

    fn suffer(
        &mut self,
        player: &mut Player,
        roll: i32,
        hazard: Hazard,
        now: u64,
        luck: &Luck,
    ) -> (r: Step)
        requires
            hazard == Hazard::Penalty ==> i64::MIN <= old(player).files - luck.deduction
                <= i64::MAX,
            hazard == Hazard::LowDeath || hazard == Hazard::HighDeath ==> old(player).deaths
                < u64::MAX,
        ensures
            realizes(
                *final(self),
                *final(player),
                r,
                old(self)@.suffers(*old(player), roll, hazard, now, *luck),
            ),
    {
        match hazard {
            Hazard::Penalty => {
                let text = penalty(
                    self.name.as_str(),
                    roll,
                    player.tridents_rolled,
                    luck.deduction,
                );
                player.files = player.files - luck.deduction;
                let effects = just(self.says(text.as_str()));
                self.finish(effects)
            },
            Hazard::LowDeath => {
                player.die(now);
                self.respond(deaths("DEATH_LOW"), Fill::Roll(roll))
            },
            Hazard::HighDeath => {
                player.die(now);
                self.respond(deaths("DEATH_HIGH"), Fill::Roll(roll))
            },
            Hazard::PacRemark => {
                let text = pac_remark(self.name.as_str(), roll, player.tridents_rolled);
                let effects = just(self.says(text.as_str()));
                self.finish(effects)
            },
        }
    }

    fn offer(&mut self, player: &mut Player, offer: Option<Offer<String>>, luck: &Luck) -> (r: Step)
        requires
            offer_view(offer) matches Some(o) ==> o.possible() ==> old(player).enchants_rolled
                < u64::MAX,
        ensures
            realizes(
                *final(self),
                *final(player),
                r,
                old(self)@.offered(
                    *old(player),
                    offer_view(offer),
                    *luck,
                ),
            ),
    {
        let text = match offer {
            Some(offer) => if 0 < offer.level && offer.level < 5 {
                player.enchants_rolled = player.enchants_rolled + 1;
                answer_offer(
                    &offer,
                    self.name.as_str(),
                    luck.of_three,
                    luck.of_four,
                    luck.of_five,
                )
            } else {
                IMPOSSIBLE.to_owned()
            },
            None => IMPOSSIBLE.to_owned(),
        };
        let effects = just(self.says(text.as_str()));
        self.finish(effects)
    }

    fn hear(&mut self, player: &Player, words: String, luck: &Luck) -> (r: Step)
        requires
            old(self)@.takes(Answer::Words(words@)),
        ensures
            forall|now: u64|
                #[trigger] realizes(
                    *final(self),
                    *player,
                    r,
                    old(self)@.goes_on(*player, Answer::Words(words@), now, *luck),
                ),
    {
        match &self.stage {
            Stage::Filling { name, fill } => {
                let text = self.fill_in(words.as_str(), name.as_str(), *fill, player.tridents_rolled);
                let effects = just(self.says(text.as_str()));
                self.finish(effects)
            },
            Stage::Reviving => {
                let text = self.fill_in(
                    words.as_str(),
                    self.name.as_str(),
                    Fill::Name,
                    player.tridents_rolled,
                );
                let welcome = self.says(text.as_str());
                let step = self.perform(player, luck);
                Step { effects: preceded_by(step.effects, welcome), next: step.next }
            },
            Stage::Insisting => {
                let effects = just(self.insists(words.as_str()));
                self.finish(effects)
            },
            Stage::Ending => {
                let effects = just(self.says(words.as_str()));
                let effects = if self.autosave {
                    and_then(effects, Effect::SaveGame)
                } else {
                    effects
                };
                self.finish(effects)
            },
            Stage::Boasting => {
                let mut text = "Trident Leaderboard: ".to_owned();
                text.append(words.as_str());
                let effects = just(self.says(text.as_str()));
                self.finish(effects)
            },
            Stage::Naming => self.wonder(
                pool("NICK_SET"),
                Stage::Filling { name: words, fill: Fill::Name },
            ),
            _ => {
                let effects = just(self.says(words.as_str()));
                self.finish(effects)
            },
        }
    }

    fn learn(&mut self, player: &mut Player, flag: bool, now: u64, luck: &Luck) -> (r: Step)
        requires
            old(self)@.well_formed(),
            old(self)@.ready(*old(player), Answer::Flag(flag), *luck),
            luck.in_range(),
        ensures
            realizes(
                *final(self),
                *final(player),
                r,
                old(self)@.goes_on(*old(player), Answer::Flag(flag), now, *luck),
            ),
    {
        match self.stage {
            Stage::Greeting => if flag {
                let question = Question::HasResponses(greetings(self.user.as_str()));
                self.wonder(question, Stage::OwnGreeting)
            } else {
                self.finish(nothing())
            },
            Stage::OwnGreeting => if flag {
                let question = Question::Response(greetings(self.user.as_str()));
                self.respond(question, Fill::Name)
            } else {
                self.wonder(Question::OneIn(3), Stage::AnyGreeting)
            },
            Stage::AnyGreeting => if flag {
                self.respond(pool("USER_GREET_GENERIC"), Fill::Name)
            } else {
                self.finish(nothing())
            },
            Stage::Denting { roll } => if flag {
                let hazard = Hazard::Penalty.first_for(roll, self.user.as_str());
                self.risk(player, roll, hazard, luck)
            } else {
                self.respond(pool("TRIDENT_RATELIMIT_RESPONSE"), Fill::Roll(roll))
            },
            Stage::Risking { roll, hazard } => if flag {
                self.suffer(player, roll, hazard, now, luck)
            } else {
                let hazard = hazard.following_for(roll, self.user.as_str());
                self.risk(player, roll, hazard, luck)
            },
            _ => {
                let text = status(self.args.as_str(), flag);
                let effects = just(self.insists(text.as_str()));
                self.finish(effects)
            },
        }
    }

    /// Takes the turn one step on, with the random numbers given.
    pub fn step(&mut self, player: &mut Player, answer: Answer<String>, now: u64, luck: &Luck) -> (r:
        Step)
        requires
            old(self)@.well_formed(),
            old(self)@.ready(*old(player), answer@, *luck),
            luck.in_range(),
        ensures
            realizes(
                *final(self),
                *final(player),
                r,
                old(self)@.goes_on(*old(player), answer@, now, *luck),
            ),
            final(self)@.well_formed(),
    {
        proof {
            law_steps_keep_turns_well_formed(self@, *player, answer@, now, *luck);
        }
        match answer {
            Answer::Found { node, rest } => self.find(player, node, rest, now, luck),
            Answer::Flag(flag) => self.learn(player, flag, now, luck),
            Answer::Words(words) => self.hear(player, words, luck),
            Answer::MaybeWords(words) => {
                let effects = match words {
                    Some(words) => match self.stage {
                        Stage::Quoting => just(self.says(quoted(words.as_str()))),
                        _ => just(self.says(words.as_str())),
                    },
                    None => nothing(),
                };
                self.finish(effects)
            },
            Answer::Roll(previous) => match self.stage {
                Stage::Rolled { roll } => self.roll(player, roll, previous),
                _ => self.finish(nothing()),
            },
            Answer::Known(known) => {
                let mut stage = Stage::Over;
                std::mem::swap(&mut self.stage, &mut stage);
                match &stage {
                    Stage::Defining { definition, edit } => self.decide(
                        player,
                        definition,
                        *edit,
                        known,
                    ),
                    _ => self.finish(nothing()),
                }
            },
            Answer::Offered(offer) => self.offer(player, offer, luck),
            Answer::Playing(playing) => {
                let effects = just(self.says(song_message(&playing).as_str()));
                self.finish(effects)
            },
        }
    }

    /// Takes the turn one step on, with fresh random numbers, if it can take the
    /// answer with them.
    pub fn advance(&mut self, player: &mut Player, answer: Answer<String>, now: u64) -> (r: Option<
        Step,
    >)
        requires
            old(self)@.well_formed(),
        ensures
            exists|luck: Luck|
                luck.in_range() && #[trigger] moves(
                    old(self)@,
                    *old(player),
                    answer@,
                    now,
                    luck,
                    *final(self),
                    *final(player),
                    r,
                ),
            final(self)@.well_formed(),
    {
        let luck = Luck::draw();
        let ghost before = self@;
        let ghost was = *player;
        let r = if self.is_ready(player, &answer, &luck) {
            Some(self.step(player, answer, now, &luck))
        } else {
            None
        };
        assert(moves(before, was, answer@, now, luck, *self, *player, r));
        r
    }

    /// Tells whether the turn can take an answer.
    pub fn is_ready(&self, player: &Player, answer: &Answer<String>, luck: &Luck) -> (r: bool)
        requires
            luck.in_range(),
        ensures
            r == self@.ready(*player, answer@, *luck),
    {
        match (&self.stage, answer) {
            (Stage::Finding, Answer::Found { node, .. }) => match node {
                Some(node) => !self.fits(node) || player.sent_commands < u64::MAX && (
                match node.value {
                    CmdValue::Generic(_) => self.denies(node) || (match player.death {
                        Some(t) => t <= u64::MAX - DEATH_SECONDS - luck.rest,
                        None => true,
                    }),
                    _ => true,
                }),
                None => true,
            },
            (Stage::Greeting, Answer::Flag(_)) => true,
            (Stage::OwnGreeting, Answer::Flag(_)) => true,
            (Stage::AnyGreeting, Answer::Flag(_)) => true,
            (Stage::Filling { .. }, Answer::Words(_)) => true,
            (Stage::Reviving, Answer::Words(_)) => true,
            (Stage::Defining { .. }, Answer::Known(_)) => true,
            (Stage::AdminStatus, Answer::Flag(_)) => true,
            (Stage::Relaying, Answer::Words(_)) => true,
            (Stage::Insisting, Answer::Words(_)) => true,
            (Stage::Betting, Answer::MaybeWords(_)) => true,
            (Stage::Ending, Answer::Words(_)) => true,
            (Stage::Quoting, Answer::MaybeWords(_)) => true,
            (Stage::Boasting, Answer::Words(_)) => true,
            (Stage::Rolled { roll }, Answer::Roll(_)) => player.takes_roll(*roll),
            (Stage::Denting { roll }, Answer::Flag(allowed)) => !*allowed || *roll < 250
                || luck.selection >= 77,
            (Stage::Risking { hazard, .. }, Answer::Flag(happens)) => !*happens || (match hazard {
                Hazard::Penalty => player.files >= i64::MIN + luck.deduction,
                Hazard::LowDeath => player.deaths < u64::MAX,
                Hazard::HighDeath => player.deaths < u64::MAX,
                Hazard::PacRemark => true,
            }),
            (Stage::Enchanting, Answer::Offered(offer)) => match offer {
                Some(offer) => offer.level <= 0 || offer.level >= 5 || player.enchants_rolled
                    < u64::MAX,
                None => true,
            },
            (Stage::Naming, Answer::Words(_)) => true,
            (Stage::Listening, Answer::Playing(_)) => true,
            _ => false,
        }
    }
}

/// Starts the turn of a chat message that came in at `now`: `user`, whom the
/// bot calls `name`, has said `prefix` and `cmd` in `channel`.
pub fn do_command(
    user: String,
    name: String,
    channel: String,
    superuser: String,
    is_admin: bool,
    autosave: bool,
    prefix: String,
    cmd: String,
    player: &mut Player,
    now: u64,
) -> (r: (Turn<String>, Step))
    requires
        old(player).can_note(now),
    ensures
        *final(player) == old(player).after_message(now),
        r.0@ == started(
            user@,
            name@,
            channel@,
            superuser@,
            is_admin,
            autosave,
            prefix@,
            cmd@,
        ),
        r.0@.well_formed(),
        effects_view(r.1.effects@) == Seq::<Effect<Text>>::empty(),
        r.1.next@ == Next::Ask(Question::Find(cmd@)),
{
    player.note_message(now);
    let prefix = if same(prefix.as_str(), "folder ") || same(prefix.as_str(), "bot ") {
        "!".to_owned()
    } else {
        prefix
    };
    let i: usize = find_char(cmd.as_str(), ' ');
    assert(cmd@.subrange(0, i as int) =~= cmd@.take(i as int));
    let cmd_name = cmd.as_str().substring_char(0, i).to_owned();
    let question = Question::Find(cmd.clone());
    let turn = Turn {
        user,
        name,
        channel,
        superuser,
        is_admin,
        autosave,
        prefix,
        cmd_name,
        args: cmd,
        command: String::new(),
        stage: Stage::Finding,
    };
    (turn, Step { effects: nothing(), next: Next::Ask(question) })
}

/// A step that is as an outcome says has its turn, its player, its effects and the
/// way it goes on, all of them.
pub proof fn law_steps_are_as_they_should_be(
    turn: Turn<String>,
    player: Player,
    step: Step,
    o: Outcome,
)
    ensures
        realizes(turn, player, step, o) <==> {
            &&& turn@ == o.turn
            &&& player == o.player
            &&& step.effects@.len() == o.effects.len()
            &&& forall|i: int|
                0 <= i < o.effects.len() ==> (#[trigger] step.effects@[i])@ == o.effects[i]
            &&& step.next@ == o.next
        },
{
    let seen = effects_view(step.effects@);
    if step.effects@.len() == o.effects.len() && (forall|i: int|
        0 <= i < o.effects.len() ==> (#[trigger] step.effects@[i])@ == o.effects[i]) {
        assert(seen =~= o.effects);
    }
    assert forall|i: int| 0 <= i < seen.len() implies (#[trigger] step.effects@[i])@ == seen[i] by {}
}

} // verus!
