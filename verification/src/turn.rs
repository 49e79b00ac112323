//! A turn: what the bot does about one chat message. A turn goes step by step;
//! each step ends the turn or asks a question, and the answer starts the next.
use crate::define::{requested, ruling, Definition, Inspection, Ruling};
use crate::enchant::{offer_answer, Offer, IMPOSSIBLE};
use crate::luck::Luck;
use crate::odds::odds_answer;
use crate::player::{Player, DEATH_SECONDS};
use crate::protocol::{Answer, CmdValue, CommandNode, Effect, Next, Question};
use crate::song::song_text;
use crate::tasks::{task_of, Task};
use crate::text::{first_index, lowered, replaced, shown, shown_bool, trimmed, Text};
use crate::trident::{
    final_roll, law_hazards_are_tried_in_order, normal_form, notable_pool, pac_text, penalty_text,
    plain_remark, remark_kind, silence, timeout_text, Hazard, Remark,
};
use crate::wire::{chat_line, raw_line, Command};
use vstd::prelude::*;

verus! {

pub const DENIED: &'static str = "Naughty naughty, that's not for you!";

pub const THWARTED: &'static str = "Nice try, but you have been thwarted by the command regex! Mwuahaha.";

pub const LOWERING: &'static str = "Warning: Converting to case-insensitive.";

pub const NOT_EDITABLE: &'static str = "Command is not editable.";

pub const EXISTS: &'static str = "Command already exists. Use !edit instead.";

pub const IS_GENERIC: &'static str = "You cannot edit Generic commands.";

pub const HELP: &'static str = "No help for you, good sir!";

pub const RSG_PAGE: &'static str = "http://shnenanigans.pythonanywhere.com/";

pub const RSG_BROKEN: &'static str = "@shenaningans this command be broken again :sob:";

pub const TOO_FEW: &'static str = "Not enough arguments.";

pub const COMMANDS_FILE: &'static str = "commands.json";

pub const COMMANDS_TEST_FILE: &'static str = "commands.test.json";

/// What is filled in where a response has marks for it.
#[derive(Clone, Copy, Debug, PartialEq, Eq, Structural)]
pub enum Fill {
    /// The player's name.
    Name,
    /// The player's name and the name of the command.
    Command,
    /// The player's name, the roll, and the number of rolls.
    Roll(i32),
}

/// What a turn waits for.
#[derive(Debug, PartialEq, Eq)]
pub enum Stage<S> {
    /// The command.
    Finding,
    /// Whether the player is due a greeting.
    Greeting,
    /// Whether there is a greeting for this player.
    OwnGreeting,
    /// Whether the player gets a greeting for anyone.
    AnyGreeting,
    /// A response to fill in and say.
    Filling { name: S, fill: Fill },
    /// What to say when the player is back from the dead.
    Reviving,
    /// What is known of the command to define.
    Defining { definition: Definition<S>, edit: bool },
    /// Whether a user is an administrator.
    AdminStatus,
    /// Words to say.
    Relaying,
    /// Words that must be said.
    Insisting,
    /// What is wrong with a bet.
    Betting,
    /// The end of a round, in words.
    Ending,
    /// The page to quote.
    Quoting,
    /// The best rolls.
    Boasting,
    /// The roll before this one.
    Rolled { roll: i32 },
    /// Whether the player may roll again already.
    Denting { roll: i32 },
    /// Whether something happens on a roll.
    Risking { roll: i32, hazard: Hazard },
    /// An offer of the enchanting table.
    Enchanting,
    /// What the player is called now.
    Naming,
    /// What is playing.
    Listening,
    /// Nothing more.
    Over,
}

/// A turn, and what it knows.
#[derive(Debug, PartialEq, Eq)]
pub struct Turn<S> {
    pub user: S,
    /// What the player is called.
    pub name: S,
    pub channel: S,
    pub superuser: S,
    pub is_admin: bool,
    /// Whether the game is saved after each round.
    pub autosave: bool,
    /// What the bot was addressed with.
    pub prefix: S,
    /// The command line up to its first space.
    pub cmd_name: S,
    /// What follows the command.
    pub args: S,
    /// The built-in command.
    pub command: S,
    pub stage: Stage<S>,
}

/// How a step leaves things.
pub struct Outcome {
    pub turn: Turn<Text>,
    pub player: Player,
    pub effects: Seq<Effect<Text>>,
    pub next: Next<Text>,
}

/// The prefix that counts: to call the bot by name is as good as `!`.
pub open spec fn counted_prefix(prefix: Text) -> Text {
    if prefix == "folder "@ || prefix == "bot "@ {
        "!"@
    } else {
        prefix
    }
}

/// Whether a command may be called with a prefix. A command of prefix `^`
/// wants none.
pub open spec fn prefix_fits(prefix: Text, wanted: Text) -> bool {
    prefix == wanted || prefix.len() == 0 && wanted == "^"@
}

/// The responses that greet one player.
pub open spec fn own_greetings(user: Text) -> Text {
    "USER_GREET_"@ + user
}

/// The nickname that an administrator gives: to whom, and which.
pub open spec fn nick_request(args: Text) -> Option<(Text, Text)> {
    let i = first_index(args, '|');
    if i == args.len() {
        None
    } else {
        Some((args.take(i), args.skip(i + 1)))
    }
}

/// What the bot quotes of a page: the page, unless it is longer than a short
/// answer would be.
pub open spec fn quote(page: Text) -> Text {
    if vstd::utf8::encode_utf8(page).len() > 100 {
        RSG_BROKEN@
    } else {
        page
    }
}

impl Turn<Text> {
    /// A line that says `text` in the channel of the turn.
    pub open spec fn say(self, text: Text) -> Effect<Text> {
        Effect::Send(chat_line(text, self.channel))
    }

    /// A line that must be said.
    pub open spec fn insist(self, text: Text) -> Effect<Text> {
        Effect::Insist(chat_line(text, self.channel))
    }

    pub open spec fn at(self, stage: Stage<Text>) -> Turn<Text> {
        Turn { stage, ..self }
    }

    /// The turn ends.
    pub open spec fn ends(
        self,
        player: Player,
        effects: Seq<Effect<Text>>,
        command: Command,
    ) -> Outcome {
        Outcome { turn: self.at(Stage::Over), player, effects, next: Next::Done(command) }
    }

    /// The turn ends, and the bot goes on.
    pub open spec fn finishes(self, player: Player, effects: Seq<Effect<Text>>) -> Outcome {
        self.ends(player, effects, Command::Continue)
    }

    /// The turn asks something.
    pub open spec fn asks(
        self,
        player: Player,
        effects: Seq<Effect<Text>>,
        question: Question<Text>,
        stage: Stage<Text>,
    ) -> Outcome {
        Outcome { turn: self.at(stage), player, effects, next: Next::Ask(question) }
    }

    /// The turn asks something, with nothing done.
    pub open spec fn wonders(
        self,
        player: Player,
        question: Question<Text>,
        stage: Stage<Text>,
    ) -> Outcome {
        self.asks(player, Seq::empty(), question, stage)
    }

    /// The turn asks for a response to fill in for its player.
    pub open spec fn responds(self, player: Player, question: Question<Text>, fill: Fill) -> Outcome {
        self.wonders(player, question, Stage::Filling { name: self.name, fill })
    }

    /// Whether the user may not run a command.
    pub open spec fn denied(self, node: CommandNode<Text>) -> bool {
        node.admin_only && (node.super_only && self.user != self.superuser || !self.is_admin)
    }

    /// A response with everything filled in.
    pub open spec fn filled(self, template: Text, name: Text, fill: Fill, rolled: u64) -> Text {
        match fill {
            Fill::Name => replaced(template, "{ur}"@, name),
            Fill::Command => replaced(
                replaced(template, "{ur}"@, name),
                "{m.com}"@,
                self.cmd_name,
            ),
            Fill::Roll(roll) => normal_form(template, name, roll, rolled),
        }
    }

    /// The command has been looked up.
    pub open spec fn found(
        self,
        player: Player,
        node: Option<CommandNode<Text>>,
        rest: Text,
        now: u64,
        luck: Luck,
    ) -> Outcome {
        let t = Turn { args: rest, ..self };
        match node {
            None => t.wonders(player, Question::TryGreet, Stage::Greeting),
            Some(node) => if !prefix_fits(t.prefix, node.prefix) {
                t.finishes(player, Seq::empty())
            } else {
                t.called(
                    Player { sent_commands: (player.sent_commands + 1) as u64, ..player },
                    node,
                    now,
                    luck,
                )
            },
        }
    }

    /// A command has been called.
    pub open spec fn called(
        self,
        player: Player,
        node: CommandNode<Text>,
        now: u64,
        luck: Luck,
    ) -> Outcome {
        if self.denied(node) {
            self.finishes(player, seq![self.say(DENIED@)])
        } else {
            match node.value {
                CmdValue::StringResponse(x) => self.finishes(
                    player,
                    if node.sound.len() == 0 {
                        seq![self.say(x)]
                    } else {
                        seq![self.say(x)].push(Effect::PlaySound(node.sound))
                    },
                ),
                CmdValue::Alias(x) => self.finishes(player, Seq::empty()),
                CmdValue::Generic(x) => {
                    let command = if x == "debug:use_internal_mapping"@ {
                        self.args
                    } else {
                        x
                    };
                    Turn { command, ..self }.runs(player, now, luck)
                },
            }
        }
    }

    /// A built-in command runs, unless its player is dead.
    pub open spec fn runs(self, player: Player, now: u64, luck: Luck) -> Outcome {
        match player.death {
            None => self.performs(player, luck),
            Some(death) => if Player::is_back(death, luck.rest, now) {
                self.wonders(
                    Player { death: None, ..player },
                    Question::DbResponse { name: "RESURRECTION"@, collection: "deaths"@ },
                    Stage::Reviving,
                )
            } else if self.command == "feature:trident"@ {
                self.responds(
                    player,
                    Question::DbResponse { name: "DEAD_TRIDENT_ATTEMPT"@, collection: "deaths"@ },
                    Fill::Name,
                )
            } else {
                self.responds(
                    player,
                    Question::DbResponse { name: "DEAD_COMMAND_ATTEMPT"@, collection: "deaths"@ },
                    Fill::Command,
                )
            },
        }
    }

    /// A definition is read.
    pub open spec fn defines(self, player: Player, edit: bool) -> Outcome {
        match requested(self.args) {
            None => self.finishes(player, seq![self.say(THWARTED@)]),
            Some(definition) => self.asks(
                player,
                if definition.lowered {
                    seq![self.say(LOWERING@)]
                } else {
                    Seq::empty()
                },
                Question::Inspect(definition.key),
                Stage::Defining { definition, edit },
            ),
        }
    }

    /// A built-in command starts.
    pub open spec fn performs(self, player: Player, luck: Luck) -> Outcome {
        match task_of(self.command) {
            Task::Insert => self.defines(player, false),
            Task::Edit => self.defines(player, true),
            Task::IsAdmin => self.wonders(
                player,
                Question::IsAdmin(self.args),
                Stage::AdminStatus,
            ),
            Task::IsSuper => self.finishes(
                player,
                seq![self.insist(status_text(self.args, self.superuser == self.args))],
            ),
            Task::Help => self.finishes(player, seq![self.insist(HELP@)]),
            Task::Stop => self.ends(player, Seq::empty(), Command::Stop),
            Task::PlayerData => self.wonders(
                player,
                Question::Describe { player: lowered(self.args), otherwise: self.user },
                Stage::Insisting,
            ),
            Task::Say => self.finishes(player, seq![self.say(self.args)]),
            Task::SayRaw => self.finishes(player, seq![Effect::Send(raw_line(self.args))]),
            Task::ReloadCommands => self.finishes(
                player,
                seq![Effect::ReloadCommands(COMMANDS_FILE@)],
            ),
            Task::SaveCommandsTest => self.finishes(
                player,
                seq![Effect::DumpCommands(COMMANDS_TEST_FILE@)],
            ),
            Task::SaveCommands => self.finishes(
                player,
                seq![Effect::DumpCommands(COMMANDS_FILE@)],
            ),
            Task::BetFor => self.wonders(player, Question::BetFor(self.args), Stage::Betting),
            Task::BetAgainst => self.wonders(
                player,
                Question::BetAgainst(self.args),
                Stage::Betting,
            ),
            Task::Failed => self.wonders(player, Question::GameFailed, Stage::Ending),
            Task::Worked => self.wonders(player, Question::GameWorked, Stage::Ending),
            Task::Status => self.wonders(
                player,
                Question::GameStatus(
                    if self.args.len() == 0 {
                        self.user
                    } else {
                        self.args
                    },
                ),
                Stage::Relaying,
            ),
            Task::ReloadGame => self.finishes(player, seq![Effect::ReloadGame]),
            Task::SaveGame => self.finishes(player, seq![Effect::SaveGame]),
            Task::Autosave => self.finishes(player, seq![Effect::EnableAutosave]),
            Task::Rsg => self.wonders(player, Question::Fetch(RSG_PAGE@), Stage::Quoting),
            Task::TridentPb => self.finishes(
                player,
                seq![
                    self.say(self.user + "'s trident pb is: "@ + shown(player.max_trident as int)),
                ],
            ),
            Task::TridentLb => self.wonders(player, Question::Leaderboard, Stage::Boasting),
            Task::Trident => {
                let roll = final_roll(self.user, self.args, luck.roll);
                self.wonders(player, Question::SwapRoll(roll), Stage::Rolled { roll })
            },
            Task::TridentChance => self.finishes(
                player,
                if trimmed(self.args).len() == 0 {
                    Seq::empty()
                } else {
                    seq![self.say(odds_answer(trimmed(self.args), self.name))]
                },
            ),
            Task::Enchant => self.wonders(player, Question::RollEnchant, Stage::Enchanting),
            Task::Nick => self.asks(
                player,
                if self.args.len() == 0 {
                    Seq::empty()
                } else {
                    seq![Effect::SetNick(self.args)]
                },
                Question::Name,
                Stage::Naming,
            ),
            Task::AdminNick => self.finishes(
                player,
                match nick_request(self.args) {
                    None => seq![self.say(TOO_FEW@)],
                    Some(n) => seq![Effect::SetPlayerNick { player: n.0, nick: n.1 }],
                },
            ),
            Task::Elo => self.wonders(player, Question::Elo(self.args), Stage::Relaying),
            Task::PlayAudio => self.finishes(player, seq![Effect::PlayAudio]),
            Task::GetSong => self.wonders(player, Question::CurrentSong, Stage::Listening),
            Task::Cancel => self.finishes(player, seq![Effect::StopAudio]),
            Task::Unknown => self.finishes(player, Seq::empty()),
        }
    }

    /// A definition is carried out, or not.
    pub open spec fn decided(
        self,
        player: Player,
        definition: Definition<Text>,
        edit: bool,
        known: Inspection,
    ) -> Outcome {
        self.finishes(
            player,
            match ruling(edit, known) {
                Ruling::NotEditable => seq![self.say(NOT_EDITABLE@)],
                Ruling::Exists => seq![self.say(EXISTS@)],
                Ruling::IsGeneric => seq![self.say(IS_GENERIC@)],
                Ruling::Update => seq![
                    Effect::SetValue { key: definition.key, response: definition.response },
                ].push(
                    Effect::SetPrefix { key: definition.key, prefix: definition.prefix },
                ).push(Effect::DumpCommands(COMMANDS_FILE@)),
                Ruling::Insert => seq![
                    Effect::InsertCommand {
                        key: definition.key,
                        response: definition.response,
                        prefix: definition.prefix,
                    },
                ].push(Effect::DumpCommands(COMMANDS_FILE@)),
            },
        )
    }

    /// The player has rolled.
    pub open spec fn rolled(self, player: Player, roll: i32, previous: i32) -> Outcome {
        let p = player.after_roll(roll);
        match notable_pool(p, player.is_best(roll), roll, previous) {
            Some(pool) => self.responds(
                if roll == 250 {
                    Player { rolled_250s: (p.rolled_250s + 1) as u64, ..p }
                } else {
                    p
                },
                Question::Response(pool),
                Fill::Roll(roll),
            ),
            None => self.wonders(p, Question::TryDent, Stage::Denting { roll }),
        }
    }

    /// A roll is put to the first hazard of those that remain.
    pub open spec fn risks(
        self,
        player: Player,
        roll: i32,
        hazard: Option<Hazard>,
        luck: Luck,
    ) -> Outcome {
        match hazard {
            Some(hazard) => self.wonders(
                player,
                Question::OneIn(hazard.odds()),
                Stage::Risking { roll, hazard },
            ),
            None => self.remarks(player, roll, luck),
        }
    }

    /// A hazard has happened.
    pub open spec fn suffers(
        self,
        player: Player,
        roll: i32,
        hazard: Hazard,
        now: u64,
        luck: Luck,
    ) -> Outcome {
        match hazard {
            Hazard::Penalty => self.finishes(
                Player { files: (player.files - luck.deduction) as i64, ..player },
                seq![
                    self.say(
                        penalty_text(
                            self.name,
                            roll,
                            player.tridents_rolled,
                            luck.deduction as int,
                        ),
                    ),
                ],
            ),
            Hazard::LowDeath => self.responds(
                player.after_death(now),
                Question::DbResponse { name: "DEATH_LOW"@, collection: "deaths"@ },
                Fill::Roll(roll),
            ),
            Hazard::HighDeath => self.responds(
                player.after_death(now),
                Question::DbResponse { name: "DEATH_HIGH"@, collection: "deaths"@ },
                Fill::Roll(roll),
            ),
            Hazard::PacRemark => self.finishes(
                player,
                seq![self.say(pac_text(self.name, roll, player.tridents_rolled))],
            ),
        }
    }

    /// A roll gets a remark.
    pub open spec fn remarks(self, player: Player, roll: i32, luck: Luck) -> Outcome {
        match remark_kind(luck.selection as int, roll) {
            Remark::Plain => {
                let remark = self.say(
                    plain_remark(
                        roll,
                        self.name,
                        luck.of_four as int,
                        luck.of_five as int,
                        luck.of_seven as int,
                    ),
                );
                self.finishes(
                    player,
                    match silence(roll) {
                        Some(seconds) => seq![remark].push(
                            self.say(timeout_text(self.user, seconds)),
                        ),
                        None => seq![remark],
                    },
                )
            },
            Remark::RarePool => self.responds(
                player,
                Question::Response("MISC_RARE_TRIDENTS"@),
                Fill::Roll(roll),
            ),
            Remark::LowPool => self.responds(
                player,
                Question::Response("MISC_LOW_TRIDENTS"@),
                Fill::Roll(roll),
            ),
            Remark::Rare => self.wonders(
                player,
                Question::RareTrident { roll, rarity: luck.rarity, name: self.name },
                Stage::Relaying,
            ),
        }
    }

    /// An offer has been made.
    pub open spec fn offered(self, player: Player, offer: Option<Offer<Text>>, luck: Luck) -> Outcome {
        match offer {
            Some(offer) => if offer.possible() {
                self.finishes(
                    Player { enchants_rolled: (player.enchants_rolled + 1) as u64, ..player },
                    seq![
                        self.say(
                            offer_answer(
                                offer,
                                self.name,
                                luck.of_three as int,
                                luck.of_four as int,
                                luck.of_five as int,
                            ),
                        ),
                    ],
                )
            } else {
                self.finishes(player, seq![self.say(IMPOSSIBLE@)])
            },
            None => self.finishes(player, seq![self.say(IMPOSSIBLE@)]),
        }
    }

    /// Whether `answer` is of the kind that the turn waits for.
    pub open spec fn takes(self, answer: Answer<Text>) -> bool {
        match self.stage {
            Stage::Finding => answer is Found,
            Stage::Greeting => answer is Flag,
            Stage::OwnGreeting => answer is Flag,
            Stage::AnyGreeting => answer is Flag,
            Stage::Filling { .. } => answer is Words,
            Stage::Reviving => answer is Words,
            Stage::Defining { .. } => answer is Known,
            Stage::AdminStatus => answer is Flag,
            Stage::Relaying => answer is Words,
            Stage::Insisting => answer is Words,
            Stage::Betting => answer is MaybeWords,
            Stage::Ending => answer is Words,
            Stage::Quoting => answer is MaybeWords,
            Stage::Boasting => answer is Words,
            Stage::Rolled { .. } => answer is Roll,
            Stage::Denting { .. } => answer is Flag,
            Stage::Risking { .. } => answer is Flag,
            Stage::Enchanting => answer is Offered,
            Stage::Naming => answer is Words,
            Stage::Listening => answer is Playing,
            Stage::Over => false,
        }
    }

    /// How an answer of the right kind takes the turn on.
    pub open spec fn goes_on(
        self,
        player: Player,
        answer: Answer<Text>,
        now: u64,
        luck: Luck,
    ) -> Outcome {
        match (self.stage, answer) {
            (Stage::Finding, Answer::Found { node, rest }) => self.found(
                player,
                node,
                rest,
                now,
                luck,
            ),
            (Stage::Greeting, Answer::Flag(due)) => if due {
                self.wonders(
                    player,
                    Question::HasResponses(own_greetings(self.user)),
                    Stage::OwnGreeting,
                )
            } else {
                self.finishes(player, Seq::empty())
            },
            (Stage::OwnGreeting, Answer::Flag(own)) => if own {
                self.responds(
                    player,
                    Question::Response(own_greetings(self.user)),
                    Fill::Name,
                )
            } else {
                self.wonders(player, Question::OneIn(3), Stage::AnyGreeting)
            },
            (Stage::AnyGreeting, Answer::Flag(lucky)) => if lucky {
                self.responds(player, Question::Response("USER_GREET_GENERIC"@), Fill::Name)
            } else {
                self.finishes(player, Seq::empty())
            },
            (Stage::Filling { name, fill }, Answer::Words(template)) => self.finishes(
                player,
                seq![self.say(self.filled(template, name, fill, player.tridents_rolled))],
            ),
            (Stage::Reviving, Answer::Words(template)) => {
                let o = self.performs(player, luck);
                Outcome {
                    effects: seq![self.say(replaced(template, "{ur}"@, self.name))] + o.effects,
                    ..o
                }
            },
            (Stage::Defining { definition, edit }, Answer::Known(known)) => self.decided(
                player,
                definition,
                edit,
                known,
            ),
            (Stage::AdminStatus, Answer::Flag(admin)) => self.finishes(
                player,
                seq![self.insist(status_text(self.args, admin))],
            ),
            (Stage::Relaying, Answer::Words(words)) => self.finishes(player, seq![self.say(words)]),
            (Stage::Insisting, Answer::Words(words)) => self.finishes(
                player,
                seq![self.insist(words)],
            ),
            (Stage::Betting, Answer::MaybeWords(complaint)) => self.finishes(
                player,
                match complaint {
                    Some(words) => seq![self.say(words)],
                    None => Seq::empty(),
                },
            ),
            (Stage::Ending, Answer::Words(words)) => self.finishes(
                player,
                if self.autosave {
                    seq![self.say(words)].push(Effect::SaveGame)
                } else {
                    seq![self.say(words)]
                },
            ),
            (Stage::Quoting, Answer::MaybeWords(page)) => self.finishes(
                player,
                match page {
                    Some(page) => seq![self.say(quote(page))],
                    None => Seq::empty(),
                },
            ),
            (Stage::Boasting, Answer::Words(words)) => self.finishes(
                player,
                seq![self.say("Trident Leaderboard: "@ + words)],
            ),
            (Stage::Rolled { roll }, Answer::Roll(previous)) => self.rolled(
                player,
                roll,
                previous,
            ),
            (Stage::Denting { roll }, Answer::Flag(allowed)) => if allowed {
                self.risks(player, roll, Hazard::Penalty.first(roll, self.user), luck)
            } else {
                self.responds(
                    player,
                    Question::Response("TRIDENT_RATELIMIT_RESPONSE"@),
                    Fill::Roll(roll),
                )
            },
            (Stage::Risking { roll, hazard }, Answer::Flag(happens)) => if happens {
                self.suffers(player, roll, hazard, now, luck)
            } else {
                self.risks(player, roll, hazard.following(roll, self.user), luck)
            },
            (Stage::Enchanting, Answer::Offered(offer)) => self.offered(player, offer, luck),
            (Stage::Naming, Answer::Words(name)) => self.wonders(
                player,
                Question::Response("NICK_SET"@),
                Stage::Filling { name, fill: Fill::Name },
            ),
            (Stage::Listening, Answer::Playing(playing)) => self.finishes(
                player,
                seq![self.say(song_text(playing))],
            ),
            _ => self.finishes(player, Seq::empty()),
        }
    }

    /// A turn that waits for the outcome of a hazard waits for one that applies.
    pub open spec fn well_formed(self) -> bool {
        match self.stage {
            Stage::Risking { roll, hazard } => hazard.applies(roll, self.user),
            _ => true,
        }
    }

    /// The turn can take an answer: it is of the right kind, no number in the
    /// record of the player grows too large, and a roll above 250, which only the
    /// owner of the bot can ask for, gets no plain remark, for there is none.
    pub open spec fn ready(self, player: Player, answer: Answer<Text>, luck: Luck) -> bool {
        &&& self.takes(answer)
        &&& match (self.stage, answer) {
            (Stage::Finding, Answer::Found { node: Some(node), .. }) => prefix_fits(
                self.prefix,
                node.prefix,
            ) ==> {
                &&& player.sent_commands < u64::MAX
                &&& !self.denied(node) && node.value is Generic ==> (player.death matches Some(t)
                    ==> t + DEATH_SECONDS + luck.rest <= u64::MAX)
            },
            (Stage::Rolled { roll }, _) => player.can_add(roll),
            (Stage::Denting { roll }, Answer::Flag(true)) => roll < 250 || luck.selection >= 77,
            (Stage::Risking { hazard, .. }, Answer::Flag(true)) => match hazard {
                Hazard::Penalty => i64::MIN <= player.files - luck.deduction <= i64::MAX,
                Hazard::LowDeath => player.deaths < u64::MAX,
                Hazard::HighDeath => player.deaths < u64::MAX,
                Hazard::PacRemark => true,
            },
            (Stage::Enchanting, Answer::Offered(Some(offer))) => offer.possible()
                ==> player.enchants_rolled < u64::MAX,
            _ => true,
        }
    }
}

/// What the bot says of a user's standing.
pub open spec fn status_text(user: Text, holds: bool) -> Text {
    "Status of "@ + user + ": "@ + shown_bool(holds)
}

/// A turn as it starts: the command line is to be looked up.
pub open spec fn started(
    user: Text,
    name: Text,
    channel: Text,
    superuser: Text,
    is_admin: bool,
    autosave: bool,
    prefix: Text,
    cmd: Text,
) -> Turn<Text> {
    Turn {
        user,
        name,
        channel,
        superuser,
        is_admin,
        autosave,
        prefix: counted_prefix(prefix),
        cmd_name: cmd.take(first_index(cmd, ' ')),
        args: cmd,
        command: Seq::empty(),
        stage: Stage::Finding,
    }
}

impl View for Stage<String> {
    type V = Stage<Text>;

    open spec fn view(&self) -> Stage<Text> {
        match self {
            Stage::Finding => Stage::Finding,
            Stage::Greeting => Stage::Greeting,
            Stage::OwnGreeting => Stage::OwnGreeting,
            Stage::AnyGreeting => Stage::AnyGreeting,
            Stage::Filling { name, fill } => Stage::Filling { name: name@, fill: *fill },
            Stage::Reviving => Stage::Reviving,
            Stage::Defining { definition, edit } => Stage::Defining {
                definition: definition@,
                edit: *edit,
            },
            Stage::AdminStatus => Stage::AdminStatus,
            Stage::Relaying => Stage::Relaying,
            Stage::Insisting => Stage::Insisting,
            Stage::Betting => Stage::Betting,
            Stage::Ending => Stage::Ending,
            Stage::Quoting => Stage::Quoting,
            Stage::Boasting => Stage::Boasting,
            Stage::Rolled { roll } => Stage::Rolled { roll: *roll },
            Stage::Denting { roll } => Stage::Denting { roll: *roll },
            Stage::Risking { roll, hazard } => Stage::Risking { roll: *roll, hazard: *hazard },
            Stage::Enchanting => Stage::Enchanting,
            Stage::Naming => Stage::Naming,
            Stage::Listening => Stage::Listening,
            Stage::Over => Stage::Over,
        }
    }
}

impl View for Turn<String> {
    type V = Turn<Text>;

    open spec fn view(&self) -> Turn<Text> {
        Turn {
            user: self.user@,
            name: self.name@,
            channel: self.channel@,
            superuser: self.superuser@,
            is_admin: self.is_admin,
            autosave: self.autosave,
            prefix: self.prefix@,
            cmd_name: self.cmd_name@,
            args: self.args@,
            command: self.command@,
            stage: self.stage@,
        }
    }
}

/// No step makes a turn wait for the outcome of a hazard that does not apply.
pub proof fn law_steps_keep_turns_well_formed(
    turn: Turn<Text>,
    player: Player,
    answer: Answer<Text>,
    now: u64,
    luck: Luck,
)
    requires
        turn.well_formed(),
        turn.takes(answer),
    ensures
        turn.goes_on(player, answer, now, luck).turn.well_formed(),
{
    match turn.stage {
        Stage::Denting { roll } => {
            law_hazards_are_tried_in_order(Hazard::Penalty, roll, turn.user);
        },
        Stage::Risking { roll, hazard } => {
            law_hazards_are_tried_in_order(hazard, roll, turn.user);
        },
        _ => {},
    }
}

/// What a contract sees of a turn is the turn.
pub proof fn law_turns_are_seen_as_they_are(turn: Turn<String>)
    ensures
        turn@.user == turn.user@,
        turn@.name == turn.name@,
        turn@.channel == turn.channel@,
        turn@.superuser == turn.superuser@,
        turn@.is_admin == turn.is_admin,
        turn@.autosave == turn.autosave,
        turn@.prefix == turn.prefix@,
        turn@.cmd_name == turn.cmd_name@,
        turn@.args == turn.args@,
        turn@.command == turn.command@,
        turn@.stage == turn.stage@,
{
}

/// What a contract sees of a stage is the stage.
pub proof fn law_stages_are_seen_as_they_are(stage: Stage<String>)
    ensures
        match (stage, stage@) {
            (Stage::Finding, Stage::Finding) => true,
            (Stage::Greeting, Stage::Greeting) => true,
            (Stage::OwnGreeting, Stage::OwnGreeting) => true,
            (Stage::AnyGreeting, Stage::AnyGreeting) => true,
            (Stage::Filling { name, fill }, Stage::Filling { name: a, fill: b }) => a == name@ && b
                == fill,
            (Stage::Reviving, Stage::Reviving) => true,
            (
                Stage::Defining { definition, edit },
                Stage::Defining { definition: a, edit: b },
            ) => a == definition@ && b == edit,
            (Stage::AdminStatus, Stage::AdminStatus) => true,
            (Stage::Relaying, Stage::Relaying) => true,
            (Stage::Insisting, Stage::Insisting) => true,
            (Stage::Betting, Stage::Betting) => true,
            (Stage::Ending, Stage::Ending) => true,
            (Stage::Quoting, Stage::Quoting) => true,
            (Stage::Boasting, Stage::Boasting) => true,
            (Stage::Rolled { roll }, Stage::Rolled { roll: a }) => a == roll,
            (Stage::Denting { roll }, Stage::Denting { roll: a }) => a == roll,
            (Stage::Risking { roll, hazard }, Stage::Risking { roll: a, hazard: b }) => a == roll
                && b == hazard,
            (Stage::Enchanting, Stage::Enchanting) => true,
            (Stage::Naming, Stage::Naming) => true,
            (Stage::Listening, Stage::Listening) => true,
            (Stage::Over, Stage::Over) => true,
            _ => false,
        },
{
}

} // verus!
