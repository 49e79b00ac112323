//! What a turn and its surroundings tell each other: the effects that a turn
//! has, the questions that it asks, and the answers that it takes.
use crate::define::Inspection;
use crate::enchant::Offer;
use crate::song::Playing;
use crate::text::Text;
use crate::wire::Command;
use vstd::prelude::*;

verus! {

/// How a command responds.
#[derive(Debug, PartialEq, Eq)]
pub enum CmdValue<S> {
    /// With a fixed text.
    StringResponse(S),
    /// Like another command.
    Alias(S),
    /// As a built-in command does.
    Generic(S),
}

/// A command that the bot knows.
#[derive(Debug, PartialEq, Eq)]
pub struct CommandNode<S> {
    pub value: CmdValue<S>,
    pub prefix: S,
    /// A sound to play with the response; empty for none.
    pub sound: S,
    pub admin_only: bool,
    pub super_only: bool,
}

/// Something that the bot does.
#[derive(Debug, PartialEq, Eq)]
pub enum Effect<S> {
    /// Sends a line to the chat server; it does not matter if that fails.
    Send(S),
    /// Sends a line to the chat server; the bot cannot go on if that fails.
    Insist(S),
    /// Plays a sound file.
    PlaySound(S),
    /// Plays the test sound.
    PlayAudio,
    /// Stops all sound.
    StopAudio,
    /// Gives a command a new response.
    SetValue { key: S, response: S },
    /// Gives a command a new prefix.
    SetPrefix { key: S, prefix: S },
    /// Makes a new command.
    InsertCommand { key: S, response: S, prefix: S },
    /// Writes the commands to a file.
    DumpCommands(S),
    /// Reads the commands from a file.
    ReloadCommands(S),
    /// Reads the game from its file.
    ReloadGame,
    /// Writes the game to its file.
    SaveGame,
    /// Has the game saved after each round.
    EnableAutosave,
    /// Gives the player of the turn a nickname.
    SetNick(S),
    /// Gives another player a nickname.
    SetPlayerNick { player: S, nick: S },
}

/// Something that a turn needs to know, or to have done, before it goes on.
#[derive(Debug, PartialEq, Eq)]
pub enum Question<S> {
    /// The command at the start of a line, and the rest of the line.
    Find(S),
    /// Whether the player is due a greeting.
    TryGreet,
    /// Whether there are responses of a name.
    HasResponses(S),
    /// Whether something happens that does so once in so many times.
    OneIn(u32),
    /// One of the responses of a name.
    Response(S),
    /// One of the responses of a name, from a collection of them.
    DbResponse { name: S, collection: S },
    /// What is known of a command.
    Inspect(S),
    /// Whether a user is an administrator.
    IsAdmin(S),
    /// The record of a player in words, or of another if there is no such one.
    Describe { player: S, otherwise: S },
    /// A bet that it works: what is wrong with it, if anything.
    BetFor(S),
    /// A bet that it fails: what is wrong with it, if anything.
    BetAgainst(S),
    /// The end of a round that failed, in words.
    GameFailed,
    /// The end of a round that worked, in words.
    GameWorked,
    /// How a player stands, in words.
    GameStatus(S),
    /// A page of the web, if it can be had.
    Fetch(S),
    /// The best rolls of all players, in words.
    Leaderboard,
    /// The last roll of the player; the given one takes its place.
    SwapRoll(i32),
    /// Whether the player may roll again already.
    TryDent,
    /// A remark made for a roll, by a number up to 4096.
    RareTrident { roll: i32, rarity: i64, name: S },
    /// An offer of the enchanting table.
    RollEnchant,
    /// What the player is called now.
    Name,
    /// The rating of a player, in words.
    Elo(S),
    /// What is playing.
    CurrentSong,
}

/// What a turn is told.
#[derive(Debug, PartialEq, Eq)]
pub enum Answer<S> {
    /// The command that was found, and the rest of the line.
    Found { node: Option<CommandNode<S>>, rest: S },
    Flag(bool),
    Words(S),
    MaybeWords(Option<S>),
    Roll(i32),
    Known(Inspection),
    Offered(Option<Offer<S>>),
    Playing(Playing),
}

/// How a turn goes on.
#[derive(Debug, PartialEq, Eq)]
pub enum Next<S> {
    /// It is over.
    Done(Command),
    /// It waits for an answer.
    Ask(Question<S>),
}

/// One step of a turn: what the bot does, in order, and how the turn goes on.
#[derive(Debug, PartialEq, Eq)]
pub struct Step {
    pub effects: Vec<Effect<String>>,
    pub next: Next<String>,
}

impl View for CmdValue<String> {
    type V = CmdValue<Text>;

    open spec fn view(&self) -> CmdValue<Text> {
        match self {
            CmdValue::StringResponse(s) => CmdValue::StringResponse(s@),
            CmdValue::Alias(s) => CmdValue::Alias(s@),
            CmdValue::Generic(s) => CmdValue::Generic(s@),
        }
    }
}

impl View for CommandNode<String> {
    type V = CommandNode<Text>;

    open spec fn view(&self) -> CommandNode<Text> {
        CommandNode {
            value: self.value@,
            prefix: self.prefix@,
            sound: self.sound@,
            admin_only: self.admin_only,
            super_only: self.super_only,
        }
    }
}

impl View for Effect<String> {
    type V = Effect<Text>;

    open spec fn view(&self) -> Effect<Text> {
        match self {
            Effect::Send(s) => Effect::Send(s@),
            Effect::Insist(s) => Effect::Insist(s@),
            Effect::PlaySound(s) => Effect::PlaySound(s@),
            Effect::PlayAudio => Effect::PlayAudio,
            Effect::StopAudio => Effect::StopAudio,
            Effect::SetValue { key, response } => Effect::SetValue {
                key: key@,
                response: response@,
            },
            Effect::SetPrefix { key, prefix } => Effect::SetPrefix { key: key@, prefix: prefix@ },
            Effect::InsertCommand { key, response, prefix } => Effect::InsertCommand {
                key: key@,
                response: response@,
                prefix: prefix@,
            },
            Effect::DumpCommands(s) => Effect::DumpCommands(s@),
            Effect::ReloadCommands(s) => Effect::ReloadCommands(s@),
            Effect::ReloadGame => Effect::ReloadGame,
            Effect::SaveGame => Effect::SaveGame,
            Effect::EnableAutosave => Effect::EnableAutosave,
            Effect::SetNick(s) => Effect::SetNick(s@),
            Effect::SetPlayerNick { player, nick } => Effect::SetPlayerNick {
                player: player@,
                nick: nick@,
            },
        }
    }
}

impl View for Question<String> {
    type V = Question<Text>;

    open spec fn view(&self) -> Question<Text> {
        match self {
            Question::Find(s) => Question::Find(s@),
            Question::TryGreet => Question::TryGreet,
            Question::HasResponses(s) => Question::HasResponses(s@),
            Question::OneIn(n) => Question::OneIn(*n),
            Question::Response(s) => Question::Response(s@),
            Question::DbResponse { name, collection } => Question::DbResponse {
                name: name@,
                collection: collection@,
            },
            Question::Inspect(s) => Question::Inspect(s@),
            Question::IsAdmin(s) => Question::IsAdmin(s@),
            Question::Describe { player, otherwise } => Question::Describe {
                player: player@,
                otherwise: otherwise@,
            },
            Question::BetFor(s) => Question::BetFor(s@),
            Question::BetAgainst(s) => Question::BetAgainst(s@),
            Question::GameFailed => Question::GameFailed,
            Question::GameWorked => Question::GameWorked,
            Question::GameStatus(s) => Question::GameStatus(s@),
            Question::Fetch(s) => Question::Fetch(s@),
            Question::Leaderboard => Question::Leaderboard,
            Question::SwapRoll(n) => Question::SwapRoll(*n),
            Question::TryDent => Question::TryDent,
            Question::RareTrident { roll, rarity, name } => Question::RareTrident {
                roll: *roll,
                rarity: *rarity,
                name: name@,
            },
            Question::RollEnchant => Question::RollEnchant,
            Question::Name => Question::Name,
            Question::Elo(s) => Question::Elo(s@),
            Question::CurrentSong => Question::CurrentSong,
        }
    }
}

/// What a command says, if there is one.
pub open spec fn node_view(node: Option<CommandNode<String>>) -> Option<CommandNode<Text>> {
    match node {
        Some(n) => Some(n@),
        None => None,
    }
}

/// What an offer says, if there is one.
pub open spec fn offer_view(offer: Option<Offer<String>>) -> Option<Offer<Text>> {
    match offer {
        Some(o) => Some(o@),
        None => None,
    }
}

impl View for Answer<String> {
    type V = Answer<Text>;

    open spec fn view(&self) -> Answer<Text> {
        match self {
            Answer::Found { node, rest } => Answer::Found {
                node: node_view(*node),
                rest: rest@,
            },
            Answer::Flag(b) => Answer::Flag(*b),
            Answer::Words(s) => Answer::Words(s@),
            Answer::MaybeWords(s) => Answer::MaybeWords(
                match s {
                    Some(t) => Some(t@),
                    None => None,
                },
            ),
            Answer::Roll(n) => Answer::Roll(*n),
            Answer::Known(k) => Answer::Known(*k),
            Answer::Offered(o) => Answer::Offered(offer_view(*o)),
            Answer::Playing(p) => Answer::Playing(*p),
        }
    }
}

impl View for Next<String> {
    type V = Next<Text>;

    open spec fn view(&self) -> Next<Text> {
        match self {
            Next::Done(c) => Next::Done(*c),
            Next::Ask(q) => Next::Ask(q@),
        }
    }
}

/// What a row of effects says.
pub open spec fn effects_view(v: Seq<Effect<String>>) -> Seq<Effect<Text>> {
    Seq::new(v.len(), |i: int| v[i]@)
}

/// No effect.
pub fn nothing() -> (r: Vec<Effect<String>>)
    ensures
        effects_view(r@) == Seq::<Effect<Text>>::empty(),
{
    let r: Vec<Effect<String>> = Vec::new();
    assert(effects_view(r@) =~= Seq::<Effect<Text>>::empty());
    r
}

/// One effect.
pub fn just(e: Effect<String>) -> (r: Vec<Effect<String>>)
    ensures
        effects_view(r@) == seq![e@],
{
    let mut r: Vec<Effect<String>> = Vec::new();
    r.push(e);
    assert(effects_view(r@) =~= seq![e@]);
    r
}

/// One effect after others.
pub fn and_then(effects: Vec<Effect<String>>, e: Effect<String>) -> (r: Vec<Effect<String>>)
    ensures
        effects_view(r@) == effects_view(effects@).push(e@),
{
    let ghost before = effects@;
    let mut r = effects;
    r.push(e);
    assert(effects_view(r@) =~= effects_view(before).push(e@));
    r
}

/// One effect before others.
pub fn preceded_by(effects: Vec<Effect<String>>, e: Effect<String>) -> (r: Vec<Effect<String>>)
    ensures
        effects_view(r@) == seq![e@] + effects_view(effects@),
{
    let ghost before = effects@;
    let mut r = effects;
    r.insert(0, e);
    assert(effects_view(r@) =~= seq![e@] + effects_view(before));
    r
}

/// What a contract sees of a command is the command.
pub proof fn law_commands_are_seen_as_they_are(node: CommandNode<String>, text: String)
    ensures
        node@.value == node.value@,
        node@.prefix == node.prefix@,
        node@.sound == node.sound@,
        node@.admin_only == node.admin_only,
        node@.super_only == node.super_only,
        CmdValue::StringResponse(text)@ == CmdValue::StringResponse(text@),
        CmdValue::Alias(text)@ == CmdValue::Alias(text@),
        CmdValue::Generic(text)@ == CmdValue::Generic(text@),
{
}

/// What a contract sees of effects is the effects, each in its place.
pub proof fn law_effects_are_seen_as_they_are(
    effects: Seq<Effect<String>>,
    a: String,
    b: String,
    c: String,
)
    ensures
        effects_view(effects).len() == effects.len(),
        forall|i: int|
            0 <= i < effects.len() ==> #[trigger] effects_view(effects)[i] == effects[i]@,
        Effect::Send(a)@ == Effect::Send(a@),
        Effect::Insist(a)@ == Effect::Insist(a@),
        Effect::PlaySound(a)@ == Effect::PlaySound(a@),
        Effect::<String>::PlayAudio@ == Effect::<Text>::PlayAudio,
        Effect::<String>::StopAudio@ == Effect::<Text>::StopAudio,
        (Effect::SetValue { key: a, response: b })@ == (Effect::SetValue { key: a@, response: b@ }),
        (Effect::SetPrefix { key: a, prefix: b })@ == (Effect::SetPrefix { key: a@, prefix: b@ }),
        (Effect::InsertCommand { key: a, response: b, prefix: c })@ == (Effect::InsertCommand {
            key: a@,
            response: b@,
            prefix: c@,
        }),
        Effect::DumpCommands(a)@ == Effect::DumpCommands(a@),
        Effect::ReloadCommands(a)@ == Effect::ReloadCommands(a@),
        Effect::<String>::ReloadGame@ == Effect::<Text>::ReloadGame,
        Effect::<String>::SaveGame@ == Effect::<Text>::SaveGame,
        Effect::<String>::EnableAutosave@ == Effect::<Text>::EnableAutosave,
        Effect::SetNick(a)@ == Effect::SetNick(a@),
        (Effect::SetPlayerNick { player: a, nick: b })@ == (Effect::SetPlayerNick {
            player: a@,
            nick: b@,
        }),
{
}

/// What a contract sees of questions is the questions.
pub proof fn law_questions_are_seen_as_they_are(a: String, b: String, n: u32, roll: i32, rarity: i64)
    ensures
        Question::Find(a)@ == Question::Find(a@),
        Question::<String>::TryGreet@ == Question::<Text>::TryGreet,
        Question::HasResponses(a)@ == Question::HasResponses(a@),
        Question::<String>::OneIn(n)@ == Question::<Text>::OneIn(n),
        Question::Response(a)@ == Question::Response(a@),
        (Question::DbResponse { name: a, collection: b })@ == (Question::DbResponse {
            name: a@,
            collection: b@,
        }),
        Question::Inspect(a)@ == Question::Inspect(a@),
        Question::IsAdmin(a)@ == Question::IsAdmin(a@),
        (Question::Describe { player: a, otherwise: b })@ == (Question::Describe {
            player: a@,
            otherwise: b@,
        }),
        Question::BetFor(a)@ == Question::BetFor(a@),
        Question::BetAgainst(a)@ == Question::BetAgainst(a@),
        Question::<String>::GameFailed@ == Question::<Text>::GameFailed,
        Question::<String>::GameWorked@ == Question::<Text>::GameWorked,
        Question::GameStatus(a)@ == Question::GameStatus(a@),
        Question::Fetch(a)@ == Question::Fetch(a@),
        Question::<String>::Leaderboard@ == Question::<Text>::Leaderboard,
        Question::<String>::SwapRoll(roll)@ == Question::<Text>::SwapRoll(roll),
        Question::<String>::TryDent@ == Question::<Text>::TryDent,
        (Question::RareTrident { roll, rarity, name: a })@ == (Question::RareTrident {
            roll,
            rarity,
            name: a@,
        }),
        Question::<String>::RollEnchant@ == Question::<Text>::RollEnchant,
        Question::<String>::Name@ == Question::<Text>::Name,
        Question::Elo(a)@ == Question::Elo(a@),
        Question::<String>::CurrentSong@ == Question::<Text>::CurrentSong,
{
}

/// What a contract sees of answers is the answers, and of how a turn goes on, how
/// it goes on.
pub proof fn law_answers_are_seen_as_they_are(
    node: CommandNode<String>,
    a: String,
    flag: bool,
    roll: i32,
    known: Inspection,
    offer: Offer<String>,
    playing: Playing,
    command: Command,
    question: Question<String>,
)
    ensures
        (Answer::Found { node: Some(node), rest: a })@ == (Answer::Found {
            node: Some(node@),
            rest: a@,
        }),
        (Answer::Found { node: None, rest: a })@ == (Answer::<Text>::Found { node: None, rest: a@ }),
        Answer::<String>::Flag(flag)@ == Answer::<Text>::Flag(flag),
        Answer::Words(a)@ == Answer::Words(a@),
        Answer::MaybeWords(Some(a))@ == Answer::MaybeWords(Some(a@)),
        Answer::<String>::MaybeWords(None)@ == Answer::<Text>::MaybeWords(None),
        Answer::<String>::Roll(roll)@ == Answer::<Text>::Roll(roll),
        Answer::<String>::Known(known)@ == Answer::<Text>::Known(known),
        Answer::Offered(Some(offer))@ == Answer::Offered(Some(offer@)),
        Answer::<String>::Offered(None)@ == Answer::<Text>::Offered(None),
        Answer::<String>::Playing(playing)@ == Answer::<Text>::Playing(playing),
        Next::<String>::Done(command)@ == Next::<Text>::Done(command),
        Next::Ask(question)@ == Next::Ask(question@),
{
}

} // verus!
