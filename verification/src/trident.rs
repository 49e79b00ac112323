//! Trident rolls: which remark a roll gets, and what the remarks say.
use crate::player::Player;
use crate::text::{
    is_digit, law_shown_integer_is_read_back, lemma_fill_mark, lemma_fill_one, lemma_fill_other,
    lemma_fill_text, lemma_fill_two, lemma_shown_head, no_brace, parse_i32, parsed, parsed_within,
    replace, replaced, same, show_i64, show_u64, shown, Text,
};
use vstd::prelude::*;

verus! {

pub const LOSER_1: &'static str = "Wow, {} rolled a 0? What a loser!";

pub const LOSER_2: &'static str = "A 0... try again later, {} :/";

pub const LOSER_3: &'static str = "Oh look here, you rolled a 0. So sad! Alexa, play Despacito :sob:";

pub const LOSER_4: &'static str = "You rolled a 0. Everyone: Don't let {} play AA. They don't have the luck - er, skill - for it.";

pub const BAD_1: &'static str = "Hehe. A 1. So close, and yet so far, eh {}?";

pub const BAD_2: &'static str = "{} rolled a 1. Everyone clap for {}. They deserve a little light in their life.";

pub const BAD_3: &'static str = "A 1. Nice work, {}. I'm sure you did great in school.";

pub const BAD_4: &'static str = "1. Do you know how likely that is, {}? You should ask PacManMVC. He has a spreadsheet, just to show how bad you are.";

pub const BAD_5: &'static str = "Excuse me, officer? This 1-rolling loser {} keeps yelling 'roll trident!' at me and I can't get them to stop.";

pub const OK_1: &'static str = "{N}. Cool. That's not that bad.";

pub const OK_2: &'static str = "{N}! Wow, that's great! Last time, I rolled a 0, and everyone made fun of me :sob: I'm so jealous of you :sob:";

pub const OK_3: &'static str = "{N}... not terrible, I suppose.";

pub const OK_4: &'static str = "{N}. :/ <- That's all I have to say.";

pub const OK_5: &'static str = "{N}. Yeppers. Yep yep yep. Real good roll you got there, buddy.";

pub const OK_6: &'static str = "{N}! Whoa. A whole {N} more durability than 0, and you still won't get thunder, LOL!";

pub const OK_7: &'static str = "Cat fact cat fact! Did you know that the first {N} cats that spawn NEVER contain a Calico? ...seriously, where is my Calico??";

pub const GOOD_1: &'static str = "{N}. Wow! I'm really impressed :)";

pub const GOOD_2: &'static str = "{N}! Cool, cool. Cool. Coooool.";

pub const GOOD_3: &'static str = "{N}... Hm. It's so good, and yet, really not that good.";

pub const GOOD_4: &'static str = "Here's a cat fact! Did you know they can eat up to {N} fish in a single day?!";

pub const GOOD_5: &'static str = "{N}. I lied about the cat fact, just FYI. I don't know anything about cats. He doesn't let me use the internet :(";

pub const GOOD_6: &'static str = "{N}. I want a cat. I'd treat it well and not abandon it in a random village.";

pub const GOOD_7: &'static str = "{N} temples checked before enchanted golden apple.";

pub const GREAT_1: &'static str = "{N}. Great work!!! That's going in your diary, I'm sure.";

pub const GREAT_2: &'static str = "{N}! Whoaaaaa. I'm in awe.";

pub const GREAT_3: &'static str = "{N}... Pretty great! You know what would be better? Getting outside ;) ;) ;)";

pub const GREAT_4: &'static str = "{N}. Oh boy! We got a high roller here!";

pub const PENALTY_START: &'static str = "Ew... a {t.r}. What a gross low roll, {ur}. I'm deducting ";

pub const PENALTY_END: &'static str = " files from you, just for that...";

pub const PAC_START: &'static str = "{t.r}. Ouch. Just ";

pub const PAC_END: &'static str = " more, and you could have finished the TAS with that, eh \"Pac\" man? Whatever that means...";

/// The remarks on a roll of 0.
pub open spec fn loser_remark(i: int) -> Text {
    if i == 0 {
        LOSER_1@
    } else if i == 1 {
        LOSER_2@
    } else if i == 2 {
        LOSER_3@
    } else {
        LOSER_4@
    }
}

/// The remarks on a roll of 1.
pub open spec fn bad_remark(i: int) -> Text {
    if i == 0 {
        BAD_1@
    } else if i == 1 {
        BAD_2@
    } else if i == 2 {
        BAD_3@
    } else if i == 3 {
        BAD_4@
    } else {
        BAD_5@
    }
}

/// The remarks on a roll below 100.
pub open spec fn ok_remark(i: int) -> Text {
    if i == 0 {
        OK_1@
    } else if i == 1 {
        OK_2@
    } else if i == 2 {
        OK_3@
    } else if i == 3 {
        OK_4@
    } else if i == 4 {
        OK_5@
    } else if i == 5 {
        OK_6@
    } else {
        OK_7@
    }
}

/// The remarks on a roll below 200.
pub open spec fn good_remark(i: int) -> Text {
    if i == 0 {
        GOOD_1@
    } else if i == 1 {
        GOOD_2@
    } else if i == 2 {
        GOOD_3@
    } else if i == 3 {
        GOOD_4@
    } else if i == 4 {
        GOOD_5@
    } else if i == 5 {
        GOOD_6@
    } else {
        GOOD_7@
    }
}

/// The remarks on a roll below 250.
pub open spec fn great_remark(i: int) -> Text {
    if i == 0 {
        GREAT_1@
    } else if i == 1 {
        GREAT_2@
    } else if i == 2 {
        GREAT_3@
    } else {
        GREAT_4@
    }
}

fn loser(i: usize) -> (r: &'static str)
    ensures
        r@ == loser_remark(i as int),
{
    if i == 0 {
        LOSER_1
    } else if i == 1 {
        LOSER_2
    } else if i == 2 {
        LOSER_3
    } else {
        LOSER_4
    }
}

fn bad(i: usize) -> (r: &'static str)
    ensures
        r@ == bad_remark(i as int),
{
    if i == 0 {
        BAD_1
    } else if i == 1 {
        BAD_2
    } else if i == 2 {
        BAD_3
    } else if i == 3 {
        BAD_4
    } else {
        BAD_5
    }
}

fn ok(i: usize) -> (r: &'static str)
    ensures
        r@ == ok_remark(i as int),
{
    if i == 0 {
        OK_1
    } else if i == 1 {
        OK_2
    } else if i == 2 {
        OK_3
    } else if i == 3 {
        OK_4
    } else if i == 4 {
        OK_5
    } else if i == 5 {
        OK_6
    } else {
        OK_7
    }
}

fn good(i: usize) -> (r: &'static str)
    ensures
        r@ == good_remark(i as int),
{
    if i == 0 {
        GOOD_1
    } else if i == 1 {
        GOOD_2
    } else if i == 2 {
        GOOD_3
    } else if i == 3 {
        GOOD_4
    } else if i == 4 {
        GOOD_5
    } else if i == 5 {
        GOOD_6
    } else {
        GOOD_7
    }
}

fn great(i: usize) -> (r: &'static str)
    ensures
        r@ == great_remark(i as int),
{
    if i == 0 {
        GREAT_1
    } else if i == 1 {
        GREAT_2
    } else if i == 2 {
        GREAT_3
    } else {
        GREAT_4
    }
}

/// The plain remark on a roll, by which of four, five or seven it is: the
/// lowest two name the player, the others the roll.
pub open spec fn plain_remark(
    roll: i32,
    name: Text,
    of_four: int,
    of_five: int,
    of_seven: int,
) -> Text {
    if roll == 0 {
        replaced(loser_remark(of_four), "{}"@, name)
    } else if roll == 1 {
        replaced(bad_remark(of_five), "{}"@, name)
    } else if roll < 100 {
        replaced(ok_remark(of_seven), "{N}"@, shown(roll as int))
    } else if roll < 200 {
        replaced(good_remark(of_seven), "{N}"@, shown(roll as int))
    } else {
        replaced(great_remark(of_four), "{N}"@, shown(roll as int))
    }
}

/// The plain remark on a roll.
pub fn plain(roll: i32, name: &str, of_four: usize, of_five: usize, of_seven: usize) -> (r: String)
    requires
        roll < 250,
    ensures
        r@ == plain_remark(roll, name@, of_four as int, of_five as int, of_seven as int),
{
    proof {
        reveal_strlit("{}");
        reveal_strlit("{N}");
    }
    let number = show_i64(roll as i64);
    if roll == 0 {
        replace(loser(of_four), "{}", name)
    } else if roll == 1 {
        replace(bad(of_five), "{}", name)
    } else if roll < 100 {
        replace(ok(of_seven), "{N}", number.as_str())
    } else if roll < 200 {
        replace(good(of_seven), "{N}", number.as_str())
    } else {
        replace(great(of_four), "{N}", number.as_str())
    }
}

/// The seconds of silence that come with a roll: for 0 and for 1.
pub open spec fn silence(roll: i32) -> Option<Text> {
    if roll == 0 {
        Some("10"@)
    } else if roll == 1 {
        Some("15"@)
    } else {
        None
    }
}

/// The chat command that silences `user` for `seconds`.
pub open spec fn timeout_text(user: Text, seconds: Text) -> Text {
    "/timeout "@ + user + " "@ + seconds
}

/// The chat command that silences the player after a roll of 0 or 1.
pub fn timeout(roll: i32, user: &str) -> (r: Option<String>)
    ensures
        match r {
            Some(t) => silence(roll) matches Some(seconds) && t@ == timeout_text(user@, seconds),
            None => silence(roll) is None,
        },
{
    let seconds = if roll == 0 {
        "10"
    } else if roll == 1 {
        "15"
    } else {
        return None;
    };
    let mut s = "/timeout ".to_owned();
    s.append(user);
    s.append(" ");
    s.append(seconds);
    Some(s)
}

/// A remark with the player's name, the roll, and the number of rolls in the
/// places that are marked for them.
pub open spec fn normal_form(template: Text, name: Text, roll: i32, rolled: u64) -> Text {
    replaced(
        replaced(replaced(template, "{ur}"@, name), "{t.r}"@, shown(roll as int)),
        "{t.rolled}"@,
        shown(rolled as int),
    )
}

/// Fills in the player's name, the roll, and the number of rolls.
pub fn norm_fmt(template: &str, name: &str, roll: i32, rolled: u64) -> (r: String)
    ensures
        r@ == normal_form(template@, name@, roll, rolled),
{
    proof {
        reveal_strlit("{ur}");
        reveal_strlit("{t.r}");
        reveal_strlit("{t.rolled}");
    }
    let s = replace(template, "{ur}", name);
    let s = replace(s.as_str(), "{t.r}", show_i64(roll as i64).as_str());
    replace(s.as_str(), "{t.rolled}", show_u64(rolled).as_str())
}

/// The remark on a low roll that costs files.
pub open spec fn penalty_text(name: Text, roll: i32, rolled: u64, deduction: int) -> Text {
    normal_form(PENALTY_START@ + shown(deduction) + PENALTY_END@, name, roll, rolled)
}

pub fn penalty(name: &str, roll: i32, rolled: u64, deduction: i64) -> (r: String)
    ensures
        r@ == penalty_text(name@, roll, rolled, deduction as int),
{
    let mut s = PENALTY_START.to_owned();
    s.append(show_i64(deduction).as_str());
    s.append(PENALTY_END);
    norm_fmt(s.as_str(), name, roll, rolled)
}

/// The remark that only one player gets, on a roll below 66.
pub open spec fn pac_text(name: Text, roll: i32, rolled: u64) -> Text {
    normal_form(PAC_START@ + shown(66 - roll) + PAC_END@, name, roll, rolled)
}

pub fn pac_remark(name: &str, roll: i32, rolled: u64) -> (r: String)
    ensures
        r@ == pac_text(name@, roll, rolled),
{
    let mut s = PAC_START.to_owned();
    s.append(show_i64(66 - roll as i64).as_str());
    s.append(PAC_END);
    norm_fmt(s.as_str(), name, roll, rolled)
}

/// The roll that counts: the random one, unless the owner of the bot has asked
/// for another.
pub open spec fn final_roll(user: Text, args: Text, random: i32) -> i32 {
    match parsed_within(args, i32::MIN as int, i32::MAX as int) {
        Some(v) => if user == "desktopfolder"@ {
            v as i32
        } else {
            random
        },
        None => random,
    }
}

/// Settles the roll that counts.
pub fn settle_roll(user: &str, args: &str, random: i32) -> (r: i32)
    ensures
        r == final_roll(user@, args@, random),
{
    if same(user, "desktopfolder") {
        match parse_i32(args) {
            Some(v) => v,
            None => random,
        }
    } else {
        random
    }
}

/// The pool of remarks for a roll that stands out, of a player whose record
/// already counts it: a perfect roll, a best one, a high one early on, the very
/// first, or the same low roll twice.
pub open spec fn notable_pool(player: Player, best: bool, roll: i32, previous: i32) -> Option<Text> {
    if roll == 250 {
        Some("TRIDENT_VALUE_250"@)
    } else if best && player.tridents_rolled > 5 {
        Some("TRIDENT_PB_GENERIC"@)
    } else if player.tridents_rolled <= 5 && roll >= 100 {
        Some("EARLY_HIGH_TRIDENT"@)
    } else if player.tridents_rolled == 1 {
        Some("FIRST_TRIDENT_GENERIC"@)
    } else if roll < 5 && roll == previous {
        Some("TRIDENT_DOUBLE_LOW"@)
    } else {
        None
    }
}

/// Finds the pool of remarks for a roll that stands out.
pub fn notable(player: &Player, best: bool, roll: i32, previous: i32) -> (r: Option<&'static str>)
    ensures
        match r {
            Some(pool) => notable_pool(*player, best, roll, previous) == Some(pool@),
            None => notable_pool(*player, best, roll, previous) is None,
        },
{
    if roll == 250 {
        Some("TRIDENT_VALUE_250")
    } else if best && player.tridents_rolled > 5 {
        Some("TRIDENT_PB_GENERIC")
    } else if player.tridents_rolled <= 5 && roll >= 100 {
        Some("EARLY_HIGH_TRIDENT")
    } else if player.tridents_rolled == 1 {
        Some("FIRST_TRIDENT_GENERIC")
    } else if roll < 5 && roll == previous {
        Some("TRIDENT_DOUBLE_LOW")
    } else {
        None
    }
}

/// What can happen on a roll that does not stand out, in the order in which it
/// is tried.
#[derive(Clone, Copy, Debug, PartialEq, Eq, Structural)]
pub enum Hazard {
    /// The roll costs files.
    Penalty,
    /// The player dies of a low roll.
    LowDeath,
    /// The player dies of a high roll.
    HighDeath,
    /// A remark on the distance to 66.
    PacRemark,
}

impl Hazard {
    /// The rolls on which a hazard is tried, and by whom.
    pub open spec fn applies(self, roll: i32, user: Text) -> bool {
        match self {
            Hazard::Penalty => roll < 5,
            Hazard::LowDeath => roll < 2,
            Hazard::HighDeath => 150 < roll < 176,
            Hazard::PacRemark => roll < 66 && user == "pacmanmvc"@,
        }
    }

    /// A hazard happens once in so many times.
    pub open spec fn odds(self) -> u32 {
        match self {
            Hazard::Penalty => 6,
            Hazard::LowDeath => 5,
            Hazard::HighDeath => 5,
            Hazard::PacRemark => 10,
        }
    }

    /// The hazard after this one.
    pub open spec fn next(self) -> Option<Hazard> {
        match self {
            Hazard::Penalty => Some(Hazard::LowDeath),
            Hazard::LowDeath => Some(Hazard::HighDeath),
            Hazard::HighDeath => Some(Hazard::PacRemark),
            Hazard::PacRemark => None,
        }
    }

    /// How many hazards there are from this one on.
    pub open spec fn left(self) -> nat {
        match self {
            Hazard::Penalty => 4,
            Hazard::LowDeath => 3,
            Hazard::HighDeath => 2,
            Hazard::PacRemark => 1,
        }
    }

    /// The first hazard that applies, from this one on.
    pub open spec fn first(self, roll: i32, user: Text) -> Option<Hazard>
        decreases self.left(),
    {
        if self.applies(roll, user) {
            Some(self)
        } else {
            match self.next() {
                Some(h) => h.first(roll, user),
                None => None,
            }
        }
    }

    /// The first hazard that applies after this one.
    pub open spec fn following(self, roll: i32, user: Text) -> Option<Hazard> {
        match self.next() {
            Some(h) => h.first(roll, user),
            None => None,
        }
    }

    fn applies_to(self, roll: i32, user: &str) -> (r: bool)
        ensures
            r == self.applies(roll, user@),
    {
        match self {
            Hazard::Penalty => roll < 5,
            Hazard::LowDeath => roll < 2,
            Hazard::HighDeath => 150 < roll && roll < 176,
            Hazard::PacRemark => roll < 66 && same(user, "pacmanmvc"),
        }
    }

    /// Tells how often a hazard happens.
    pub fn one_in(self) -> (r: u32)
        ensures
            r == self.odds(),
    {
        match self {
            Hazard::Penalty => 6,
            Hazard::LowDeath => 5,
            Hazard::HighDeath => 5,
            Hazard::PacRemark => 10,
        }
    }

    fn successor(self) -> (r: Option<Hazard>)
        ensures
            r == self.next(),
    {
        match self {
            Hazard::Penalty => Some(Hazard::LowDeath),
            Hazard::LowDeath => Some(Hazard::HighDeath),
            Hazard::HighDeath => Some(Hazard::PacRemark),
            Hazard::PacRemark => None,
        }
    }

    /// Finds the first hazard that applies, from this one on.
    pub fn first_for(self, roll: i32, user: &str) -> (r: Option<Hazard>)
        ensures
            r == self.first(roll, user@),
        decreases self.left(),
    {
        if self.applies_to(roll, user) {
            Some(self)
        } else {
            match self.successor() {
                Some(h) => h.first_for(roll, user),
                None => None,
            }
        }
    }

    /// Finds the first hazard that applies after this one.
    pub fn following_for(self, roll: i32, user: &str) -> (r: Option<Hazard>)
        ensures
            r == self.following(roll, user@),
    {
        match self.successor() {
            Some(h) => h.first_for(roll, user),
            None => None,
        }
    }
}

proof fn lemma_first_hazard(h: Hazard, roll: i32, user: Text)
    ensures
        h.first(roll, user) matches Some(f) ==> f.applies(roll, user) && f.left() <= h.left(),
    decreases h.left(),
{
    if !h.applies(roll, user) {
        match h.next() {
            Some(n) => lemma_first_hazard(n, roll, user),
            None => {},
        }
    }
}

/// A hazard is only ever tried on a roll that it applies to, and no hazard is
/// tried twice on one roll.
pub proof fn law_hazards_are_tried_in_order(h: Hazard, roll: i32, user: Text)
    ensures
        h.first(roll, user) matches Some(f) ==> f.applies(roll, user),
        h.following(roll, user) matches Some(f) ==> f.applies(roll, user) && f.left() < h.left(),
{
    lemma_first_hazard(h, roll, user);
    match h.next() {
        Some(n) => lemma_first_hazard(n, roll, user),
        None => {},
    }
}

/// The kind of remark that a roll gets when nothing else has happened.
#[derive(Clone, Copy, Debug, PartialEq, Eq, Structural)]
pub enum Remark {
    /// One of the plain remarks.
    Plain,
    /// One from the pool of rare remarks.
    RarePool,
    /// One from the pool of remarks on low rolls.
    LowPool,
    /// A rare remark made for the roll.
    Rare,
}

/// The kind of remark for a roll, by a number up to 100.
pub open spec fn remark_kind(selection: int, roll: i32) -> Remark {
    if selection < 77 {
        Remark::Plain
    } else if selection < 82 && roll != 250 {
        Remark::RarePool
    } else if selection < 85 && roll < 10 {
        Remark::LowPool
    } else {
        Remark::Rare
    }
}

/// Picks the kind of remark for a roll.
pub fn pick_remark(selection: i64, roll: i32) -> (r: Remark)
    ensures
        r == remark_kind(selection as int, roll),
{
    if selection < 77 {
        Remark::Plain
    } else if selection < 82 && roll != 250 {
        Remark::RarePool
    } else if selection < 85 && roll < 10 {
        Remark::LowPool
    } else {
        Remark::Rare
    }
}

/// The plain remarks on a roll of 0, as they read: four, and three of them name the
/// player.
pub proof fn law_remarks_on_zero(name: Text, of_four: int, of_five: int, of_seven: int)
    requires
        0 <= of_four < 4,
    ensures
        of_four == 0 ==> plain_remark(0, name, of_four, of_five, of_seven) == "Wow, "@ + name + " rolled a 0? What a loser!"@,
        of_four == 1 ==> plain_remark(0, name, of_four, of_five, of_seven) == "A 0... try again later, "@ + name + " :/"@,
        of_four == 2 ==> plain_remark(0, name, of_four, of_five, of_seven) == "Oh look here, you rolled a 0. So sad! Alexa, play Despacito :sob:"@,
        of_four == 3 ==> plain_remark(0, name, of_four, of_five, of_seven) == "You rolled a 0. Everyone: Don't let "@ + name + " play AA. They don't have the luck - er, skill - for it."@,
{
    reveal_strlit("{}");
    if of_four == 0 {
        reveal_strlit("Wow, {} rolled a 0? What a loser!");
        reveal_strlit("Wow, ");
        reveal_strlit(" rolled a 0? What a loser!");
        assert("Wow, {} rolled a 0? What a loser!"@ =~= "Wow, "@ + "{}"@ + " rolled a 0? What a loser!"@);
        lemma_fill_one("Wow, {} rolled a 0? What a loser!"@, "Wow, "@, "{}"@, " rolled a 0? What a loser!"@, name);
    } else if of_four == 1 {
        reveal_strlit("A 0... try again later, {} :/");
        reveal_strlit("A 0... try again later, ");
        reveal_strlit(" :/");
        assert("A 0... try again later, {} :/"@ =~= "A 0... try again later, "@ + "{}"@ + " :/"@);
        lemma_fill_one("A 0... try again later, {} :/"@, "A 0... try again later, "@, "{}"@, " :/"@, name);
    } else if of_four == 2 {
        reveal_strlit("Oh look here, you rolled a 0. So sad! Alexa, play Despacito :sob:");
        lemma_fill_text("Oh look here, you rolled a 0. So sad! Alexa, play Despacito :sob:"@, Seq::<char>::empty(), "{}"@, name);
    } else {
        reveal_strlit("You rolled a 0. Everyone: Don't let {} play AA. They don't have the luck - er, skill - for it.");
        reveal_strlit("You rolled a 0. Everyone: Don't let ");
        reveal_strlit(" play AA. They don't have the luck - er, skill - for it.");
        assert("You rolled a 0. Everyone: Don't let {} play AA. They don't have the luck - er, skill - for it."@ =~= "You rolled a 0. Everyone: Don't let "@ + "{}"@ + " play AA. They don't have the luck - er, skill - for it."@);
        lemma_fill_one("You rolled a 0. Everyone: Don't let {} play AA. They don't have the luck - er, skill - for it."@, "You rolled a 0. Everyone: Don't let "@, "{}"@, " play AA. They don't have the luck - er, skill - for it."@, name);
    }
}

/// The plain remarks on a roll of 1, as they read: five, and all of them name the
/// player.
pub proof fn law_remarks_on_one(name: Text, of_four: int, of_five: int, of_seven: int)
    requires
        0 <= of_five < 5,
    ensures
        of_five == 0 ==> plain_remark(1, name, of_four, of_five, of_seven) == "Hehe. A 1. So close, and yet so far, eh "@ + name + "?"@,
        of_five == 1 ==> plain_remark(1, name, of_four, of_five, of_seven) == name + " rolled a 1. Everyone clap for "@ + name + ". They deserve a little light in their life."@,
        of_five == 2 ==> plain_remark(1, name, of_four, of_five, of_seven) == "A 1. Nice work, "@ + name + ". I'm sure you did great in school."@,
        of_five == 3 ==> plain_remark(1, name, of_four, of_five, of_seven) == "1. Do you know how likely that is, "@ + name + "? You should ask PacManMVC. He has a spreadsheet, just to show how bad you are."@,
        of_five == 4 ==> plain_remark(1, name, of_four, of_five, of_seven) == "Excuse me, officer? This 1-rolling loser "@ + name + " keeps yelling 'roll trident!' at me and I can't get them to stop."@,
{
    reveal_strlit("{}");
    if of_five == 0 {
        reveal_strlit("Hehe. A 1. So close, and yet so far, eh {}?");
        reveal_strlit("Hehe. A 1. So close, and yet so far, eh ");
        reveal_strlit("?");
        assert("Hehe. A 1. So close, and yet so far, eh {}?"@ =~= "Hehe. A 1. So close, and yet so far, eh "@ + "{}"@ + "?"@);
        lemma_fill_one("Hehe. A 1. So close, and yet so far, eh {}?"@, "Hehe. A 1. So close, and yet so far, eh "@, "{}"@, "?"@, name);
    } else if of_five == 1 {
        reveal_strlit("{} rolled a 1. Everyone clap for {}. They deserve a little light in their life.");
        reveal_strlit(" rolled a 1. Everyone clap for ");
        reveal_strlit(". They deserve a little light in their life.");
        assert("{} rolled a 1. Everyone clap for {}. They deserve a little light in their life."@ =~= Seq::<char>::empty() + "{}"@ + " rolled a 1. Everyone clap for "@ + "{}"@ + ". They deserve a little light in their life."@);
        lemma_fill_two("{} rolled a 1. Everyone clap for {}. They deserve a little light in their life."@, Seq::<char>::empty(), "{}"@, " rolled a 1. Everyone clap for "@, ". They deserve a little light in their life."@, name);
        assert(Seq::<char>::empty() + name + " rolled a 1. Everyone clap for "@ + name + ". They deserve a little light in their life."@ =~= name + " rolled a 1. Everyone clap for "@ + name + ". They deserve a little light in their life."@);
    } else if of_five == 2 {
        reveal_strlit("A 1. Nice work, {}. I'm sure you did great in school.");
        reveal_strlit("A 1. Nice work, ");
        reveal_strlit(". I'm sure you did great in school.");
        assert("A 1. Nice work, {}. I'm sure you did great in school."@ =~= "A 1. Nice work, "@ + "{}"@ + ". I'm sure you did great in school."@);
        lemma_fill_one("A 1. Nice work, {}. I'm sure you did great in school."@, "A 1. Nice work, "@, "{}"@, ". I'm sure you did great in school."@, name);
    } else if of_five == 3 {
        reveal_strlit("1. Do you know how likely that is, {}? You should ask PacManMVC. He has a spreadsheet, just to show how bad you are.");
        reveal_strlit("1. Do you know how likely that is, ");
        reveal_strlit("? You should ask PacManMVC. He has a spreadsheet, just to show how bad you are.");
        assert("1. Do you know how likely that is, {}? You should ask PacManMVC. He has a spreadsheet, just to show how bad you are."@ =~= "1. Do you know how likely that is, "@ + "{}"@ + "? You should ask PacManMVC. He has a spreadsheet, just to show how bad you are."@);
        lemma_fill_one("1. Do you know how likely that is, {}? You should ask PacManMVC. He has a spreadsheet, just to show how bad you are."@, "1. Do you know how likely that is, "@, "{}"@, "? You should ask PacManMVC. He has a spreadsheet, just to show how bad you are."@, name);
    } else {
        reveal_strlit("Excuse me, officer? This 1-rolling loser {} keeps yelling 'roll trident!' at me and I can't get them to stop.");
        reveal_strlit("Excuse me, officer? This 1-rolling loser ");
        reveal_strlit(" keeps yelling 'roll trident!' at me and I can't get them to stop.");
        assert("Excuse me, officer? This 1-rolling loser {} keeps yelling 'roll trident!' at me and I can't get them to stop."@ =~= "Excuse me, officer? This 1-rolling loser "@ + "{}"@ + " keeps yelling 'roll trident!' at me and I can't get them to stop."@);
        lemma_fill_one("Excuse me, officer? This 1-rolling loser {} keeps yelling 'roll trident!' at me and I can't get them to stop."@, "Excuse me, officer? This 1-rolling loser "@, "{}"@, " keeps yelling 'roll trident!' at me and I can't get them to stop."@, name);
    }
}

/// The plain remarks on a roll below 100 that is neither 0 nor 1, as they read:
/// seven, and all of them tell the roll.
pub proof fn law_remarks_below_100(roll: i32, name: Text, of_four: int, of_five: int, of_seven: int)
    requires
        roll < 100,
        roll != 0,
        roll != 1,
        0 <= of_seven < 7,
    ensures
        of_seven == 0 ==> plain_remark(roll, name, of_four, of_five, of_seven) == shown(roll as int) + ". Cool. That's not that bad."@,
        of_seven == 1 ==> plain_remark(roll, name, of_four, of_five, of_seven) == shown(roll as int) + "! Wow, that's great! Last time, I rolled a 0, and everyone made fun of me :sob: I'm so jealous of you :sob:"@,
        of_seven == 2 ==> plain_remark(roll, name, of_four, of_five, of_seven) == shown(roll as int) + "... not terrible, I suppose."@,
        of_seven == 3 ==> plain_remark(roll, name, of_four, of_five, of_seven) == shown(roll as int) + ". :/ <- That's all I have to say."@,
        of_seven == 4 ==> plain_remark(roll, name, of_four, of_five, of_seven) == shown(roll as int) + ". Yeppers. Yep yep yep. Real good roll you got there, buddy."@,
        of_seven == 5 ==> plain_remark(roll, name, of_four, of_five, of_seven) == shown(roll as int) + "! Whoa. A whole "@ + shown(roll as int) + " more durability than 0, and you still won't get thunder, LOL!"@,
        of_seven == 6 ==> plain_remark(roll, name, of_four, of_five, of_seven) == "Cat fact cat fact! Did you know that the first "@ + shown(roll as int) + " cats that spawn NEVER contain a Calico? ...seriously, where is my Calico??"@,
{
    reveal_strlit("{N}");
    if of_seven == 0 {
        reveal_strlit("{N}. Cool. That's not that bad.");
        reveal_strlit(". Cool. That's not that bad.");
        assert("{N}. Cool. That's not that bad."@ =~= Seq::<char>::empty() + "{N}"@ + ". Cool. That's not that bad."@);
        lemma_fill_one("{N}. Cool. That's not that bad."@, Seq::<char>::empty(), "{N}"@, ". Cool. That's not that bad."@, shown(roll as int));
        assert(Seq::<char>::empty() + shown(roll as int) + ". Cool. That's not that bad."@ =~= shown(roll as int) + ". Cool. That's not that bad."@);
    } else if of_seven == 1 {
        reveal_strlit("{N}! Wow, that's great! Last time, I rolled a 0, and everyone made fun of me :sob: I'm so jealous of you :sob:");
        reveal_strlit("! Wow, that's great! Last time, I rolled a 0, and everyone made fun of me :sob: I'm so jealous of you :sob:");
        assert("{N}! Wow, that's great! Last time, I rolled a 0, and everyone made fun of me :sob: I'm so jealous of you :sob:"@ =~= Seq::<char>::empty() + "{N}"@ + "! Wow, that's great! Last time, I rolled a 0, and everyone made fun of me :sob: I'm so jealous of you :sob:"@);
        lemma_fill_one("{N}! Wow, that's great! Last time, I rolled a 0, and everyone made fun of me :sob: I'm so jealous of you :sob:"@, Seq::<char>::empty(), "{N}"@, "! Wow, that's great! Last time, I rolled a 0, and everyone made fun of me :sob: I'm so jealous of you :sob:"@, shown(roll as int));
        assert(Seq::<char>::empty() + shown(roll as int) + "! Wow, that's great! Last time, I rolled a 0, and everyone made fun of me :sob: I'm so jealous of you :sob:"@ =~= shown(roll as int) + "! Wow, that's great! Last time, I rolled a 0, and everyone made fun of me :sob: I'm so jealous of you :sob:"@);
    } else if of_seven == 2 {
        reveal_strlit("{N}... not terrible, I suppose.");
        reveal_strlit("... not terrible, I suppose.");
        assert("{N}... not terrible, I suppose."@ =~= Seq::<char>::empty() + "{N}"@ + "... not terrible, I suppose."@);
        lemma_fill_one("{N}... not terrible, I suppose."@, Seq::<char>::empty(), "{N}"@, "... not terrible, I suppose."@, shown(roll as int));
        assert(Seq::<char>::empty() + shown(roll as int) + "... not terrible, I suppose."@ =~= shown(roll as int) + "... not terrible, I suppose."@);
    } else if of_seven == 3 {
        reveal_strlit("{N}. :/ <- That's all I have to say.");
        reveal_strlit(". :/ <- That's all I have to say.");
        assert("{N}. :/ <- That's all I have to say."@ =~= Seq::<char>::empty() + "{N}"@ + ". :/ <- That's all I have to say."@);
        lemma_fill_one("{N}. :/ <- That's all I have to say."@, Seq::<char>::empty(), "{N}"@, ". :/ <- That's all I have to say."@, shown(roll as int));
        assert(Seq::<char>::empty() + shown(roll as int) + ". :/ <- That's all I have to say."@ =~= shown(roll as int) + ". :/ <- That's all I have to say."@);
    } else if of_seven == 4 {
        reveal_strlit("{N}. Yeppers. Yep yep yep. Real good roll you got there, buddy.");
        reveal_strlit(". Yeppers. Yep yep yep. Real good roll you got there, buddy.");
        assert("{N}. Yeppers. Yep yep yep. Real good roll you got there, buddy."@ =~= Seq::<char>::empty() + "{N}"@ + ". Yeppers. Yep yep yep. Real good roll you got there, buddy."@);
        lemma_fill_one("{N}. Yeppers. Yep yep yep. Real good roll you got there, buddy."@, Seq::<char>::empty(), "{N}"@, ". Yeppers. Yep yep yep. Real good roll you got there, buddy."@, shown(roll as int));
        assert(Seq::<char>::empty() + shown(roll as int) + ". Yeppers. Yep yep yep. Real good roll you got there, buddy."@ =~= shown(roll as int) + ". Yeppers. Yep yep yep. Real good roll you got there, buddy."@);
    } else if of_seven == 5 {
        reveal_strlit("{N}! Whoa. A whole {N} more durability than 0, and you still won't get thunder, LOL!");
        reveal_strlit("! Whoa. A whole ");
        reveal_strlit(" more durability than 0, and you still won't get thunder, LOL!");
        assert("{N}! Whoa. A whole {N} more durability than 0, and you still won't get thunder, LOL!"@ =~= Seq::<char>::empty() + "{N}"@ + "! Whoa. A whole "@ + "{N}"@ + " more durability than 0, and you still won't get thunder, LOL!"@);
        lemma_fill_two("{N}! Whoa. A whole {N} more durability than 0, and you still won't get thunder, LOL!"@, Seq::<char>::empty(), "{N}"@, "! Whoa. A whole "@, " more durability than 0, and you still won't get thunder, LOL!"@, shown(roll as int));
        assert(Seq::<char>::empty() + shown(roll as int) + "! Whoa. A whole "@ + shown(roll as int) + " more durability than 0, and you still won't get thunder, LOL!"@ =~= shown(roll as int) + "! Whoa. A whole "@ + shown(roll as int) + " more durability than 0, and you still won't get thunder, LOL!"@);
    } else {
        reveal_strlit("Cat fact cat fact! Did you know that the first {N} cats that spawn NEVER contain a Calico? ...seriously, where is my Calico??");
        reveal_strlit("Cat fact cat fact! Did you know that the first ");
        reveal_strlit(" cats that spawn NEVER contain a Calico? ...seriously, where is my Calico??");
        assert("Cat fact cat fact! Did you know that the first {N} cats that spawn NEVER contain a Calico? ...seriously, where is my Calico??"@ =~= "Cat fact cat fact! Did you know that the first "@ + "{N}"@ + " cats that spawn NEVER contain a Calico? ...seriously, where is my Calico??"@);
        lemma_fill_one("Cat fact cat fact! Did you know that the first {N} cats that spawn NEVER contain a Calico? ...seriously, where is my Calico??"@, "Cat fact cat fact! Did you know that the first "@, "{N}"@, " cats that spawn NEVER contain a Calico? ...seriously, where is my Calico??"@, shown(roll as int));
    }
}

/// The plain remarks on a roll from 100 to 199, as they read: seven, and all of
/// them tell the roll.
pub proof fn law_remarks_below_200(roll: i32, name: Text, of_four: int, of_five: int, of_seven: int)
    requires
        100 <= roll < 200,
        0 <= of_seven < 7,
    ensures
        of_seven == 0 ==> plain_remark(roll, name, of_four, of_five, of_seven) == shown(roll as int) + ". Wow! I'm really impressed :)"@,
        of_seven == 1 ==> plain_remark(roll, name, of_four, of_five, of_seven) == shown(roll as int) + "! Cool, cool. Cool. Coooool."@,
        of_seven == 2 ==> plain_remark(roll, name, of_four, of_five, of_seven) == shown(roll as int) + "... Hm. It's so good, and yet, really not that good."@,
        of_seven == 3 ==> plain_remark(roll, name, of_four, of_five, of_seven) == "Here's a cat fact! Did you know they can eat up to "@ + shown(roll as int) + " fish in a single day?!"@,
        of_seven == 4 ==> plain_remark(roll, name, of_four, of_five, of_seven) == shown(roll as int) + ". I lied about the cat fact, just FYI. I don't know anything about cats. He doesn't let me use the internet :("@,
        of_seven == 5 ==> plain_remark(roll, name, of_four, of_five, of_seven) == shown(roll as int) + ". I want a cat. I'd treat it well and not abandon it in a random village."@,
        of_seven == 6 ==> plain_remark(roll, name, of_four, of_five, of_seven) == shown(roll as int) + " temples checked before enchanted golden apple."@,
{
    reveal_strlit("{N}");
    if of_seven == 0 {
        reveal_strlit("{N}. Wow! I'm really impressed :)");
        reveal_strlit(". Wow! I'm really impressed :)");
        assert("{N}. Wow! I'm really impressed :)"@ =~= Seq::<char>::empty() + "{N}"@ + ". Wow! I'm really impressed :)"@);
        lemma_fill_one("{N}. Wow! I'm really impressed :)"@, Seq::<char>::empty(), "{N}"@, ". Wow! I'm really impressed :)"@, shown(roll as int));
        assert(Seq::<char>::empty() + shown(roll as int) + ". Wow! I'm really impressed :)"@ =~= shown(roll as int) + ". Wow! I'm really impressed :)"@);
    } else if of_seven == 1 {
        reveal_strlit("{N}! Cool, cool. Cool. Coooool.");
        reveal_strlit("! Cool, cool. Cool. Coooool.");
        assert("{N}! Cool, cool. Cool. Coooool."@ =~= Seq::<char>::empty() + "{N}"@ + "! Cool, cool. Cool. Coooool."@);
        lemma_fill_one("{N}! Cool, cool. Cool. Coooool."@, Seq::<char>::empty(), "{N}"@, "! Cool, cool. Cool. Coooool."@, shown(roll as int));
        assert(Seq::<char>::empty() + shown(roll as int) + "! Cool, cool. Cool. Coooool."@ =~= shown(roll as int) + "! Cool, cool. Cool. Coooool."@);
    } else if of_seven == 2 {
        reveal_strlit("{N}... Hm. It's so good, and yet, really not that good.");
        reveal_strlit("... Hm. It's so good, and yet, really not that good.");
        assert("{N}... Hm. It's so good, and yet, really not that good."@ =~= Seq::<char>::empty() + "{N}"@ + "... Hm. It's so good, and yet, really not that good."@);
        lemma_fill_one("{N}... Hm. It's so good, and yet, really not that good."@, Seq::<char>::empty(), "{N}"@, "... Hm. It's so good, and yet, really not that good."@, shown(roll as int));
        assert(Seq::<char>::empty() + shown(roll as int) + "... Hm. It's so good, and yet, really not that good."@ =~= shown(roll as int) + "... Hm. It's so good, and yet, really not that good."@);
    } else if of_seven == 3 {
        reveal_strlit("Here's a cat fact! Did you know they can eat up to {N} fish in a single day?!");
        reveal_strlit("Here's a cat fact! Did you know they can eat up to ");
        reveal_strlit(" fish in a single day?!");
        assert("Here's a cat fact! Did you know they can eat up to {N} fish in a single day?!"@ =~= "Here's a cat fact! Did you know they can eat up to "@ + "{N}"@ + " fish in a single day?!"@);
        lemma_fill_one("Here's a cat fact! Did you know they can eat up to {N} fish in a single day?!"@, "Here's a cat fact! Did you know they can eat up to "@, "{N}"@, " fish in a single day?!"@, shown(roll as int));
    } else if of_seven == 4 {
        reveal_strlit("{N}. I lied about the cat fact, just FYI. I don't know anything about cats. He doesn't let me use the internet :(");
        reveal_strlit(". I lied about the cat fact, just FYI. I don't know anything about cats. He doesn't let me use the internet :(");
        assert("{N}. I lied about the cat fact, just FYI. I don't know anything about cats. He doesn't let me use the internet :("@ =~= Seq::<char>::empty() + "{N}"@ + ". I lied about the cat fact, just FYI. I don't know anything about cats. He doesn't let me use the internet :("@);
        lemma_fill_one("{N}. I lied about the cat fact, just FYI. I don't know anything about cats. He doesn't let me use the internet :("@, Seq::<char>::empty(), "{N}"@, ". I lied about the cat fact, just FYI. I don't know anything about cats. He doesn't let me use the internet :("@, shown(roll as int));
        assert(Seq::<char>::empty() + shown(roll as int) + ". I lied about the cat fact, just FYI. I don't know anything about cats. He doesn't let me use the internet :("@ =~= shown(roll as int) + ". I lied about the cat fact, just FYI. I don't know anything about cats. He doesn't let me use the internet :("@);
    } else if of_seven == 5 {
        reveal_strlit("{N}. I want a cat. I'd treat it well and not abandon it in a random village.");
        reveal_strlit(". I want a cat. I'd treat it well and not abandon it in a random village.");
        assert("{N}. I want a cat. I'd treat it well and not abandon it in a random village."@ =~= Seq::<char>::empty() + "{N}"@ + ". I want a cat. I'd treat it well and not abandon it in a random village."@);
        lemma_fill_one("{N}. I want a cat. I'd treat it well and not abandon it in a random village."@, Seq::<char>::empty(), "{N}"@, ". I want a cat. I'd treat it well and not abandon it in a random village."@, shown(roll as int));
        assert(Seq::<char>::empty() + shown(roll as int) + ". I want a cat. I'd treat it well and not abandon it in a random village."@ =~= shown(roll as int) + ". I want a cat. I'd treat it well and not abandon it in a random village."@);
    } else {
        reveal_strlit("{N} temples checked before enchanted golden apple.");
        reveal_strlit(" temples checked before enchanted golden apple.");
        assert("{N} temples checked before enchanted golden apple."@ =~= Seq::<char>::empty() + "{N}"@ + " temples checked before enchanted golden apple."@);
        lemma_fill_one("{N} temples checked before enchanted golden apple."@, Seq::<char>::empty(), "{N}"@, " temples checked before enchanted golden apple."@, shown(roll as int));
        assert(Seq::<char>::empty() + shown(roll as int) + " temples checked before enchanted golden apple."@ =~= shown(roll as int) + " temples checked before enchanted golden apple."@);
    }
}

/// The plain remarks on a roll from 200 to 249, as they read: four, and all of
/// them tell the roll.
pub proof fn law_remarks_below_250(roll: i32, name: Text, of_four: int, of_five: int, of_seven: int)
    requires
        200 <= roll < 250,
        0 <= of_four < 4,
    ensures
        of_four == 0 ==> plain_remark(roll, name, of_four, of_five, of_seven) == shown(roll as int) + ". Great work!!! That's going in your diary, I'm sure."@,
        of_four == 1 ==> plain_remark(roll, name, of_four, of_five, of_seven) == shown(roll as int) + "! Whoaaaaa. I'm in awe."@,
        of_four == 2 ==> plain_remark(roll, name, of_four, of_five, of_seven) == shown(roll as int) + "... Pretty great! You know what would be better? Getting outside ;) ;) ;)"@,
        of_four == 3 ==> plain_remark(roll, name, of_four, of_five, of_seven) == shown(roll as int) + ". Oh boy! We got a high roller here!"@,
{
    reveal_strlit("{N}");
    if of_four == 0 {
        reveal_strlit("{N}. Great work!!! That's going in your diary, I'm sure.");
        reveal_strlit(". Great work!!! That's going in your diary, I'm sure.");
        assert("{N}. Great work!!! That's going in your diary, I'm sure."@ =~= Seq::<char>::empty() + "{N}"@ + ". Great work!!! That's going in your diary, I'm sure."@);
        lemma_fill_one("{N}. Great work!!! That's going in your diary, I'm sure."@, Seq::<char>::empty(), "{N}"@, ". Great work!!! That's going in your diary, I'm sure."@, shown(roll as int));
        assert(Seq::<char>::empty() + shown(roll as int) + ". Great work!!! That's going in your diary, I'm sure."@ =~= shown(roll as int) + ". Great work!!! That's going in your diary, I'm sure."@);
    } else if of_four == 1 {
        reveal_strlit("{N}! Whoaaaaa. I'm in awe.");
        reveal_strlit("! Whoaaaaa. I'm in awe.");
        assert("{N}! Whoaaaaa. I'm in awe."@ =~= Seq::<char>::empty() + "{N}"@ + "! Whoaaaaa. I'm in awe."@);
        lemma_fill_one("{N}! Whoaaaaa. I'm in awe."@, Seq::<char>::empty(), "{N}"@, "! Whoaaaaa. I'm in awe."@, shown(roll as int));
        assert(Seq::<char>::empty() + shown(roll as int) + "! Whoaaaaa. I'm in awe."@ =~= shown(roll as int) + "! Whoaaaaa. I'm in awe."@);
    } else if of_four == 2 {
        reveal_strlit("{N}... Pretty great! You know what would be better? Getting outside ;) ;) ;)");
        reveal_strlit("... Pretty great! You know what would be better? Getting outside ;) ;) ;)");
        assert("{N}... Pretty great! You know what would be better? Getting outside ;) ;) ;)"@ =~= Seq::<char>::empty() + "{N}"@ + "... Pretty great! You know what would be better? Getting outside ;) ;) ;)"@);
        lemma_fill_one("{N}... Pretty great! You know what would be better? Getting outside ;) ;) ;)"@, Seq::<char>::empty(), "{N}"@, "... Pretty great! You know what would be better? Getting outside ;) ;) ;)"@, shown(roll as int));
        assert(Seq::<char>::empty() + shown(roll as int) + "... Pretty great! You know what would be better? Getting outside ;) ;) ;)"@ =~= shown(roll as int) + "... Pretty great! You know what would be better? Getting outside ;) ;) ;)"@);
    } else {
        reveal_strlit("{N}. Oh boy! We got a high roller here!");
        reveal_strlit(". Oh boy! We got a high roller here!");
        assert("{N}. Oh boy! We got a high roller here!"@ =~= Seq::<char>::empty() + "{N}"@ + ". Oh boy! We got a high roller here!"@);
        lemma_fill_one("{N}. Oh boy! We got a high roller here!"@, Seq::<char>::empty(), "{N}"@, ". Oh boy! We got a high roller here!"@, shown(roll as int));
        assert(Seq::<char>::empty() + shown(roll as int) + ". Oh boy! We got a high roller here!"@ =~= shown(roll as int) + ". Oh boy! We got a high roller here!"@);
    }
}

/// The plain remarks on a roll of 0 or 1 are for these two alone: no other roll
/// gets any of them, whoever the players are and whichever remarks are chosen.
pub proof fn law_remarks_on_low_rolls_are_for_them_alone(
    roll: i32,
    name: Text,
    of_four: int,
    of_five: int,
    of_seven: int,
    other_name: Text,
    other_four: int,
    other_five: int,
    other_seven: int,
)
    requires
        roll < 250,
        roll != 0,
        roll != 1,
        0 <= of_four < 4,
        0 <= of_seven < 7,
        0 <= other_four < 4,
        0 <= other_five < 5,
    ensures
        plain_remark(roll, name, of_four, of_five, of_seven) != plain_remark(
            0,
            other_name,
            other_four,
            other_five,
            other_seven,
        ),
        plain_remark(roll, name, of_four, of_five, of_seven) != plain_remark(
            1,
            other_name,
            other_four,
            other_five,
            other_seven,
        ),
{
    let said = plain_remark(roll, name, of_four, of_five, of_seven);
    let zero = plain_remark(0, other_name, other_four, other_five, other_seven);
    let one = plain_remark(1, other_name, other_four, other_five, other_seven);
    lemma_high_remark_ends(roll, name, of_four, of_five, of_seven);
    lemma_low_remark_ends(other_name, other_four, other_five, other_seven);
    assert(said[0] != zero[0]);
    if other_five == 1 {
        assert(said[said.len() - 3] != one[one.len() - 3]);
    } else if other_five == 0 {
        assert(said[0] != one[0] || said[2] != one[2]);
    } else if other_five == 3 {
        assert(said[0] != one[0] || said[1] != one[1]);
    } else {
        assert(said[0] != one[0]);
    }
}

/// How the plain remarks on a roll that is neither 0 nor 1 start and end.
proof fn lemma_high_remark_ends(
    roll: i32,
    name: Text,
    of_four: int,
    of_five: int,
    of_seven: int,
)
    requires
        roll < 250,
        roll != 0,
        roll != 1,
        0 <= of_four < 4,
        0 <= of_seven < 7,
    ensures
        ({
            let said = plain_remark(roll, name, of_four, of_five, of_seven);
            &&& said.len() > 3
            &&& said[said.len() - 3] != 'f'
            &&& {
                ||| said[0] == 'C'
                ||| said[0] == 'H' && said[2] == 'r'
                ||| said[0] == '-'
                ||| is_digit(said[0]) && (said[0] == '1' ==> is_digit(said[1]))
            }
        }),
{
    lemma_shown_head(roll as int);
    let number = shown(roll as int);
    assert(roll >= 0 ==> is_digit(number[0]));
    if roll < 100 {
        law_remarks_below_100(roll, name, of_four, of_five, of_seven);
        reveal_strlit(". Cool. That's not that bad.");
        reveal_strlit("! Wow, that's great! Last time, I rolled a 0, and everyone made fun of me :sob: I'm so jealous of you :sob:");
        reveal_strlit("... not terrible, I suppose.");
        reveal_strlit(". :/ <- That's all I have to say.");
        reveal_strlit(". Yeppers. Yep yep yep. Real good roll you got there, buddy.");
        reveal_strlit("! Whoa. A whole ");
        reveal_strlit(" more durability than 0, and you still won't get thunder, LOL!");
        reveal_strlit("Cat fact cat fact! Did you know that the first ");
        reveal_strlit(" cats that spawn NEVER contain a Calico? ...seriously, where is my Calico??");
    } else if roll < 200 {
        law_remarks_below_200(roll, name, of_four, of_five, of_seven);
        reveal_strlit(". Wow! I'm really impressed :)");
        reveal_strlit("! Cool, cool. Cool. Coooool.");
        reveal_strlit("... Hm. It's so good, and yet, really not that good.");
        reveal_strlit("Here's a cat fact! Did you know they can eat up to ");
        reveal_strlit(" fish in a single day?!");
        reveal_strlit(". I lied about the cat fact, just FYI. I don't know anything about cats. He doesn't let me use the internet :(");
        reveal_strlit(". I want a cat. I'd treat it well and not abandon it in a random village.");
        reveal_strlit(" temples checked before enchanted golden apple.");
    } else {
        law_remarks_below_250(roll, name, of_four, of_five, of_seven);
        reveal_strlit(". Great work!!! That's going in your diary, I'm sure.");
        reveal_strlit("! Whoaaaaa. I'm in awe.");
        reveal_strlit("... Pretty great! You know what would be better? Getting outside ;) ;) ;)");
        reveal_strlit(". Oh boy! We got a high roller here!");
    }
}

/// How the plain remarks on a roll of 0 or 1 start or end.
proof fn lemma_low_remark_ends(name: Text, of_four: int, of_five: int, of_seven: int)
    requires
        0 <= of_four < 4,
        0 <= of_five < 5,
    ensures
        ({
            let zero = plain_remark(0, name, of_four, of_five, of_seven);
            let one = plain_remark(1, name, of_four, of_five, of_seven);
            &&& zero.len() > 3
            &&& zero[0] == 'W' || zero[0] == 'A' || zero[0] == 'O' || zero[0] == 'Y'
            &&& one.len() > 3
            &&& of_five == 0 ==> one[0] == 'H' && one[2] == 'h'
            &&& of_five == 1 ==> one[one.len() - 3] == 'f'
            &&& of_five == 2 ==> one[0] == 'A'
            &&& of_five == 3 ==> one[0] == '1' && one[1] == '.'
            &&& of_five == 4 ==> one[0] == 'E'
        }),
{
    law_remarks_on_zero(name, of_four, of_five, of_seven);
    law_remarks_on_one(name, of_four, of_five, of_seven);
    reveal_strlit("Wow, ");
    reveal_strlit(" rolled a 0? What a loser!");
    reveal_strlit("A 0... try again later, ");
    reveal_strlit(" :/");
    reveal_strlit("Oh look here, you rolled a 0. So sad! Alexa, play Despacito :sob:");
    reveal_strlit("You rolled a 0. Everyone: Don't let ");
    reveal_strlit(" play AA. They don't have the luck - er, skill - for it.");
    reveal_strlit("Hehe. A 1. So close, and yet so far, eh ");
    reveal_strlit("?");
    reveal_strlit(" rolled a 1. Everyone clap for ");
    reveal_strlit(". They deserve a little light in their life.");
    reveal_strlit("A 1. Nice work, ");
    reveal_strlit(". I'm sure you did great in school.");
    reveal_strlit("1. Do you know how likely that is, ");
    reveal_strlit("? You should ask PacManMVC. He has a spreadsheet, just to show how bad you are.");
    reveal_strlit("Excuse me, officer? This 1-rolling loser ");
    reveal_strlit(" keeps yelling 'roll trident!' at me and I can't get them to stop.");
}

/// A roll of 0 silences its user for ten seconds, one of 1 for fifteen, and no
/// other roll silences anyone.
pub proof fn law_the_lowest_rolls_silence(roll: i32, user: Text)
    ensures
        silence(roll) is Some <==> 0 <= roll <= 1,
        silence(0) matches Some(seconds) && timeout_text(user, seconds) == "/timeout "@ + user
            + " 10"@,
        silence(1) matches Some(seconds) && timeout_text(user, seconds) == "/timeout "@ + user
            + " 15"@,
{
    reveal_strlit(" ");
    reveal_strlit("10");
    reveal_strlit(" 10");
    reveal_strlit("15");
    reveal_strlit(" 15");
    assert("/timeout "@ + user + " "@ + "10"@ =~= "/timeout "@ + user + " 10"@);
    assert("/timeout "@ + user + " "@ + "15"@ =~= "/timeout "@ + user + " 15"@);
}

/// A remark is filled in piece by piece: text stays, `{ur}` becomes the name,
/// `{t.r}` the roll, and `{t.rolled}` the number of rolls, however many there are
/// of each and in whatever order.
pub proof fn law_marks_are_filled_in(text: Text, rest: Text, name: Text, roll: i32, rolled: u64)
    requires
        no_brace(text),
        no_brace(name),
    ensures
        normal_form(Seq::empty(), name, roll, rolled) == Seq::<char>::empty(),
        normal_form(text + rest, name, roll, rolled) == text + normal_form(rest, name, roll, rolled),
        normal_form("{ur}"@ + rest, name, roll, rolled) == name + normal_form(
            rest,
            name,
            roll,
            rolled,
        ),
        normal_form("{t.r}"@ + rest, name, roll, rolled) == shown(roll as int) + normal_form(
            rest,
            name,
            roll,
            rolled,
        ),
        normal_form("{t.rolled}"@ + rest, name, roll, rolled) == shown(rolled as int) + normal_form(
            rest,
            name,
            roll,
            rolled,
        ),
{
    let (ur, tr, tn) = ("{ur}"@, "{t.r}"@, "{t.rolled}"@);
    reveal_strlit("{ur}");
    reveal_strlit("{t.r}");
    reveal_strlit("{t.rolled}");
    let (number, count) = (shown(roll as int), shown(rolled as int));
    lemma_shown_head(roll as int);
    lemma_shown_head(rolled as int);
    let r1 = replaced(rest, ur, name);
    let r2 = replaced(r1, tr, number);
    lemma_fill_text(text, rest, ur, name);
    lemma_fill_text(text, r1, tr, number);
    lemma_fill_text(text, r2, tn, count);
    lemma_fill_mark(rest, ur, name);
    lemma_fill_text(name, r1, tr, number);
    lemma_fill_text(name, r2, tn, count);
    assert(no_brace(tr.skip(1)));
    assert(no_brace(tn.skip(1)));
    lemma_fill_other(tr, rest, ur, name, 1);
    lemma_fill_mark(r1, tr, number);
    lemma_fill_text(number, r2, tn, count);
    lemma_fill_other(tn, rest, ur, name, 1);
    lemma_fill_other(tn, r1, tr, number, 4);
    lemma_fill_mark(r2, tn, count);
}

/// What is said when a low roll costs files.
pub proof fn law_the_penalty_in_words(name: Text, roll: i32, rolled: u64, deduction: int)
    requires
        no_brace(name),
    ensures
        penalty_text(name, roll, rolled, deduction) == "Ew... a "@ + shown(roll as int)
            + ". What a gross low roll, "@ + name + ". I'm deducting "@ + shown(deduction)
            + " files from you, just for that..."@,
{
    reveal_strlit("Ew... a {t.r}. What a gross low roll, {ur}. I'm deducting ");
    reveal_strlit("Ew... a ");
    reveal_strlit("{t.r}");
    reveal_strlit(". What a gross low roll, ");
    reveal_strlit("{ur}");
    reveal_strlit(". I'm deducting ");
    reveal_strlit(" files from you, just for that...");
    lemma_shown_head(deduction);
    let none = Seq::<char>::empty();
    let t5 = shown(deduction) + (" files from you, just for that..."@ + none);
    let t4 = ". I'm deducting "@ + t5;
    let t3 = "{ur}"@ + t4;
    let t2 = ". What a gross low roll, "@ + t3;
    let t1 = "{t.r}"@ + t2;
    let t0 = "Ew... a "@ + t1;
    assert(PENALTY_START@ =~= "Ew... a "@ + "{t.r}"@ + ". What a gross low roll, "@ + "{ur}"@
        + ". I'm deducting "@);
    assert(PENALTY_START@ + shown(deduction) + PENALTY_END@ =~= t0);
    law_marks_are_filled_in("Ew... a "@, t1, name, roll, rolled);
    law_marks_are_filled_in(none, t2, name, roll, rolled);
    law_marks_are_filled_in(". What a gross low roll, "@, t3, name, roll, rolled);
    law_marks_are_filled_in(none, t4, name, roll, rolled);
    law_marks_are_filled_in(". I'm deducting "@, t5, name, roll, rolled);
    law_marks_are_filled_in(
        shown(deduction),
        " files from you, just for that..."@ + none,
        name,
        roll,
        rolled,
    );
    law_marks_are_filled_in(" files from you, just for that..."@, none, name, roll, rolled);
    assert(penalty_text(name, roll, rolled, deduction) =~= "Ew... a "@ + shown(roll as int)
        + ". What a gross low roll, "@ + name + ". I'm deducting "@ + shown(deduction)
        + " files from you, just for that..."@);
}

/// What is said of the distance of a roll to 66.
pub proof fn law_the_distance_in_words(name: Text, roll: i32, rolled: u64)
    requires
        no_brace(name),
    ensures
        pac_text(name, roll, rolled) == shown(roll as int) + ". Ouch. Just "@ + shown(66 - roll)
            + " more, and you could have finished the TAS with that, eh \"Pac\" man? Whatever that means..."@,
{
    reveal_strlit("{t.r}. Ouch. Just ");
    reveal_strlit("{t.r}");
    reveal_strlit(". Ouch. Just ");
    reveal_strlit(
        " more, and you could have finished the TAS with that, eh \"Pac\" man? Whatever that means...",
    );
    lemma_shown_head(66 - roll);
    let none = Seq::<char>::empty();
    let t2 = shown(66 - roll) + (PAC_END@ + none);
    let t1 = ". Ouch. Just "@ + t2;
    assert(PAC_START@ =~= "{t.r}"@ + ". Ouch. Just "@);
    assert(PAC_START@ + shown(66 - roll) + PAC_END@ =~= "{t.r}"@ + t1);
    law_marks_are_filled_in(none, t1, name, roll, rolled);
    law_marks_are_filled_in(". Ouch. Just "@, t2, name, roll, rolled);
    law_marks_are_filled_in(shown(66 - roll), PAC_END@ + none, name, roll, rolled);
    law_marks_are_filled_in(PAC_END@, none, name, roll, rolled);
    assert(pac_text(name, roll, rolled) =~= shown(roll as int) + ". Ouch. Just "@ + shown(66 - roll)
        + PAC_END@);
}

/// The owner of the bot gets the roll that they ask for, if it is a number; anyone
/// else, and the owner without such a number, gets the one that was drawn.
pub proof fn law_the_owner_alone_chooses(user: Text, args: Text, n: i32, drawn: i32)
    ensures
        final_roll("desktopfolder"@, shown(n as int), drawn) == n,
        user != "desktopfolder"@ ==> final_roll(user, args, drawn) == drawn,
        parsed(args) is None ==> final_roll(user, args, drawn) == drawn,
        parsed(args) matches Some(v) ==> !(i32::MIN <= v <= i32::MAX) ==> final_roll(
            user,
            args,
            drawn,
        ) == drawn,
{
    law_shown_integer_is_read_back(n as int);
}

/// Which rolls stand out, and from which pool their remark comes. `player` has
/// made the roll already.
pub proof fn law_rolls_that_stand_out(player: Player, best: bool, roll: i32, previous: i32)
    ensures
        ({
            let pool = notable_pool(player, best, roll, previous);
            let rolled = player.tridents_rolled;
            &&& roll == 250 ==> pool == Some("TRIDENT_VALUE_250"@)
            &&& roll != 250 && best && rolled >= 6 ==> pool == Some("TRIDENT_PB_GENERIC"@)
            &&& roll != 250 && roll >= 100 && rolled <= 5 ==> pool == Some("EARLY_HIGH_TRIDENT"@)
            &&& roll < 100 && rolled == 1 ==> pool == Some("FIRST_TRIDENT_GENERIC"@)
            &&& roll < 5 && roll == previous && 2 <= rolled && !(best && rolled >= 6) ==> pool
                == Some("TRIDENT_DOUBLE_LOW"@)
            &&& roll < 100 && 2 <= rolled <= 5 && !(roll < 5 && roll == previous) ==> pool is None
            &&& roll != 250 && !best && rolled >= 6 && !(roll < 5 && roll == previous) ==> pool
                is None
        }),
{
}

/// Which hazards a roll is put to, in order, and how often each happens: files
/// below 5, once in six times; death below 2 and from 151 to 175, once in five;
/// and the remark of one player below 66, once in ten.
pub proof fn law_the_hazards_of_a_roll(roll: i32, user: Text)
    ensures
        ({
            let first = Hazard::Penalty.first(roll, user);
            let pac = roll <= 65 && user == "pacmanmvc"@;
            let last = if pac {
                Some(Hazard::PacRemark)
            } else {
                None
            };
            &&& roll <= 4 ==> first == Some(Hazard::Penalty)
            &&& roll <= 1 ==> Hazard::Penalty.following(roll, user) == Some(Hazard::LowDeath)
            &&& 2 <= roll <= 4 ==> Hazard::Penalty.following(roll, user) == last
            &&& roll <= 1 ==> Hazard::LowDeath.following(roll, user) == last
            &&& 5 <= roll <= 150 || 176 <= roll ==> first == last
            &&& 151 <= roll <= 175 ==> first == Some(Hazard::HighDeath)
                && Hazard::HighDeath.following(roll, user) is None
            &&& Hazard::PacRemark.following(roll, user) is None
        }),
        Hazard::Penalty.odds() == 6,
        Hazard::LowDeath.odds() == 5,
        Hazard::HighDeath.odds() == 5,
        Hazard::PacRemark.odds() == 10,
{
    reveal_with_fuel(Hazard::first, 5);
}

/// Which kind of remark a roll gets, by a number up to 100: 77 of them give a
/// plain one, 5 one from the rare pool, 3 more one from the low pool for a roll
/// below 10, and the others a rare one.
pub proof fn law_kinds_of_remarks(selection: int, roll: i32)
    ensures
        selection <= 76 <==> remark_kind(selection, roll) == Remark::Plain,
        77 <= selection <= 81 && roll != 250 <==> remark_kind(selection, roll) == Remark::RarePool,
        82 <= selection <= 84 && roll <= 9 <==> remark_kind(selection, roll) == Remark::LowPool,
        selection >= 85 ==> remark_kind(selection, roll) == Remark::Rare,
{
}

/// The marks of a remark are filled in one kind after the other: the name first,
/// then the roll, then the number of rolls; so marks within a name are filled too.
pub proof fn law_the_order_of_marks(template: Text, name: Text, roll: i32, rolled: u64)
    ensures
        ({
            let named = replaced(template, "{ur}"@, name);
            let told = replaced(named, "{t.r}"@, shown(roll as int));
            normal_form(template, name, roll, rolled) == replaced(
                told,
                "{t.rolled}"@,
                shown(rolled as int),
            )
        }),
        forall|deduction: int| #[trigger]
            penalty_text(name, roll, rolled, deduction) == normal_form(
                "Ew... a {t.r}. What a gross low roll, {ur}. I'm deducting "@ + shown(deduction)
                    + " files from you, just for that..."@,
                name,
                roll,
                rolled,
            ),
        pac_text(name, roll, rolled) == normal_form(
            "{t.r}. Ouch. Just "@ + shown(66 - roll)
                + " more, and you could have finished the TAS with that, eh \"Pac\" man? Whatever that means..."@,
            name,
            roll,
            rolled,
        ),
{
}

} // verus!
