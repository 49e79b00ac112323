//! Enchantment rolls: what the bot says of an offer.
use crate::text::{
    lemma_fill_mark, lemma_fill_other, lemma_fill_text, lemma_shown_head, no_brace, replace, replaced,
    show_i64, shown, Text,
};
use vstd::prelude::*;

verus! {

pub const GREAT_ROLL_1: &'static str = "Impressive! You've got yourself a {0} {1} book for {2} levels with {3} bookshel{4}.";

pub const GREAT_ROLL_2: &'static str = "A truly magical outcome! {0} {1} awaits you for {2} levels with {3} bookshel{4}.";

pub const GREAT_ROLL_3: &'static str = "Your enchantment game is strong! {0} {1} for you for the price of {2} levels. Not bad for {3} bookshel{4}.";

pub const GREAT_ROLL_4: &'static str = "Surely you must be RNG-manipulating! I mean, {0} {1} for {2} levels!? I guess it did take {3} bookshel{4} to get.";

pub const GOOD_ROLL_1: &'static str = "{0} {1} from {3} bookshel{4}? Not too shabby! Yours for {2} levels.";

pub const GOOD_ROLL_2: &'static str = "A respectable roll! Can't go wrong with {0} {1} for {2} levels with {3} bookshel{4}.";

pub const GOOD_ROLL_3: &'static str = "{0} {1} for {2} levels. Could be worse, lol. I like your {3} bookshel{4}.";

pub const GOOD_ROLL_4: &'static str = "Wow, not bad! {0} {1} for {2} levels with {3} bookshel{4}.";

pub const BAD_ROLL_1: &'static str = "{0} {1} for {2} levels? Could be worse, I guess... Might need more than {3} bookshel{4}...";

pub const BAD_ROLL_2: &'static str = "You rolled {0} {1} for {2} levels with {3} bookshel{4}. Keep trying!";

pub const BAD_ROLL_3: &'static str = "You rolled {0}! Nice!! Oh wait, its only {0} {1}. Oh well, it's only {2} levels at least. Maybe try using more than {3} bookshel{4} or something.";

pub const TERRIBLE_ROLL_1: &'static str = "{0}.. you know what. I can't be bothered telling you the level, it's too embarrassing. Let's just pretend it's a good level.";

pub const TERRIBLE_ROLL_2: &'static str = "Wow.. a {0} {1}.. amazing.. I wouldn't spend {2} levels on that, {5}.";

pub const TERRIBLE_ROLL_3: &'static str = "{0} {1}... zzz... something something {2} levels something {3} bookshel{4} idk I can't be bothered anymore";

pub const TERRIBLE_ROLL_4: &'static str = "Jackpot! You scored a {0} {1}. What are the odds of being that bad?? {2} levels?? Honestly. Get more bookshelves, {3} isn't enough.";

pub const TERRIBLE_ROLL_5: &'static str = "Yeah I'm not saying the response. That's just embarassing, {5}. Almost as embarassing as misspelling embarrassing.";

/// The answer to an offer that cannot be.
pub const IMPOSSIBLE: &'static str = "Somehow you rolled an impossible enchant... good for you";

/// An offer of the enchanting table.
#[derive(Debug, PartialEq, Eq)]
pub struct Offer<S> {
    pub name: S,
    pub level: i64,
    pub cost: i64,
    pub row: i64,
    pub bookshelves: i64,
    /// Whether the answer is one of the fancy ones.
    pub special_response: bool,
}

impl View for Offer<String> {
    type V = Offer<Text>;

    open spec fn view(&self) -> Offer<Text> {
        Offer {
            name: self.name@,
            level: self.level,
            cost: self.cost,
            row: self.row,
            bookshelves: self.bookshelves,
            special_response: self.special_response,
        }
    }
}

impl<S> Offer<S> {
    /// Whether the level of the offer has an answer: from one to four.
    pub open spec fn possible(self) -> bool {
        0 < self.level < 5
    }
}

/// A level as a Roman numeral.
pub open spec fn roman(level: int) -> Text {
    if level == 1 {
        "I"@
    } else if level == 2 {
        "II"@
    } else if level == 3 {
        "III"@
    } else {
        "IV"@
    }
}

/// The end of the word for one or several bookshelves.
pub open spec fn shelf_ending(bookshelves: int) -> Text {
    if bookshelves == 1 {
        "f"@
    } else {
        "ves"@
    }
}

/// How good an offer is.
#[derive(Clone, Copy, Debug, PartialEq, Eq, Structural)]
pub enum Grade {
    Great,
    Good,
    Bad,
    Terrible,
}

/// How good an offer is, by its bookshelves and its row.
pub open spec fn grade(bookshelves: int, row: int) -> Grade {
    if bookshelves >= 13 && row == 3 {
        Grade::Great
    } else if bookshelves >= 10 && row > 1 {
        Grade::Good
    } else if bookshelves < 2 {
        Grade::Terrible
    } else {
        Grade::Bad
    }
}

/// The fancy answers of a grade: four great ones, four good ones, three bad
/// ones, five terrible ones.
pub open spec fn fancy(g: Grade, of_three: int, of_four: int, of_five: int) -> Text {
    match g {
        Grade::Great => if of_four == 0 {
            GREAT_ROLL_1@
        } else if of_four == 1 {
            GREAT_ROLL_2@
        } else if of_four == 2 {
            GREAT_ROLL_3@
        } else {
            GREAT_ROLL_4@
        },
        Grade::Good => if of_four == 0 {
            GOOD_ROLL_1@
        } else if of_four == 1 {
            GOOD_ROLL_2@
        } else if of_four == 2 {
            GOOD_ROLL_3@
        } else {
            GOOD_ROLL_4@
        },
        Grade::Bad => if of_three == 0 {
            BAD_ROLL_1@
        } else if of_three == 1 {
            BAD_ROLL_2@
        } else {
            BAD_ROLL_3@
        },
        Grade::Terrible => if of_five == 0 {
            TERRIBLE_ROLL_1@
        } else if of_five == 1 {
            TERRIBLE_ROLL_2@
        } else if of_five == 2 {
            TERRIBLE_ROLL_3@
        } else if of_five == 3 {
            TERRIBLE_ROLL_4@
        } else {
            TERRIBLE_ROLL_5@
        },
    }
}

/// A fancy answer with the offer and the player's name in the places that are
/// marked for them.
pub open spec fn filled(template: Text, offer: Offer<Text>, name: Text) -> Text {
    let s = replaced(template, "{0}"@, offer.name);
    let s = replaced(s, "{1}"@, roman(offer.level as int));
    let s = replaced(s, "{2}"@, shown(offer.cost as int));
    let s = replaced(s, "{3}"@, shown(offer.bookshelves as int));
    let s = replaced(s, "{4}"@, shelf_ending(offer.bookshelves as int));
    replaced(s, "{5}"@, name)
}

/// The plain answer to an offer.
pub open spec fn plain_answer(offer: Offer<Text>) -> Text {
    "You rolled "@ + offer.name + " "@ + roman(offer.level as int) + " for "@ + shown(
        offer.cost as int,
    ) + " levels with "@ + shown(offer.bookshelves as int) + " bookshel"@ + shelf_ending(
        offer.bookshelves as int,
    ) + "!"@
}

/// The answer to an offer whose level has one.
pub open spec fn offer_answer(
    offer: Offer<Text>,
    name: Text,
    of_three: int,
    of_four: int,
    of_five: int,
) -> Text {
    if offer.special_response {
        let g = grade(offer.bookshelves as int, offer.row as int);
        filled(fancy(g, of_three, of_four, of_five), offer, name)
    } else {
        plain_answer(offer)
    }
}

fn numeral(level: i64) -> (r: &'static str)
    ensures
        r@ == roman(level as int),
{
    if level == 1 {
        "I"
    } else if level == 2 {
        "II"
    } else if level == 3 {
        "III"
    } else {
        "IV"
    }
}

fn ending(bookshelves: i64) -> (r: &'static str)
    ensures
        r@ == shelf_ending(bookshelves as int),
{
    if bookshelves == 1 {
        "f"
    } else {
        "ves"
    }
}

/// Grades an offer.
pub fn grade_of(bookshelves: i64, row: i64) -> (r: Grade)
    ensures
        r == grade(bookshelves as int, row as int),
{
    if bookshelves >= 13 && row == 3 {
        Grade::Great
    } else if bookshelves >= 10 && row > 1 {
        Grade::Good
    } else if bookshelves < 2 {
        Grade::Terrible
    } else {
        Grade::Bad
    }
}

fn fancy_line(g: Grade, of_three: usize, of_four: usize, of_five: usize) -> (r: &'static str)
    ensures
        r@ == fancy(g, of_three as int, of_four as int, of_five as int),
{
    match g {
        Grade::Great => if of_four == 0 {
            GREAT_ROLL_1
        } else if of_four == 1 {
            GREAT_ROLL_2
        } else if of_four == 2 {
            GREAT_ROLL_3
        } else {
            GREAT_ROLL_4
        },
        Grade::Good => if of_four == 0 {
            GOOD_ROLL_1
        } else if of_four == 1 {
            GOOD_ROLL_2
        } else if of_four == 2 {
            GOOD_ROLL_3
        } else {
            GOOD_ROLL_4
        },
        Grade::Bad => if of_three == 0 {
            BAD_ROLL_1
        } else if of_three == 1 {
            BAD_ROLL_2
        } else {
            BAD_ROLL_3
        },
        Grade::Terrible => if of_five == 0 {
            TERRIBLE_ROLL_1
        } else if of_five == 1 {
            TERRIBLE_ROLL_2
        } else if of_five == 2 {
            TERRIBLE_ROLL_3
        } else if of_five == 3 {
            TERRIBLE_ROLL_4
        } else {
            TERRIBLE_ROLL_5
        },
    }
}

fn fill(template: &str, offer: &Offer<String>, name: &str) -> (r: String)
    ensures
        r@ == filled(template@, offer@, name@),
{
    proof {
        reveal_strlit("{0}");
        reveal_strlit("{1}");
        reveal_strlit("{2}");
        reveal_strlit("{3}");
        reveal_strlit("{4}");
        reveal_strlit("{5}");
    }
    let s = replace(template, "{0}", offer.name.as_str());
    let s = replace(s.as_str(), "{1}", numeral(offer.level));
    let s = replace(s.as_str(), "{2}", show_i64(offer.cost).as_str());
    let s = replace(s.as_str(), "{3}", show_i64(offer.bookshelves).as_str());
    let s = replace(s.as_str(), "{4}", ending(offer.bookshelves));
    replace(s.as_str(), "{5}", name)
}

/// Answers an offer.
pub fn answer_offer(
    offer: &Offer<String>,
    name: &str,
    of_three: usize,
    of_four: usize,
    of_five: usize,
) -> (r: String)
    requires
        offer.possible(),
    ensures
        r@ == offer_answer(offer@, name@, of_three as int, of_four as int, of_five as int),
{
    if offer.special_response {
        let g = grade_of(offer.bookshelves, offer.row);
        fill(fancy_line(g, of_three, of_four, of_five), offer, name)
    } else {
        let mut s = "You rolled ".to_owned();
        s.append(offer.name.as_str());
        s.append(" ");
        s.append(numeral(offer.level));
        s.append(" for ");
        s.append(show_i64(offer.cost).as_str());
        s.append(" levels with ");
        s.append(show_i64(offer.bookshelves).as_str());
        s.append(" bookshel");
        s.append(ending(offer.bookshelves));
        s.append("!");
        s
    }
}

/// The levels in Roman numerals, and the end of the word for bookshelves.
pub proof fn law_numerals_and_endings(bookshelves: int)
    ensures
        roman(1) == "I"@,
        roman(2) == "II"@,
        roman(3) == "III"@,
        roman(4) == "IV"@,
        bookshelves == 1 <==> shelf_ending(bookshelves) == "f"@,
        bookshelves != 1 <==> shelf_ending(bookshelves) == "ves"@,
{
    reveal_strlit("f");
    reveal_strlit("ves");
    assert("f"@.len() != "ves"@.len());
}

/// What the grade of an offer goes by: the third row and 13 bookshelves or more
/// make it great, a later row than the first and 10 or more make it good, fewer
/// than two bookshelves make it terrible, and all else is bad.
pub proof fn law_grades(bookshelves: int, row: int)
    ensures
        grade(bookshelves, row) == Grade::Great <==> bookshelves >= 13 && row == 3,
        grade(bookshelves, row) == Grade::Good <==> (bookshelves >= 13 && row >= 2 && row != 3
            || 10 <= bookshelves <= 12 && row >= 2),
        grade(bookshelves, row) == Grade::Terrible <==> bookshelves <= 1,
        grade(bookshelves, row) == Grade::Bad <==> (2 <= bookshelves <= 9 || bookshelves >= 10
            && row <= 1),
{
}

/// The fancy answers of each grade, as they read before they are filled in.
pub proof fn law_fancy_answers(of_three: int, of_four: int, of_five: int)
    requires
        0 <= of_three < 3,
        0 <= of_four < 4,
        0 <= of_five < 5,
    ensures
        of_four == 0 ==> fancy(Grade::Great, of_three, of_four, of_five)
            == "Impressive! You've got yourself a {0} {1} book for {2} levels with {3} bookshel{4}."@,
        of_four == 1 ==> fancy(Grade::Great, of_three, of_four, of_five)
            == "A truly magical outcome! {0} {1} awaits you for {2} levels with {3} bookshel{4}."@,
        of_four == 2 ==> fancy(Grade::Great, of_three, of_four, of_five)
            == "Your enchantment game is strong! {0} {1} for you for the price of {2} levels. Not bad for {3} bookshel{4}."@,
        of_four == 3 ==> fancy(Grade::Great, of_three, of_four, of_five)
            == "Surely you must be RNG-manipulating! I mean, {0} {1} for {2} levels!? I guess it did take {3} bookshel{4} to get."@,
        of_four == 0 ==> fancy(Grade::Good, of_three, of_four, of_five)
            == "{0} {1} from {3} bookshel{4}? Not too shabby! Yours for {2} levels."@,
        of_four == 1 ==> fancy(Grade::Good, of_three, of_four, of_five)
            == "A respectable roll! Can't go wrong with {0} {1} for {2} levels with {3} bookshel{4}."@,
        of_four == 2 ==> fancy(Grade::Good, of_three, of_four, of_five)
            == "{0} {1} for {2} levels. Could be worse, lol. I like your {3} bookshel{4}."@,
        of_four == 3 ==> fancy(Grade::Good, of_three, of_four, of_five)
            == "Wow, not bad! {0} {1} for {2} levels with {3} bookshel{4}."@,
        of_three == 0 ==> fancy(Grade::Bad, of_three, of_four, of_five)
            == "{0} {1} for {2} levels? Could be worse, I guess... Might need more than {3} bookshel{4}..."@,
        of_three == 1 ==> fancy(Grade::Bad, of_three, of_four, of_five)
            == "You rolled {0} {1} for {2} levels with {3} bookshel{4}. Keep trying!"@,
        of_three == 2 ==> fancy(Grade::Bad, of_three, of_four, of_five)
            == "You rolled {0}! Nice!! Oh wait, its only {0} {1}. Oh well, it's only {2} levels at least. Maybe try using more than {3} bookshel{4} or something."@,
        of_five == 0 ==> fancy(Grade::Terrible, of_three, of_four, of_five)
            == "{0}.. you know what. I can't be bothered telling you the level, it's too embarrassing. Let's just pretend it's a good level."@,
        of_five == 1 ==> fancy(Grade::Terrible, of_three, of_four, of_five)
            == "Wow.. a {0} {1}.. amazing.. I wouldn't spend {2} levels on that, {5}."@,
        of_five == 2 ==> fancy(Grade::Terrible, of_three, of_four, of_five)
            == "{0} {1}... zzz... something something {2} levels something {3} bookshel{4} idk I can't be bothered anymore"@,
        of_five == 3 ==> fancy(Grade::Terrible, of_three, of_four, of_five)
            == "Jackpot! You scored a {0} {1}. What are the odds of being that bad?? {2} levels?? Honestly. Get more bookshelves, {3} isn't enough."@,
        of_five == 4 ==> fancy(Grade::Terrible, of_three, of_four, of_five)
            == "Yeah I'm not saying the response. That's just embarassing, {5}. Almost as embarassing as misspelling embarrassing."@,
{
}

/// A fancy answer is filled in piece by piece: text stays, `{0}` becomes the name
/// of the enchantment, `{1}` its level, `{2}` its cost, `{3}` the bookshelves,
/// `{4}` the end of their word, and `{5}` the player, in whatever order.
pub proof fn law_fancy_answers_are_filled_in(
    text: Text,
    rest: Text,
    offer: Offer<Text>,
    name: Text,
)
    requires
        no_brace(text),
        no_brace(offer.name),
        no_brace(name),
    ensures
        filled(Seq::empty(), offer, name) == Seq::<char>::empty(),
        filled(text + rest, offer, name) == text + filled(rest, offer, name),
        filled("{0}"@ + rest, offer, name) == offer.name + filled(rest, offer, name),
        filled("{1}"@ + rest, offer, name) == roman(offer.level as int) + filled(rest, offer, name),
        filled("{2}"@ + rest, offer, name) == shown(offer.cost as int) + filled(rest, offer, name),
        filled("{3}"@ + rest, offer, name) == shown(offer.bookshelves as int) + filled(
            rest,
            offer,
            name,
        ),
        filled("{4}"@ + rest, offer, name) == shelf_ending(offer.bookshelves as int) + filled(
            rest,
            offer,
            name,
        ),
        filled("{5}"@ + rest, offer, name) == name + filled(rest, offer, name),
{
    let (m0, m1, m2, m3, m4, m5) = ("{0}"@, "{1}"@, "{2}"@, "{3}"@, "{4}"@, "{5}"@);
    reveal_strlit("{0}");
    reveal_strlit("{1}");
    reveal_strlit("{2}");
    reveal_strlit("{3}");
    reveal_strlit("{4}");
    reveal_strlit("{5}");
    reveal_strlit("I");
    reveal_strlit("II");
    reveal_strlit("III");
    reveal_strlit("IV");
    reveal_strlit("f");
    reveal_strlit("ves");
    let v0 = offer.name;
    let v1 = roman(offer.level as int);
    let v2 = shown(offer.cost as int);
    let v3 = shown(offer.bookshelves as int);
    let v4 = shelf_ending(offer.bookshelves as int);
    let v5 = name;
    lemma_shown_head(offer.cost as int);
    lemma_shown_head(offer.bookshelves as int);
    let r0 = rest;
    let r1 = replaced(r0, m0, v0);
    let r2 = replaced(r1, m1, v1);
    let r3 = replaced(r2, m2, v2);
    let r4 = replaced(r3, m3, v3);
    let r5 = replaced(r4, m4, v4);
    assert(no_brace(v1));
    assert(no_brace(v4));
    lemma_fill_text(text, r0, m0, v0);
    lemma_fill_text(text, r1, m1, v1);
    lemma_fill_text(text, r2, m2, v2);
    lemma_fill_text(text, r3, m3, v3);
    lemma_fill_text(text, r4, m4, v4);
    lemma_fill_text(text, r5, m5, v5);
    lemma_fill_mark(r0, m0, v0);
    lemma_fill_text(v0, r1, m1, v1);
    lemma_fill_text(v0, r2, m2, v2);
    lemma_fill_text(v0, r3, m3, v3);
    lemma_fill_text(v0, r4, m4, v4);
    lemma_fill_text(v0, r5, m5, v5);
    assert(no_brace(m1.skip(1)));
    lemma_fill_other(m1, r0, m0, v0, 1);
    lemma_fill_mark(r1, m1, v1);
    lemma_fill_text(v1, r2, m2, v2);
    lemma_fill_text(v1, r3, m3, v3);
    lemma_fill_text(v1, r4, m4, v4);
    lemma_fill_text(v1, r5, m5, v5);
    assert(no_brace(m2.skip(1)));
    lemma_fill_other(m2, r0, m0, v0, 1);
    lemma_fill_other(m2, r1, m1, v1, 1);
    lemma_fill_mark(r2, m2, v2);
    lemma_fill_text(v2, r3, m3, v3);
    lemma_fill_text(v2, r4, m4, v4);
    lemma_fill_text(v2, r5, m5, v5);
    assert(no_brace(m3.skip(1)));
    lemma_fill_other(m3, r0, m0, v0, 1);
    lemma_fill_other(m3, r1, m1, v1, 1);
    lemma_fill_other(m3, r2, m2, v2, 1);
    lemma_fill_mark(r3, m3, v3);
    lemma_fill_text(v3, r4, m4, v4);
    lemma_fill_text(v3, r5, m5, v5);
    assert(no_brace(m4.skip(1)));
    lemma_fill_other(m4, r0, m0, v0, 1);
    lemma_fill_other(m4, r1, m1, v1, 1);
    lemma_fill_other(m4, r2, m2, v2, 1);
    lemma_fill_other(m4, r3, m3, v3, 1);
    lemma_fill_mark(r4, m4, v4);
    lemma_fill_text(v4, r5, m5, v5);
    assert(no_brace(m5.skip(1)));
    lemma_fill_other(m5, r0, m0, v0, 1);
    lemma_fill_other(m5, r1, m1, v1, 1);
    lemma_fill_other(m5, r2, m2, v2, 1);
    lemma_fill_other(m5, r3, m3, v3, 1);
    lemma_fill_other(m5, r4, m4, v4, 1);
    lemma_fill_mark(r5, m5, v5);
}

/// What is said of an offer that is not fancy, and which answer a fancy one gets.
pub proof fn law_answers_to_offers(
    offer: Offer<Text>,
    name: Text,
    of_three: int,
    of_four: int,
    of_five: int,
)
    ensures
        ({
            let said = offer_answer(offer, name, of_three, of_four, of_five);
            let shelves = shown(offer.bookshelves as int) + if offer.bookshelves == 1 {
                " bookshelf"@
            } else {
                " bookshelves"@
            };
            &&& !offer.special_response ==> said == "You rolled "@ + offer.name + " "@ + roman(
                offer.level as int,
            ) + " for "@ + shown(offer.cost as int) + " levels with "@ + shelves + "!"@
            &&& offer.special_response ==> said == filled(
                fancy(
                    grade(offer.bookshelves as int, offer.row as int),
                    of_three,
                    of_four,
                    of_five,
                ),
                offer,
                name,
            )
        }),
{
    reveal_strlit(" bookshel");
    reveal_strlit("f");
    reveal_strlit("ves");
    reveal_strlit(" bookshelf");
    reveal_strlit(" bookshelves");
    let start = "You rolled "@ + offer.name + " "@ + roman(offer.level as int) + " for "@ + shown(
        offer.cost as int,
    ) + " levels with "@;
    let count = shown(offer.bookshelves as int);
    assert(start + count + " bookshel"@ + "f"@ + "!"@ =~= start + (count + " bookshelf"@) + "!"@);
    assert(start + count + " bookshel"@ + "ves"@ + "!"@ =~= start + (count + " bookshelves"@) + "!"@);
}

/// The marks of a fancy answer are filled in one kind after the other, from `{0}`
/// to `{5}`; so marks within the name of an enchantment are filled too.
pub proof fn law_the_order_of_marks(template: Text, offer: Offer<Text>, name: Text)
    ensures
        ({
            let s0 = replaced(template, "{0}"@, offer.name);
            let s1 = replaced(s0, "{1}"@, roman(offer.level as int));
            let s2 = replaced(s1, "{2}"@, shown(offer.cost as int));
            let s3 = replaced(s2, "{3}"@, shown(offer.bookshelves as int));
            let s4 = replaced(s3, "{4}"@, shelf_ending(offer.bookshelves as int));
            filled(template, offer, name) == replaced(s4, "{5}"@, name)
        }),
{
}

/// What a contract sees of an offer is the offer.
pub proof fn law_offers_are_seen_as_they_are(offer: Offer<String>)
    ensures
        offer@.name == offer.name@,
        offer@.level == offer.level,
        offer@.cost == offer.cost,
        offer@.row == offer.row,
        offer@.bookshelves == offer.bookshelves,
        offer@.special_response == offer.special_response,
{
}

} // verus!
