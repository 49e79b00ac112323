//! The odds of a trident roll.
use crate::text::{join3, join5, parse_i64, parsed, parsed_within, show_i64, shown, Text};
use vstd::prelude::*;

verus! {

/// The number of ways to draw an upper end between 0 and 250 and a roll up to
/// it: 251 * 252 / 2.
pub const PERMUTATIONS: i64 = 31626;

/// A roll of `n` comes up once in so many times: the number of ways, shared by
/// the `251 - n` ways that can give `n`, rounded up.
pub open spec fn odds(n: int) -> int
    recommends
        0 <= n <= 250,
{
    (PERMUTATIONS + (251 - n) - 1) / (251 - n)
}

/// What the bot says of the odds of a roll.
pub open spec fn odds_text(n: int) -> Text {
    let chance = shown(odds(n));
    let roll = shown(n);
    if odds(n) == PERMUTATIONS {
        "You have a 1 in "@ + chance + " chance of rolling "@ + roll
            + ".. on the up side, if you round it, you have a 1 in 1 chance of not rolling "@ + roll
            + " monkaLaugh"@
    } else if odds(n) * 2 == PERMUTATIONS {
        "Rolling "@ + roll + " durability is a 1 in "@ + chance
            + " chance. Fun fact, you're twice as likely to get this than 250"@
    } else if odds(n) > 10000 {
        "You have a 1 in "@ + chance + " chance of rolling "@ + roll
            + ". You have more of a chance of getting injured by a toilet OMEGALULiguess"@
    } else if odds(n) > 1000 {
        "You have a 1 in "@ + chance + " chance of "@ + roll
            + " durability, and yet still better odds than a calico spawning LULW"@
    } else if odds(n) > 500 {
        "It's a 1 in "@ + chance + " chance of rolling "@ + roll
            + ". Did you know you have a higher chance of being born with an extra finger or toe?"@
    } else if odds(n) > 129 {
        "You have a higher chance of falling to your death than the 1 in "@ + chance
            + " chance of rolling a "@ + roll
    } else {
        "There's a 1 in "@ + chance + " chance of rolling "@ + roll
            + " durability. It doesn't really get much better than that tbh. If you can't even roll a "@
            + roll + " what's the point?"@
    }
}

/// What the bot says to a request for the odds of `wanted`, which is not
/// always a possible roll.
pub open spec fn odds_answer(wanted: Text, name: Text) -> Text {
    match parsed_within(wanted, 0, 250) {
        Some(n) => odds_text(n),
        None => "You might find it difficult to roll a "@ + wanted + ", "@ + name
            + "... but feel free to try"@,
    }
}

/// Works out the odds of a roll.
pub fn odds_of(n: i64) -> (r: i64)
    requires
        0 <= n <= 250,
    ensures
        r == odds(n as int),
        1 <= r <= PERMUTATIONS,
{
    let ways: i64 = 251 - n;
    proof {
        law_odds(n as int);
    }
    (PERMUTATIONS + ways - 1) / ways
}

fn tell_odds(n: i64) -> (r: String)
    requires
        0 <= n <= 250,
    ensures
        r@ == odds_text(n as int),
{
    let odds: i64 = odds_of(n);
    let chance = show_i64(odds);
    let roll = show_i64(n);
    if odds == PERMUTATIONS {
        let mut s = join5(
            "You have a 1 in ",
            chance.as_str(),
            " chance of rolling ",
            roll.as_str(),
            ".. on the up side, if you round it, you have a 1 in 1 chance of not rolling ",
        );
        s.append(roll.as_str());
        s.append(" monkaLaugh");
        s
    } else if odds * 2 == PERMUTATIONS {
        join5(
            "Rolling ",
            roll.as_str(),
            " durability is a 1 in ",
            chance.as_str(),
            " chance. Fun fact, you're twice as likely to get this than 250",
        )
    } else if odds > 10000 {
        join5(
            "You have a 1 in ",
            chance.as_str(),
            " chance of rolling ",
            roll.as_str(),
            ". You have more of a chance of getting injured by a toilet OMEGALULiguess",
        )
    } else if odds > 1000 {
        join5(
            "You have a 1 in ",
            chance.as_str(),
            " chance of ",
            roll.as_str(),
            " durability, and yet still better odds than a calico spawning LULW",
        )
    } else if odds > 500 {
        join5(
            "It's a 1 in ",
            chance.as_str(),
            " chance of rolling ",
            roll.as_str(),
            ". Did you know you have a higher chance of being born with an extra finger or toe?",
        )
    } else if odds > 129 {
        let mut s = join3(
            "You have a higher chance of falling to your death than the 1 in ",
            chance.as_str(),
            " chance of rolling a ",
        );
        s.append(roll.as_str());
        s
    } else {
        let mut s = join5(
            "There's a 1 in ",
            chance.as_str(),
            " chance of rolling ",
            roll.as_str(),
            " durability. It doesn't really get much better than that tbh. If you can't even roll a ",
        );
        s.append(roll.as_str());
        s.append(" what's the point?");
        s
    }
}

/// Answers a request for the odds of a roll.
pub fn answer_odds(wanted: &str, name: &str) -> (r: String)
    ensures
        r@ == odds_answer(wanted@, name@),
{
    match parse_i64(wanted) {
        Some(n) => if 0 <= n && n <= 250 {
            return tell_odds(n);
        },
        None => {},
    }
    join5(
        "You might find it difficult to roll a ",
        wanted,
        ", ",
        name,
        "... but feel free to try",
    )
}

/// The odds of a roll are the least number that, taken once for each of its
/// ways, reaches the number of all ways; they lie between 126 and that number.
pub proof fn law_odds(n: int)
    requires
        0 <= n <= 250,
    ensures
        odds(n) * (251 - n) >= PERMUTATIONS,
        (odds(n) - 1) * (251 - n) < PERMUTATIONS,
        126 <= odds(n) <= PERMUTATIONS,
{
    let ways = 251 - n;
    let c = odds(n);
    assert(c * ways >= PERMUTATIONS && (c - 1) * ways < PERMUTATIONS) by (nonlinear_arith)
        requires
            c == (PERMUTATIONS + ways - 1) / ways,
            1 <= ways <= 251,
    ;
    assert(126 <= c) by (nonlinear_arith)
        requires
            c * ways >= PERMUTATIONS,
            1 <= ways <= 251,
    ;
    assert(c <= PERMUTATIONS) by (nonlinear_arith)
        requires
            (c - 1) * ways < PERMUTATIONS,
            1 <= ways,
    ;
}

/// A higher roll is never more likely than a lower one.
pub proof fn law_higher_rolls_are_rarer(n: int, m: int)
    requires
        0 <= n <= m <= 250,
    ensures
        odds(n) <= odds(m),
{
    law_odds(n);
    law_odds(m);
    let (a, b) = (odds(n), odds(m));
    assert(a <= b) by (nonlinear_arith)
        requires
            (a - 1) * (251 - n) < PERMUTATIONS,
            b * (251 - m) >= PERMUTATIONS,
            0 <= n <= m <= 250,
            b >= 0,
    ;
}

/// What is said of the odds of a roll, by the roll: the odds are the least number
/// that reaches half of 251 times 252 when taken once for each of the `251 - n`
/// ways to make the roll.
pub proof fn law_odds_in_words(n: int, once_in: int)
    requires
        0 <= n <= 250,
        2 * once_in * (251 - n) >= 251 * 252,
        2 * (once_in - 1) * (251 - n) < 251 * 252,
    ensures
        ({
            let chance = shown(once_in);
            let roll = shown(n);
            let said = odds_text(n);
            &&& n == 250 ==> said == "You have a 1 in "@ + chance + " chance of rolling "@ + roll
                + ".. on the up side, if you round it, you have a 1 in 1 chance of not rolling "@
                + roll + " monkaLaugh"@
            &&& n == 249 ==> said == "Rolling "@ + roll + " durability is a 1 in "@ + chance
                + " chance. Fun fact, you're twice as likely to get this than 250"@
            &&& n == 248 ==> said == "You have a 1 in "@ + chance + " chance of rolling "@ + roll
                + ". You have more of a chance of getting injured by a toilet OMEGALULiguess"@
            &&& 220 <= n <= 247 ==> said == "You have a 1 in "@ + chance + " chance of "@ + roll
                + " durability, and yet still better odds than a calico spawning LULW"@
            &&& 188 <= n <= 219 ==> said == "It's a 1 in "@ + chance + " chance of rolling "@ + roll
                + ". Did you know you have a higher chance of being born with an extra finger or toe?"@
            &&& 6 <= n <= 187 ==> said
                == "You have a higher chance of falling to your death than the 1 in "@ + chance
                + " chance of rolling a "@ + roll
            &&& n <= 5 ==> said == "There's a 1 in "@ + chance + " chance of rolling "@ + roll
                + " durability. It doesn't really get much better than that tbh. If you can't even roll a "@
                + roll + " what's the point?"@
        }),
{
    law_odds(n);
    let c = odds(n);
    let ways = 251 - n;
    assert(c == once_in) by (nonlinear_arith)
        requires
            c * ways >= 31626,
            (c - 1) * ways < 31626,
            2 * once_in * ways >= 251 * 252,
            2 * (once_in - 1) * ways < 251 * 252,
            ways >= 1,
    ;
    assert((n == 250 ==> c == 31626) && (n == 249 ==> c == 15813) && (n == 248 ==> c == 10542))
        by (nonlinear_arith)
        requires
            c * ways >= 31626,
            (c - 1) * ways < 31626,
            ways == 251 - n,
    ;
    assert(n <= 247 ==> c <= 7907) by (nonlinear_arith)
        requires
            (c - 1) * ways < 31626,
            ways == 251 - n,
    ;
    assert(n >= 220 ==> c > 1000) by (nonlinear_arith)
        requires
            c * ways >= 31626,
            ways == 251 - n,
            n <= 250,
    ;
    assert(n <= 219 ==> c <= 1000) by (nonlinear_arith)
        requires
            (c - 1) * ways < 31626,
            ways == 251 - n,
    ;
    assert(n >= 188 ==> c > 500) by (nonlinear_arith)
        requires
            c * ways >= 31626,
            ways == 251 - n,
            n <= 250,
    ;
    assert(n <= 187 ==> c <= 500) by (nonlinear_arith)
        requires
            (c - 1) * ways < 31626,
            ways == 251 - n,
    ;
    assert(n >= 6 ==> c > 129) by (nonlinear_arith)
        requires
            c * ways >= 31626,
            ways == 251 - n,
            n <= 250,
    ;
    assert(n <= 5 ==> c <= 129) by (nonlinear_arith)
        requires
            (c - 1) * ways < 31626,
            ways == 251 - n,
    ;
}

/// A request for the odds of a number from 0 to 250 is answered with them; any
/// other is put off with the request and the player's name.
pub proof fn law_requests_for_odds(wanted: Text, name: Text, n: int)
    ensures
        0 <= n <= 250 && parsed(wanted) == Some(n) ==> odds_answer(wanted, name) == odds_text(n),
        (parsed(wanted) matches Some(v) ==> v < 0 || 250 < v) ==> odds_answer(wanted, name)
            == "You might find it difficult to roll a "@ + wanted + ", "@ + name
            + "... but feel free to try"@,
{
}

} // verus!
