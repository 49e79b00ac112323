//! The random numbers behind the bot's answers.
use rand::Rng;
use vstd::prelude::*;

verus! {

/// A random integer between `low` and `high`, both included, from
/// `rand::Rng::gen_range` on `rand::thread_rng()`. All that is said of it is
/// that it lies there, which is all that holds of every draw.
#[verifier::external_body]
fn gen_range(low: i64, high: i64) -> (r: i64)
    requires
        low <= high,
    ensures
        low <= r <= high,
{
    rand::thread_rng().gen_range(low..=high)
}

/// One draw of every random number that a step of a turn can need.
#[derive(Clone, Copy, Debug, PartialEq, Eq)]
pub struct Luck {
    /// The seconds, besides the fixed ones, that a player stays dead.
    pub rest: u64,
    /// The upper end of a trident roll.
    pub durability: i32,
    /// A trident roll, up to the upper end.
    pub roll: i32,
    /// The files that a low roll costs.
    pub deduction: i64,
    /// Which kind of remark a roll gets.
    pub selection: i64,
    /// Which rare remark a roll gets.
    pub rarity: i64,
    /// Choices among as many remarks as the names say.
    pub of_three: usize,
    pub of_four: usize,
    pub of_five: usize,
    pub of_seven: usize,
}

impl Luck {
    /// Every number lies in its range.
    pub open spec fn in_range(self) -> bool {
        &&& self.rest <= 270
        &&& 0 <= self.durability <= 250
        &&& 0 <= self.roll <= self.durability
        &&& 12 <= self.deduction < 32
        &&& 0 <= self.selection <= 100
        &&& 0 <= self.rarity <= 4096
        &&& self.of_three < 3
        &&& self.of_four < 4
        &&& self.of_five < 5
        &&& self.of_seven < 7
    }

    /// Draws afresh.
    pub fn draw() -> (r: Luck)
        ensures
            r.in_range(),
    {
        let durability: i64 = gen_range(0, 250);
        Luck {
            rest: gen_range(0, 270) as u64,
            durability: durability as i32,
            roll: gen_range(0, durability) as i32,
            deduction: gen_range(12, 31),
            selection: gen_range(0, 100),
            rarity: gen_range(0, 4096),
            of_three: gen_range(0, 2) as usize,
            of_four: gen_range(0, 3) as usize,
            of_five: gen_range(0, 4) as usize,
            of_seven: gen_range(0, 6) as usize,
        }
    }
}

/// What the random numbers can be, and no more: a rest up to 270 seconds, an upper
/// end up to 250 and a roll up to it, a deduction from 12 to 31, a selection up to
/// 100, a rarity up to 4096, and the choices.
pub proof fn law_ranges_of_luck(luck: Luck)
    ensures
        luck.in_range() <==> {
            &&& luck.rest <= 270
            &&& 0 <= luck.durability <= 250
            &&& 0 <= luck.roll <= luck.durability
            &&& 12 <= luck.deduction <= 31
            &&& 0 <= luck.selection <= 100
            &&& 0 <= luck.rarity <= 4096
            &&& luck.of_three <= 2
            &&& luck.of_four <= 3
            &&& luck.of_five <= 4
            &&& luck.of_seven <= 6
        },
{
}

} // verus!
