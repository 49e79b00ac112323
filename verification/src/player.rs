//! What the bot keeps of a player, and how a message and a roll change it.
use vstd::prelude::*;

verus! {

/// The seconds after which a message earns files again.
pub const ACTIVITY_INTERVAL: u64 = 900;

/// The files that such a message earns.
pub const ACTIVITY_FILES: i64 = 25;

/// The seconds that a player stays dead at least.
pub const DEATH_SECONDS: u64 = 30;

/// The record of a player.
#[derive(Clone, Copy, Debug, PartialEq, Eq)]
pub struct Player {
    pub sent_messages: u64,
    pub sent_commands: u64,
    /// When a message last earned files, in seconds.
    pub last_message: u64,
    pub files: i64,
    /// When the player died, if dead.
    pub death: Option<u64>,
    pub deaths: u64,
    pub tridents_rolled: u64,
    pub max_trident: u64,
    /// The sum of all rolls.
    pub trident_acc: u64,
    pub rolled_250s: u64,
    pub enchants_rolled: u64,
}

impl Player {
    /// Whether a message at `now` earns files.
    pub open spec fn earns(self, now: u64) -> bool {
        now > self.last_message + ACTIVITY_INTERVAL
    }

    /// The record after a message at `now`.
    pub open spec fn after_message(self, now: u64) -> Player {
        let counted = Player { sent_messages: (self.sent_messages + 1) as u64, ..self };
        if self.earns(now) {
            Player { last_message: now, files: (self.files + ACTIVITY_FILES) as i64, ..counted }
        } else {
            counted
        }
    }

    /// The record can take a message at `now`: no number in it grows too large.
    pub open spec fn can_note(self, now: u64) -> bool {
        &&& self.sent_messages < u64::MAX
        &&& self.last_message <= u64::MAX - ACTIVITY_INTERVAL
        &&& self.earns(now) ==> self.files <= i64::MAX - ACTIVITY_FILES
    }

    /// Tells whether the record can take a message at `now`.
    pub fn takes_message(&self, now: u64) -> (r: bool)
        ensures
            r == self.can_note(now),
    {
        self.sent_messages < u64::MAX && self.last_message <= u64::MAX - ACTIVITY_INTERVAL && (now
            <= self.last_message + ACTIVITY_INTERVAL || self.files <= i64::MAX - ACTIVITY_FILES)
    }

    /// Counts a message at `now`.
    pub fn note_message(&mut self, now: u64)
        requires
            old(self).can_note(now),
        ensures
            *final(self) == old(self).after_message(now),
    {
        self.sent_messages = self.sent_messages + 1;
        if now > self.last_message + ACTIVITY_INTERVAL {
            self.last_message = now;
            self.files = self.files + ACTIVITY_FILES;
        }
    }

    /// A roll as the records count it: below zero it wraps around.
    pub open spec fn score(roll: i32) -> u64 {
        if roll >= 0 {
            roll as u64
        } else {
            (roll + 0x1_0000_0000_0000_0000) as u64
        }
    }

    /// The record can take `roll`: no number in it grows too large.
    pub open spec fn can_add(self, roll: i32) -> bool {
        &&& self.tridents_rolled < u64::MAX
        &&& self.trident_acc + Player::score(roll) <= u64::MAX
        &&& roll == 250 ==> self.rolled_250s < u64::MAX
    }

    /// Tells whether the record can take `roll`.
    pub fn takes_roll(&self, roll: i32) -> (r: bool)
        ensures
            r == self.can_add(roll),
    {
        self.tridents_rolled < u64::MAX && self.trident_acc <= u64::MAX - Player::scored(roll)
            && (roll != 250 || self.rolled_250s < u64::MAX)
    }

    /// A roll as the records count it.
    pub fn scored(roll: i32) -> (r: u64)
        ensures
            r == Player::score(roll),
    {
        if roll >= 0 {
            roll as u64
        } else {
            u64::MAX - ((-(roll as i64 + 1)) as u64)
        }
    }

    /// Whether `roll` is better than every roll before.
    pub open spec fn is_best(self, roll: i32) -> bool {
        self.max_trident < Player::score(roll)
    }

    /// The record after a roll.
    pub open spec fn after_roll(self, roll: i32) -> Player {
        Player {
            tridents_rolled: (self.tridents_rolled + 1) as u64,
            max_trident: if self.is_best(roll) {
                Player::score(roll)
            } else {
                self.max_trident
            },
            trident_acc: (self.trident_acc + Player::score(roll)) as u64,
            ..self
        }
    }

    /// Counts a roll, and tells whether it is the best one so far.
    pub fn note_roll(&mut self, roll: i32) -> (best: bool)
        requires
            old(self).can_add(roll),
        ensures
            *final(self) == old(self).after_roll(roll),
            best == old(self).is_best(roll),
    {
        let score: u64 = Player::scored(roll);
        let best = self.max_trident < score;
        self.tridents_rolled = self.tridents_rolled + 1;
        if best {
            self.max_trident = score;
        }
        self.trident_acc = self.trident_acc + score;
        best
    }

    /// Whether a player who died at `death` is back at `now`, with `rest`
    /// seconds more to wait than the fixed ones.
    pub open spec fn is_back(death: u64, rest: u64, now: u64) -> bool {
        death + DEATH_SECONDS + rest < now
    }

    /// Tells whether a player who died at `death` is back at `now`.
    pub fn returned(death: u64, rest: u64, now: u64) -> (r: bool)
        requires
            death + DEATH_SECONDS + rest <= u64::MAX,
        ensures
            r == Player::is_back(death, rest, now),
    {
        death + DEATH_SECONDS + rest < now
    }

    /// The record after a death at `now`.
    pub open spec fn after_death(self, now: u64) -> Player {
        Player { deaths: (self.deaths + 1) as u64, death: Some(now), ..self }
    }

    /// Counts a death at `now`.
    pub fn die(&mut self, now: u64)
        requires
            old(self).deaths < u64::MAX,
        ensures
            *final(self) == old(self).after_death(now),
    {
        self.deaths = self.deaths + 1;
        self.death = Some(now);
    }
}

/// A message earns files at most once in the interval: after one that does, at
/// `first`, the next that does comes more than that later.
pub proof fn law_activity_pays_once_per_interval(player: Player, first: u64, second: u64)
    requires
        player.can_note(first),
        player.earns(first),
        player.after_message(first).earns(second),
    ensures
        second - first > ACTIVITY_INTERVAL,
{
}

/// The best roll never falls, is at least the roll just made, and is either
/// that roll or the best one before.
pub proof fn law_best_roll(player: Player, roll: i32)
    requires
        player.can_add(roll),
    ensures
        player.after_roll(roll).max_trident >= player.max_trident,
        player.after_roll(roll).max_trident >= Player::score(roll),
        player.after_roll(roll).max_trident == player.max_trident || player.after_roll(
            roll,
        ).max_trident == Player::score(roll),
{
}

/// The best roll is never above the sum of all rolls, as long as it was not
/// before.
pub proof fn law_best_roll_within_sum(player: Player, roll: i32)
    requires
        player.can_add(roll),
        player.max_trident <= player.trident_acc,
    ensures
        player.after_roll(roll).max_trident <= player.after_roll(roll).trident_acc,
{
}

/// A dead player is not back before the fixed seconds are over, and is back
/// once they and the longest rest are, whatever the rest.
pub proof fn law_death_is_bounded(death: u64, rest: u64, now: u64)
    requires
        rest <= 270,
    ensures
        now <= death + DEATH_SECONDS ==> !Player::is_back(death, rest, now),
        now > death + DEATH_SECONDS + 270 ==> Player::is_back(death, rest, now),
{
}

/// What a message changes of a record: it is counted, and if the last one that
/// earned files is more than 900 seconds ago, it earns 25 and takes its place.
pub proof fn law_messages_in_the_record(player: Player, now: u64)
    requires
        player.can_note(now),
    ensures
        ({
            let p = player.after_message(now);
            &&& p.sent_messages == player.sent_messages + 1
            &&& now - player.last_message > 900 ==> p.files == player.files + 25 && p.last_message
                == now
            &&& now - player.last_message <= 900 ==> p.files == player.files && p.last_message
                == player.last_message
            &&& p.sent_commands == player.sent_commands
            &&& p.death == player.death
            &&& p.deaths == player.deaths
            &&& p.tridents_rolled == player.tridents_rolled
            &&& p.max_trident == player.max_trident
            &&& p.trident_acc == player.trident_acc
            &&& p.rolled_250s == player.rolled_250s
            &&& p.enchants_rolled == player.enchants_rolled
        }),
{
}

/// What a roll changes of a record: it is counted and added to the sum, and takes
/// the place of the best one if it is better. Below zero it counts as 2 to the
/// power of 64 more.
pub proof fn law_rolls_in_the_record(player: Player, roll: i32)
    requires
        player.can_add(roll),
    ensures
        ({
            let p = player.after_roll(roll);
            let value = if roll >= 0 {
                roll as int
            } else {
                roll + 0x1_0000_0000_0000_0000
            };
            &&& Player::score(roll) == value
            &&& player.is_best(roll) <==> value > player.max_trident
            &&& p.tridents_rolled == player.tridents_rolled + 1
            &&& p.trident_acc == player.trident_acc + value
            &&& value > player.max_trident ==> p.max_trident == value
            &&& value <= player.max_trident ==> p.max_trident == player.max_trident
            &&& p.sent_messages == player.sent_messages
            &&& p.sent_commands == player.sent_commands
            &&& p.last_message == player.last_message
            &&& p.files == player.files
            &&& p.death == player.death
            &&& p.deaths == player.deaths
            &&& p.rolled_250s == player.rolled_250s
            &&& p.enchants_rolled == player.enchants_rolled
        }),
{
}

/// What a death changes of a record: it is counted, and its time is kept.
pub proof fn law_deaths_in_the_record(player: Player, now: u64)
    requires
        player.deaths < u64::MAX,
    ensures
        player.after_death(now).deaths == player.deaths + 1,
        player.after_death(now).death == Some(now),
        player.after_death(now) == (Player {
            deaths: player.after_death(now).deaths,
            death: Some(now),
            ..player
        }),
{
}

/// A player is back when more than thirty seconds and the rest have passed.
pub proof fn law_when_the_dead_are_back(death: u64, rest: u64, now: u64)
    ensures
        Player::is_back(death, rest, now) <==> now - death > 30 + rest,
{
}

/// A record takes messages and rolls until a number in it would not fit.
pub proof fn law_records_fill_up(player: Player, now: u64, roll: i32)
    ensures
        player.sent_messages < u64::MAX && player.last_message <= u64::MAX - 900 && player.files
            <= i64::MAX - 25 ==> player.can_note(now),
        roll >= 0 && player.tridents_rolled < u64::MAX && player.trident_acc <= u64::MAX - roll
            && player.rolled_250s < u64::MAX ==> player.can_add(roll),
{
}

} // verus!
