use folderbot_chat::enchant::{answer_offer, grade_of, Grade, Offer};
use folderbot_chat::luck::Luck;
use folderbot_chat::odds::{answer_odds, odds_of};
use folderbot_chat::player::Player;
use folderbot_chat::song::{song_message, Playing};
use folderbot_chat::trident::{
    norm_fmt, notable, pac_remark, penalty, pick_remark, plain, settle_roll, timeout, Hazard, Remark,
};

fn fresh() -> Player {
    Player {
        sent_messages: 0,
        sent_commands: 0,
        last_message: 0,
        files: 0,
        death: None,
        deaths: 0,
        tridents_rolled: 0,
        max_trident: 0,
        trident_acc: 0,
        rolled_250s: 0,
        enchants_rolled: 0,
    }
}

#[test]
fn draws_lie_in_their_ranges_and_differ() {
    let mut rolls = Vec::new();
    for _ in 0..500 {
        let luck = Luck::draw();
        assert!(luck.rest <= 270);
        assert!(0 <= luck.durability && luck.durability <= 250);
        assert!(0 <= luck.roll && luck.roll <= luck.durability);
        assert!(12 <= luck.deduction && luck.deduction < 32);
        assert!(0 <= luck.selection && luck.selection <= 100);
        assert!(0 <= luck.rarity && luck.rarity <= 4096);
        assert!(luck.of_three < 3 && luck.of_four < 4 && luck.of_five < 5 && luck.of_seven < 7);
        rolls.push(luck.rarity);
    }
    rolls.sort();
    rolls.dedup();
    assert!(rolls.len() > 100);
}

#[test]
fn messages_earn_files_once_per_interval() {
    let mut p = fresh();
    assert!(p.takes_message(900));
    p.note_message(900);
    assert_eq!((p.sent_messages, p.files, p.last_message), (1, 0, 0));
    p.note_message(901);
    assert_eq!((p.sent_messages, p.files, p.last_message), (2, 25, 901));
    p.note_message(1801);
    assert_eq!((p.sent_messages, p.files, p.last_message), (3, 25, 901));
    p.note_message(1802);
    assert_eq!((p.sent_messages, p.files, p.last_message), (4, 50, 1802));
}

#[test]
fn rolls_are_counted_and_the_best_one_kept() {
    let mut p = fresh();
    assert_eq!(p.note_roll(17), true);
    assert_eq!(p.note_roll(17), false);
    assert_eq!(p.note_roll(3), false);
    assert_eq!(p.note_roll(200), true);
    assert_eq!((p.tridents_rolled, p.max_trident, p.trident_acc), (4, 200, 237));
    assert_eq!(Player::scored(-5), (-5i32) as u64);
    assert_eq!(Player::scored(i32::MIN), i32::MIN as u64);
}

#[test]
fn full_records_take_no_more() {
    let mut p = fresh();
    p.sent_messages = u64::MAX;
    assert!(!p.takes_message(0));
    let mut p = fresh();
    p.files = i64::MAX;
    assert!(p.takes_message(900));
    assert!(!p.takes_message(901));
    let mut p = fresh();
    p.trident_acc = u64::MAX - 7;
    assert!(p.takes_roll(7));
    assert!(!p.takes_roll(8));
    p.trident_acc = 0;
    p.rolled_250s = u64::MAX;
    assert!(p.takes_roll(249));
    assert!(!p.takes_roll(250));
}

#[test]
fn death_lasts_as_long_as_it_should() {
    assert!(!Player::returned(1000, 0, 1030));
    assert!(Player::returned(1000, 0, 1031));
    assert!(!Player::returned(1000, 270, 1300));
    assert!(Player::returned(1000, 270, 1301));
    let mut p = fresh();
    p.die(7);
    assert_eq!((p.deaths, p.death), (1, Some(7)));
}

#[test]
fn plain_remarks_fit_the_roll() {
    assert_eq!(plain(0, "Ann", 0, 0, 0), "Wow, Ann rolled a 0? What a loser!");
    assert_eq!(plain(0, "Ann", 3, 0, 0), "You rolled a 0. Everyone: Don't let Ann play AA. They don't have the luck - er, skill - for it.");
    assert_eq!(plain(1, "Ann", 0, 1, 0), "Ann rolled a 1. Everyone clap for Ann. They deserve a little light in their life.");
    assert_eq!(plain(99, "Ann", 0, 0, 5), "99! Whoa. A whole 99 more durability than 0, and you still won't get thunder, LOL!");
    assert_eq!(plain(-4, "Ann", 0, 0, 0), "-4. Cool. That's not that bad.");
    assert_eq!(plain(100, "Ann", 0, 0, 6), "100 temples checked before enchanted golden apple.");
    assert_eq!(plain(200, "Ann", 1, 0, 0), "200! Whoaaaaa. I'm in awe.");
    assert_eq!(plain(249, "Ann", 3, 0, 0), "249. Oh boy! We got a high roller here!");
}

#[test]
fn the_lowest_rolls_silence() {
    assert_eq!(timeout(0, "ann"), Some("/timeout ann 10".to_string()));
    assert_eq!(timeout(1, "ann"), Some("/timeout ann 15".to_string()));
    assert_eq!(timeout(2, "ann"), None);
    assert_eq!(timeout(-1, "ann"), None);
}

#[test]
fn remarks_are_filled_in() {
    assert_eq!(norm_fmt("{ur} {t.r} {t.rolled} {ur}", "Ann", 42, 7), "Ann 42 7 Ann");
    assert_eq!(
        penalty("Ann", 3, 1, 12),
        "Ew... a 3. What a gross low roll, Ann. I'm deducting 12 files from you, just for that..."
    );
    assert_eq!(
        pac_remark("Pac", 60, 1),
        "60. Ouch. Just 6 more, and you could have finished the TAS with that, eh \"Pac\" man? Whatever that means..."
    );
}

#[test]
fn only_the_owner_chooses_a_roll() {
    assert_eq!(settle_roll("desktopfolder", "250", 3), 250);
    assert_eq!(settle_roll("desktopfolder", "-5", 3), -5);
    assert_eq!(settle_roll("desktopfolder", "x", 3), 3);
    assert_eq!(settle_roll("desktopfolder", "", 3), 3);
    assert_eq!(settle_roll("ann", "250", 3), 3);
}

#[test]
fn notable_rolls_have_their_pools() {
    let mut p = fresh();
    p.tridents_rolled = 6;
    assert_eq!(notable(&p, true, 250, 0), Some("TRIDENT_VALUE_250"));
    assert_eq!(notable(&p, true, 90, 0), Some("TRIDENT_PB_GENERIC"));
    assert_eq!(notable(&p, false, 120, 0), None);
    assert_eq!(notable(&p, false, 4, 4), Some("TRIDENT_DOUBLE_LOW"));
    assert_eq!(notable(&p, false, 5, 5), None);
    p.tridents_rolled = 5;
    assert_eq!(notable(&p, true, 100, 0), Some("EARLY_HIGH_TRIDENT"));
    assert_eq!(notable(&p, true, 99, 0), None);
    p.tridents_rolled = 1;
    assert_eq!(notable(&p, true, 99, 0), Some("FIRST_TRIDENT_GENERIC"));
}

#[test]
fn hazards_are_tried_in_order() {
    assert_eq!(Hazard::Penalty.first_for(1, "ann"), Some(Hazard::Penalty));
    assert_eq!(Hazard::Penalty.following_for(1, "ann"), Some(Hazard::LowDeath));
    assert_eq!(Hazard::LowDeath.following_for(1, "ann"), None);
    assert_eq!(Hazard::LowDeath.following_for(1, "pacmanmvc"), Some(Hazard::PacRemark));
    assert_eq!(Hazard::Penalty.first_for(4, "ann"), Some(Hazard::Penalty));
    assert_eq!(Hazard::Penalty.following_for(4, "ann"), None);
    assert_eq!(Hazard::Penalty.first_for(150, "ann"), None);
    assert_eq!(Hazard::Penalty.first_for(151, "ann"), Some(Hazard::HighDeath));
    assert_eq!(Hazard::Penalty.first_for(175, "ann"), Some(Hazard::HighDeath));
    assert_eq!(Hazard::Penalty.first_for(176, "ann"), None);
    assert_eq!(Hazard::Penalty.first_for(65, "pacmanmvc"), Some(Hazard::PacRemark));
    assert_eq!(Hazard::Penalty.first_for(66, "pacmanmvc"), None);
    assert_eq!(Hazard::PacRemark.following_for(1, "pacmanmvc"), None);
    assert_eq!(
        [Hazard::Penalty.one_in(), Hazard::LowDeath.one_in(), Hazard::HighDeath.one_in(), Hazard::PacRemark.one_in()],
        [6, 5, 5, 10]
    );
}

#[test]
fn remarks_are_picked_by_number() {
    assert_eq!(pick_remark(76, 9), Remark::Plain);
    assert_eq!(pick_remark(77, 9), Remark::RarePool);
    assert_eq!(pick_remark(81, 200), Remark::RarePool);
    assert_eq!(pick_remark(82, 9), Remark::LowPool);
    assert_eq!(pick_remark(82, 10), Remark::Rare);
    assert_eq!(pick_remark(85, 9), Remark::Rare);
}

#[test]
fn odds_are_those_of_floating_point() {
    let all: f64 = (i64::pow(251, 2) + 251) as f64 / 2.0;
    for n in 0..=250i64 {
        let chance = (all / (251.0 - (n as f64))).ceil();
        assert_eq!(odds_of(n).to_string(), chance.to_string());
    }
    assert_eq!(odds_of(250), 31626);
    assert_eq!(odds_of(249), 15813);
    assert_eq!(odds_of(0), 126);
}

#[test]
fn odds_never_fall_with_the_roll() {
    for n in 0..250 {
        assert!(odds_of(n) <= odds_of(n + 1));
    }
}

#[test]
fn odds_are_told_by_their_size() {
    assert_eq!(answer_odds("250", "Ann"), "You have a 1 in 31626 chance of rolling 250.. on the up side, if you round it, you have a 1 in 1 chance of not rolling 250 monkaLaugh");
    assert_eq!(answer_odds("249", "Ann"), "Rolling 249 durability is a 1 in 15813 chance. Fun fact, you're twice as likely to get this than 250");
    assert_eq!(answer_odds("248", "Ann"), "You have a 1 in 10542 chance of rolling 248. You have more of a chance of getting injured by a toilet OMEGALULiguess");
    assert_eq!(answer_odds("247", "Ann"), "You have a 1 in 7907 chance of 247 durability, and yet still better odds than a calico spawning LULW");
    assert_eq!(answer_odds("219", "Ann"), "It's a 1 in 989 chance of rolling 219. Did you know you have a higher chance of being born with an extra finger or toe?");
    assert_eq!(answer_odds("100", "Ann"), "You have a higher chance of falling to your death than the 1 in 210 chance of rolling a 100");
    assert_eq!(answer_odds("+0", "Ann"), "There's a 1 in 126 chance of rolling 0 durability. It doesn't really get much better than that tbh. If you can't even roll a 0 what's the point?");
    assert_eq!(answer_odds("251", "Ann"), "You might find it difficult to roll a 251, Ann... but feel free to try");
    assert_eq!(answer_odds("-1", "Ann"), "You might find it difficult to roll a -1, Ann... but feel free to try");
    assert_eq!(answer_odds("lots", "Ann"), "You might find it difficult to roll a lots, Ann... but feel free to try");
}

fn book(special: bool, shelves: i64, row: i64, level: i64) -> Offer<String> {
    Offer {
        name: "Mending".to_string(),
        level,
        cost: 30,
        row,
        bookshelves: shelves,
        special_response: special,
    }
}

#[test]
fn offers_are_graded() {
    assert_eq!(grade_of(13, 3), Grade::Great);
    assert_eq!(grade_of(13, 2), Grade::Good);
    assert_eq!(grade_of(10, 2), Grade::Good);
    assert_eq!(grade_of(12, 1), Grade::Bad);
    assert_eq!(grade_of(2, 3), Grade::Bad);
    assert_eq!(grade_of(1, 3), Grade::Terrible);
    assert_eq!(grade_of(15, 1), Grade::Bad);
}

#[test]
fn offers_are_answered() {
    assert_eq!(answer_offer(&book(false, 1, 1, 1), "Ann", 0, 0, 0), "You rolled Mending I for 30 levels with 1 bookshelf!");
    assert_eq!(answer_offer(&book(false, 0, 1, 4), "Ann", 0, 0, 0), "You rolled Mending IV for 30 levels with 0 bookshelves!");
    assert_eq!(answer_offer(&book(true, 15, 3, 3), "Ann", 0, 0, 0), "Impressive! You've got yourself a Mending III book for 30 levels with 15 bookshelves.");
    assert_eq!(answer_offer(&book(true, 10, 2, 2), "Ann", 0, 3, 0), "Wow, not bad! Mending II for 30 levels with 10 bookshelves.");
    assert_eq!(answer_offer(&book(true, 9, 2, 2), "Ann", 2, 0, 0), "You rolled Mending! Nice!! Oh wait, its only Mending II. Oh well, it's only 30 levels at least. Maybe try using more than 9 bookshelves or something.");
    assert_eq!(answer_offer(&book(true, 1, 3, 1), "Ann", 0, 0, 1), "Wow.. a Mending I.. amazing.. I wouldn't spend 30 levels on that, Ann.");
    assert_eq!(answer_offer(&book(true, 1, 3, 1), "Ann", 0, 0, 2), "Mending I... zzz... something something 30 levels something 1 bookshelf idk I can't be bothered anymore");
}

#[test]
fn songs_are_told() {
    let track = |artists: &[&str]| Playing::Track {
        artists: artists.iter().map(|s| s.to_string()).collect(),
        title: "Song".to_string(),
    };
    assert_eq!(song_message(&track(&["A"])), "A - Song");
    assert_eq!(song_message(&track(&["A", "B", "C"])), "A, B, C - Song");
    assert_eq!(song_message(&track(&[])), "Song");
    assert_eq!(song_message(&Playing::Other), "no song, I'm just listening to Folding@Home podcast :)");
    assert_eq!(song_message(&Playing::Nothing), "Error: No song is currently playing.");
    assert_eq!(song_message(&Playing::Unknown), "Error: Couldn't get the current song.");
}
