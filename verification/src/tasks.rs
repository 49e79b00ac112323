//! What the built-in commands are called.
use crate::text::{same, Text};
use vstd::prelude::*;

verus! {

/// The built-in commands.
#[derive(Clone, Copy, Debug, PartialEq, Eq, Structural)]
pub enum Task {
    Insert,
    Edit,
    IsAdmin,
    IsSuper,
    Help,
    Stop,
    PlayerData,
    Say,
    SayRaw,
    ReloadCommands,
    SaveCommandsTest,
    SaveCommands,
    BetFor,
    BetAgainst,
    Failed,
    Worked,
    Status,
    ReloadGame,
    SaveGame,
    Autosave,
    Rsg,
    TridentPb,
    TridentLb,
    Trident,
    TridentChance,
    Enchant,
    Nick,
    AdminNick,
    Elo,
    PlayAudio,
    GetSong,
    Cancel,
    /// None of them.
    Unknown,
}

/// The built-in command of a name.
pub open spec fn task_of(command: Text) -> Task {
    if command == "meta:insert"@ {
        Task::Insert
    } else if command == "meta:edit"@ {
        Task::Edit
    } else if command == "meta:isadmin"@ {
        Task::IsAdmin
    } else if command == "meta:issuper"@ {
        Task::IsSuper
    } else if command == "meta:help"@ {
        Task::Help
    } else if command == "meta:stop"@ {
        Task::Stop
    } else if command == "meta:playerdata"@ {
        Task::PlayerData
    } else if command == "meta:say"@ {
        Task::Say
    } else if command == "meta:say_raw"@ {
        Task::SayRaw
    } else if command == "meta:reload_commands"@ {
        Task::ReloadCommands
    } else if command == "meta:save_commands_test"@ {
        Task::SaveCommandsTest
    } else if command == "meta:save_commands"@ {
        Task::SaveCommands
    } else if command == "game:bet_for"@ {
        Task::BetFor
    } else if command == "game:bet_against"@ {
        Task::BetAgainst
    } else if command == "game:failed"@ {
        Task::Failed
    } else if command == "game:worked"@ {
        Task::Worked
    } else if command == "game:status"@ {
        Task::Status
    } else if command == "game:reload"@ {
        Task::ReloadGame
    } else if command == "game:save"@ {
        Task::SaveGame
    } else if command == "game:autosave"@ {
        Task::Autosave
    } else if command == "feature:rsg"@ {
        Task::Rsg
    } else if command == "feature:tridentpb"@ {
        Task::TridentPb
    } else if command == "feature:tridentlb"@ {
        Task::TridentLb
    } else if command == "feature:trident"@ {
        Task::Trident
    } else if command == "feature:tridentchance"@ {
        Task::TridentChance
    } else if command == "feature:enchant"@ {
        Task::Enchant
    } else if command == "feature:nick"@ {
        Task::Nick
    } else if command == "admin:nick"@ {
        Task::AdminNick
    } else if command == "feature:elo"@ {
        Task::Elo
    } else if command == "core:play_audio"@ {
        Task::PlayAudio
    } else if command == "core:functioning_get_song"@ {
        Task::GetSong
    } else if command == "internal:cancel"@ {
        Task::Cancel
    } else {
        Task::Unknown
    }
}

/// Finds the built-in command of a name.
pub fn classify(command: &str) -> (r: Task)
    ensures
        r == task_of(command@),
{
    if same(command, "meta:insert") {
        Task::Insert
    } else if same(command, "meta:edit") {
        Task::Edit
    } else if same(command, "meta:isadmin") {
        Task::IsAdmin
    } else if same(command, "meta:issuper") {
        Task::IsSuper
    } else if same(command, "meta:help") {
        Task::Help
    } else if same(command, "meta:stop") {
        Task::Stop
    } else if same(command, "meta:playerdata") {
        Task::PlayerData
    } else if same(command, "meta:say") {
        Task::Say
    } else if same(command, "meta:say_raw") {
        Task::SayRaw
    } else if same(command, "meta:reload_commands") {
        Task::ReloadCommands
    } else if same(command, "meta:save_commands_test") {
        Task::SaveCommandsTest
    } else if same(command, "meta:save_commands") {
        Task::SaveCommands
    } else if same(command, "game:bet_for") {
        Task::BetFor
    } else if same(command, "game:bet_against") {
        Task::BetAgainst
    } else if same(command, "game:failed") {
        Task::Failed
    } else if same(command, "game:worked") {
        Task::Worked
    } else if same(command, "game:status") {
        Task::Status
    } else if same(command, "game:reload") {
        Task::ReloadGame
    } else if same(command, "game:save") {
        Task::SaveGame
    } else if same(command, "game:autosave") {
        Task::Autosave
    } else if same(command, "feature:rsg") {
        Task::Rsg
    } else if same(command, "feature:tridentpb") {
        Task::TridentPb
    } else if same(command, "feature:tridentlb") {
        Task::TridentLb
    } else if same(command, "feature:trident") {
        Task::Trident
    } else if same(command, "feature:tridentchance") {
        Task::TridentChance
    } else if same(command, "feature:enchant") {
        Task::Enchant
    } else if same(command, "feature:nick") {
        Task::Nick
    } else if same(command, "admin:nick") {
        Task::AdminNick
    } else if same(command, "feature:elo") {
        Task::Elo
    } else if same(command, "core:play_audio") {
        Task::PlayAudio
    } else if same(command, "core:functioning_get_song") {
        Task::GetSong
    } else if same(command, "internal:cancel") {
        Task::Cancel
    } else {
        Task::Unknown
    }
}

/// The name of a built-in command.
pub open spec fn name_of(task: Task) -> Text {
    match task {
        Task::Insert => "meta:insert"@,
        Task::Edit => "meta:edit"@,
        Task::IsAdmin => "meta:isadmin"@,
        Task::IsSuper => "meta:issuper"@,
        Task::Help => "meta:help"@,
        Task::Stop => "meta:stop"@,
        Task::PlayerData => "meta:playerdata"@,
        Task::Say => "meta:say"@,
        Task::SayRaw => "meta:say_raw"@,
        Task::ReloadCommands => "meta:reload_commands"@,
        Task::SaveCommandsTest => "meta:save_commands_test"@,
        Task::SaveCommands => "meta:save_commands"@,
        Task::BetFor => "game:bet_for"@,
        Task::BetAgainst => "game:bet_against"@,
        Task::Failed => "game:failed"@,
        Task::Worked => "game:worked"@,
        Task::Status => "game:status"@,
        Task::ReloadGame => "game:reload"@,
        Task::SaveGame => "game:save"@,
        Task::Autosave => "game:autosave"@,
        Task::Rsg => "feature:rsg"@,
        Task::TridentPb => "feature:tridentpb"@,
        Task::TridentLb => "feature:tridentlb"@,
        Task::Trident => "feature:trident"@,
        Task::TridentChance => "feature:tridentchance"@,
        Task::Enchant => "feature:enchant"@,
        Task::Nick => "feature:nick"@,
        Task::AdminNick => "admin:nick"@,
        Task::Elo => "feature:elo"@,
        Task::PlayAudio => "core:play_audio"@,
        Task::GetSong => "core:functioning_get_song"@,
        Task::Cancel => "internal:cancel"@,
        Task::Unknown => Seq::empty(),
    }
}

proof fn lemma_name_lengths()
    ensures
        "meta:insert"@.len() == 11,
        "meta:edit"@.len() == 9,
        "meta:isadmin"@.len() == 12,
        "meta:issuper"@.len() == 12,
        "meta:help"@.len() == 9,
        "meta:stop"@.len() == 9,
        "meta:playerdata"@.len() == 15,
        "meta:say"@.len() == 8,
        "meta:say_raw"@.len() == 12,
        "meta:reload_commands"@.len() == 20,
        "meta:save_commands_test"@.len() == 23,
        "meta:save_commands"@.len() == 18,
        "game:bet_for"@.len() == 12,
        "game:bet_against"@.len() == 16,
        "game:failed"@.len() == 11,
        "game:worked"@.len() == 11,
        "game:status"@.len() == 11,
        "game:reload"@.len() == 11,
        "game:save"@.len() == 9,
        "game:autosave"@.len() == 13,
        "feature:rsg"@.len() == 11,
        "feature:tridentpb"@.len() == 17,
        "feature:tridentlb"@.len() == 17,
        "feature:trident"@.len() == 15,
        "feature:tridentchance"@.len() == 21,
        "feature:enchant"@.len() == 15,
        "feature:nick"@.len() == 12,
        "admin:nick"@.len() == 10,
        "feature:elo"@.len() == 11,
        "core:play_audio"@.len() == 15,
        "core:functioning_get_song"@.len() == 25,
        "internal:cancel"@.len() == 15,
{
    reveal_strlit("meta:insert");
    reveal_strlit("meta:edit");
    reveal_strlit("meta:isadmin");
    reveal_strlit("meta:issuper");
    reveal_strlit("meta:help");
    reveal_strlit("meta:stop");
    reveal_strlit("meta:playerdata");
    reveal_strlit("meta:say");
    reveal_strlit("meta:say_raw");
    reveal_strlit("meta:reload_commands");
    reveal_strlit("meta:save_commands_test");
    reveal_strlit("meta:save_commands");
    reveal_strlit("game:bet_for");
    reveal_strlit("game:bet_against");
    reveal_strlit("game:failed");
    reveal_strlit("game:worked");
    reveal_strlit("game:status");
    reveal_strlit("game:reload");
    reveal_strlit("game:save");
    reveal_strlit("game:autosave");
    reveal_strlit("feature:rsg");
    reveal_strlit("feature:tridentpb");
    reveal_strlit("feature:tridentlb");
    reveal_strlit("feature:trident");
    reveal_strlit("feature:tridentchance");
    reveal_strlit("feature:enchant");
    reveal_strlit("feature:nick");
    reveal_strlit("admin:nick");
    reveal_strlit("feature:elo");
    reveal_strlit("core:play_audio");
    reveal_strlit("core:functioning_get_song");
    reveal_strlit("internal:cancel");
}

/// Every built-in command is found by its name.
pub proof fn law_tasks_are_found_by_name(task: Task)
    ensures
        task_of(name_of(task)) == task,
{
    lemma_name_lengths();
    reveal_strlit("meta:insert");
    reveal_strlit("meta:edit");
    reveal_strlit("meta:isadmin");
    reveal_strlit("meta:issuper");
    reveal_strlit("meta:help");
    reveal_strlit("meta:stop");
    reveal_strlit("meta:playerdata");
    reveal_strlit("meta:say_raw");
    reveal_strlit("game:bet_for");
    reveal_strlit("game:failed");
    reveal_strlit("game:worked");
    reveal_strlit("game:status");
    reveal_strlit("game:reload");
    reveal_strlit("game:save");
    reveal_strlit("feature:rsg");
    reveal_strlit("feature:tridentpb");
    reveal_strlit("feature:tridentlb");
    reveal_strlit("feature:trident");
    reveal_strlit("feature:enchant");
    reveal_strlit("feature:nick");
    reveal_strlit("feature:elo");
    reveal_strlit("core:play_audio");
    reveal_strlit("internal:cancel");
    assert("meta:insert"@[0] != "game:failed"@[0]);
    assert("meta:insert"@[0] != "game:worked"@[0]);
    assert("meta:insert"@[0] != "game:status"@[0]);
    assert("meta:insert"@[0] != "game:reload"@[0]);
    assert("meta:insert"@[0] != "feature:rsg"@[0]);
    assert("meta:insert"@[0] != "feature:elo"@[0]);
    assert("meta:edit"@[5] != "meta:help"@[5]);
    assert("meta:edit"@[5] != "meta:stop"@[5]);
    assert("meta:edit"@[0] != "game:save"@[0]);
    assert("meta:isadmin"@[7] != "meta:issuper"@[7]);
    assert("meta:isadmin"@[5] != "meta:say_raw"@[5]);
    assert("meta:isadmin"@[0] != "game:bet_for"@[0]);
    assert("meta:isadmin"@[0] != "feature:nick"@[0]);
    assert("meta:issuper"@[5] != "meta:say_raw"@[5]);
    assert("meta:issuper"@[0] != "game:bet_for"@[0]);
    assert("meta:issuper"@[0] != "feature:nick"@[0]);
    assert("meta:help"@[5] != "meta:stop"@[5]);
    assert("meta:help"@[0] != "game:save"@[0]);
    assert("meta:stop"@[0] != "game:save"@[0]);
    assert("meta:playerdata"@[0] != "feature:trident"@[0]);
    assert("meta:playerdata"@[0] != "feature:enchant"@[0]);
    assert("meta:playerdata"@[0] != "core:play_audio"@[0]);
    assert("meta:playerdata"@[0] != "internal:cancel"@[0]);
    assert("meta:say_raw"@[0] != "game:bet_for"@[0]);
    assert("meta:say_raw"@[0] != "feature:nick"@[0]);
    assert("game:bet_for"@[0] != "feature:nick"@[0]);
    assert("game:failed"@[5] != "game:worked"@[5]);
    assert("game:failed"@[5] != "game:status"@[5]);
    assert("game:failed"@[5] != "game:reload"@[5]);
    assert("game:failed"@[0] != "feature:rsg"@[0]);
    assert("game:failed"@[0] != "feature:elo"@[0]);
    assert("game:worked"@[5] != "game:status"@[5]);
    assert("game:worked"@[5] != "game:reload"@[5]);
    assert("game:worked"@[0] != "feature:rsg"@[0]);
    assert("game:worked"@[0] != "feature:elo"@[0]);
    assert("game:status"@[5] != "game:reload"@[5]);
    assert("game:status"@[0] != "feature:rsg"@[0]);
    assert("game:status"@[0] != "feature:elo"@[0]);
    assert("game:reload"@[0] != "feature:rsg"@[0]);
    assert("game:reload"@[0] != "feature:elo"@[0]);
    assert("feature:rsg"@[8] != "feature:elo"@[8]);
    assert("feature:tridentpb"@[15] != "feature:tridentlb"@[15]);
    assert("feature:trident"@[8] != "feature:enchant"@[8]);
    assert("feature:trident"@[0] != "core:play_audio"@[0]);
    assert("feature:trident"@[0] != "internal:cancel"@[0]);
    assert("feature:enchant"@[0] != "core:play_audio"@[0]);
    assert("feature:enchant"@[0] != "internal:cancel"@[0]);
    assert("core:play_audio"@[0] != "internal:cancel"@[0]);
}

} // verus!
