//! The decisions of a Twitch chat bot: what a line from the server means
//! (`reader`, over `grammar` and `wire`), and what the bot does about a chat
//! message. That is a turn (`turn`): a machine whose steps (`engine`) have
//! effects and ask questions (`protocol`). What single commands compute stands
//! in `define`, `enchant`, `odds`, `song` and `trident`; `rules`
//! says by itself what each kind of step does, `laws` what is true of every step,
//! and `course` what is true of a whole turn.
pub mod course;
pub mod define;
pub mod enchant;
pub mod engine;
pub mod grammar;
pub mod laws;
pub mod luck;
pub mod odds;
pub mod player;
pub mod protocol;
pub mod reader;
pub mod rules;
pub mod song;
pub mod tasks;
pub mod text;
pub mod trident;
pub mod turn;
pub mod wire;
