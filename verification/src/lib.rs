//! The core of a chat bot that plays music: the rules by which resolved
//! tracks enter the playback queue of a session, and the settings the bot is
//! started with. Talking to the chat gateway, to the track resolver and to
//! the database is left to the program around this library.
pub mod config;
pub mod inserter;
pub mod laws;
pub mod query;
pub mod queue;
