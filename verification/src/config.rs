//! The settings that the bot is started with.
use vstd::prelude::*;

verus! {

/// The settings of the bot, as its configuration file holds them.
#[derive(Debug)]
pub struct ConfigData {
    pub general: General,
    pub database: Database,
}

/// How the bot signs in and how it is addressed.
#[derive(Debug)]
pub struct General {
    /// The token the bot presents to the gateway.
    pub token: String,
    /// The characters that open a command.
    pub prefix: String,
}

/// Where the message history is kept.
#[derive(Debug)]
pub struct Database {
    pub database_url: String,
}

} // verus!
