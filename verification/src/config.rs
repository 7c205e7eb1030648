//! The configuration a node runs with.
//!
//! Node identity, leader timeout, the store's connection string and the two
//! hook commands are fixed for the life of the process. Reading and parsing
//! the configuration file is the embedding program's concern; it hands the
//! parsed parts to [`Config::load`], which assembles the value the rest of
//! the crate works from.

use vstd::prelude::*;

verus! {

/// An external hook command: a program path and its argument list.
#[derive(Debug)]
pub struct Hook {
    pub cmd: String,
    pub args: Vec<String>,
}

/// The two role-transition hooks.
#[derive(Debug)]
pub struct Hooks {
    pub become_leader: Hook,
    pub become_standby: Hook,
}

/// How to reach the coordination store.
#[derive(Debug)]
pub struct PostgresConf {
    pub connection: String,
}

/// Everything a node is configured with.
#[derive(Debug)]
pub struct Config {
    pub id: String,
    pub leader_timeout_seconds: u64,
    pub postgres: PostgresConf,
    pub hooks: Hooks,
}

impl Config {
    /// Assemble a configuration from its pre-validated parts.
    pub fn load(id: String, leader_timeout_seconds: u64, postgres: PostgresConf, hooks: Hooks) -> (c: Config)
        ensures
            c.id == id,
            c.leader_timeout_seconds == leader_timeout_seconds,
            c.postgres == postgres,
            c.hooks == hooks,
    {
        Config { id, leader_timeout_seconds, postgres, hooks }
    }
}

} // verus!
