//! The settings of a listening session.
use std::collections::HashSet;
use vstd::prelude::*;

verus! {

/// What the daemon connects to and how it logs.
#[derive(Debug)]
pub struct Config {
    pub host: String,
    pub port: u32,
    pub room_id: u32,
    pub user_id: u32,
    /// Do not print barrages to the console.
    pub no_print: bool,
    /// Minutes between two popularity records.
    pub log_interval: u32,
    /// Popularity readings at or below this are not logged.
    pub log_threshold: u32,
    /// Users whose barrages are neither printed nor logged.
    pub ignores: HashSet<u32>,
    /// Do not log gifts paid in silver coins.
    pub no_silver: bool,
}

impl Config {
    /// The settings as a configuration file gives them, with the defaults
    /// for those it leaves out: printing on, a popularity record every 3
    /// minutes, a popularity threshold of 10, nobody ignored, and silver
    /// gifts not logged.
    pub fn from_settings(
        host: String,
        port: u32,
        room_id: u32,
        user_id: u32,
        no_print: Option<bool>,
        log_interval: Option<u32>,
        log_threshold: Option<u32>,
        ignores: Option<HashSet<u32>>,
        no_silver: Option<bool>,
    ) -> (c: Config)
        ensures
            c.host@ == host@,
            c.port == port,
            c.room_id == room_id,
            c.user_id == user_id,
            c.no_print == match no_print {
                Some(b) => b,
                None => false,
            },
            c.log_interval == match log_interval {
                Some(n) => n,
                None => 3,
            },
            c.log_threshold == match log_threshold {
                Some(n) => n,
                None => 10,
            },
            c.ignores@ == match ignores {
                Some(set) => set@,
                None => Set::<u32>::empty(),
            },
            c.no_silver == match no_silver {
                Some(b) => b,
                None => true,
            },
    {
        Config {
            host,
            port,
            room_id,
            user_id,
            no_print: match no_print {
                Some(b) => b,
                None => false,
            },
            log_interval: match log_interval {
                Some(n) => n,
                None => 3,
            },
            log_threshold: match log_threshold {
                Some(n) => n,
                None => 10,
            },
            ignores: match ignores {
                Some(set) => set,
                None => HashSet::new(),
            },
            no_silver: match no_silver {
                Some(b) => b,
                None => true,
            },
        }
    }

    /// Applies the command line over the configuration file: a room given
    /// there replaces the configured one, and the `--no-print` flag turns
    /// printing off.
    pub fn apply_cli(&mut self, room: Option<u32>, no_print: bool)
        ensures
            final(self).room_id == match room {
                Some(r) => r,
                None => old(self).room_id,
            },
            final(self).no_print == (old(self).no_print || no_print),
            final(self).host == old(self).host,
            final(self).port == old(self).port,
            final(self).user_id == old(self).user_id,
            final(self).log_interval == old(self).log_interval,
            final(self).log_threshold == old(self).log_threshold,
            final(self).ignores == old(self).ignores,
            final(self).no_silver == old(self).no_silver,
    {
        if let Some(r) = room {
            self.room_id = r;
        }
        if no_print {
            self.no_print = true;
        }
    }
}

} // verus!
