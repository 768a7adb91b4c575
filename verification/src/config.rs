//! The settings that every stage shares.

use vstd::prelude::*;

verus! {

/// Where the store is, and where the log goes.
#[derive(Debug, PartialEq, Eq)]
pub struct Config {
    pub psql_config: String,
    pub log_file: String,
}

impl Config {
    /// The log file where none is named.
    pub open spec fn default_log_file() -> Seq<char> {
        "bonbon.log"@
    }

    /// The settings that the command line gives: the store's configuration
    /// must be named; the log file need not be.
    pub fn new(psql_config: Option<String>, log_file: Option<String>) -> (config: Option<Config>)
        ensures
            match psql_config {
                Some(named) => config is Some && config.unwrap().psql_config@ == named@
                    && config.unwrap().log_file@ == (match log_file {
                    Some(file) => file@,
                    None => Config::default_log_file(),
                }),
                None => config is None,
            },
    {
        match psql_config {
            Some(psql_config) => {
                let log_file = match log_file {
                    Some(file) => file,
                    None => "bonbon.log".to_owned(),
                };
                Some(Config { psql_config, log_file })
            },
            None => None,
        }
    }
}

} // verus!
