use vstd::prelude::*;
use crate::whitelist::{copy_rules, ConfigError, WhiteAddress};

verus! {

/// An allow-list configuration for `eth_call` and transaction submission.
#[derive(Debug)]
pub struct WhitelistConfig {
    pub eth_call_whitelist: Vec<WhiteAddress>,
    pub tx_whitelist: Vec<WhiteAddress>,
}

/// A deny-list configuration for `eth_call` and transaction submission.
#[derive(Debug)]
pub struct BlacklistConfig {
    pub eth_call_whitelist: Vec<WhiteAddress>,
    pub tx_whitelist: Vec<WhiteAddress>,
}

/// The allow-lists in force.
#[derive(Debug)]
pub struct Whitelist {
    pub config: WhitelistConfig,
}

/// The deny-lists in force.
#[derive(Debug)]
pub struct BlackList {
    pub config: BlacklistConfig,
}

impl Whitelist {
    /// Builds the allow-lists from a copy of their configuration.
    pub fn from_config(config: &WhitelistConfig) -> (r: Result<Whitelist, ConfigError>)
        ensures
            r matches Ok(w) && w.config.eth_call_whitelist@ == config.eth_call_whitelist@
                && w.config.tx_whitelist@ == config.tx_whitelist@,
    {
        Ok(
            Whitelist {
                config: WhitelistConfig {
                    eth_call_whitelist: copy_rules(&config.eth_call_whitelist),
                    tx_whitelist: copy_rules(&config.tx_whitelist),
                },
            },
        )
    }
}

impl BlackList {
    /// Builds the deny-lists from a copy of their configuration.
    pub fn from_config(config: &BlacklistConfig) -> (r: Result<BlackList, ConfigError>)
        ensures
            r matches Ok(b) && b.config.eth_call_whitelist@ == config.eth_call_whitelist@
                && b.config.tx_whitelist@ == config.tx_whitelist@,
    {
        Ok(
            BlackList {
                config: BlacklistConfig {
                    eth_call_whitelist: copy_rules(&config.eth_call_whitelist),
                    tx_whitelist: copy_rules(&config.tx_whitelist),
                },
            },
        )
    }
}

} // verus!
