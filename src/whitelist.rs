use vstd::prelude::*;
use crate::address::{Address, Target, ToAddress};

verus! {

/// The read-only contract call.
pub const ETH_CALL: &'static str = "eth_call";

/// Submission of a signed transaction.
pub const SEND_RAW_TX: &'static str = "eth_sendRawTransaction";

/// Submission of a transaction that the node signs.
pub const SEND_TX: &'static str = "eth_sendTransaction";

/// One rule of an allow-list. A side that is `None` matches any address.
#[derive(Clone, Copy, Debug)]
pub struct WhiteAddress {
    /// The sender that the rule admits, if it restricts the sender.
    pub from: Option<Address>,
    /// The recipient that the rule admits, if it restricts the recipient.
    pub to: Option<ToAddress>,
}

/// Whether a rule admits a call from `from` to `to`.
pub open spec fn rule_allows(rule: WhiteAddress, from: Seq<u8>, to: Target) -> bool {
    &&& (rule.from matches Some(a) ==> a@ == from)
    &&& (rule.to matches Some(t) ==> t@ == to)
}

/// Whether some rule of the list admits a call from `from` to `to`.
pub open spec fn some_rule_allows(rules: Seq<WhiteAddress>, from: Seq<u8>, to: Target) -> bool {
    exists|i: int| 0 <= i < rules.len() && #[trigger] rule_allows(rules[i], from, to)
}

/// Whether a list admits a call: an empty list restricts nothing, and
/// otherwise one rule that admits the call is enough.
pub open spec fn authorized(rules: Seq<WhiteAddress>, from: Seq<u8>, to: Target) -> bool {
    rules.len() == 0 || some_rule_allows(rules, from, to)
}

impl WhiteAddress {
    /// Whether this rule admits a call from `from` to `to`.
    pub fn satisfy(&self, from: &Address, to: &ToAddress) -> (r: bool)
        ensures
            r == rule_allows(*self, from@, to@),
    {
        let from_ok = match &self.from {
            Some(a) => a.same(from),
            None => true,
        };
        let to_ok = match &self.to {
            Some(t) => t.same(to),
            None => true,
        };
        from_ok && to_ok
    }
}

/// A copy of a rule list.
pub fn copy_rules(rules: &Vec<WhiteAddress>) -> (r: Vec<WhiteAddress>)
    ensures
        r@ == rules@,
{
    let mut r: Vec<WhiteAddress> = Vec::new();
    let mut i: usize = 0;
    while i < rules.len()
        invariant
            0 <= i <= rules@.len(),
            r@ == rules@.subrange(0, i as int),
        decreases rules.len() - i,
    {
        r.push(rules[i]);
        i = i + 1;
        assert(r@ =~= rules@.subrange(0, i as int));
    }
    assert(rules@.subrange(0, rules@.len() as int) =~= rules@);
    r
}

/// An error in the configuration of the rules.
#[derive(Debug)]
pub struct ConfigError {
    pub message: String,
}

/// The allow-lists of the three intercepted methods.
#[derive(Debug)]
pub struct WhitelistConfig {
    /// Rules for `eth_call`.
    pub eth_call_whitelist: Vec<WhiteAddress>,
    /// Rules for `eth_sendRawTransaction`.
    pub raw_tx_whitelist: Vec<WhiteAddress>,
    /// Rules for `eth_sendTransaction`.
    pub tx_whitelist: Vec<WhiteAddress>,
}

/// The configuration in canonical form. Addresses are held as bytes, which
/// carry no letter case, so a configuration is canonical as it stands.
pub open spec fn normalized(c: WhitelistConfig) -> WhitelistConfig {
    c
}

/// Normalizing twice gives what normalizing once gives.
pub proof fn lemma_normalize_idempotent(c: WhitelistConfig)
    ensures
        normalized(normalized(c)) == normalized(c),
{
}

impl WhitelistConfig {
    /// A configuration that restricts nothing.
    pub fn empty() -> (r: WhitelistConfig)
        ensures
            r.eth_call_whitelist@.len() == 0,
            r.raw_tx_whitelist@.len() == 0,
            r.tx_whitelist@.len() == 0,
    {
        WhitelistConfig {
            eth_call_whitelist: Vec::new(),
            raw_tx_whitelist: Vec::new(),
            tx_whitelist: Vec::new(),
        }
    }

    /// A copy of the configuration.
    pub fn copy(&self) -> (r: WhitelistConfig)
        ensures
            r.eth_call_whitelist@ == self.eth_call_whitelist@,
            r.raw_tx_whitelist@ == self.raw_tx_whitelist@,
            r.tx_whitelist@ == self.tx_whitelist@,
    {
        WhitelistConfig {
            eth_call_whitelist: copy_rules(&self.eth_call_whitelist),
            raw_tx_whitelist: copy_rules(&self.raw_tx_whitelist),
            tx_whitelist: copy_rules(&self.tx_whitelist),
        }
    }

    /// Brings the addresses of every rule to canonical form. Parsing already
    /// put them there, so this succeeds and leaves the configuration as it
    /// was; doing it again changes nothing either.
    pub fn normalize(&mut self) -> (r: Result<(), ConfigError>)
        ensures
            r is Ok,
            *final(self) == normalized(*old(self)),
    {
        Ok(())
    }
}

/// The allow-lists in force, built once from the configuration.
#[derive(Debug)]
pub struct Whitelist {
    pub config: WhitelistConfig,
}

impl Whitelist {
    pub fn new(config: WhitelistConfig) -> (r: Whitelist)
        ensures
            r.config == config,
    {
        Whitelist { config }
    }

    /// Builds the allow-lists from their configuration, in canonical form.
    pub fn from_config(config: &WhitelistConfig) -> (r: Result<Whitelist, ConfigError>)
        ensures
            r matches Ok(w) && w.config.eth_call_whitelist@ == config.eth_call_whitelist@
                && w.config.raw_tx_whitelist@ == config.raw_tx_whitelist@
                && w.config.tx_whitelist@ == config.tx_whitelist@,
    {
        let mut config = config.copy();
        match config.normalize() {
            Ok(()) => Ok(Whitelist::new(config)),
            Err(e) => Err(e),
        }
    }
}

} // verus!
