use vstd::prelude::*;
use crate::address::{
    address_text, parse_address, same_text_ignoring_case, text_is, Address, Target, ToAddress,
};
use crate::envelope::{decode_raw_transaction, payload_outcome, DecodedTx, TxFault};
use crate::json::{field, JsonValue};
use crate::whitelist::{
    authorized, copy_rules, some_rule_allows, WhiteAddress, Whitelist, ETH_CALL, SEND_RAW_TX,
    SEND_TX,
};

verus! {

/// The related address is banned.
pub const ADDRESS_IS_BANNED: i32 = -33000;

/// The address must be parsed from the rpc parameters.
pub const UNKNOWN_ADDRESS: i32 = -33001;

/// The transaction could not be decoded.
pub const ILLEGAL_TX: i32 = -33002;

/// The transaction signature is invalid.
pub const ILLEGAL_TX_SIGNATURE: i32 = -33003;

/// An error returned to the caller of a method.
#[derive(Debug)]
pub struct RpcError {
    pub code: i32,
    pub message: String,
    /// Extra data, as JSON text.
    pub data: Option<String>,
}

impl RpcError {
    fn new(code: i32, message: &str) -> (r: RpcError)
        ensures
            r.code == code,
            r.data is None,
    {
        RpcError { code, message: message.to_owned(), data: None }
    }
}

/// How the parties of a call are found.
#[derive(Clone, Copy, Debug, PartialEq, Eq, Structural)]
pub enum RpcType {
    /// `eth_call`: parties from the `from` and `to` fields of the first parameter.
    EthCall,
    /// `eth_sendRawTransaction`: parties from the signed transaction.
    SendRawTX,
    /// `eth_sendTransaction`: parties as for `eth_call`.
    SendTX,
}

/// The access check of one request, with the rules of its method.
/// This should run before any stage that forwards to the node.
pub struct WhitelistMiddleware {
    rpc_type: RpcType,
    addresses: Vec<WhiteAddress>,
}

/// The parties of a call-style request: the sender from the `from` field of
/// the first parameter, the recipient from the address in its `to` field, a
/// contract creation when `to` is absent or `null`; or the code of the error.
pub open spec fn call_parties(params: Seq<JsonValue>) -> Result<(Seq<u8>, Target), i32> {
    if params.len() == 0 {
        Err(UNKNOWN_ADDRESS)
    } else {
        match field(params[0], "from"@) {
            Some(JsonValue::Str(f)) => match address_text(f@) {
                Some(from) => match field(params[0], "to"@) {
                    None => Ok((from, Target::Create)),
                    Some(JsonValue::Null) => Ok((from, Target::Create)),
                    Some(JsonValue::Str(t)) => match address_text(t@) {
                        Some(to) => Ok((from, Target::Call(to))),
                        None => Err(UNKNOWN_ADDRESS),
                    },
                    Some(_) => Err(UNKNOWN_ADDRESS),
                },
                None => Err(UNKNOWN_ADDRESS),
            },
            _ => Err(UNKNOWN_ADDRESS),
        }
    }
}

/// The error code of a refused raw transaction.
pub open spec fn fault_code(f: TxFault) -> i32 {
    match f {
        TxFault::IllegalTransaction => ILLEGAL_TX,
        TxFault::IllegalTransactionSignature => ILLEGAL_TX_SIGNATURE,
    }
}

/// The parties of a raw-transaction request: the recovered signer and the
/// recipient of the transaction in the first parameter; or the code of the
/// error.
pub open spec fn raw_parties(params: Seq<JsonValue>) -> Result<(Seq<u8>, Target), i32> {
    if params.len() == 0 {
        Err(UNKNOWN_ADDRESS)
    } else {
        match params[0] {
            JsonValue::Str(s) => match payload_outcome(s@) {
                Ok(p) => Ok(p),
                Err(f) => Err(fault_code(f)),
            },
            _ => Err(UNKNOWN_ADDRESS),
        }
    }
}

/// The parties of a request of the given kind.
pub open spec fn parties(kind: RpcType, params: Seq<JsonValue>) -> Result<(Seq<u8>, Target), i32> {
    match kind {
        RpcType::SendRawTX => raw_parties(params),
        _ => call_parties(params),
    }
}

/// The decision on a request: forward it, or the code of the error that
/// refuses it. An empty rule list forwards everything without looking at
/// the request.
pub open spec fn verdict(kind: RpcType, rules: Seq<WhiteAddress>, params: Seq<JsonValue>) -> Result<(), i32> {
    if rules.len() == 0 {
        Ok(())
    } else {
        match parties(kind, params) {
            Err(c) => Err(c),
            Ok((from, to)) => if some_rule_allows(rules, from, to) {
                Ok(())
            } else {
                Err(ADDRESS_IS_BANNED)
            },
        }
    }
}

/// Whether a result agrees with a decision.
pub open spec fn decided(r: Result<(), RpcError>, v: Result<(), i32>) -> bool {
    match r {
        Ok(()) => v == Ok::<(), i32>(()),
        Err(e) => v == Err::<(), i32>(e.code),
    }
}

/// The kind of request and the rules that a method is checked with, if it
/// is checked at all; without an allow-list configured, the rule list is
/// empty.
pub open spec fn method_rules(method: Seq<char>, whitelist: Option<&Whitelist>) -> Option<
    (RpcType, Seq<WhiteAddress>),
> {
    if method == ETH_CALL@ {
        Some(
            (
                RpcType::EthCall,
                match whitelist {
                    Some(w) => w.config.eth_call_whitelist@,
                    None => Seq::empty(),
                },
            ),
        )
    } else if method == SEND_RAW_TX@ {
        Some(
            (
                RpcType::SendRawTX,
                match whitelist {
                    Some(w) => w.config.raw_tx_whitelist@,
                    None => Seq::empty(),
                },
            ),
        )
    } else if method == SEND_TX@ {
        Some(
            (
                RpcType::SendTX,
                match whitelist {
                    Some(w) => w.config.tx_whitelist@,
                    None => Seq::empty(),
                },
            ),
        )
    } else {
        None
    }
}

impl WhitelistMiddleware {
    /// How this instance finds the parties of its request.
    pub closed spec fn kind(&self) -> RpcType {
        self.rpc_type
    }

    /// The rules of this instance.
    pub closed spec fn rules(&self) -> Seq<WhiteAddress> {
        self.addresses@
    }

    /// The access check for a method, carrying a copy of that method's
    /// rules; `None` for a method that is not checked.
    pub fn build(method: &str, whitelist: Option<&Whitelist>) -> (r: Option<WhitelistMiddleware>)
        ensures
            match method_rules(method@, whitelist) {
                Some((kind, rules)) => r matches Some(m) && m.kind() == kind && m.rules() == rules,
                None => r is None,
            },
    {
        let rpc_type = if text_is(method, ETH_CALL) {
            RpcType::EthCall
        } else if text_is(method, SEND_RAW_TX) {
            RpcType::SendRawTX
        } else if text_is(method, SEND_TX) {
            RpcType::SendTX
        } else {
            return None;
        };
        let addresses = match whitelist {
            None => Vec::new(),
            Some(w) => match rpc_type {
                RpcType::EthCall => copy_rules(&w.config.eth_call_whitelist),
                RpcType::SendRawTX => copy_rules(&w.config.raw_tx_whitelist),
                RpcType::SendTX => copy_rules(&w.config.tx_whitelist),
            },
        };
        Some(WhitelistMiddleware { rpc_type, addresses })
    }

    /// Whether some rule of this instance admits a call from `from` to `to`.
    pub fn satisfy(&self, from: &Address, to: &ToAddress) -> (r: bool)
        ensures
            r == some_rule_allows(self.rules(), from@, to@),
    {
        let mut i: usize = 0;
        while i < self.addresses.len()
            invariant
                0 <= i <= self.addresses@.len(),
                forall|j: int| 0 <= j < i ==> !crate::whitelist::rule_allows(
                    #[trigger] self.addresses@[j],
                    from@,
                    to@,
                ),
            decreases self.addresses.len() - i,
        {
            if self.addresses[i].satisfy(from, to) {
                return true;
            }
            i = i + 1;
        }
        false
    }

    /// Decides a request: `Ok` to forward it, or the error that refuses it.
    pub fn check(&self, params: &Vec<JsonValue>) -> (r: Result<(), RpcError>)
        ensures
            decided(r, verdict(self.kind(), self.rules(), params@)),
    {
        if self.addresses.len() == 0 {
            return Ok(());
        }
        let (from, to) = match self.rpc_type {
            RpcType::EthCall | RpcType::SendTX => match extract_address_from_to(params) {
                Ok(p) => p,
                Err(e) => {
                    return Err(e);
                },
            },
            RpcType::SendRawTX => match extract_address_from_raw_tx(params) {
                Ok(p) => p,
                Err(e) => {
                    return Err(e);
                },
            },
        };
        if self.satisfy(&from, &to) {
            Ok(())
        } else {
            Err(banned_error(None))
        }
    }
}

/// Whether an extraction result agrees with the expected parties.
pub open spec fn extracted(r: Result<(Address, ToAddress), RpcError>, p: Result<(Seq<u8>, Target), i32>) -> bool {
    match r {
        Ok((a, t)) => p == Ok::<(Seq<u8>, Target), i32>((a@, t@)),
        Err(e) => p == Err::<(Seq<u8>, Target), i32>(e.code),
    }
}

/// The sender and recipient of an `eth_call` or `eth_sendTransaction`
/// request, read from the `from` and `to` fields of its first parameter.
pub fn extract_address_from_to(params: &Vec<JsonValue>) -> (r: Result<(Address, ToAddress), RpcError>)
    ensures
        extracted(r, call_parties(params@)),
{
    if params.len() == 0 {
        return Err(RpcError::new(UNKNOWN_ADDRESS, "Could not get the first param from rpc parameter"));
    }
    let p1 = &params[0];
    let from = match p1.get("from") {
        Some(f) => f,
        None => {
            return Err(RpcError::new(UNKNOWN_ADDRESS, "Could not get the `from` from rpc parameter"));
        },
    };
    let from = match from.as_str() {
        Some(s) => match parse_address(s) {
            Some(a) => a,
            None => {
                return Err(RpcError::new(UNKNOWN_ADDRESS, "Could not parse `from` from rpc parameter"));
            },
        },
        None => {
            return Err(RpcError::new(UNKNOWN_ADDRESS, "Could not parse `from` from rpc parameter"));
        },
    };
    let to = match p1.get("to") {
        None => ToAddress::Create,
        Some(JsonValue::Null) => ToAddress::Create,
        Some(t) => match t.as_str() {
            Some(s) => match parse_address(s) {
                Some(a) => ToAddress::Call(a),
                None => {
                    return Err(RpcError::new(UNKNOWN_ADDRESS, "Could not parse `to` from rpc parameter"));
                },
            },
            None => {
                return Err(RpcError::new(UNKNOWN_ADDRESS, "Could not parse `to` from rpc parameter"));
            },
        },
    };
    Ok((from, to))
}

/// The signer and recipient of an `eth_sendRawTransaction` request, from
/// the signed transaction in hexadecimal in its first parameter.
pub fn extract_address_from_raw_tx(params: &Vec<JsonValue>) -> (r: Result<(Address, ToAddress), RpcError>)
    ensures
        extracted(r, raw_parties(params@)),
{
    if params.len() == 0 {
        return Err(RpcError::new(UNKNOWN_ADDRESS, "Could not get the first param from rpc parameter"));
    }
    let text = match params[0].as_str() {
        Some(s) => s,
        None => {
            return Err(RpcError::new(UNKNOWN_ADDRESS, "The first param is not a raw transaction text"));
        },
    };
    match decode_raw_transaction(text) {
        Ok(DecodedTx { sender, recipient }) => Ok((sender, recipient)),
        Err(TxFault::IllegalTransaction) => Err(RpcError::new(ILLEGAL_TX, "Could not decode the raw txn")),
        Err(TxFault::IllegalTransactionSignature) => Err(
            RpcError::new(ILLEGAL_TX_SIGNATURE, "Could not recover signer from tx"),
        ),
    }
}

/// The error that refuses a call whose parties no rule admits.
fn banned_error(data: Option<String>) -> (e: RpcError)
    ensures
        e.code == ADDRESS_IS_BANNED,
        e.message@ == "The address related to the rpc is banned"@,
        e.data == data,
{
    RpcError {
        code: ADDRESS_IS_BANNED,
        message: "The address related to the rpc is banned".to_owned(),
        data,
    }
}

/// The refusal of a call whose parties no rule admits.
pub fn banned_address_call_result(data: Option<String>) -> (r: Result<JsonValue, RpcError>)
    ensures
        r matches Err(e) && e.code == ADDRESS_IS_BANNED && e.message@
            == "The address related to the rpc is banned"@ && e.data == data,
{
    Err(banned_error(data))
}

/// With an empty rule list every request of the method is forwarded.
pub proof fn lemma_empty_rules_allow_all(kind: RpcType, params: Seq<JsonValue>)
    ensures
        verdict(kind, Seq::empty(), params) == Ok::<(), i32>(()),
{
}

/// A rule that restricts neither side admits every call, whatever the other
/// rules of the list say.
pub proof fn lemma_open_rule_allows_all(rules: Seq<WhiteAddress>, i: int, from: Seq<u8>, to: Target)
    requires
        0 <= i < rules.len(),
        rules[i].from is None,
        rules[i].to is None,
    ensures
        authorized(rules, from, to),
        some_rule_allows(rules, from, to),
{
    assert(crate::whitelist::rule_allows(rules[i], from, to));
}

/// A request whose parties can be found is forwarded when its rule list
/// holds a rule that restricts neither side.
pub proof fn lemma_open_rule_forwards(kind: RpcType, rules: Seq<WhiteAddress>, i: int, params: Seq<JsonValue>)
    requires
        0 <= i < rules.len(),
        rules[i].from is None,
        rules[i].to is None,
        parties(kind, params) is Ok,
    ensures
        verdict(kind, rules, params) == Ok::<(), i32>(()),
{
    let (from, to) = parties(kind, params)->Ok_0;
    lemma_open_rule_allows_all(rules, i, from, to);
}

/// The letter case of an address text does not change whether a rule list
/// admits it.
pub proof fn lemma_match_ignores_case(rules: Seq<WhiteAddress>, s: Seq<char>, t: Seq<char>, to: Target)
    requires
        crate::address::same_text_ignoring_case(s, t),
    ensures
        address_text(s) == address_text(t),
        address_text(s) matches Some(a) ==> authorized(rules, a, to) == authorized(
            rules,
            address_text(t)->0,
            to,
        ),
{
    crate::address::lemma_address_text_ignores_case(s, t);
}

/// Whether two fields of a request agree once the letter case of their texts
/// is set aside: both absent, equal, or texts that differ only in case.
pub open spec fn same_field_ignoring_case(a: Option<JsonValue>, b: Option<JsonValue>) -> bool {
    ||| a == b
    ||| (a matches Some(JsonValue::Str(s)) && b matches Some(JsonValue::Str(t))
        && same_text_ignoring_case(s@, t@))
}

/// The letter case of the `from` and `to` texts of a call-style request
/// changes neither the parties read from it nor the decision on it.
pub proof fn lemma_parties_ignore_case(
    kind: RpcType,
    rules: Seq<WhiteAddress>,
    params: Seq<JsonValue>,
    other: Seq<JsonValue>,
)
    requires
        kind != RpcType::SendRawTX,
        params.len() > 0,
        other.len() > 0,
        same_field_ignoring_case(field(params[0], "from"@), field(other[0], "from"@)),
        same_field_ignoring_case(field(params[0], "to"@), field(other[0], "to"@)),
    ensures
        call_parties(params) == call_parties(other),
        verdict(kind, rules, params) == verdict(kind, rules, other),
{
    if let Some(JsonValue::Str(s)) = field(params[0], "from"@) {
        if let Some(JsonValue::Str(t)) = field(other[0], "from"@) {
            if same_text_ignoring_case(s@, t@) {
                crate::address::lemma_address_text_ignores_case(s@, t@);
            }
        }
    }
    if let Some(JsonValue::Str(s)) = field(params[0], "to"@) {
        if let Some(JsonValue::Str(t)) = field(other[0], "to"@) {
            if same_text_ignoring_case(s@, t@) {
                crate::address::lemma_address_text_ignores_case(s@, t@);
            }
        }
    }
}

/// A contract creation is admitted only by a rule that leaves the recipient
/// open or names a contract creation itself, never by one that names an
/// address.
pub proof fn lemma_creation_needs_creation_rule(rule: WhiteAddress, from: Seq<u8>)
    ensures
        crate::whitelist::rule_allows(rule, from, Target::Create) ==> (rule.to is None || rule.to
            == Some(ToAddress::Create)),
        rule.to matches Some(ToAddress::Call(_)) ==> !crate::whitelist::rule_allows(
            rule,
            from,
            Target::Create,
        ),
{
}

} // verus!
