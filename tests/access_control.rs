use alloy_consensus::{
    SignableTransaction, TxEip1559, TxEip2930, TxEip4844, TxEip7702, TxEnvelope, TxLegacy,
};
use alloy_eips::eip2718::Encodable2718;
use alloy_primitives::{hex, Signature, TxKind, B256, U256};
use rpc_gate::address::{parse_address, parse_hex, parse_recipient, Address, ToAddress};
use rpc_gate::envelope::{decode_raw_transaction, TxFault};
use rpc_gate::json::{JsonMember, JsonValue};
use rpc_gate::middleware::{
    banned_address_call_result, extract_address_from_to, WhitelistMiddleware, ADDRESS_IS_BANNED,
    ILLEGAL_TX, ILLEGAL_TX_SIGNATURE, UNKNOWN_ADDRESS,
};
use rpc_gate::whitelist::{WhiteAddress, Whitelist, WhitelistConfig};

const KEY_ONE_ADDRESS: &str = "0x7E5F4552091A69125d5DfCb7b8C2659029395Bdf";

fn addr(b: u8) -> Address {
    Address { bytes: [b; 20] }
}

fn hex_of(b: u8) -> String {
    format!("0x{}", hex::encode([b; 20]))
}

fn member(key: &str, value: JsonValue) -> JsonMember {
    JsonMember { key: key.to_string(), value }
}

fn call_params(from: Option<&str>, to: Option<&str>) -> Vec<JsonValue> {
    let mut members = Vec::new();
    if let Some(f) = from {
        members.push(member("from", JsonValue::Str(f.to_string())));
    }
    if let Some(t) = to {
        members.push(member("to", JsonValue::Str(t.to_string())));
    }
    members.push(member("data", JsonValue::Str("0x".to_string())));
    vec![JsonValue::Object(members)]
}

fn config(eth_call: Vec<WhiteAddress>, raw: Vec<WhiteAddress>, tx: Vec<WhiteAddress>) -> Whitelist {
    Whitelist::from_config(&WhitelistConfig {
        eth_call_whitelist: eth_call,
        raw_tx_whitelist: raw,
        tx_whitelist: tx,
    })
    .unwrap()
}

fn middleware(method: &str, w: &Whitelist) -> WhitelistMiddleware {
    WhitelistMiddleware::build(method, Some(w)).unwrap()
}

fn code_of(r: Result<(), rpc_gate::middleware::RpcError>) -> Option<i32> {
    r.err().map(|e| e.code)
}

fn secret_one() -> B256 {
    B256::from(U256::from(1u64))
}

fn sign_and_encode<T: SignableTransaction<Signature>>(tx: T) -> String
where
    TxEnvelope: From<alloy_consensus::Signed<T>>,
{
    let sig = alloy_consensus::crypto::secp256k1::sign_message(secret_one(), tx.signature_hash()).unwrap();
    let env: TxEnvelope = tx.into_signed(sig).into();
    hex::encode_prefixed(env.encoded_2718())
}

fn key_one() -> Address {
    parse_address(KEY_ONE_ADDRESS).unwrap()
}

fn legacy_tx(to: TxKind) -> TxLegacy {
    TxLegacy { chain_id: Some(1), nonce: 3, gas_price: 20, gas_limit: 21000, to, value: U256::from(7u64), ..Default::default() }
}

fn eip1559_tx(to: TxKind) -> TxEip1559 {
    TxEip1559 {
        chain_id: 1,
        nonce: 1,
        gas_limit: 50000,
        max_fee_per_gas: 30,
        max_priority_fee_per_gas: 2,
        to,
        value: U256::from(5u64),
        ..Default::default()
    }
}

#[test]
fn scenario_a_creation_allowed_when_rule_leaves_recipient_open() {
    let w = config(vec![WhiteAddress { from: Some(addr(0xaa)), to: None }], vec![], vec![]);
    let m = middleware("eth_call", &w);
    let upper = format!("0x{}", hex::encode_upper([0xaa; 20]));
    assert!(m.check(&call_params(Some(&hex_of(0xaa)), None)).is_ok());
    assert!(m.check(&call_params(Some(&upper), None)).is_ok());
}

#[test]
fn scenario_b_other_recipient_is_banned() {
    let w = config(
        vec![WhiteAddress { from: Some(addr(0xaa)), to: Some(ToAddress::Call(addr(0xbb))) }],
        vec![],
        vec![],
    );
    let m = middleware("eth_call", &w);
    assert_eq!(code_of(m.check(&call_params(Some(&hex_of(0xaa)), Some(&hex_of(0xcc))))), Some(ADDRESS_IS_BANNED));
    assert!(m.check(&call_params(Some(&hex_of(0xaa)), Some(&hex_of(0xbb)))).is_ok());
}

#[test]
fn scenario_c_empty_raw_list_allows_any_signer() {
    let w = config(vec![WhiteAddress { from: Some(addr(1)), to: None }], vec![], vec![]);
    let m = middleware("eth_sendRawTransaction", &w);
    let raw = sign_and_encode(eip1559_tx(TxKind::Call(alloy_primitives::Address::from([9u8; 20]))));
    assert!(m.check(&vec![JsonValue::Str(raw)]).is_ok());
    assert!(m.check(&vec![JsonValue::Str("zz".to_string())]).is_ok());
}

#[test]
fn scenario_d_bad_payload_is_illegal_transaction() {
    let w = config(vec![], vec![WhiteAddress { from: Some(addr(1)), to: None }], vec![]);
    let m = middleware("eth_sendRawTransaction", &w);
    assert_eq!(code_of(m.check(&vec![JsonValue::Str("0xnothex".to_string())])), Some(ILLEGAL_TX));
    let raw = sign_and_encode(eip1559_tx(TxKind::Create));
    let truncated = raw[..raw.len() - 10].to_string();
    assert_eq!(code_of(m.check(&vec![JsonValue::Str(truncated)])), Some(ILLEGAL_TX));
    assert_eq!(decode_raw_transaction("0x0").err(), Some(TxFault::IllegalTransaction));
}

#[test]
fn scenario_e_missing_from_is_unknown_address() {
    let w = config(vec![WhiteAddress { from: None, to: None }], vec![], vec![]);
    let m = middleware("eth_call", &w);
    assert_eq!(code_of(m.check(&call_params(None, Some(&hex_of(0xbb))))), Some(UNKNOWN_ADDRESS));
    assert_eq!(code_of(m.check(&vec![])), Some(UNKNOWN_ADDRESS));
}

#[test]
fn unparsable_addresses_are_unknown() {
    let w = config(vec![WhiteAddress { from: None, to: None }], vec![], vec![]);
    let m = middleware("eth_call", &w);
    assert_eq!(code_of(m.check(&call_params(Some("0x1234"), None))), Some(UNKNOWN_ADDRESS));
    assert_eq!(code_of(m.check(&call_params(Some(&hex_of(1)), Some("0xabc")))), Some(UNKNOWN_ADDRESS));
    let null_to = vec![JsonValue::Object(vec![
        member("from", JsonValue::Str(hex_of(1))),
        member("to", JsonValue::Null),
    ])];
    assert!(m.check(&null_to).is_ok());
    assert_eq!(extract_address_from_to(&null_to).unwrap().1, ToAddress::Create);
    assert_eq!(code_of(m.check(&call_params(Some(&hex_of(1)), Some("create")))), Some(UNKNOWN_ADDRESS));
    assert_eq!(code_of(m.check(&call_params(Some(&hex_of(1)), Some("Create")))), Some(UNKNOWN_ADDRESS));
    let not_object = vec![JsonValue::Str(hex_of(1))];
    assert_eq!(code_of(m.check(&not_object)), Some(UNKNOWN_ADDRESS));
}

#[test]
fn raw_parameter_must_be_text() {
    let w = config(vec![], vec![WhiteAddress { from: None, to: None }], vec![]);
    let m = middleware("eth_sendRawTransaction", &w);
    assert_eq!(code_of(m.check(&vec![JsonValue::Bool(true)])), Some(UNKNOWN_ADDRESS));
    assert_eq!(code_of(m.check(&vec![])), Some(UNKNOWN_ADDRESS));
}

#[test]
fn empty_lists_allow_every_call() {
    let w = config(vec![], vec![], vec![]);
    for method in ["eth_call", "eth_sendTransaction", "eth_sendRawTransaction"] {
        let m = middleware(method, &w);
        assert!(m.check(&call_params(Some(&hex_of(3)), Some(&hex_of(4)))).is_ok());
    }
    let m = WhitelistMiddleware::build("eth_call", None).unwrap();
    assert!(m.check(&call_params(Some(&hex_of(3)), None)).is_ok());
}

#[test]
fn open_rule_allows_everything() {
    let w = config(
        vec![
            WhiteAddress { from: Some(addr(1)), to: Some(ToAddress::Call(addr(2))) },
            WhiteAddress { from: None, to: None },
        ],
        vec![],
        vec![],
    );
    let m = middleware("eth_call", &w);
    assert!(m.check(&call_params(Some(&hex_of(9)), Some(&hex_of(8)))).is_ok());
    assert!(m.check(&call_params(Some(&hex_of(9)), None)).is_ok());
    assert!(m.satisfy(&addr(5), &ToAddress::Create));
}

#[test]
fn case_of_both_addresses_does_not_matter() {
    let w = config(vec![WhiteAddress { from: Some(addr(0xab)), to: Some(ToAddress::Call(addr(0xcd))) }], vec![], vec![]);
    let m = middleware("eth_call", &w);
    let lower = call_params(Some(&hex_of(0xab)), Some(&hex_of(0xcd)));
    let upper = call_params(
        Some(&format!("0X{}", hex::encode_upper([0xab; 20]))),
        Some(&format!("0x{}", hex::encode_upper([0xcd; 20]))),
    );
    assert!(m.check(&lower).is_ok());
    assert!(m.check(&upper).is_ok());
    let (f1, t1) = extract_address_from_to(&lower).unwrap();
    let (f2, t2) = extract_address_from_to(&upper).unwrap();
    assert_eq!(f1, f2);
    assert_eq!(t1, t2);
}

#[test]
fn address_case_does_not_matter() {
    let lower = parse_address("0x7e5f4552091a69125d5dfcb7b8c2659029395bdf").unwrap();
    let upper = parse_address("0X7E5F4552091A69125D5DFCB7B8C2659029395BDF").unwrap();
    let mixed = parse_address(KEY_ONE_ADDRESS).unwrap();
    assert_eq!(lower, upper);
    assert_eq!(lower, mixed);
    let w = config(vec![], vec![], vec![WhiteAddress { from: Some(lower), to: None }]);
    let m = middleware("eth_sendTransaction", &w);
    assert!(m.check(&call_params(Some("0X7E5F4552091A69125D5DFCB7B8C2659029395BDF"), None)).is_ok());
    assert!(m.check(&call_params(Some("7e5f4552091a69125d5dfcb7b8c2659029395bdf"), None)).is_ok());
}

#[test]
fn creation_never_matches_concrete_recipient() {
    let rule = WhiteAddress { from: None, to: Some(ToAddress::Call(addr(2))) };
    assert!(!rule.satisfy(&addr(1), &ToAddress::Create));
    let create_rule = WhiteAddress { from: None, to: Some(ToAddress::Create) };
    assert!(create_rule.satisfy(&addr(1), &ToAddress::Create));
    assert!(!create_rule.satisfy(&addr(1), &ToAddress::Call(addr(2))));
    let w = config(vec![rule], vec![], vec![]);
    let m = middleware("eth_call", &w);
    assert_eq!(code_of(m.check(&call_params(Some(&hex_of(1)), None))), Some(ADDRESS_IS_BANNED));
    let null_to = vec![JsonValue::Object(vec![
        member("from", JsonValue::Str(hex_of(1))),
        member("to", JsonValue::Null),
    ])];
    assert_eq!(code_of(m.check(&null_to)), Some(ADDRESS_IS_BANNED));
}

#[test]
fn normalize_leaves_config_unchanged() {
    let mut c = WhitelistConfig {
        eth_call_whitelist: vec![WhiteAddress { from: Some(addr(1)), to: Some(ToAddress::Create) }],
        raw_tx_whitelist: vec![],
        tx_whitelist: vec![WhiteAddress { from: None, to: Some(ToAddress::Call(addr(2))) }],
    };
    assert!(c.normalize().is_ok());
    assert!(c.normalize().is_ok());
    assert_eq!(c.eth_call_whitelist.len(), 1);
    assert_eq!(c.eth_call_whitelist[0].from, Some(addr(1)));
    assert_eq!(c.eth_call_whitelist[0].to, Some(ToAddress::Create));
    assert_eq!(c.tx_whitelist[0].to, Some(ToAddress::Call(addr(2))));
}

#[test]
fn build_picks_rules_by_method() {
    let w = config(
        vec![WhiteAddress { from: Some(addr(1)), to: None }],
        vec![WhiteAddress { from: Some(addr(2)), to: None }],
        vec![WhiteAddress { from: Some(addr(3)), to: None }],
    );
    assert!(WhitelistMiddleware::build("eth_getBalance", Some(&w)).is_none());
    let call = middleware("eth_call", &w);
    assert!(call.satisfy(&addr(1), &ToAddress::Create));
    assert!(!call.satisfy(&addr(3), &ToAddress::Create));
    let send = middleware("eth_sendTransaction", &w);
    assert!(send.satisfy(&addr(3), &ToAddress::Create));
    assert!(!send.satisfy(&addr(2), &ToAddress::Create));
    let raw = middleware("eth_sendRawTransaction", &w);
    assert!(raw.satisfy(&addr(2), &ToAddress::Create));
    assert!(!raw.satisfy(&addr(1), &ToAddress::Create));
}

#[test]
fn round_trip_legacy() {
    let to = alloy_primitives::Address::from([0x11; 20]);
    let d = decode_raw_transaction(&sign_and_encode(legacy_tx(TxKind::Call(to)))).unwrap();
    assert_eq!(d.sender, key_one());
    assert_eq!(d.recipient, ToAddress::Call(addr(0x11)));
}

#[test]
fn round_trip_eip2930() {
    let tx = TxEip2930 { chain_id: 1, nonce: 2, gas_price: 10, gas_limit: 30000, to: TxKind::Create, ..Default::default() };
    let d = decode_raw_transaction(&sign_and_encode(tx)).unwrap();
    assert_eq!(d.sender, key_one());
    assert_eq!(d.recipient, ToAddress::Create);
}

#[test]
fn round_trip_eip1559() {
    let to = alloy_primitives::Address::from([0x22; 20]);
    let d = decode_raw_transaction(&sign_and_encode(eip1559_tx(TxKind::Call(to)))).unwrap();
    assert_eq!(d.sender, key_one());
    assert_eq!(d.recipient, ToAddress::Call(addr(0x22)));
}

#[test]
fn round_trip_eip4844() {
    let tx = TxEip4844 {
        chain_id: 1,
        nonce: 4,
        gas_limit: 100000,
        max_fee_per_gas: 40,
        max_priority_fee_per_gas: 3,
        to: alloy_primitives::Address::from([0x33; 20]),
        blob_versioned_hashes: vec![B256::from(U256::from(1u64))],
        max_fee_per_blob_gas: 5,
        ..Default::default()
    };
    let variant: alloy_consensus::TxEip4844Variant = tx.into();
    let d = decode_raw_transaction(&sign_and_encode(variant)).unwrap();
    assert_eq!(d.sender, key_one());
    assert_eq!(d.recipient, ToAddress::Call(addr(0x33)));
}

#[test]
fn unsupported_format_is_illegal() {
    let tx = TxEip7702 { chain_id: 1, gas_limit: 60000, to: alloy_primitives::Address::from([0x44; 20]), ..Default::default() };
    assert_eq!(decode_raw_transaction(&sign_and_encode(tx)).err(), Some(TxFault::IllegalTransaction));
    assert_eq!(decode_raw_transaction("0x05c0").err(), Some(TxFault::IllegalTransaction));
    assert_eq!(decode_raw_transaction("0x7fc0").err(), Some(TxFault::IllegalTransaction));
    assert_eq!(decode_raw_transaction("").err(), Some(TxFault::IllegalTransaction));
}

#[test]
fn type_zero_prefix_is_illegal() {
    let tx = legacy_tx(TxKind::Create);
    let sig = alloy_consensus::crypto::secp256k1::sign_message(secret_one(), tx.signature_hash()).unwrap();
    let env: TxEnvelope = tx.into_signed(sig).into();
    let mut bytes = vec![0u8];
    bytes.extend(env.encoded_2718());
    assert_eq!(decode_raw_transaction(&hex::encode(&bytes[1..])).map(|d| d.recipient).ok(), Some(ToAddress::Create));
    assert_eq!(decode_raw_transaction(&hex::encode(bytes)).err(), Some(TxFault::IllegalTransaction));
}

#[test]
fn bad_signature_is_illegal_signature() {
    let tx = eip1559_tx(TxKind::Create);
    let env: TxEnvelope = tx.into_signed(Signature::new(U256::ZERO, U256::ZERO, false)).into();
    let raw = hex::encode_prefixed(env.encoded_2718());
    assert_eq!(decode_raw_transaction(&raw).err(), Some(TxFault::IllegalTransactionSignature));
    let w = config(vec![], vec![WhiteAddress { from: None, to: None }], vec![]);
    let m = middleware("eth_sendRawTransaction", &w);
    assert_eq!(code_of(m.check(&vec![JsonValue::Str(raw)])), Some(ILLEGAL_TX_SIGNATURE));
}

#[test]
fn raw_transaction_checked_against_signer_and_recipient() {
    let to = alloy_primitives::Address::from([0x55; 20]);
    let raw = sign_and_encode(eip1559_tx(TxKind::Call(to)));
    let allowed = config(vec![], vec![WhiteAddress { from: Some(key_one()), to: Some(ToAddress::Call(addr(0x55))) }], vec![]);
    assert!(middleware("eth_sendRawTransaction", &allowed).check(&vec![JsonValue::Str(raw.clone())]).is_ok());
    let other = config(vec![], vec![WhiteAddress { from: Some(addr(1)), to: None }], vec![]);
    assert_eq!(
        code_of(middleware("eth_sendRawTransaction", &other).check(&vec![JsonValue::Str(raw)])),
        Some(ADDRESS_IS_BANNED)
    );
}

#[test]
fn parse_address_reads_bytes() {
    let a = parse_address("0x00112233445566778899aabbccddeeff00112233").unwrap();
    assert_eq!(a.bytes[0], 0x00);
    assert_eq!(a.bytes[1], 0x11);
    assert_eq!(a.bytes[19], 0x33);
    assert!(parse_address("0x0011").is_none());
    assert!(parse_address("0xg0112233445566778899aabbccddeeff00112233").is_none());
}

#[test]
fn parse_hex_reads_bytes() {
    assert_eq!(parse_hex("0x0aFf"), Some(vec![0x0a, 0xff]));
    assert_eq!(parse_hex("0aff"), Some(vec![0x0a, 0xff]));
    assert_eq!(parse_hex(""), Some(vec![]));
    assert_eq!(parse_hex("0xabc"), None);
    assert_eq!(parse_hex("0xzz"), None);
}

#[test]
fn recipient_text_forms() {
    assert_eq!(parse_recipient("create"), Some(ToAddress::Create));
    assert_eq!(parse_recipient("Create"), Some(ToAddress::Create));
    assert_eq!(parse_recipient(&hex_of(7)), Some(ToAddress::Call(addr(7))));
    assert_eq!(parse_recipient("CREATE"), None);
    assert_eq!(ToAddress::Create.to_text(), "create");
    assert_eq!(key_one().same(&key_one()), true);
    assert_eq!(ToAddress::Call(key_one()).to_text(), KEY_ONE_ADDRESS);
}

#[test]
fn extraction_reads_from_and_to() {
    let (from, to) = extract_address_from_to(&call_params(Some(&hex_of(1)), Some(&hex_of(2)))).unwrap();
    assert_eq!(from, addr(1));
    assert_eq!(to, ToAddress::Call(addr(2)));
    let (_, to) = extract_address_from_to(&call_params(Some(&hex_of(1)), None)).unwrap();
    assert_eq!(to, ToAddress::Create);
}

#[test]
fn json_get_takes_first_member() {
    let v = JsonValue::Object(vec![
        member("a", JsonValue::Number("1".to_string())),
        member("a", JsonValue::Number("2".to_string())),
    ]);
    match v.get("a") {
        Some(JsonValue::Number(n)) => assert_eq!(n, "1"),
        _ => panic!("member a not found"),
    }
    assert!(v.get("b").is_none());
    assert!(JsonValue::Null.get("a").is_none());
}

#[test]
fn banned_result_has_code() {
    let e = banned_address_call_result(Some("{}".to_string())).unwrap_err();
    assert_eq!(e.code, ADDRESS_IS_BANNED);
    assert_eq!(e.message, "The address related to the rpc is banned");
    assert_eq!(e.data, Some("{}".to_string()));
}

#[test]
fn address_converts_to_call_recipient() {
    assert_eq!(ToAddress::from(addr(6)), ToAddress::Call(addr(6)));
}
