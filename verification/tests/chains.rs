use evm_chains::catalog::{BuildError, Catalog, ChainFile};
use evm_chains::chain::Chain;
use evm_chains::error::Kind;
use evm_chains::filename::{chain_file_name, chain_file_path, parse_chain_file_name};
use evm_chains::json::JsonValue;

const ETHEREUM_FILE: &str = r#"{"name":"Ethereum Mainnet","chain":"ETH","network":"mainnet","rpc":["https://rpc.example"],"faucets":[],"nativeCurrency":{"name":"Ether","symbol":"ETH","decimals":18},"infoURL":"https://ethereum.org","shortName":"eth","chainId":1,"networkId":1,"explorers":[]}"#;

fn chain_doc(chain_id: u64, name: &str, symbol: &str) -> String {
    format!(
        "{{\"name\":\"{n}\",\"chain\":\"{s}\",\"network\":\"mainnet\",\"rpc\":[],\"faucets\":[],\"nativeCurrency\":{{\"name\":\"{n}\",\"symbol\":\"{s}\",\"decimals\":18}},\"infoURL\":\"https://example.org\",\"shortName\":\"{s}\",\"chainId\":{id},\"networkId\":{id}}}",
        n = name,
        s = symbol,
        id = chain_id
    )
}

fn sample_files() -> Vec<ChainFile> {
    vec![
        ChainFile { name: "eip155-1.json".to_string(), contents: ETHEREUM_FILE.to_string() },
        ChainFile { name: "eip155-56.json".to_string(), contents: chain_doc(56, "Binance", "BNB") },
        ChainFile {
            name: "eip155-137.json".to_string(),
            contents: chain_doc(137, "Polygon", "MATIC"),
        },
    ]
}

fn to_serde(v: &JsonValue) -> serde_json::Value {
    match v {
        JsonValue::Null => serde_json::Value::Null,
        JsonValue::Bool(b) => serde_json::Value::Bool(*b),
        JsonValue::UInt(u) => serde_json::Value::from(*u),
        JsonValue::Int(i) => serde_json::Value::from(*i),
        JsonValue::Huge => unreachable!("the encoder never writes such a number"),
        JsonValue::Str(s) => serde_json::Value::String(s.clone()),
        JsonValue::Arr(items) => serde_json::Value::Array(items.iter().map(to_serde).collect()),
        JsonValue::Obj(fields) => {
            let mut m = serde_json::Map::new();
            for (k, x) in fields {
                m.insert(k.clone(), to_serde(x));
            }
            serde_json::Value::Object(m)
        },
    }
}

#[test]
fn deserialize_file() {
    let _ethereum_chain = Chain::decode(ETHEREUM_FILE).expect("Should deserialize chain file");
}

#[test]
fn get_chain() {
    // 1 - Eth mainnet
    // 56 - Binance mainnet
    // 137 - Polygon mainnet
    let get_chain_ids: [u64; 3] = [1, 56, 137];

    let catalog = Catalog::build(&sample_files()).expect("catalog should build");

    // first make sure that the build loaded all files correctly
    for chain_id in get_chain_ids {
        let _chain = catalog
            .get(chain_id)
            .unwrap_or_else(|| panic!("Chain({}) should exist", chain_id));
    }

    for chain_id in get_chain_ids {
        let _chain = Chain::get(&catalog, chain_id)
            .unwrap_or_else(|| panic!("Chain({}) should exist", chain_id));
    }
}

#[test]
fn round_trip_through_json_text() {
    let chain = Chain::decode(ETHEREUM_FILE).expect("should decode");
    let tree = chain.encode();
    let text = serde_json::to_string(&to_serde(&tree)).expect("should serialize");
    let again = Chain::decode(&text).expect("re-encoded document should decode");
    assert_eq!(chain, again);
}

#[test]
fn round_trip_with_optional_fields() {
    let text = r#"{"name":"Other","chain":"OTH","network":"mainnet","icon":"other","rpc":["https://a","https://b"],"faucets":["https://f"],"nativeCurrency":{"name":"Coin","symbol":"OTH","decimals":9},"infoURL":"https://other.example","shortName":"oth","chainId":7,"networkId":7,"slip44":60,"ens":{"registry":"0x00000000000C2E074eC69A0dFb2997BA6C7d2e1e"},"explorers":[{"name":"scan","url":"https://scan","standard":"EIP3091"}]}"#;
    let chain = Chain::decode(text).expect("should decode");
    assert_eq!(chain.icon.as_deref(), Some("other"));
    assert_eq!(chain.slip44, Some(60));
    assert_eq!(chain.ens.as_ref().map(|e| e.registry.as_str()), Some(
        "0x00000000000C2E074eC69A0dFb2997BA6C7d2e1e",
    ));
    assert_eq!(chain.explorers.len(), 1);
    let text2 = serde_json::to_string(&to_serde(&chain.encode())).expect("should serialize");
    let again = Chain::decode(&text2).expect("re-encoded document should decode");
    assert_eq!(chain, again);
}

#[test]
fn get_returns_requested_id() {
    let catalog = Catalog::build(&sample_files()).expect("catalog should build");
    let chain = Chain::get(&catalog, 56).expect("chain 56 should exist");
    assert_eq!(chain.chain_id, 56);
    assert_eq!(chain.name, "Binance");
}

#[test]
fn get_absent_id_is_none() {
    let catalog = Catalog::build(&sample_files()).expect("catalog should build");
    assert!(Chain::get(&catalog, 999).is_none());
    assert!(catalog.get(0).is_none());
}

#[test]
fn duplicate_chain_id_is_fatal() {
    let files = vec![
        ChainFile { name: "eip155-1.json".to_string(), contents: ETHEREUM_FILE.to_string() },
        ChainFile { name: "eip155-01.json".to_string(), contents: ETHEREUM_FILE.to_string() },
    ];
    match Catalog::build(&files) {
        Err(BuildError::DuplicateId(id)) => assert_eq!(id, 1),
        _ => panic!("duplicate chain id should abort the build"),
    }
}

#[test]
fn malformed_file_name_is_fatal() {
    for bad in ["chain-1.json", "eip155-x.json", "eip155-1.txt", "eip155-.json", "eip155-1.json.bak"] {
        let files = vec![ChainFile {
            name: bad.to_string(),
            contents: ETHEREUM_FILE.to_string(),
        }];
        match Catalog::build(&files) {
            Err(BuildError::BadFileName(name)) => assert_eq!(name, bad),
            _ => panic!("malformed name {:?} should abort the build", bad),
        }
    }
}

#[test]
fn undecodable_file_is_fatal() {
    let files = vec![ChainFile {
        name: "eip155-1.json".to_string(),
        contents: "{not json".to_string(),
    }];
    match Catalog::build(&files) {
        Err(BuildError::Decode(name, err)) => {
            assert_eq!(name, "eip155-1.json");
            assert_eq!(err.kind(), Kind::Json);
        },
        _ => panic!("an undecodable file should abort the build"),
    }
}

#[test]
fn invalid_json_is_deserialization_error() {
    let err = Chain::decode("this is not json").expect_err("should fail");
    assert_eq!(err.kind(), Kind::Json);
    let err = Chain::decode("").expect_err("should fail");
    assert_eq!(err.kind(), Kind::Json);
}

#[test]
fn missing_required_field_is_deserialization_error() {
    // the same document as the mainnet file, but without "chainId"
    let text = r#"{"name":"Ethereum Mainnet","chain":"ETH","network":"mainnet","rpc":["https://rpc.example"],"faucets":[],"nativeCurrency":{"name":"Ether","symbol":"ETH","decimals":18},"infoURL":"https://ethereum.org","shortName":"eth","networkId":1,"explorers":[]}"#;
    let err = Chain::decode(text).expect_err("should fail");
    assert_eq!(err.kind(), Kind::Json);
}

#[test]
fn wrong_field_type_is_deserialization_error() {
    let text = r#"{"name":"Ethereum Mainnet","chain":"ETH","network":"mainnet","rpc":["https://rpc.example"],"faucets":[],"nativeCurrency":{"name":"Ether","symbol":"ETH","decimals":18},"infoURL":"https://ethereum.org","shortName":"eth","chainId":"one","networkId":1,"explorers":[]}"#;
    let err = Chain::decode(text).expect_err("should fail");
    assert_eq!(err.kind(), Kind::Json);
}

#[test]
fn missing_explorers_defaults_to_empty() {
    let text = chain_doc(5, "Goerli", "ETH");
    let chain = Chain::decode(&text).expect("should decode without explorers");
    assert!(chain.explorers.is_empty());
    assert_eq!(chain.icon, None);
    assert_eq!(chain.slip44, None);
    assert!(chain.ens.is_none());
}

#[test]
fn mainnet_scenario() {
    let files = vec![ChainFile {
        name: "eip155-1.json".to_string(),
        contents: ETHEREUM_FILE.to_string(),
    }];
    let catalog = Catalog::build(&files).expect("catalog should build");
    let chain = Chain::get(&catalog, 1).expect("Chain(1) should exist");
    assert_eq!(chain.chain_id, 1);
    assert_eq!(chain.native_currency.decimals, 18);
    assert!(chain.explorers.is_empty());
    assert_eq!(chain.name, "Ethereum Mainnet");
    assert_eq!(chain.rpc, vec!["https://rpc.example".to_string()]);
    assert_eq!(chain.info_url, "https://ethereum.org");
}

#[test]
fn file_name_forms_and_parses() {
    assert_eq!(chain_file_name(137), "eip155-137.json");
    assert_eq!(chain_file_name(0), "eip155-0.json");
    assert_eq!(
        chain_file_path(1),
        "ethereum-list/chains/_data/chains/eip155-1.json"
    );
    assert_eq!(parse_chain_file_name("eip155-137.json"), Some(137));
    assert_eq!(parse_chain_file_name("eip155-0.json"), Some(0));
    assert_eq!(parse_chain_file_name("eip155-007.json"), Some(7));
    assert_eq!(parse_chain_file_name("eip155-18446744073709551615.json"), Some(u64::MAX));
    assert_eq!(parse_chain_file_name("eip155-18446744073709551616.json"), None);
    assert_eq!(parse_chain_file_name("eip155-.json"), None);
    assert_eq!(parse_chain_file_name("eip155-1a.json"), None);
    assert_eq!(parse_chain_file_name("eip156-1.json"), None);
    assert_eq!(parse_chain_file_name("eip155-1.yaml"), None);
    assert_eq!(parse_chain_file_name(""), None);
}

#[test]
fn error_message_concatenates_kind_and_cause() {
    let err = evm_chains::error::open_file("no such file".to_string());
    assert_eq!(err.kind(), Kind::File);
    assert_eq!(err.message(), "Reading file: no such file");
    let err = evm_chains::error::Error::new(Kind::Json, None);
    assert_eq!(err.message(), "Deserializing json");
    let err = evm_chains::error::deserialize("bad token".to_string());
    assert_eq!(err.message(), "Deserializing json: bad token");
}

#[test]
fn decode_reads_real_json_syntax() {
    // whitespace, escapes and unknown fields go through the real parser
    let text = r#"{ "name" : "A \"quoted\" name", "chain": "A",
  "network": "x", "rpc": [], "faucets": [],
  "nativeCurrency": {"name":"a","symbol":"A","decimals":0},
  "infoURL": "u", "shortName": "a", "chainId": 42,
  "networkId": 42, "someUnknownField": [1, 2, {"x": null}] }"#;
    let chain = Chain::decode(text).expect("should decode");
    assert_eq!(chain.name, "A \"quoted\" name");
    assert_eq!(chain.chain_id, 42);
}
