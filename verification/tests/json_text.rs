use rollup_core::json::{Json, JsonNumber};
use rollup_core::proofs::{ProofData, ProofDataError};
use rollup_core::text::{decimal_text, decode_or_empty};

const PROOF: &str = r#"{
    "pi_a": ["1", "2", "3"],
    "pi_b": [["4", "5"], ["6", "7"], ["8", "9"]],
    "pi_c": ["10", "11", "12"],
    "protocol": "groth16",
    "curve": "bn128"
}"#;

fn text(s: &str) -> String {
    s.to_string()
}

#[test]
fn numbers_are_written_in_decimal() {
    for n in [0usize, 1, 9, 10, 11, 99, 100, 1234567890, usize::MAX] {
        assert_eq!(decimal_text(n), n.to_string());
    }
}

#[test]
fn bytes_are_read_as_utf8() {
    assert_eq!(decode_or_empty(vec![]), "");
    let greeting = "gr\u{fc}\u{df}e \u{1f600}";
    assert_eq!(decode_or_empty(greeting.as_bytes().to_vec()), greeting);
    assert_eq!(decode_or_empty(vec![b'a', 0xff]), "");
    assert_eq!(decode_or_empty(vec![0xed, 0xa0, 0x80]), "");
}

#[test]
fn json_of_every_kind_is_read() {
    assert_eq!(Json::parse("null").unwrap(), Json::Null);
    assert_eq!(Json::parse(" true ").unwrap(), Json::Bool(true));
    assert_eq!(Json::parse("7").unwrap(), Json::Number(JsonNumber::PosInt(7)));
    assert_eq!(
        Json::parse("18446744073709551615").unwrap(),
        Json::Number(JsonNumber::PosInt(u64::MAX))
    );
    assert_eq!(Json::parse("-7").unwrap(), Json::Number(JsonNumber::NegInt(-7)));
    assert_eq!(Json::parse("1.5").unwrap(), Json::Number(JsonNumber::Float(1.5f64.to_bits())));
    assert_eq!(Json::parse("\"a\\nb\"").unwrap(), Json::Str(text("a\nb")));
    assert_eq!(
        Json::parse("[1, [\"x\"]]").unwrap(),
        Json::Array(vec![
            Json::Number(JsonNumber::PosInt(1)),
            Json::Array(vec![Json::Str(text("x"))]),
        ])
    );
    assert_eq!(
        Json::parse("{\"a\": {\"b\": null}}").unwrap(),
        Json::Object(vec![(text("a"), Json::Object(vec![(text("b"), Json::Null)]))])
    );
    assert!(Json::parse("").is_err());
    assert!(Json::parse("{\"a\"}").is_err());
    assert!(Json::parse("[1] 2").is_err());
}

#[test]
fn json_values_are_looked_into() {
    let json = Json::parse("{\"list\": [1, \"two\", -3], \"name\": \"x\"}").unwrap();
    let list = json.field("list").unwrap();
    assert_eq!(list.at(0).unwrap().as_u64(), Some(1));
    assert_eq!(list.at(1).unwrap().as_str(), Some(&text("two")));
    assert_eq!(list.at(2).unwrap().as_u64(), None);
    assert!(list.at(3).is_none());
    assert!(list.field("name").is_none());
    assert_eq!(list.as_array().unwrap().len(), 3);
    assert_eq!(json.field("name").unwrap().as_str(), Some(&text("x")));
    assert!(json.field("other").is_none());
    assert!(json.at(0).is_none());
    assert!(json.as_array().is_none());
    assert!(json.as_str().is_none());
}

#[test]
fn objects_are_built_field_by_field() {
    let json = Json::object().with("a", Json::Null).with("b", Json::Bool(true));
    assert_eq!(
        json,
        Json::Object(vec![(text("a"), Json::Null), (text("b"), Json::Bool(true))])
    );
}

#[test]
fn proof_is_read_from_json() {
    let read = ProofData::from_json(PROOF).unwrap();
    assert_eq!(
        read,
        ProofData {
            pi_a: [text("1"), text("2"), text("3")],
            pi_b: [
                [text("4"), text("5")],
                [text("6"), text("7")],
                [text("8"), text("9")],
            ],
            pi_c: [text("10"), text("11"), text("12")],
            protocol: text("groth16"),
            curve: text("bn128"),
        }
    );
    assert_eq!(read.clone(), read);
}

#[test]
fn longer_arrays_hold_a_proof_too() {
    let longer = PROOF.replace("[\"1\", \"2\", \"3\"]", "[\"1\", \"2\", \"3\", 4]");
    assert_eq!(ProofData::from_json(&longer).unwrap(), ProofData::from_json(PROOF).unwrap());
}

#[test]
fn text_that_is_no_json_holds_no_proof() {
    for case in ["{", "", "[1] 2", "1e999"] {
        let error = serde_json::from_str::<serde_json::Value>(case).unwrap_err().to_string();
        assert_eq!(Json::parse(case), Err(error.clone()));
        assert_eq!(ProofData::from_json(case), Err(ProofDataError::Syntax(error)));
    }
}

#[test]
fn incomplete_json_holds_no_proof() {
    let cases = vec![
        text("null"),
        text("[]"),
        text("{}"),
        PROOF.replace("\"pi_a\"", "\"pi_x\""),
        PROOF.replace("[\"1\", \"2\", \"3\"]", "[\"1\", \"2\"]"),
        PROOF.replace("\"3\"", "3"),
        PROOF.replace("[\"8\", \"9\"]", "[\"8\"]"),
        PROOF.replace("[\"6\", \"7\"]", "\"6\""),
        PROOF.replace("\"12\"", "null"),
        PROOF.replace("\"protocol\"", "\"Protocol\""),
        PROOF.replace("\"bn128\"", "128"),
    ];
    for case in cases {
        assert!(
            matches!(ProofData::from_json(&case), Err(ProofDataError::Incomplete)),
            "{}",
            case
        );
        assert!(!ProofData::is_held_by(&Json::parse(&case).unwrap()));
    }
    assert!(ProofData::is_held_by(&Json::parse(PROOF).unwrap()));
}
