use flex_content::codec::DecodeError;
use flex_content::content::TextContent;
use serde_json::Number;
use serde_json::Value;

fn text_object(text: &str) -> serde_json::Map<String, Value> {
    let mut obj = serde_json::Map::new();
    obj.insert("text".to_string(), Value::String(text.to_string()));
    obj
}

fn arguments_object(arguments: serde_json::Map<String, Value>) -> serde_json::Map<String, Value> {
    let mut obj = serde_json::Map::new();
    obj.insert("tensorzero::arguments".to_string(), Value::Object(arguments));
    obj
}

#[test]
fn round_trip_text() {
    let original = text_object("hello");
    let decoded = TextContent::decode(original.clone()).unwrap();
    match &decoded {
        TextContent::Text { text } => assert_eq!(text, "hello"),
        other => panic!("expected the text variant, got {:?}", other),
    }
    assert_eq!(decoded.encode(), original);
}

#[test]
fn round_trip_arguments() {
    let mut arguments = serde_json::Map::new();
    arguments.insert("a".to_string(), Value::Number(Number::from(1)));
    let original = arguments_object(arguments.clone());
    let decoded = TextContent::decode(original.clone()).unwrap();
    match &decoded {
        TextContent::TensorZeroArguments { tensorzero_arguments } => {
            assert_eq!(tensorzero_arguments, &arguments)
        }
        other => panic!("expected the arguments variant, got {:?}", other),
    }
    assert_eq!(decoded.encode(), original);
}

#[test]
fn both_keys_rejected() {
    let mut obj = text_object("hi");
    obj.insert("tensorzero::arguments".to_string(), Value::Object(serde_json::Map::new()));
    assert!(matches!(TextContent::decode(obj), Err(DecodeError::MutualExclusionViolation)));
}

#[test]
fn empty_object_rejected() {
    assert!(matches!(TextContent::decode(serde_json::Map::new()), Err(DecodeError::MissingField)));
}

#[test]
fn non_string_text_rejected() {
    let mut obj = serde_json::Map::new();
    obj.insert("text".to_string(), Value::Number(Number::from(123)));
    assert!(matches!(TextContent::decode(obj), Err(DecodeError::TypeMismatch)));
}

#[test]
fn non_object_arguments_rejected() {
    let mut obj = serde_json::Map::new();
    obj.insert(
        "tensorzero::arguments".to_string(),
        Value::String("oops".to_string()),
    );
    assert!(matches!(TextContent::decode(obj), Err(DecodeError::TypeMismatch)));
}

#[test]
fn unrecognized_keys_ignored() {
    let mut obj = text_object("kept");
    obj.insert("extra".to_string(), Value::Number(Number::from(7)));
    obj.insert("more".to_string(), Value::Null);
    let decoded = TextContent::decode(obj).unwrap();
    match decoded {
        TextContent::Text { text } => assert_eq!(text, "kept"),
        other => panic!("expected the text variant, got {:?}", other),
    }
}

#[test]
fn empty_text_round_trips() {
    let original = text_object("");
    let decoded = TextContent::decode(original.clone()).unwrap();
    assert_eq!(decoded.encode(), original);
}

#[test]
fn empty_arguments_round_trip() {
    let original = arguments_object(serde_json::Map::new());
    let decoded = TextContent::decode(original.clone()).unwrap();
    assert_eq!(decoded.encode(), original);
}

#[test]
fn encode_emits_exactly_one_key() {
    let encoded = TextContent::Text { text: "x".to_string() }.encode();
    assert_eq!(encoded.len(), 1);
    assert_eq!(encoded.get("text"), Some(&Value::String("x".to_string())));

    let mut arguments = serde_json::Map::new();
    arguments.insert("k".to_string(), Value::String("v".to_string()));
    let encoded = TextContent::TensorZeroArguments {
        tensorzero_arguments: arguments.clone(),
    }
    .encode();
    assert_eq!(encoded.len(), 1);
    assert_eq!(
        encoded.get("tensorzero::arguments"),
        Some(&Value::Object(arguments))
    );
}

#[test]
fn from_borrowed_string() {
    match TextContent::from("hi") {
        TextContent::Text { text } => assert_eq!(text, "hi"),
        other => panic!("expected the text variant, got {:?}", other),
    }
}

#[test]
fn from_owned_string() {
    match TextContent::from("hi".to_string()) {
        TextContent::Text { text } => assert_eq!(text, "hi"),
        other => panic!("expected the text variant, got {:?}", other),
    }
}

#[test]
fn clone_keeps_payload() {
    let mut arguments = serde_json::Map::new();
    arguments.insert("k".to_string(), Value::Bool(true));
    let original = TextContent::TensorZeroArguments {
        tensorzero_arguments: arguments.clone(),
    };
    match original.clone() {
        TextContent::TensorZeroArguments { tensorzero_arguments } => {
            assert_eq!(tensorzero_arguments, arguments)
        }
        other => panic!("expected the arguments variant, got {:?}", other),
    }
}
