use flex_content::codec::DecodeError;
use flex_content::template::Template;
use serde_json::Number;
use serde_json::Value;

fn template_object(name: &str, arguments: serde_json::Map<String, Value>) -> serde_json::Map<String, Value> {
    let mut obj = serde_json::Map::new();
    obj.insert("name".to_string(), Value::String(name.to_string()));
    obj.insert("arguments".to_string(), Value::Object(arguments));
    obj
}

#[test]
fn unknown_key_rejected() {
    let mut obj = template_object("x", serde_json::Map::new());
    obj.insert("extra".to_string(), Value::Number(Number::from(1)));
    assert!(matches!(Template::decode(obj), Err(DecodeError::UnknownFieldRejected)));
}

#[test]
fn decode_accepts_both_fields() {
    let mut arguments = serde_json::Map::new();
    arguments.insert("k".to_string(), Value::String("v".to_string()));
    let decoded = Template::decode(template_object("greet", arguments.clone())).unwrap();
    assert_eq!(decoded.name, "greet");
    assert_eq!(decoded.arguments, arguments);
}

#[test]
fn missing_arguments_rejected() {
    let mut obj = serde_json::Map::new();
    obj.insert("name".to_string(), Value::String("x".to_string()));
    assert!(matches!(Template::decode(obj), Err(DecodeError::MissingField)));
}

#[test]
fn missing_name_rejected() {
    let mut obj = serde_json::Map::new();
    obj.insert("arguments".to_string(), Value::Object(serde_json::Map::new()));
    assert!(matches!(Template::decode(obj), Err(DecodeError::MissingField)));
}

#[test]
fn template_empty_object_rejected() {
    assert!(matches!(Template::decode(serde_json::Map::new()), Err(DecodeError::MissingField)));
}

#[test]
fn non_string_name_rejected() {
    let mut obj = serde_json::Map::new();
    obj.insert("name".to_string(), Value::Number(Number::from(3)));
    obj.insert("arguments".to_string(), Value::Object(serde_json::Map::new()));
    assert!(matches!(Template::decode(obj), Err(DecodeError::TypeMismatch)));
}

#[test]
fn template_non_object_arguments_rejected() {
    let mut obj = serde_json::Map::new();
    obj.insert("name".to_string(), Value::String("x".to_string()));
    obj.insert("arguments".to_string(), Value::String("oops".to_string()));
    assert!(matches!(Template::decode(obj), Err(DecodeError::TypeMismatch)));
}

#[test]
fn round_trip() {
    let mut arguments = serde_json::Map::new();
    arguments.insert("a".to_string(), Value::Bool(false));
    let original = template_object("t", arguments);
    let decoded = Template::decode(original.clone()).unwrap();
    assert_eq!(decoded.encode(), original);
}

#[test]
fn clone_keeps_fields() {
    let mut arguments = serde_json::Map::new();
    arguments.insert("a".to_string(), Value::Null);
    let template = Template {
        name: "n".to_string(),
        arguments: arguments.clone(),
    };
    let copy = template.clone();
    assert_eq!(copy.name, "n");
    assert_eq!(copy.arguments, arguments);
}
