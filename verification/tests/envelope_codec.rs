use near_sdk_core::contract_error::BaseError;
use near_sdk_core::contract_error::ContractErrorTrait;
use near_sdk_core::contract_error::check_contract_error_trait;
use near_sdk_core::contract_error::wrap_error;
use near_sdk_core::envelope::ErrorEnvelope;
use near_sdk_core::envelope::TextField;
use near_sdk_core::envelope::TextValue;
use near_sdk_core::envelope::deserialize_envelope;
use near_sdk_core::envelope::serialize_envelope;
use near_sdk_core::envelope::to_json_text;
use near_sdk_core::standard_errors::ContractNotInitialized;
use near_sdk_core::standard_errors::InvalidArgument;
use near_sdk_core::standard_errors::PromiseFailed;
use near_sdk_core::standard_errors::RequireFailed;

fn message_fields(message: &str) -> TextValue {
    TextValue::Fields(vec![TextField {
        name: String::from("message"),
        value: TextValue::Text(String::from(message)),
    }])
}

#[test]
fn envelope_round_trips_through_the_codec() {
    let env = ErrorEnvelope {
        error_type: String::from("error_handling::MyErrorStruct"),
        value: message_fields("boom"),
    };
    let expected = ErrorEnvelope {
        error_type: String::from("error_handling::MyErrorStruct"),
        value: message_fields("boom"),
    };
    let round = deserialize_envelope(serialize_envelope(env));
    assert_eq!(round, Some(expected));
}

#[test]
fn nested_envelope_round_trips() {
    let inner = serialize_envelope(ErrorEnvelope {
        error_type: String::from("inner"),
        value: TextValue::UInt(7),
    });
    let outer = ErrorEnvelope { error_type: String::from("outer"), value: inner };
    let expected_inner = serialize_envelope(ErrorEnvelope {
        error_type: String::from("inner"),
        value: TextValue::UInt(7),
    });
    let expected = ErrorEnvelope { error_type: String::from("outer"), value: expected_inner };
    assert_eq!(deserialize_envelope(serialize_envelope(outer)), Some(expected));
}

#[test]
fn deserialize_refuses_values_that_are_not_envelopes() {
    assert_eq!(deserialize_envelope(TextValue::Null), None);
    assert_eq!(deserialize_envelope(TextValue::UInt(3)), None);
    assert_eq!(deserialize_envelope(TextValue::Fields(vec![])), None);
    let wrong_keys = TextValue::Fields(vec![
        TextField { name: String::from("kind"), value: TextValue::Text(String::from("x")) },
        TextField { name: String::from("value"), value: TextValue::Null },
    ]);
    assert_eq!(deserialize_envelope(wrong_keys), None);
    let tag_not_text = TextValue::Fields(vec![
        TextField { name: String::from("error_type"), value: TextValue::UInt(1) },
        TextField { name: String::from("value"), value: TextValue::Null },
    ]);
    assert_eq!(deserialize_envelope(tag_not_text), None);
}

#[test]
fn wrap_produces_the_stable_type_tag() {
    let e = InvalidArgument { message: String::from("bad arg") };
    check_contract_error_trait(&e);
    assert_eq!(e.error_type(), "near_sdk_core::standard_errors::InvalidArgument");
    assert!(!e.persist_on_error());
    let env = e.wrap();
    assert_eq!(env.error_type, String::from("near_sdk_core::standard_errors::InvalidArgument"));
    assert_eq!(env.value, message_fields("bad arg"));
}

#[test]
fn standard_error_messages_are_fixed() {
    assert_eq!(ContractNotInitialized::new().message, "The contract is not initialized");
    assert_eq!(RequireFailed::new().message, "require! assertion failed");
    let p = PromiseFailed::new(Some(3));
    assert_eq!(p.message, "Promise failed");
    assert_eq!(p.promise_index, Some(3));
}

#[test]
fn promise_failed_payload_has_both_fields() {
    let env = PromiseFailed::new(None).wrap();
    let expected = TextValue::Fields(vec![
        TextField {
            name: String::from("message"),
            value: TextValue::Text(String::from("Promise failed")),
        },
        TextField { name: String::from("promise_index"), value: TextValue::Null },
    ]);
    assert_eq!(env.value, expected);
}

#[test]
fn rendered_envelope_is_the_expected_json() {
    let e = InvalidArgument { message: String::from("bad arg") };
    let text = to_json_text(&wrap_error(e));
    let parsed: serde_json::Value = serde_json::from_str(&text).unwrap();
    let expected: serde_json::Value = serde_json::from_str(
        "{\"error_type\":\"near_sdk_core::standard_errors::InvalidArgument\",\
         \"value\":{\"message\":\"bad arg\"}}",
    )
    .unwrap();
    assert_eq!(parsed, expected);
    assert!(text.starts_with("{\"error_type\""));
}

#[test]
fn base_error_renders_its_envelope() {
    let b = BaseError::from_error(RequireFailed::new());
    let text = b.into_diagnostic_string();
    let parsed: serde_json::Value = serde_json::from_str(&text).unwrap();
    let expected: serde_json::Value = serde_json::from_str(
        "{\"error_type\":\"near_sdk_core::standard_errors::RequireFailed\",\
         \"value\":{\"message\":\"require! assertion failed\"}}",
    )
    .unwrap();
    assert_eq!(parsed, expected);
}

#[test]
fn json_rendering_escapes_and_nests() {
    let v = TextValue::Items(vec![
        TextValue::Bool(true),
        TextValue::Text(String::from("a\"b")),
        TextValue::Null,
    ]);
    let text = to_json_text(&v);
    let parsed: serde_json::Value = serde_json::from_str(&text).unwrap();
    let expected: serde_json::Value = serde_json::from_str("[true,\"a\\\"b\",null]").unwrap();
    assert_eq!(parsed, expected);
}
