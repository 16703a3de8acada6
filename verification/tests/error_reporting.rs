//! The error taxonomy and its rendered messages.

use capacitor_bindings::error::Error;
use capacitor_bindings::helpers::InnerError;

#[test]
fn messages_name_the_failure() {
    let e = Error::JsException { message: "boom".to_string() };
    assert_eq!(e.message(), "Js Exception: boom");

    let e = Error::NotAFunction { name: "remove".to_string() };
    assert_eq!(e.message(), "Not a function: remove");

    let e = Error::serializing("ShowOptions", "unsupported value");
    assert_eq!(
        e.message(),
        "Error Serializing ShowOptions to JsValue: unsupported value"
    );
    assert!(matches!(e, Error::SerializeError { .. }));

    let e = Error::deserializing("ConnectionStatus", "missing field");
    assert_eq!(
        e.message(),
        "Error Deserializing JsValue to ConnectionStatus: missing field"
    );
    assert!(matches!(e, Error::DeserializeError { .. }));
}

#[test]
fn an_inner_error_becomes_a_foreign_exception() {
    let e: Error = InnerError { message: "inner detail".to_string() }.into();
    match e {
        Error::JsException { message } => assert_eq!(message, "inner detail"),
        other => panic!("unexpected: {other:?}"),
    }
}
