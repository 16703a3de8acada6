//! The four call shapes, error propagation and the listener trampoline.

use capacitor_bindings::bridge::{BridgeCall, ScriptedBridge};
use capacitor_bindings::error::Error;
use capacitor_bindings::helpers::{
    deliver_event, encode_request, error_from_rejection, run_unit_unit, run_unit_value,
    JsException,
};
use capacitor_bindings::listener::{register_with, reregister_with, ListenerSlot};
use capacitor_bindings::screen_reader::{ScreenReaderState, SpeakOptions};
use capacitor_bindings::value::Value;

fn thrown(message: &str) -> Value {
    Value::Obj(vec![(
        "message".to_string(),
        Value::Str(message.to_string()),
    )])
}

#[test]
fn values_clone_deeply_and_report_null() {
    let v = Value::Obj(vec![(
        "a".to_string(),
        Value::List(vec![Value::Int(1), Value::Null, Value::Str("s".to_string())]),
    )]);
    assert_eq!(v.deep_clone(), v);
    assert!(Value::Null.is_null());
    assert!(!Value::Bool(false).is_null());
}

#[test]
fn unit_unit_shape_propagates_the_foreign_exception() {
    let r = run_unit_unit(Err(thrown("boom")));
    match r {
        Err(Error::JsException { message }) => assert_eq!(message, "boom"),
        other => panic!("unexpected: {other:?}"),
    }
}

#[test]
fn unit_value_shape_propagates_the_foreign_exception() {
    let r: Result<ScreenReaderState, Error> = run_unit_value(Err(thrown("boom")));
    match r {
        Err(Error::JsException { message }) => assert_eq!(message, "boom"),
        other => panic!("unexpected: {other:?}"),
    }
}

#[test]
fn value_unit_shape_propagates_the_foreign_exception() {
    // typed input, no output: encode, invoke (the mock throws), complete
    let options = SpeakOptions::of_text("hello");
    let _request = encode_request(&options);
    let r = run_unit_unit(Err(thrown("boom")));
    match r {
        Err(Error::JsException { message }) => assert_eq!(message, "boom"),
        other => panic!("unexpected: {other:?}"),
    }
}

#[test]
fn value_value_shape_propagates_the_foreign_exception() {
    let options = SpeakOptions::of_text("hello");
    let _request = encode_request(&options);
    let r: Result<ScreenReaderState, Error> = run_unit_value(Err(thrown("boom")));
    match r {
        Err(Error::JsException { message }) => assert_eq!(message, "boom"),
        other => panic!("unexpected: {other:?}"),
    }
}

#[test]
fn successful_calls_decode_the_resolved_value() {
    assert!(run_unit_unit(Ok(())).is_ok());
    let raw = Value::Obj(vec![("value".to_string(), Value::Bool(true))]);
    let r: Result<ScreenReaderState, Error> = run_unit_value(Ok(raw));
    assert_eq!(r.unwrap(), ScreenReaderState { value: true });
}

#[test]
fn a_resolved_value_of_the_wrong_shape_is_a_decode_error() {
    let raw = Value::Obj(vec![("value".to_string(), Value::Int(3))]);
    let r: Result<ScreenReaderState, Error> = run_unit_value(Ok(raw));
    match r {
        Err(Error::DeserializeError { typename, .. }) => {
            assert_eq!(typename, "ScreenReaderState")
        },
        other => panic!("unexpected: {other:?}"),
    }
}

#[test]
fn a_rejection_that_is_no_exception_object_still_becomes_an_error() {
    let e = error_from_rejection(&Value::Str("just a string".to_string()));
    match e {
        Error::JsException { message } => assert_eq!(message, "Unexpected rejection value"),
        other => panic!("unexpected: {other:?}"),
    }
}

#[test]
fn exception_objects_round_trip_their_message() {
    let e = JsException { message: "out of cheese".to_string() };
    let encoded = e.message.clone();
    let err = error_from_rejection(&thrown(&encoded));
    match err {
        Error::JsException { message } => assert_eq!(message, "out of cheese"),
        other => panic!("unexpected: {other:?}"),
    }
}

#[test]
fn trampoline_delivers_a_well_formed_event() {
    let raw = Value::Obj(vec![("value".to_string(), Value::Bool(true))]);
    let payload: ScreenReaderState = deliver_event(&raw).unwrap();
    assert!(payload.value);
}

#[test]
fn trampoline_rejects_a_malformed_event_without_crashing() {
    // missing the required field entirely
    let raw = Value::Obj(vec![]);
    let r: Result<ScreenReaderState, Error> = deliver_event(&raw);
    match r {
        Err(Error::DeserializeError { typename, .. }) => {
            assert_eq!(typename, "ScreenReaderState")
        },
        other => panic!("unexpected: {other:?}"),
    }
    // wrong field type
    let raw = Value::Obj(vec![("value".to_string(), Value::Str("yes".to_string()))]);
    let r: Result<ScreenReaderState, Error> = deliver_event(&raw);
    assert!(r.is_err());
    // not an object at all
    let r: Result<ScreenReaderState, Error> = deliver_event(&Value::Null);
    assert!(r.is_err());
}

#[test]
fn end_to_end_reregister_and_deliver() {
    // register a listener on slot `s` for "status-changed" with callback c1
    let mut bridge = ScriptedBridge::new();
    let mut slot = ListenerSlot::new();
    register_with(&mut bridge, &mut slot, "status-changed").unwrap();
    let t1 = slot.get_handle().as_ref().unwrap().raw_id();
    let mut c1_calls = 0u32;
    let mut c2_calls = 0u32;
    let mut c2_last: Option<ScreenReaderState> = None;

    // swap the callback: the bridge sees remove(t1) then add, in that order
    let (r, report) = reregister_with(&mut bridge, &mut slot, "status-changed".to_string());
    r.unwrap();
    assert!(report.is_none());
    let t2 = slot.get_handle().as_ref().unwrap().raw_id();
    assert_eq!(
        bridge.calls(),
        &vec![
            BridgeCall::Added("status-changed".to_string()),
            BridgeCall::Removed(t1),
            BridgeCall::Added("status-changed".to_string()),
        ]
    );
    assert!(slot.is_listening());
    assert!(bridge.is_live(t2));
    assert!(!bridge.is_live(t1));

    // deliver an event through the trampoline: only the current callback runs
    let raw = Value::Obj(vec![("value".to_string(), Value::Bool(true))]);
    let current = slot.get_handle().as_ref().unwrap().raw_id();
    match deliver_event::<ScreenReaderState>(&raw) {
        Ok(payload) if current == t2 => {
            c2_calls += 1;
            c2_last = Some(payload);
        },
        Ok(_) => {
            c1_calls += 1;
        },
        Err(e) => panic!("delivery failed: {e:?}"),
    }
    assert_eq!(c1_calls, 0);
    assert_eq!(c2_calls, 1);
    assert_eq!(c2_last, Some(ScreenReaderState { value: true }));
}
