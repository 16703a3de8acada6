//! The listener lifecycle driven against the scripted host runtime.

use capacitor_bindings::bridge::{BridgeCall, ScriptedBridge};
use capacitor_bindings::error::Error;
use capacitor_bindings::listener::{
    begin_remove, begin_reregister_for, deliver_for, register_with, remove_with, reregister_with,
    BridgeCommand, ListenerSlot, ListenerEvent, ReregisterFlow,
};
use capacitor_bindings::network::{ConnectionStatus, ConnectionType, NetworkStatusChange};
use capacitor_bindings::value::Value;

#[test]
fn register_stores_the_token() {
    let mut bridge = ScriptedBridge::new();
    let mut slot = ListenerSlot::new();
    assert!(!slot.is_listening());
    register_with(&mut bridge, &mut slot, "status-changed").unwrap();
    assert!(slot.is_listening());
    assert_eq!(
        bridge.calls(),
        &vec![BridgeCall::Added("status-changed".to_string())]
    );
}

#[test]
fn at_most_one_registration_reregister_removes_before_adding() {
    let mut bridge = ScriptedBridge::new();
    let mut slot = ListenerSlot::new();
    register_with(&mut bridge, &mut slot, "status-changed").unwrap();
    let first = slot.get_handle().as_ref().unwrap().raw_id();

    let (r1, rep1) = reregister_with(&mut bridge, &mut slot, "status-changed".to_string());
    r1.unwrap();
    assert!(rep1.is_none());
    let second = slot.get_handle().as_ref().unwrap().raw_id();
    assert_ne!(first, second);

    let (r2, rep2) = reregister_with(&mut bridge, &mut slot, "status-changed".to_string());
    r2.unwrap();
    assert!(rep2.is_none());
    let third = slot.get_handle().as_ref().unwrap().raw_id();

    // the log shows each old token removed before the next addition
    assert_eq!(
        bridge.calls(),
        &vec![
            BridgeCall::Added("status-changed".to_string()),
            BridgeCall::Removed(first),
            BridgeCall::Added("status-changed".to_string()),
            BridgeCall::Removed(second),
            BridgeCall::Added("status-changed".to_string()),
        ]
    );
    assert!(!bridge.is_live(first));
    assert!(!bridge.is_live(second));
    assert!(bridge.is_live(third));
}

#[test]
fn idempotent_removal_on_an_empty_slot_is_a_successful_no_op() {
    let mut bridge = ScriptedBridge::new();
    let mut slot = ListenerSlot::new();
    assert!(remove_with(&mut bridge, &mut slot).is_ok());
    assert!(bridge.calls().is_empty());
    assert!(!slot.is_listening());

    // and begin_remove on an empty slot asks nothing of the runtime
    assert!(begin_remove(&mut slot).is_none());
}

#[test]
fn removal_failure_does_not_prevent_the_new_registration() {
    let mut bridge = ScriptedBridge::new();
    let mut slot = ListenerSlot::new();
    register_with(&mut bridge, &mut slot, "status-changed").unwrap();
    let first = slot.get_handle().as_ref().unwrap().raw_id();

    bridge.fail_next_removal("stale registration".to_string());
    let (result, removal_report) =
        reregister_with(&mut bridge, &mut slot, "status-changed".to_string());

    // the removal failure is reported, not fatal
    match removal_report {
        Some(Error::JsException { message }) => assert_eq!(message, "stale registration"),
        other => panic!("unexpected removal report: {other:?}"),
    }
    // the new registration still went through and is stored
    result.unwrap();
    assert!(slot.is_listening());
    let second = slot.get_handle().as_ref().unwrap().raw_id();
    assert_ne!(first, second);
    assert!(bridge.is_live(second));
    assert_eq!(
        bridge.calls(),
        &vec![
            BridgeCall::Added("status-changed".to_string()),
            BridgeCall::Removed(first),
            BridgeCall::Added("status-changed".to_string()),
        ]
    );
}

#[test]
fn failed_registration_never_touches_the_slot() {
    let mut bridge = ScriptedBridge::new();
    let mut slot = ListenerSlot::new();
    bridge.fail_next_addition("no such plugin".to_string());
    let err = register_with(&mut bridge, &mut slot, "status-changed").unwrap_err();
    match err {
        Error::JsException { message } => assert_eq!(message, "no such plugin"),
        other => panic!("unexpected error: {other:?}"),
    }
    assert!(!slot.is_listening());
}

#[test]
fn reregister_flow_steps_emit_remove_then_add() {
    let mut slot = ListenerSlot::new();
    let mut bridge = ScriptedBridge::new();
    register_with(&mut bridge, &mut slot, "status-changed").unwrap();
    let first = slot.get_handle().as_ref().unwrap().raw_id();

    let (mut flow, cmd) = ReregisterFlow::begin(&mut slot, "status-changed".to_string());
    let handle = match cmd {
        BridgeCommand::RemoveRegistration(h) => h,
        BridgeCommand::AddListener(name) => panic!("added {name} before removing"),
    };
    assert_eq!(handle.raw_id(), first);
    let outcome = bridge.remove_registration(handle);
    let (event_name, report) = flow.acknowledge_removal(outcome);
    assert!(report.is_none());
    assert_eq!(event_name, "status-changed");
    let added = bridge.add_listener(event_name.as_str());
    flow.complete(&mut slot, added).unwrap();
    assert!(slot.is_listening());
    assert_eq!(
        bridge.calls(),
        &vec![
            BridgeCall::Added("status-changed".to_string()),
            BridgeCall::Removed(first),
            BridgeCall::Added("status-changed".to_string()),
        ]
    );
}

#[test]
fn event_descriptors_bind_names_to_payloads() {
    assert_eq!(
        <NetworkStatusChange as ListenerEvent>::event_name(),
        "networkStatusChange"
    );
    let mut bridge = ScriptedBridge::new();
    let mut slot = ListenerSlot::new();
    let (flow, first) = begin_reregister_for::<NetworkStatusChange>(&mut slot);
    let event_name = match first {
        BridgeCommand::AddListener(name) => name,
        BridgeCommand::RemoveRegistration(_) => panic!("fresh slot had a registration"),
    };
    assert_eq!(event_name, "networkStatusChange");
    let added = bridge.add_listener(event_name.as_str());
    flow.complete(&mut slot, added).unwrap();
    assert!(slot.is_listening());

    // a delivered raw event decodes to the descriptor's payload type
    let raw = Value::Obj(vec![
        ("connected".to_string(), Value::Bool(true)),
        ("connectionType".to_string(), Value::Str("wifi".to_string())),
    ]);
    let payload = deliver_for::<NetworkStatusChange>(&raw).unwrap();
    assert_eq!(
        payload,
        ConnectionStatus { connected: true, connection_type: ConnectionType::Wifi }
    );
}
