//! The notification schema's wire encoding, including the original
//! serialisation scenarios carried over to the bridge value form.

use capacitor_bindings::codec::BridgeDto;
use capacitor_bindings::local_notifications::{ActionPerformed, LocalNotificationSchema,
    Schedule, ScheduleEvery, ScheduleOn, ScheduleOptions};
use capacitor_bindings::value::Value;

fn get_options() -> ScheduleOptions {
    let schema = LocalNotificationSchema {
        title: "Notification Title".to_string(),
        body: "Notification Body".to_string(),
        schedule: Schedule::from(ScheduleOn {
            year: None,
            month: None,
            day: None,
            weekday: None,
            hour: None,
            minute: None,
            second: Some(0),
        }),
        large_body: Some("Notification Large Body".to_string()),
        summary_text: Some("Notification Summary Text".to_string()),
        id: 123,
        ongoing: false,
        auto_cancel: true,
        inbox_list: Some(vec![
            "N One".to_string(),
            "N Two".to_string(),
            "N Three".to_string(),
            "N Four".to_string(),
            "N Five".to_string(),
        ]),
        small_icon: None,
        large_icon: None,
        icon_color: None,
        action_type_id: None,
        group: None,
        group_summary: None,
        sound: None,
        thread_identifier: None,
        summary_argument: None,
        channel_id: None,
    };
    ScheduleOptions::of_single(schema)
}

fn s(v: &str) -> Value {
    Value::Str(v.to_string())
}

#[test]
fn test_ser_json() {
    // the encoded form carries exactly the fields of the canonical wire
    // object, camel-cased, in declaration order, with unset optionals
    // omitted entirely
    let options = get_options();
    let expected = Value::Obj(vec![(
        "notifications".to_string(),
        Value::List(vec![Value::Obj(vec![
            ("title".to_string(), s("Notification Title")),
            ("body".to_string(), s("Notification Body")),
            (
                "schedule".to_string(),
                Value::Obj(vec![
                    (
                        "on".to_string(),
                        Value::Obj(vec![("second".to_string(), Value::Int(0))]),
                    ),
                    ("allowWhileIdle".to_string(), Value::Bool(true)),
                ]),
            ),
            ("largeBody".to_string(), s("Notification Large Body")),
            ("summaryText".to_string(), s("Notification Summary Text")),
            ("id".to_string(), Value::Int(123)),
            ("ongoing".to_string(), Value::Bool(false)),
            ("autoCancel".to_string(), Value::Bool(true)),
            (
                "inboxList".to_string(),
                Value::List(vec![s("N One"), s("N Two"), s("N Three"), s("N Four"), s("N Five")]),
            ),
        ])]),
    )]);
    assert_eq!(options.to_bridge(), expected);
}

#[test]
fn test_ser_de() {
    let options = get_options();
    let decoded = ScheduleOptions::from_bridge(&options.to_bridge());
    assert_eq!(decoded, Some(options));
}

#[test]
fn schema_round_trips_with_every_optional_set() {
    let schema = LocalNotificationSchema {
        title: "t".to_string(),
        body: "b".to_string(),
        schedule: Schedule::from((ScheduleEvery::Day, 2)),
        large_body: Some("lb".to_string()),
        summary_text: Some("st".to_string()),
        id: -1,
        ongoing: true,
        auto_cancel: false,
        inbox_list: Some(vec!["a".to_string()]),
        small_icon: Some("si".to_string()),
        large_icon: Some("li".to_string()),
        icon_color: Some("#fff".to_string()),
        action_type_id: Some("at".to_string()),
        group: Some("g".to_string()),
        group_summary: Some("gs".to_string()),
        sound: Some("s.wav".to_string()),
        thread_identifier: Some("ti".to_string()),
        summary_argument: Some("sa".to_string()),
        channel_id: Some("ch".to_string()),
    };
    let back = LocalNotificationSchema::from_bridge(&schema.to_bridge());
    assert_eq!(back, Some(schema));
}

#[test]
fn schema_round_trips_with_every_optional_absent() {
    let schema = LocalNotificationSchema::default();
    let back = LocalNotificationSchema::from_bridge(&schema.to_bridge());
    assert_eq!(back, Some(schema));
}

#[test]
fn action_performed_round_trips() {
    let performed = ActionPerformed {
        action_id: "tap".to_string(),
        input_value: None,
        notification: LocalNotificationSchema::default(),
    };
    assert!(performed.is_tap());
    let back = ActionPerformed::from_bridge(&performed.to_bridge());
    assert_eq!(back, Some(performed));
}

#[test]
fn a_notification_missing_its_title_is_rejected() {
    let malformed = Value::Obj(vec![("body".to_string(), s("b"))]);
    assert!(LocalNotificationSchema::from_bridge(&malformed).is_none());
}
