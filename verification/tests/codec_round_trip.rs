//! Round trips through the wire encoding for representative values of the
//! request and response types, including all-absent and all-present
//! optional fields.

use capacitor_bindings::action_sheet::{ActionSheetButton, ActionSheetButtonStyle,
    ShowActionsOptions, ShowActionsResult};
use capacitor_bindings::app::{AppInfo, AppState, RestoredListenerEvent, URLOpenListenerEvent};
use capacitor_bindings::app_launcher::{CanOpenURLResult, CanOpenUrlOptions};
use capacitor_bindings::browser::{OpenOptions, PresentationStyle};
use capacitor_bindings::camera::{CameraDirection, CameraPermissionState, CameraPermissionType,
    CameraPluginPermissions, CameraResultType, CameraSource, ExifData, GalleryImageOptions,
    GalleryPhoto, GalleryPhotos, ImageOptions, PermissionStatus, Photo, PresentationStyle as
    CameraPresentationStyle};
use capacitor_bindings::clipboard::{ReadResult, WriteOptions};
use capacitor_bindings::codec::{round_trip, BridgeDto};
use capacitor_bindings::device::{DeviceId, DeviceInfo, OperatingSystem, Platform};
use capacitor_bindings::dialog::{ConfirmResult, PromptOptions, PromptResult};
use capacitor_bindings::game_connect::{SubmitScoreOptions, User};
use capacitor_bindings::helpers::{InnerError, JsException};
use capacitor_bindings::local_notifications::{Action, ActionType,
    DeliveredNotificationSchema, LocalNotificationDescriptor, PermissionState, Schedule,
    ScheduleEvery, ScheduleOn, Weekday};
use capacitor_bindings::network::{ConnectionStatus, ConnectionType};
use capacitor_bindings::preferences::{GetResult, KeysResult, SetOptions};
use capacitor_bindings::safe_area::{Config, LightOrDark, Options, SafeArea};
use capacitor_bindings::screen_reader::{ScreenReaderState, SpeakOptions};
use capacitor_bindings::share::ShareOptions;
use capacitor_bindings::status_bar::{Style, StyleOptions};
use capacitor_bindings::toast::{ShowOptions, ToastDuration, ToastPosition};
use capacitor_bindings::value::Value;

fn rt<T: BridgeDto + PartialEq + std::fmt::Debug>(x: T) {
    let back = round_trip(&x).expect("decoding the encoding must succeed");
    assert_eq!(back, x);
}

#[test]
fn toast_types() {
    rt(ShowOptions::of_text("hello"));
    rt(ShowOptions {
        text: "hi".to_string(),
        duration: ToastDuration::Long,
        position: ToastPosition::Top,
    });
    rt(ToastDuration::Short);
    rt(ToastPosition::Center);
}

#[test]
fn network_types() {
    rt(ConnectionStatus { connected: true, connection_type: ConnectionType::Wifi });
    rt(ConnectionStatus::default());
    rt(ConnectionType::NoConnection);
    rt(ConnectionType::Cellular);
}

#[test]
fn screen_reader_types() {
    rt(ScreenReaderState { value: false });
    rt(SpeakOptions { value: "hello".to_string(), language: None });
    rt(SpeakOptions { value: "bonjour".to_string(), language: Some("fr".to_string()) });
}

#[test]
fn dialog_types() {
    rt(PromptResult { value: "yes".to_string(), cancelled: false });
    rt(ConfirmResult { value: true });
    rt(PromptOptions {
        title: "t".to_string(),
        message: "m".to_string(),
        ok_button_title: "ok".to_string(),
        cancel_button_title: "no".to_string(),
        input_placeholder: None,
        input_text: None,
    });
    rt(PromptOptions {
        title: "t".to_string(),
        message: "m".to_string(),
        ok_button_title: "ok".to_string(),
        cancel_button_title: "no".to_string(),
        input_placeholder: Some("hint".to_string()),
        input_text: Some("text".to_string()),
    });
}

#[test]
fn clipboard_types() {
    rt(WriteOptions { string: None, image: None, url: None, label: None });
    rt(WriteOptions {
        string: Some("s".to_string()),
        image: Some("i".to_string()),
        url: Some("u".to_string()),
        label: Some("l".to_string()),
    });
    rt(ReadResult { value: "v".to_string(), kind: "text/plain".to_string() });
}

#[test]
fn share_types() {
    rt(ShareOptions { title: None, text: None, url: None, dialog_title: None, files: None });
    rt(ShareOptions {
        title: Some("t".to_string()),
        text: Some("x".to_string()),
        url: Some("https://example.test".to_string()),
        dialog_title: Some("d".to_string()),
        files: Some(vec!["file://a".to_string(), "file://b".to_string()]),
    });
}

#[test]
fn preferences_types() {
    rt(SetOptions { key: "k".to_string(), value: "v".to_string() });
    rt(GetResult { value: None });
    rt(GetResult { value: Some("v".to_string()) });
    rt(KeysResult { keys: vec![] });
    rt(KeysResult { keys: vec!["a".to_string(), "b".to_string()] });
}

#[test]
fn action_sheet_types() {
    rt(ShowActionsResult { index: 2 });
    rt(ActionSheetButton { title: "one".to_string(), icon: None, style: None });
    rt(ShowActionsOptions {
        title: "pick".to_string(),
        message: Some("please".to_string()),
        options: vec![
            ActionSheetButton { title: "one".to_string(), icon: None, style: None },
            ActionSheetButton {
                title: "two".to_string(),
                icon: Some("trash".to_string()),
                style: Some(ActionSheetButtonStyle::Destructive),
            },
        ],
    });
}

#[test]
fn safe_area_types() {
    rt(Options::default());
    rt(Config {
        custom_colors_for_system_bars: false,
        status_bar_color: "#112233".to_string(),
        status_bar_content: LightOrDark::Dark,
        navigation_bar_color: "#445566".to_string(),
        navigation_bar_content: LightOrDark::Light,
        offset: 10,
    });
}

#[test]
fn safe_area_enable_builds_the_encoded_options() {
    let options = Options::default();
    assert_eq!(SafeArea::enable(&options), options.to_bridge());
    assert_eq!(SafeArea::disable(&options), options.to_bridge());
}

#[test]
fn status_bar_and_device_types() {
    rt(StyleOptions { style: Style::Dark });
    rt(StyleOptions::from(Style::Light));
    rt(Platform::Web);
    rt(OperatingSystem::Mac);
    rt(DeviceId { identifier: "abc-123".to_string() });
}

#[test]
fn app_types() {
    rt(AppInfo {
        name: "demo".to_string(),
        id: "com.example.demo".to_string(),
        build: "7".to_string(),
        version: "1.2.3".to_string(),
    });
    rt(AppState { is_active: true });
    rt(RestoredListenerEvent {
        plugin_id: "Camera".to_string(),
        method_name: "getPhoto".to_string(),
        data: "{}".to_string(),
        success: false,
        error: Some(InnerError { message: "cancelled".to_string() }),
    });
}

#[test]
fn game_connect_types() {
    rt(SubmitScoreOptions { leaderboard_id: "lb".to_string(), total_score_amount: -12345 });
    rt(User { player_name: "p".to_string(), player_id: "42".to_string() });
}

#[test]
fn device_info_round_trips() {
    rt(DeviceInfo {
        name: None,
        model: "Pixel 6".to_string(),
        platform: Platform::Android,
        operating_system: OperatingSystem::Android,
        os_version: "14".to_string(),
        manufacturer: "Google".to_string(),
        is_virtual: false,
        mem_used: None,
        disk_free: None,
        disk_total: None,
        real_disk_free: None,
        real_disk_total: None,
        web_view_version: None,
        ios_version: None,
        android_sdk_version: None,
    });
    rt(DeviceInfo {
        name: Some("my phone".to_string()),
        model: "iPhone13,4".to_string(),
        platform: Platform::IOs,
        operating_system: OperatingSystem::IOs,
        os_version: "16.3.1".to_string(),
        manufacturer: "Apple".to_string(),
        is_virtual: true,
        mem_used: Some(1048576),
        disk_free: Some(17179869184),
        disk_total: Some(137438953472),
        real_disk_free: Some(17179869184),
        real_disk_total: Some(137438953472),
        web_view_version: Some("135".to_string()),
        ios_version: Some("160301".to_string()),
        android_sdk_version: None,
    });
}

#[test]
fn photo_and_gallery_types_round_trip() {
    let exif = ExifData {
        data: vec![
            ("Make".to_string(), "Apple".to_string()),
            ("Model".to_string(), "iPhone".to_string()),
        ],
    };
    rt(exif.clone());
    rt(ExifData::default());
    rt(Photo {
        base64_string: None,
        data_url: Some("data:image/jpeg;base64,xxxx".to_string()),
        path: None,
        web_path: Some("blob:web-path".to_string()),
        exif: Some(exif.clone()),
        format: "jpeg".to_string(),
        saved: Some(false),
    });
    rt(GalleryPhotos {
        photos: vec![
            GalleryPhoto {
                path: "file://a.jpeg".to_string(),
                web_path: None,
                exif: None,
                format: "jpeg".to_string(),
            },
            GalleryPhoto {
                path: "file://b.png".to_string(),
                web_path: Some("blob:b".to_string()),
                exif: Some(exif),
                format: "png".to_string(),
            },
        ],
    });
}

#[test]
fn camera_option_types_round_trip() {
    rt(ImageOptions {
        quality: 90,
        allow_editing: false,
        result_type: CameraResultType::Base64,
        save_to_gallery: true,
        width: 1024,
        height: 768,
        correct_orientation: true,
        source: CameraSource::Prompt,
        direction: Some(CameraDirection::Front),
        presentation_style: Some(CameraPresentationStyle::Popover),
        web_use_input: None,
        prompt_label_header: "Photo".to_string(),
        prompt_label_cancel: None,
        prompt_label_photo: Some("From album".to_string()),
        prompt_label_picture: None,
    });
    rt(GalleryImageOptions {
        quality: 70,
        width: 640,
        height: 480,
        correct_orientation: false,
        presentation_style: None,
        limit: Some(3),
    });
}

#[test]
fn url_open_event_round_trips() {
    rt(URLOpenListenerEvent {
        url: "app://open".to_string(),
        ios_source_application: None,
        ios_open_in_place: None,
    });
    rt(URLOpenListenerEvent {
        url: "app://open".to_string(),
        ios_source_application: Some("com.example.other".to_string()),
        ios_open_in_place: Some(true),
    });
}

#[test]
fn camera_types() {
    rt(PermissionStatus {
        camera: CameraPermissionState::Granted,
        photos: CameraPermissionState::Limited,
    });
    rt(CameraPluginPermissions {
        permissions: vec![CameraPermissionType::Camera, CameraPermissionType::Photos],
    });
}

#[test]
fn browser_types() {
    rt(OpenOptions {
        url: "https://example.test".to_string(),
        window_name: None,
        toolbar_color: None,
        presentation_style: None,
        width: None,
        height: None,
    });
    rt(OpenOptions {
        url: "https://example.test".to_string(),
        window_name: Some("_self".to_string()),
        toolbar_color: Some("#ffffff".to_string()),
        presentation_style: Some(PresentationStyle::Popover),
        width: Some(420),
        height: Some(800),
    });
}

#[test]
fn app_launcher_and_error_types() {
    rt(CanOpenUrlOptions { url: "mailto:x@example.test".to_string() });
    rt(CanOpenURLResult { value: true });
    rt(JsException { message: "boom".to_string() });
    rt(InnerError { message: "inner".to_string() });
}

#[test]
fn local_notification_types() {
    rt(Schedule::On {
        on: ScheduleOn {
            year: None,
            month: None,
            day: None,
            weekday: Some(Weekday::Monday),
            hour: Some(9),
            minute: None,
            second: Some(0),
        },
        allow_while_idle: true,
    });
    rt(Schedule::At { at_epoch_millis: 1700000000000, repeats: false, allow_while_idle: true });
    rt(Schedule::Every { every: ScheduleEvery::TwoWeeks, count: 3, allow_while_idle: false });
    rt(ScheduleOn::default());
    rt(PermissionState::PromptWithRationale);
    rt(LocalNotificationDescriptor { id: -7 });
    rt(ActionType {
        id: "replies".to_string(),
        actions: vec![
            Action { id: "yes".to_string(), title: "Yes".to_string() },
            Action { id: "no".to_string(), title: "No".to_string() },
        ],
    });
    rt(DeliveredNotificationSchema {
        id: 5,
        tag: None,
        title: "t".to_string(),
        body: "b".to_string(),
        group: Some("g".to_string()),
        group_summary: Some(true),
    });
}

#[test]
fn decoding_rejects_what_no_value_encodes_to() {
    // reordered fields are not the canonical encoding
    let reordered = Value::Obj(vec![
        ("cancelled".to_string(), Value::Bool(false)),
        ("value".to_string(), Value::Str("yes".to_string())),
    ]);
    assert!(PromptResult::from_bridge(&reordered).is_none());
    // a trailing unknown field is rejected
    let extra = Value::Obj(vec![
        ("value".to_string(), Value::Bool(true)),
        ("more".to_string(), Value::Null),
    ]);
    assert!(ConfirmResult::from_bridge(&extra).is_none());
    // an enum value outside the dictionary is rejected
    assert!(ConnectionType::from_bridge(&Value::Str("bluetooth".to_string())).is_none());
}
