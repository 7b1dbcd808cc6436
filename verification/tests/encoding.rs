use pushcut::encode::{encode_action, encode_notification_request};
use pushcut::model::{
    Action, ActionKind, BackgroundOptions, HttpHeader, HttpMethod, Image, NotificationRequest,
    Sound,
};

fn empty_request() -> NotificationRequest {
    NotificationRequest::default()
}

fn bare_action(kind: ActionKind) -> Action {
    Action {
        name: None,
        input: None,
        keep_notification: None,
        run_on_server: None,
        online: None,
        url_background_options: None,
        kind,
    }
}

#[test]
fn empty_request_encodes_empty_object() {
    let r = empty_request();
    assert_eq!(encode_notification_request(&r), "{}");
}

#[test]
fn request_with_one_field_holds_only_that_key() {
    let mut r = empty_request();
    r.title = Some(String::from("hi"));
    let js = encode_notification_request(&r);
    assert_eq!(js, "{\"title\":\"hi\"}");
    assert!(!js.contains("\"id\""));
    assert!(!js.contains("\"text\""));
    assert!(!js.contains("null"));
}

#[test]
fn full_scenario_request_encodes_exactly() {
    let mut r = empty_request();
    r.id = Some(String::from("Test"));
    r.actions = Some(vec![Action {
        name: Some(String::from("Test Action")),
        input: None,
        keep_notification: Some(true),
        run_on_server: None,
        online: None,
        url_background_options: Some(BackgroundOptions {
            http_method: None,
            http_content_type: None,
            http_header: None,
        }),
        kind: ActionKind::Url(String::from("https://google.de")),
    }]);
    r.sound = Some(Sound::Custom(String::from("test")));
    let js = encode_notification_request(&r);
    assert_eq!(
        js,
        "{\"id\":\"Test\",\"actions\":[{\"name\":\"Test Action\",\"keepNotification\":true,\
         \"urlBackgroundOptions\":{},\"url\":\"https://google.de\"}],\"sound\":\"test\"}"
    );
}

#[test]
fn encoding_is_deterministic() {
    let build = || {
        let mut r = empty_request();
        r.id = Some(String::from("x"));
        r.sound = Some(Sound::Lasers);
        r.is_time_sensitive = Some(false);
        r
    };
    let a = encode_notification_request(&build());
    let b = encode_notification_request(&build());
    assert_eq!(a.as_bytes(), b.as_bytes());
}

#[test]
fn action_url_kind_flattens_and_excludes_others() {
    let a = bare_action(ActionKind::Url(String::from("https://x")));
    let js = encode_action(&a);
    assert_eq!(js, "{\"url\":\"https://x\"}");
    assert!(!js.contains("shortcut"));
    assert!(!js.contains("homekit"));
}

#[test]
fn action_shortcut_and_homekit_kinds_flatten() {
    let s = encode_action(&bare_action(ActionKind::Shortcut(String::from("Run"))));
    assert_eq!(s, "{\"shortcut\":\"Run\"}");
    let h = encode_action(&bare_action(ActionKind::Homekit(String::from("Scene"))));
    assert_eq!(h, "{\"homekit\":\"Scene\"}");
}

#[test]
fn fixed_sounds_encode_as_their_bare_names() {
    let expected = [
        (Sound::VibrateOnly, "vibrateOnly"),
        (Sound::System, "system"),
        (Sound::Subtle, "subtle"),
        (Sound::Question, "question"),
        (Sound::JobDone, "jobDone"),
        (Sound::Problem, "problem"),
        (Sound::Loud, "loud"),
        (Sound::Lasers, "lasers"),
    ];
    for (sound, name) in expected {
        let mut r = empty_request();
        r.sound = Some(sound);
        let js = encode_notification_request(&r);
        assert_eq!(js, format!("{{\"sound\":\"{}\"}}", name));
    }
}

#[test]
fn custom_sound_encodes_as_bare_string_like_fixed_ones() {
    let mut r = empty_request();
    r.sound = Some(Sound::Custom(String::from("test")));
    assert_eq!(encode_notification_request(&r), "{\"sound\":\"test\"}");
}

#[test]
fn image_encodes_as_bare_string_in_both_representations() {
    let mut r = empty_request();
    r.image = Some(Image::Reference(String::from("pic.png")));
    assert_eq!(encode_notification_request(&r), "{\"image\":\"pic.png\"}");
    r.image = Some(Image::Data(String::from("QUJD")));
    assert_eq!(encode_notification_request(&r), "{\"image\":\"QUJD\"}");
}

#[test]
fn strings_are_escaped() {
    let mut r = empty_request();
    r.title = Some(String::from("a\"b\\c\nd\te\u{1}"));
    assert_eq!(
        encode_notification_request(&r),
        "{\"title\":\"a\\\"b\\\\c\\nd\\te\\u0001\"}"
    );
}

#[test]
fn schedule_timestamp_encodes_as_plain_decimal() {
    let mut r = empty_request();
    r.schedule_timestamp = Some(0);
    assert_eq!(encode_notification_request(&r), "{\"scheduleTimestamp\":0}");
    r.schedule_timestamp = Some(340282366920938463463374607431768211455u128);
    assert_eq!(
        encode_notification_request(&r),
        "{\"scheduleTimestamp\":340282366920938463463374607431768211455}"
    );
}

#[test]
fn background_options_and_headers_encode_in_order() {
    let mut a = bare_action(ActionKind::Shortcut(String::from("Run")));
    a.url_background_options = Some(BackgroundOptions {
        http_method: Some(HttpMethod::Post),
        http_content_type: Some(String::from("application/json")),
        http_header: Some(vec![
            HttpHeader { key: String::from("X-A"), value: String::from("1") },
            HttpHeader { key: String::from("X-B"), value: String::from("2") },
        ]),
    });
    assert_eq!(
        encode_action(&a),
        "{\"urlBackgroundOptions\":{\"httpMethod\":\"POST\",\
         \"httpContentType\":\"application/json\",\
         \"httpHeader\":[{\"key\":\"X-A\",\"value\":\"1\"},{\"key\":\"X-B\",\"value\":\"2\"}]},\
         \"shortcut\":\"Run\"}"
    );
}

#[test]
fn action_list_and_devices_encode_as_arrays() {
    let mut r = empty_request();
    r.actions = Some(vec![
        bare_action(ActionKind::Url(String::from("u1"))),
        bare_action(ActionKind::Homekit(String::from("h"))),
    ]);
    r.devices = Some(vec![String::from("phone"), String::from("watch")]);
    assert_eq!(
        encode_notification_request(&r),
        "{\"actions\":[{\"url\":\"u1\"},{\"homekit\":\"h\"}],\
         \"devices\":[\"phone\",\"watch\"]}"
    );
}

#[test]
fn all_boolean_fields_encode_as_json_booleans() {
    let mut r = empty_request();
    r.is_time_sensitive = Some(true);
    assert_eq!(encode_notification_request(&r), "{\"isTimeSensitive\":true}");
    r.is_time_sensitive = Some(false);
    assert_eq!(encode_notification_request(&r), "{\"isTimeSensitive\":false}");
}

#[test]
fn encoded_document_is_valid_json_to_serde() {
    let mut r = empty_request();
    r.id = Some(String::from("Test"));
    r.sound = Some(Sound::Custom(String::from("test")));
    r.title = Some(String::from("quote \" and backslash \\"));
    let js = encode_notification_request(&r);
    let v: serde_json::Value = serde_json::from_str(&js).unwrap();
    assert_eq!(v["id"].as_str(), Some("Test"));
    assert_eq!(v["sound"].as_str(), Some("test"));
    assert_eq!(v["title"].as_str(), Some("quote \" and backslash \\"));
    assert!(v.get("text").is_none());
}
