use pushcut::model::{ActionKind, Action, ApiError, Credential, NotificationRequest, Sound};
use pushcut::transport::{
    api_key_header, devices_url, interpret_devices_response, interpret_send_response,
    notification_url, prepare_send, status_is_success,
};

fn scenario_request() -> NotificationRequest {
    let mut r = NotificationRequest::default();
    r.sound = Some(Sound::Custom(String::from("test")));
    r.actions = Some(vec![Action {
        name: None,
        input: None,
        keep_notification: None,
        run_on_server: None,
        online: None,
        url_background_options: None,
        kind: ActionKind::Url(String::from("https://google.de")),
    }]);
    r
}

#[test]
fn header_auth_send_targets_versioned_path_with_api_key() {
    let c = Credential::ApiKey(String::from("K"));
    let (url, header, body) = prepare_send(&c, "test", &scenario_request());
    assert_eq!(url, "https://api.pushcut.io/v1/notifications/test");
    assert_eq!(header, Some((String::from("API-Key"), String::from("K"))));
    assert!(body.contains("\"sound\":\"test\""));
    assert!(body.contains("\"url\":\"https://google.de\""));
}

#[test]
fn path_secret_send_embeds_secret_and_sends_no_header() {
    let c = Credential::PathSecret(String::from("S"));
    let (url, header, _body) = prepare_send(&c, "test", &scenario_request());
    assert_eq!(url, "https://api.pushcut.io/S/notifications/test");
    assert!(header.is_none());
}

#[test]
fn notification_and_devices_urls_follow_the_credential_variant() {
    let key = Credential::ApiKey(String::from("K"));
    let secret = Credential::PathSecret(String::from("S"));
    assert_eq!(
        notification_url(&key, "chan"),
        "https://api.pushcut.io/v1/notifications/chan"
    );
    assert_eq!(
        notification_url(&secret, "chan"),
        "https://api.pushcut.io/S/notifications/chan"
    );
    assert_eq!(devices_url(&key), "https://api.pushcut.io/v1/devices");
    assert_eq!(devices_url(&secret), "https://api.pushcut.io/S/devices");
    assert!(api_key_header(&key).is_some());
    assert!(api_key_header(&secret).is_none());
}

#[test]
fn status_classification_is_the_2xx_range() {
    assert!(!status_is_success(199));
    assert!(status_is_success(200));
    assert!(status_is_success(204));
    assert!(status_is_success(299));
    assert!(!status_is_success(300));
    assert!(!status_is_success(404));
    assert!(!status_is_success(500));
}

#[test]
fn response_round_trip() {
    let body = "{\"id\":\"abc\",\"message\":\"ok\",\"notificationId\":\"n1\"}";
    let resp = interpret_send_response(200, body).unwrap();
    assert_eq!(resp.id, "abc");
    assert_eq!(resp.message, "ok");
    assert_eq!(resp.notification_id, "n1");
}

#[test]
fn non_2xx_is_a_service_error_with_the_status() {
    let r = interpret_send_response(500, "upstream trouble");
    match r {
        Err(ApiError::Service { status, body }) => {
            assert_eq!(status, 500);
            assert_eq!(body, "upstream trouble");
        }
        other => panic!("expected a service error, got {:?}", other),
    }
}

#[test]
fn unparsable_body_is_a_decode_error() {
    let r = interpret_send_response(200, "not json at all");
    assert!(matches!(r, Err(ApiError::Decode { .. })));
}

#[test]
fn missing_required_field_is_a_decode_error() {
    let r = interpret_send_response(200, "{\"id\":\"abc\",\"message\":\"ok\"}");
    assert!(matches!(r, Err(ApiError::Decode { .. })));
}

#[test]
fn devices_listing_parses_each_object() {
    let body = "[{\"name\":\"phone\",\"id\":\"d1\"},{\"id\":\"d2\"}]";
    let devices = interpret_devices_response(200, body).unwrap();
    assert_eq!(devices.len(), 2);
    assert_eq!(
        devices[0],
        vec![
            (String::from("id"), String::from("d1")),
            (String::from("name"), String::from("phone")),
        ]
    );
    assert_eq!(devices[1], vec![(String::from("id"), String::from("d2"))]);
}

#[test]
fn empty_devices_listing_is_fine() {
    let devices = interpret_devices_response(200, "[]").unwrap();
    assert!(devices.is_empty());
}

#[test]
fn devices_listing_errors_mirror_the_send_errors() {
    assert!(matches!(
        interpret_devices_response(404, "missing"),
        Err(ApiError::Service { status: 404, .. })
    ));
    assert!(matches!(
        interpret_devices_response(200, "{\"not\":\"an array\"}"),
        Err(ApiError::Decode { .. })
    ));
}
