//! Data model of a push notification: the request payload with its nested
//! action, sound, image and background-option structures, the acknowledgement
//! returned by the service, the credential variants, and the error kinds.
use vstd::prelude::*;

verus! {

/// The sound played when the notification is delivered: one of eight fixed
/// named sounds, or an arbitrary custom sound name. On the wire every variant
/// is a bare string; a custom name is simply not one of the eight fixed names.
#[derive(Debug, Clone)]
pub enum Sound {
    VibrateOnly,
    System,
    Subtle,
    Question,
    JobDone,
    Problem,
    Loud,
    Lasers,
    Custom(String),
}

impl Sound {
    /// The name this sound shows on the wire.
    pub open spec fn text(self) -> Seq<char> {
        match self {
            Sound::VibrateOnly => "vibrateOnly"@,
            Sound::System => "system"@,
            Sound::Subtle => "subtle"@,
            Sound::Question => "question"@,
            Sound::JobDone => "jobDone"@,
            Sound::Problem => "problem"@,
            Sound::Loud => "loud"@,
            Sound::Lasers => "lasers"@,
            Sound::Custom(name) => name@,
        }
    }
}

/// The image attached to a notification: either a reference (a local image
/// name or a web URL) or inline base64-encoded image bytes. Either way the
/// wire form is a bare string; the receiver disambiguates by content.
#[derive(Debug, Clone)]
pub enum Image {
    Reference(String),
    Data(String),
}

impl Image {
    /// The string this image selector shows on the wire.
    pub open spec fn text(self) -> Seq<char> {
        match self {
            Image::Reference(s) => s@,
            Image::Data(s) => s@,
        }
    }
}

/// What an action does: run a named local shortcut, trigger a named home
/// automation scene, or open a URL. Exactly one kind per action; the sum type
/// makes "no kind selected" unrepresentable.
#[derive(Debug, Clone)]
pub enum ActionKind {
    Shortcut(String),
    Homekit(String),
    Url(String),
}

impl ActionKind {
    /// The flat field name under which this kind appears in the encoded action.
    pub open spec fn key(self) -> Seq<char> {
        match self {
            ActionKind::Shortcut(_) => "shortcut"@,
            ActionKind::Homekit(_) => "homekit"@,
            ActionKind::Url(_) => "url"@,
        }
    }

    /// The payload string of whichever kind is active.
    pub open spec fn text(self) -> Seq<char> {
        match self {
            ActionKind::Shortcut(s) => s@,
            ActionKind::Homekit(s) => s@,
            ActionKind::Url(s) => s@,
        }
    }
}

/// HTTP method of a background web request fired by an action.
#[derive(Debug, Clone)]
pub enum HttpMethod {
    Get,
    Post,
    Put,
}

impl HttpMethod {
    /// The upper-case method name shown on the wire.
    pub open spec fn text(self) -> Seq<char> {
        match self {
            HttpMethod::Get => "GET"@,
            HttpMethod::Post => "POST"@,
            HttpMethod::Put => "PUT"@,
        }
    }
}

/// One header key/value pair of a background web request.
#[derive(Debug, Clone)]
pub struct HttpHeader {
    pub key: String,
    pub value: String,
}

/// Execution hints for the background web request triggered by an action:
/// method, content type, and an ordered sequence of headers. Every field is
/// optional and absent fields are omitted from the encoding.
#[derive(Debug, Clone)]
pub struct BackgroundOptions {
    pub http_method: Option<HttpMethod>,
    pub http_content_type: Option<String>,
    pub http_header: Option<Vec<HttpHeader>>,
}

/// One interactive action attached to a notification, or the default tap
/// action. All fields but the kind are optional and omitted when absent; the
/// kind renders flat, as a sibling of the other fields.
#[derive(Debug, Clone)]
pub struct Action {
    pub name: Option<String>,
    pub input: Option<String>,
    pub keep_notification: Option<bool>,
    pub run_on_server: Option<bool>,
    pub online: Option<String>,
    pub url_background_options: Option<BackgroundOptions>,
    pub kind: ActionKind,
}

/// The outer notification payload. Every field is optional; a field left at
/// `None` is entirely absent from the encoded object — omitted, never `null`.
#[derive(Debug, Clone)]
pub struct NotificationRequest {
    pub id: Option<String>,
    pub text: Option<String>,
    pub title: Option<String>,
    pub default_action: Option<Action>,
    pub actions: Option<Vec<Action>>,
    pub sound: Option<Sound>,
    pub image: Option<Image>,
    pub input: Option<String>,
    pub devices: Option<Vec<String>>,
    pub is_time_sensitive: Option<bool>,
    pub thread_id: Option<String>,
    pub delay: Option<String>,
    pub schedule_timestamp: Option<u128>,
}

impl Default for NotificationRequest {
    /// The empty request: every field absent.
    fn default() -> (r: NotificationRequest)
        ensures
            r.id is None,
            r.text is None,
            r.title is None,
            r.default_action is None,
            r.actions is None,
            r.sound is None,
            r.image is None,
            r.input is None,
            r.devices is None,
            r.is_time_sensitive is None,
            r.thread_id is None,
            r.delay is None,
            r.schedule_timestamp is None,
    {
        NotificationRequest {
            id: None,
            text: None,
            title: None,
            default_action: None,
            actions: None,
            sound: None,
            image: None,
            input: None,
            devices: None,
            is_time_sensitive: None,
            thread_id: None,
            delay: None,
            schedule_timestamp: None,
        }
    }
}

/// Acknowledgement returned by the service on success.
#[derive(Debug, Clone)]
pub struct NotificationResponse {
    pub id: String,
    pub message: String,
    pub notification_id: String,
}

/// The credential authorizing requests, in one of the two transport variants:
/// an API key carried in a request header, or a secret embedded in the URL
/// path.
#[derive(Debug, Clone)]
pub enum Credential {
    ApiKey(String),
    PathSecret(String),
}

/// What can go wrong around the single request/response exchange. None of
/// these is retried; each propagates to the caller unrecovered.
#[derive(Debug, Clone)]
pub enum ApiError {
    /// The credential is missing or unreadable; raised before any network call.
    Configuration { detail: String },
    /// The connection itself failed (DNS, TCP, TLS).
    Transport { detail: String },
    /// The service answered with a non-2xx status.
    Service { status: u16, body: String },
    /// The response body is not valid JSON of the expected shape.
    Decode { detail: String },
}

} // verus!
