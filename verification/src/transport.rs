//! The transport side of the exchange: building the endpoint URL and the
//! authentication header for either credential variant, assembling everything
//! the one outbound POST needs, and interpreting the status and body that
//! come back. The network call itself is not made here; the caller performs
//! it and hands the outcome to `interpret_send_response` or
//! `interpret_devices_response`.
use vstd::prelude::*;
use vstd::string::StringExecFns;
use crate::encode::encode_notification_request;
use crate::model::{ApiError, Credential, NotificationRequest, NotificationResponse};
use crate::wire::lookup_field;

verus! {

/// An HTTP status is a success exactly when it lies in the 2xx range.
pub fn status_is_success(status: u16) -> (r: bool)
    ensures
        r == (200 <= status < 300),
{
    200 <= status && status < 300
}

/// The URL of the one notification POST: the fixed versioned path with the
/// channel appended for the header-credential variant, or the secret embedded
/// as the leading path segment for the path-credential variant.
pub open spec fn spec_notification_url(c: Credential, channel: Seq<char>) -> Seq<char> {
    match c {
        Credential::ApiKey(_) => "https://api.pushcut.io/v1/notifications/"@ + channel,
        Credential::PathSecret(s) => "https://api.pushcut.io/"@ + s@ + "/notifications/"@
            + channel,
    }
}

/// The URL of the device listing GET, for either credential variant.
pub open spec fn spec_devices_url(c: Credential) -> Seq<char> {
    match c {
        Credential::ApiKey(_) => "https://api.pushcut.io/v1/devices"@,
        Credential::PathSecret(s) => "https://api.pushcut.io/"@ + s@ + "/devices"@,
    }
}

/// Builds the notification URL for this credential and channel.
pub fn notification_url(c: &Credential, channel: &str) -> (r: String)
    ensures
        r@ == spec_notification_url(*c, channel@),
{
    let mut u = String::new();
    match c {
        Credential::ApiKey(_) => {
            u.append("https://api.pushcut.io/v1/notifications/");
            u.append(channel);
        },
        Credential::PathSecret(s) => {
            u.append("https://api.pushcut.io/");
            u.append(s.as_str());
            u.append("/notifications/");
            u.append(channel);
        },
    }
    proof {
        assert(u@ =~= spec_notification_url(*c, channel@));
    }
    u
}

/// Builds the device listing URL for this credential.
pub fn devices_url(c: &Credential) -> (r: String)
    ensures
        r@ == spec_devices_url(*c),
{
    let mut u = String::new();
    match c {
        Credential::ApiKey(_) => {
            u.append("https://api.pushcut.io/v1/devices");
        },
        Credential::PathSecret(s) => {
            u.append("https://api.pushcut.io/");
            u.append(s.as_str());
            u.append("/devices");
        },
    }
    proof {
        assert(u@ =~= spec_devices_url(*c));
    }
    u
}

/// The one request header that authenticates the call: `API-Key` with the key
/// for the header-credential variant, and none at all for the path-secret
/// variant, whose credential travels in the URL instead.
pub fn api_key_header(c: &Credential) -> (r: Option<(String, String)>)
    ensures
        match *c {
            Credential::ApiKey(k) => r matches Some(h) && h.0@ == "API-Key"@ && h.1@ == k@,
            Credential::PathSecret(_) => r is None,
        },
{
    match c {
        Credential::ApiKey(k) => Some(("API-Key".to_owned(), k.clone())),
        Credential::PathSecret(_) => None,
    }
}

/// Everything the single outbound POST of a send needs, computed from plain
/// values: the URL, the authentication header if any, and the encoded JSON
/// body. The caller issues exactly one POST with these and hands the outcome
/// to `interpret_send_response`.
pub fn prepare_send(c: &Credential, channel: &str, request: &NotificationRequest) -> (p: (
    String,
    Option<(String, String)>,
    String,
))
    ensures
        p.0@ == spec_notification_url(*c, channel@),
        match *c {
            Credential::ApiKey(k) => p.1 matches Some(h) && h.0@ == "API-Key"@ && h.1@ == k@,
            Credential::PathSecret(_) => p.1 is None,
        },
        p.2@ == request.wire(),
{
    let url = notification_url(c, channel);
    let header = api_key_header(c);
    let body = encode_notification_request(request);
    (url, header, body)
}

/// The key/value pairs of a parsed object, as plain character sequences.
pub open spec fn pairs_view(v: Seq<(String, String)>) -> Seq<(Seq<char>, Seq<char>)> {
    v.map_values(|p: (String, String)| (p.0@, p.1@))
}

/// The parsed objects of a device listing, each as its pair sequence.
pub open spec fn device_list_view(v: Seq<Vec<(String, String)>>) -> Seq<
    Seq<(Seq<char>, Seq<char>)>,
> {
    v.map_values(|d: Vec<(String, String)>| pairs_view(d@))
}

/// What a response body parses to when read as one string-keyed object:
/// its key/value pairs in ascending key order, or nothing when the text is
/// not such an object. A function of the text alone.
pub uninterp spec fn flat_object_of(s: Seq<char>) -> Option<Seq<(Seq<char>, Seq<char>)>>;

/// What a response body parses to when read as an array of string-keyed
/// objects. A function of the text alone.
pub uninterp spec fn flat_object_list_of(s: Seq<char>) -> Option<
    Seq<Seq<(Seq<char>, Seq<char>)>>,
>;

/// Relies on `serde_json::from_str` with a `BTreeMap<String, String>` target:
/// parses the text as one JSON object whose values are all strings, sorted by
/// key, and fails exactly on any other text. Deterministic in the text alone.
#[verifier::external_body]
fn parse_flat_object(s: &str) -> (r: Option<Vec<(String, String)>>)
    ensures
        (r is Some) == (flat_object_of(s@) is Some),
        r matches Some(v) ==> flat_object_of(s@) == Some(pairs_view(v@)),
{
    match serde_json::from_str::<std::collections::BTreeMap<String, String>>(s) {
        Ok(m) => Some(m.into_iter().collect()),
        Err(_) => None,
    }
}

/// Relies on `serde_json::from_str` with a `Vec<BTreeMap<String, String>>`
/// target: parses the text as a JSON array of objects whose values are all
/// strings, each sorted by key, and fails exactly on any other text.
/// Deterministic in the text alone.
#[verifier::external_body]
fn parse_flat_object_list(s: &str) -> (r: Option<Vec<Vec<(String, String)>>>)
    ensures
        (r is Some) == (flat_object_list_of(s@) is Some),
        r matches Some(v) ==> flat_object_list_of(s@) == Some(device_list_view(v@)),
{
    match serde_json::from_str::<Vec<std::collections::BTreeMap<String, String>>>(s) {
        Ok(l) => Some(l.into_iter().map(|m| m.into_iter().collect()).collect()),
        Err(_) => None,
    }
}

/// Skipping a prefix that misses the key leaves the lookup unchanged.
proof fn lemma_lookup_from(m: Seq<(Seq<char>, Seq<char>)>, k: Seq<char>, i: int)
    requires
        0 <= i <= m.len(),
        forall|j: int| 0 <= j < i ==> m[j].0 != k,
    ensures
        lookup_field(m, k) == lookup_field(m.subrange(i, m.len() as int), k),
    decreases i,
{
    if i == 0 {
        assert(m.subrange(0, m.len() as int) =~= m);
    } else {
        assert(forall|j: int| 0 <= j < i - 1 ==> m.drop_first()[j] == m[j + 1]);
        lemma_lookup_from(m.drop_first(), k, i - 1);
        assert(m.drop_first().subrange(i - 1, m.drop_first().len() as int) =~= m.subrange(
            i,
            m.len() as int,
        ));
    }
}

/// The value under the first occurrence of the key among the pairs, cloned.
pub fn find_value(pairs: &Vec<(String, String)>, key: &String) -> (r: Option<String>)
    ensures
        match r {
            Some(v) => lookup_field(pairs_view(pairs@), key@) == Some(v@),
            None => lookup_field(pairs_view(pairs@), key@) is None,
        },
{
    let n: usize = pairs.len();
    let mut i: usize = 0;
    while i < n
        invariant
            i <= n,
            n == pairs@.len(),
            forall|j: int| 0 <= j < i ==> pairs_view(pairs@)[j].0 != key@,
        decreases n - i,
    {
        if pairs[i].0 == *key {
            proof {
                lemma_lookup_from(pairs_view(pairs@), key@, i as int);
                assert(pairs_view(pairs@).subrange(i as int, pairs@.len() as int)[0]
                    == pairs_view(pairs@)[i as int]);
            }
            return Some(pairs[i].1.clone());
        }
        i = i + 1;
    }
    proof {
        lemma_lookup_from(pairs_view(pairs@), key@, n as int);
        assert(pairs_view(pairs@).subrange(n as int, pairs@.len() as int) =~= Seq::<(
            Seq<char>,
            Seq<char>,
        )>::empty());
    }
    None
}

/// The typed acknowledgement carried by a parsed response object: its three
/// required fields, present or not.
pub open spec fn response_of(m: Seq<(Seq<char>, Seq<char>)>) -> Option<
    (Seq<char>, Seq<char>, Seq<char>),
> {
    match (lookup_field(m, "id"@), lookup_field(m, "message"@), lookup_field(
        m,
        "notificationId"@,
    )) {
        (Some(i), Some(msg), Some(nid)) => Some((i, msg, nid)),
        _ => None,
    }
}

/// Reads the typed acknowledgement out of parsed pairs: succeeds exactly when
/// all three required fields are present, with the fields equal to the values
/// under their keys.
pub fn response_from_pairs(pairs: &Vec<(String, String)>) -> (r: Result<
    NotificationResponse,
    ApiError,
>)
    ensures
        match response_of(pairs_view(pairs@)) {
            Some(t) => r matches Ok(resp) && resp.id@ == t.0 && resp.message@ == t.1
                && resp.notification_id@ == t.2,
            None => r matches Err(e) && e is Decode,
        },
{
    let id_key: String = "id".to_owned();
    let msg_key: String = "message".to_owned();
    let nid_key: String = "notificationId".to_owned();
    let idv = find_value(pairs, &id_key);
    let msgv = find_value(pairs, &msg_key);
    let nidv = find_value(pairs, &nid_key);
    match (idv, msgv, nidv) {
        (Some(i), Some(msg), Some(nid)) => Ok(
            NotificationResponse { id: i, message: msg, notification_id: nid },
        ),
        _ => Err(
            ApiError::Decode {
                detail: "the response object misses id, message or notificationId".to_owned(),
            },
        ),
    }
}

/// Judges the outcome of the one send POST. A status outside 2xx is a service
/// error carrying that status and body, whatever the body holds; a 2xx status
/// with a body that is not one string-keyed object, or misses a required
/// field, is a decode error; otherwise the typed acknowledgement is returned.
pub fn interpret_send_response(status: u16, body: &str) -> (r: Result<
    NotificationResponse,
    ApiError,
>)
    ensures
        !(200 <= status < 300) ==> (r matches Err(e) && e matches ApiError::Service {
            status: st,
            body: b,
        } && st == status && b@ == body@),
        (200 <= status < 300) ==> (match flat_object_of(body@) {
            Some(m) => match response_of(m) {
                Some(t) => r matches Ok(resp) && resp.id@ == t.0 && resp.message@ == t.1
                    && resp.notification_id@ == t.2,
                None => r matches Err(e) && e is Decode,
            },
            None => r matches Err(e) && e is Decode,
        }),
{
    if !status_is_success(status) {
        return Err(ApiError::Service { status, body: body.to_owned() });
    }
    match parse_flat_object(body) {
        Some(pairs) => response_from_pairs(&pairs),
        None => Err(
            ApiError::Decode {
                detail: "the response body is not a JSON object of strings".to_owned(),
            },
        ),
    }
}

/// Judges the outcome of the device listing GET: a status outside 2xx is a
/// service error, a body that is not an array of string-keyed objects a
/// decode error, and otherwise the parsed objects are returned as their
/// key/value pairs.
pub fn interpret_devices_response(status: u16, body: &str) -> (r: Result<
    Vec<Vec<(String, String)>>,
    ApiError,
>)
    ensures
        !(200 <= status < 300) ==> (r matches Err(e) && e matches ApiError::Service {
            status: st,
            body: b,
        } && st == status && b@ == body@),
        (200 <= status < 300) ==> (match flat_object_list_of(body@) {
            Some(l) => r matches Ok(v) && device_list_view(v@) == l,
            None => r matches Err(e) && e is Decode,
        }),
{
    if !status_is_success(status) {
        return Err(ApiError::Service { status, body: body.to_owned() });
    }
    match parse_flat_object_list(body) {
        Some(v) => Ok(v),
        None => Err(
            ApiError::Decode {
                detail: "the response body is not a JSON array of string objects".to_owned(),
            },
        ),
    }
}

} // verus!
