//! The global guarantees of the wire format, each proved once and for all
//! values: absent fields leave no key behind at any nesting level, encoding
//! is deterministic, the action kind flattens to a sibling field that
//! excludes the other kinds, and the sound and image unions encode as bare
//! strings without a variant tag.
use vstd::prelude::*;
use crate::model::{Action, BackgroundOptions, Image, NotificationRequest, Sound};
use crate::wire::{json_string, lookup_field, obj_has_key};

verus! {

/// A key occurs in a joined member list exactly when it occurs in one half.
proof fn lemma_has_key_concat(a: Seq<(Seq<char>, Seq<char>)>, b: Seq<(Seq<char>, Seq<char>)>)
    ensures
        forall|k: Seq<char>|
            #[trigger] obj_has_key(a + b, k) == (obj_has_key(a, k) || obj_has_key(b, k)),
{
    assert forall|k: Seq<char>|
        #[trigger] obj_has_key(a + b, k) == (obj_has_key(a, k) || obj_has_key(b, k)) by {
        if obj_has_key(a, k) {
            let i = choose|i: int| 0 <= i < a.len() && a[i].0 == k;
            assert((a + b)[i].0 == k);
        }
        if obj_has_key(b, k) {
            let i = choose|i: int| 0 <= i < b.len() && b[i].0 == k;
            assert((a + b)[a.len() + i].0 == k);
        }
        if obj_has_key(a + b, k) {
            let i = choose|i: int| 0 <= i < (a + b).len() && (a + b)[i].0 == k;
            if i < a.len() {
                assert(a[i].0 == k);
            } else {
                assert(b[i - a.len()].0 == k);
            }
        }
    }
}

/// A singleton member list holds exactly its own key.
proof fn lemma_has_key_single(f: (Seq<char>, Seq<char>))
    ensures
        forall|k: Seq<char>| #[trigger] obj_has_key(seq![f], k) == (f.0 == k),
{
    assert forall|k: Seq<char>| #[trigger] obj_has_key(seq![f], k) == (f.0 == k) by {
        if f.0 == k {
            assert(seq![f][0].0 == k);
        }
    }
}

/// No key at all occurs in an empty member list.
proof fn lemma_has_key_empty()
    ensures
        forall|k: Seq<char>| !(#[trigger] obj_has_key(Seq::<(Seq<char>, Seq<char>)>::empty(), k)),
{
}

/// Looking a key up past a prefix that does not hold it reads the suffix.
proof fn lemma_lookup_concat_absent(
    a: Seq<(Seq<char>, Seq<char>)>,
    b: Seq<(Seq<char>, Seq<char>)>,
    k: Seq<char>,
)
    requires
        !obj_has_key(a, k),
    ensures
        lookup_field(a + b, k) == lookup_field(b, k),
    decreases a.len(),
{
    if a.len() == 0 {
        assert(a + b =~= b);
    } else {
        assert(a[0].0 != k);
        assert((a + b).drop_first() =~= a.drop_first() + b);
        assert(forall|j: int| 0 <= j < a.drop_first().len() ==> a.drop_first()[j] == a[j + 1]);
        assert(!obj_has_key(a.drop_first(), k));
        lemma_lookup_concat_absent(a.drop_first(), b, k);
        assert((a + b)[0] == a[0]);
    }
}

/// Law: a request field left absent produces no corresponding key in the
/// encoded object, and a field that is set always produces its key — for
/// every request value, field by field.
pub proof fn lemma_request_omission(r: NotificationRequest)
    ensures
        obj_has_key(r.fields(), "id"@) == (r.id is Some),
        obj_has_key(r.fields(), "text"@) == (r.text is Some),
        obj_has_key(r.fields(), "title"@) == (r.title is Some),
        obj_has_key(r.fields(), "defaultAction"@) == (r.default_action is Some),
        obj_has_key(r.fields(), "actions"@) == (r.actions is Some),
        obj_has_key(r.fields(), "sound"@) == (r.sound is Some),
        obj_has_key(r.fields(), "image"@) == (r.image is Some),
        obj_has_key(r.fields(), "input"@) == (r.input is Some),
        obj_has_key(r.fields(), "devices"@) == (r.devices is Some),
        obj_has_key(r.fields(), "isTimeSensitive"@) == (r.is_time_sensitive is Some),
        obj_has_key(r.fields(), "threadId"@) == (r.thread_id is Some),
        obj_has_key(r.fields(), "delay"@) == (r.delay is Some),
        obj_has_key(r.fields(), "scheduleTimestamp"@) == (r.schedule_timestamp is Some),
{
    reveal_strlit("id");
    reveal_strlit("text");
    reveal_strlit("title");
    reveal_strlit("defaultAction");
    reveal_strlit("actions");
    reveal_strlit("sound");
    reveal_strlit("image");
    reveal_strlit("input");
    reveal_strlit("devices");
    reveal_strlit("isTimeSensitive");
    reveal_strlit("threadId");
    reveal_strlit("delay");
    reveal_strlit("scheduleTimestamp");
    assert("id"@.len() == 2);
    assert("text"@.len() == 4);
    assert("title"@.len() == 5);
    assert("defaultAction"@.len() == 13);
    assert("actions"@.len() == 7);
    assert("sound"@.len() == 5);
    assert("image"@.len() == 5);
    assert("input"@.len() == 5);
    assert("devices"@.len() == 7);
    assert("isTimeSensitive"@.len() == 15);
    assert("threadId"@.len() == 8);
    assert("delay"@.len() == 5);
    assert("scheduleTimestamp"@.len() == 17);
    assert("title"@ != "sound"@) by {
        assert("title"@[0] != "sound"@[0]);
    }
    assert("title"@ != "image"@) by {
        assert("title"@[0] != "image"@[0]);
    }
    assert("title"@ != "input"@) by {
        assert("title"@[0] != "input"@[0]);
    }
    assert("title"@ != "delay"@) by {
        assert("title"@[0] != "delay"@[0]);
    }
    assert("sound"@ != "image"@) by {
        assert("sound"@[0] != "image"@[0]);
    }
    assert("sound"@ != "input"@) by {
        assert("sound"@[0] != "input"@[0]);
    }
    assert("sound"@ != "delay"@) by {
        assert("sound"@[0] != "delay"@[0]);
    }
    assert("image"@ != "input"@) by {
        assert("image"@[1] != "input"@[1]);
    }
    assert("image"@ != "delay"@) by {
        assert("image"@[0] != "delay"@[0]);
    }
    assert("input"@ != "delay"@) by {
        assert("input"@[0] != "delay"@[0]);
    }
    assert("actions"@ != "devices"@) by {
        assert("actions"@[0] != "devices"@[0]);
    }
    let p1 = r.fields_text_part();
    let p2 = r.fields_media_part();
    let p3 = r.fields_target_part();
    let p4 = r.fields_schedule_part();
    lemma_has_key_concat(p1, p2);
    lemma_has_key_concat(p1 + p2, p3);
    lemma_has_key_concat(p1 + p2 + p3, p4);
    lemma_component_keys(r);
}

/// Distributes key membership over every component of every part.
proof fn lemma_component_keys(r: NotificationRequest)
    ensures
        forall|k: Seq<char>|
            #[trigger] obj_has_key(r.fields_text_part(), k) == ((r.id is Some && "id"@ == k) || (
            r.text is Some && "text"@ == k) || (r.title is Some && "title"@ == k)),
        forall|k: Seq<char>|
            #[trigger] obj_has_key(r.fields_media_part(), k) == ((r.default_action is Some
                && "defaultAction"@ == k) || (r.actions is Some && "actions"@ == k) || (
            r.sound is Some && "sound"@ == k) || (r.image is Some && "image"@ == k)),
        forall|k: Seq<char>|
            #[trigger] obj_has_key(r.fields_target_part(), k) == ((r.input is Some && "input"@
                == k) || (r.devices is Some && "devices"@ == k) || (r.is_time_sensitive is Some
                && "isTimeSensitive"@ == k)),
        forall|k: Seq<char>|
            #[trigger] obj_has_key(r.fields_schedule_part(), k) == ((r.thread_id is Some
                && "threadId"@ == k) || (r.delay is Some && "delay"@ == k) || (
            r.schedule_timestamp is Some && "scheduleTimestamp"@ == k)),
{
    lemma_has_key_empty();
    match r.id {
        Some(s) => lemma_has_key_single(("id"@, json_string(s@))),
        None => (),
    }
    match r.text {
        Some(s) => lemma_has_key_single(("text"@, json_string(s@))),
        None => (),
    }
    match r.title {
        Some(s) => lemma_has_key_single(("title"@, json_string(s@))),
        None => (),
    }
    match r.default_action {
        Some(a) => lemma_has_key_single(("defaultAction"@, a.wire())),
        None => (),
    }
    match r.actions {
        Some(xs) => lemma_has_key_single(
            ("actions"@, crate::wire::arr_text(crate::wire::action_items(xs@))),
        ),
        None => (),
    }
    match r.sound {
        Some(s) => lemma_has_key_single(("sound"@, s.wire())),
        None => (),
    }
    match r.image {
        Some(i) => lemma_has_key_single(("image"@, i.wire())),
        None => (),
    }
    match r.input {
        Some(s) => lemma_has_key_single(("input"@, json_string(s@))),
        None => (),
    }
    match r.devices {
        Some(ds) => lemma_has_key_single(
            ("devices"@, crate::wire::arr_text(crate::wire::device_items(ds@))),
        ),
        None => (),
    }
    match r.is_time_sensitive {
        Some(b) => lemma_has_key_single(("isTimeSensitive"@, crate::wire::bool_text(b))),
        None => (),
    }
    match r.thread_id {
        Some(s) => lemma_has_key_single(("threadId"@, json_string(s@))),
        None => (),
    }
    match r.delay {
        Some(s) => lemma_has_key_single(("delay"@, json_string(s@))),
        None => (),
    }
    match r.schedule_timestamp {
        Some(n) => lemma_has_key_single(("scheduleTimestamp"@, crate::wire::dec_text(n as nat))),
        None => (),
    }
    let c1 = (match r.id {
        Some(s) => seq![("id"@, json_string(s@))],
        None => Seq::<(Seq<char>, Seq<char>)>::empty(),
    });
    let c2 = (match r.text {
        Some(s) => seq![("text"@, json_string(s@))],
        None => Seq::<(Seq<char>, Seq<char>)>::empty(),
    });
    lemma_has_key_concat(c1, c2);
    lemma_has_key_concat(
        c1 + c2,
        (match r.title {
            Some(s) => seq![("title"@, json_string(s@))],
            None => Seq::<(Seq<char>, Seq<char>)>::empty(),
        }),
    );
    let d1 = (match r.default_action {
        Some(a) => seq![("defaultAction"@, a.wire())],
        None => Seq::<(Seq<char>, Seq<char>)>::empty(),
    });
    let d2 = (match r.actions {
        Some(xs) => seq![("actions"@, crate::wire::arr_text(crate::wire::action_items(xs@)))],
        None => Seq::<(Seq<char>, Seq<char>)>::empty(),
    });
    let d3 = (match r.sound {
        Some(s) => seq![("sound"@, s.wire())],
        None => Seq::<(Seq<char>, Seq<char>)>::empty(),
    });
    let d4 = (match r.image {
        Some(i) => seq![("image"@, i.wire())],
        None => Seq::<(Seq<char>, Seq<char>)>::empty(),
    });
    lemma_has_key_concat(d1, d2);
    lemma_has_key_concat(d1 + d2, d3);
    lemma_has_key_concat(d1 + d2 + d3, d4);
    let e1 = (match r.input {
        Some(s) => seq![("input"@, json_string(s@))],
        None => Seq::<(Seq<char>, Seq<char>)>::empty(),
    });
    let e2 = (match r.devices {
        Some(ds) => seq![("devices"@, crate::wire::arr_text(crate::wire::device_items(ds@)))],
        None => Seq::<(Seq<char>, Seq<char>)>::empty(),
    });
    lemma_has_key_concat(e1, e2);
    lemma_has_key_concat(
        e1 + e2,
        (match r.is_time_sensitive {
            Some(b) => seq![("isTimeSensitive"@, crate::wire::bool_text(b))],
            None => Seq::<(Seq<char>, Seq<char>)>::empty(),
        }),
    );
    let f1 = (match r.thread_id {
        Some(s) => seq![("threadId"@, json_string(s@))],
        None => Seq::<(Seq<char>, Seq<char>)>::empty(),
    });
    let f2 = (match r.delay {
        Some(s) => seq![("delay"@, json_string(s@))],
        None => Seq::<(Seq<char>, Seq<char>)>::empty(),
    });
    lemma_has_key_concat(f1, f2);
    lemma_has_key_concat(
        f1 + f2,
        (match r.schedule_timestamp {
            Some(n) => seq![("scheduleTimestamp"@, crate::wire::dec_text(n as nat))],
            None => Seq::<(Seq<char>, Seq<char>)>::empty(),
        }),
    );
}

/// Names every key that can occur in an encoded action, with its condition.
proof fn lemma_action_component_keys(a: Action)
    ensures
        forall|k: Seq<char>|
            #[trigger] obj_has_key(a.fields_basic_part(), k) == ((a.name is Some && "name"@ == k)
                || (a.input is Some && "input"@ == k) || (a.keep_notification is Some
                && "keepNotification"@ == k)),
        forall|k: Seq<char>|
            #[trigger] obj_has_key(a.fields_server_part(), k) == ((a.run_on_server is Some
                && "runOnServer"@ == k) || (a.online is Some && "online"@ == k) || (
            a.url_background_options is Some && "urlBackgroundOptions"@ == k)),
        forall|k: Seq<char>|
            #[trigger] obj_has_key(a.fields(), k) == (obj_has_key(a.fields_basic_part(), k)
                || obj_has_key(a.fields_server_part(), k) || a.kind.key() == k),
{
    lemma_has_key_empty();
    match a.name {
        Some(s) => lemma_has_key_single(("name"@, json_string(s@))),
        None => (),
    }
    match a.input {
        Some(s) => lemma_has_key_single(("input"@, json_string(s@))),
        None => (),
    }
    match a.keep_notification {
        Some(b) => lemma_has_key_single(("keepNotification"@, crate::wire::bool_text(b))),
        None => (),
    }
    match a.run_on_server {
        Some(b) => lemma_has_key_single(("runOnServer"@, crate::wire::bool_text(b))),
        None => (),
    }
    match a.online {
        Some(s) => lemma_has_key_single(("online"@, json_string(s@))),
        None => (),
    }
    match a.url_background_options {
        Some(o) => lemma_has_key_single(("urlBackgroundOptions"@, o.wire())),
        None => (),
    }
    lemma_has_key_single((a.kind.key(), json_string(a.kind.text())));
    let c1 = (match a.name {
        Some(s) => seq![("name"@, json_string(s@))],
        None => Seq::<(Seq<char>, Seq<char>)>::empty(),
    });
    let c2 = (match a.input {
        Some(s) => seq![("input"@, json_string(s@))],
        None => Seq::<(Seq<char>, Seq<char>)>::empty(),
    });
    let c3 = (match a.keep_notification {
        Some(b) => seq![("keepNotification"@, crate::wire::bool_text(b))],
        None => Seq::<(Seq<char>, Seq<char>)>::empty(),
    });
    lemma_has_key_concat(c1, c2);
    lemma_has_key_concat(c1 + c2, c3);
    let d1 = (match a.run_on_server {
        Some(b) => seq![("runOnServer"@, crate::wire::bool_text(b))],
        None => Seq::<(Seq<char>, Seq<char>)>::empty(),
    });
    let d2 = (match a.online {
        Some(s) => seq![("online"@, json_string(s@))],
        None => Seq::<(Seq<char>, Seq<char>)>::empty(),
    });
    let d3 = (match a.url_background_options {
        Some(o) => seq![("urlBackgroundOptions"@, o.wire())],
        None => Seq::<(Seq<char>, Seq<char>)>::empty(),
    });
    lemma_has_key_concat(d1, d2);
    lemma_has_key_concat(d1 + d2, d3);
    lemma_has_key_concat(a.fields_basic_part(), a.fields_server_part());
    lemma_has_key_concat(
        a.fields_basic_part() + a.fields_server_part(),
        seq![(a.kind.key(), json_string(a.kind.text()))],
    );
}

/// Reveals the action keys and the kind keys, with their lengths; every pair
/// differs in length, so all are distinct.
proof fn lemma_action_keys_distinct()
    ensures
        "name"@.len() == 4,
        "input"@.len() == 5,
        "keepNotification"@.len() == 16,
        "runOnServer"@.len() == 11,
        "online"@.len() == 6,
        "urlBackgroundOptions"@.len() == 20,
        "shortcut"@.len() == 8,
        "homekit"@.len() == 7,
        "url"@.len() == 3,
{
    reveal_strlit("name");
    reveal_strlit("input");
    reveal_strlit("keepNotification");
    reveal_strlit("runOnServer");
    reveal_strlit("online");
    reveal_strlit("urlBackgroundOptions");
    reveal_strlit("shortcut");
    reveal_strlit("homekit");
    reveal_strlit("url");
}

/// Law: an action field left absent produces no corresponding key in the
/// encoded object, a field that is set always produces its key, and the
/// member for the action kind is always present — for every action value.
pub proof fn lemma_action_omission(a: Action)
    ensures
        obj_has_key(a.fields(), "name"@) == (a.name is Some),
        obj_has_key(a.fields(), "input"@) == (a.input is Some),
        obj_has_key(a.fields(), "keepNotification"@) == (a.keep_notification is Some),
        obj_has_key(a.fields(), "runOnServer"@) == (a.run_on_server is Some),
        obj_has_key(a.fields(), "online"@) == (a.online is Some),
        obj_has_key(a.fields(), "urlBackgroundOptions"@) == (a.url_background_options is Some),
        obj_has_key(a.fields(), a.kind.key()),
{
    lemma_action_keys_distinct();
    lemma_action_component_keys(a);
}

/// Law: the action kind renders as one flat member named after the kind,
/// holding the kind's payload string, and the names of the two kinds that
/// are not active occur nowhere in the encoded action.
pub proof fn lemma_action_kind_flattening(a: Action)
    ensures
        obj_has_key(a.fields(), a.kind.key()),
        lookup_field(a.fields(), a.kind.key()) == Some(json_string(a.kind.text())),
        a.kind is Url ==> !obj_has_key(a.fields(), "shortcut"@) && !obj_has_key(
            a.fields(),
            "homekit"@,
        ),
        a.kind is Shortcut ==> !obj_has_key(a.fields(), "homekit"@) && !obj_has_key(
            a.fields(),
            "url"@,
        ),
        a.kind is Homekit ==> !obj_has_key(a.fields(), "shortcut"@) && !obj_has_key(
            a.fields(),
            "url"@,
        ),
{
    lemma_action_keys_distinct();
    lemma_action_component_keys(a);
    let front = a.fields_basic_part() + a.fields_server_part();
    lemma_has_key_concat(a.fields_basic_part(), a.fields_server_part());
    assert(!obj_has_key(front, a.kind.key()));
    lemma_lookup_concat_absent(front, seq![(a.kind.key(), json_string(a.kind.text()))], a.kind.key());
}

/// Law: a background-options field left absent produces no corresponding key
/// in the encoded object, and one that is set always produces its key.
pub proof fn lemma_background_options_omission(b: BackgroundOptions)
    ensures
        obj_has_key(b.fields(), "httpMethod"@) == (b.http_method is Some),
        obj_has_key(b.fields(), "httpContentType"@) == (b.http_content_type is Some),
        obj_has_key(b.fields(), "httpHeader"@) == (b.http_header is Some),
{
    reveal_strlit("httpMethod");
    reveal_strlit("httpContentType");
    reveal_strlit("httpHeader");
    assert("httpMethod"@.len() == 10);
    assert("httpContentType"@.len() == 15);
    assert("httpHeader"@.len() == 10);
    assert("httpMethod"@ != "httpHeader"@) by {
        assert("httpMethod"@[4] != "httpHeader"@[4]);
    }
    lemma_has_key_empty();
    match b.http_method {
        Some(m) => lemma_has_key_single(("httpMethod"@, m.wire())),
        None => (),
    }
    match b.http_content_type {
        Some(t) => lemma_has_key_single(("httpContentType"@, json_string(t@))),
        None => (),
    }
    match b.http_header {
        Some(hs) => lemma_has_key_single(
            ("httpHeader"@, crate::wire::arr_text(crate::wire::header_items(hs@))),
        ),
        None => (),
    }
    let c1 = (match b.http_method {
        Some(m) => seq![("httpMethod"@, m.wire())],
        None => Seq::<(Seq<char>, Seq<char>)>::empty(),
    });
    let c2 = (match b.http_content_type {
        Some(t) => seq![("httpContentType"@, json_string(t@))],
        None => Seq::<(Seq<char>, Seq<char>)>::empty(),
    });
    let c3 = (match b.http_header {
        Some(hs) => seq![("httpHeader"@, crate::wire::arr_text(crate::wire::header_items(hs@)))],
        None => Seq::<(Seq<char>, Seq<char>)>::empty(),
    });
    lemma_has_key_concat(c1, c2);
    lemma_has_key_concat(c1 + c2, c3);
}

/// Law: encoding is deterministic — two requests that are the same logical
/// value render to the identical character sequence, so two calls of the
/// encoder on equal values return byte-identical JSON strings.
pub proof fn lemma_encode_deterministic(a: NotificationRequest, b: NotificationRequest)
    requires
        a == b,
    ensures
        a.wire() == b.wire(),
{
}

/// A character that JSON leaves as itself: not the quote, not the
/// backslash, and not a control character.
spec fn is_plain_char(c: char) -> bool {
    c != '"' && c != '\\' && (c as u32) >= 32
}

/// Escaping changes nothing in a string of plain characters.
proof fn lemma_esc_plain(s: Seq<char>)
    requires
        forall|i: int| 0 <= i < s.len() ==> is_plain_char(#[trigger] s[i]),
    ensures
        crate::wire::esc(s) == s,
    decreases s.len(),
{
    if s.len() == 0 {
        assert(crate::wire::esc(s) =~= s);
    } else {
        assert(is_plain_char(s[0]));
        assert(crate::wire::esc_char(s[0]) =~= seq![s[0]]);
        assert(forall|i: int|
            0 <= i < s.drop_first().len() ==> is_plain_char(#[trigger] s.drop_first()[i]));
        lemma_esc_plain(s.drop_first());
        assert(crate::wire::esc(s) =~= s);
    }
}

/// Law: every sound, the eight fixed ones and the custom one alike, encodes
/// as a bare JSON string — no variant tag is ever emitted, and for the fixed
/// sounds the quoted text is literally the name, so a custom name is
/// indistinguishable from a fixed one but by its spelling.
pub proof fn lemma_sound_transparency(s: Sound)
    ensures
        s.wire() == json_string(s.text()),
        s matches Sound::Custom(name) ==> s.text() == name@,
        !(s matches Sound::Custom(_)) ==> s.wire() == seq!['"'] + s.text() + seq!['"'],
{
    match s {
        Sound::VibrateOnly => {
            reveal_strlit("vibrateOnly");
            assert(forall|i: int| 0 <= i < "vibrateOnly"@.len() ==> is_plain_char(#[trigger] "vibrateOnly"@[i]));
            lemma_esc_plain("vibrateOnly"@);
        },
        Sound::System => {
            reveal_strlit("system");
            assert(forall|i: int| 0 <= i < "system"@.len() ==> is_plain_char(#[trigger] "system"@[i]));
            lemma_esc_plain("system"@);
        },
        Sound::Subtle => {
            reveal_strlit("subtle");
            assert(forall|i: int| 0 <= i < "subtle"@.len() ==> is_plain_char(#[trigger] "subtle"@[i]));
            lemma_esc_plain("subtle"@);
        },
        Sound::Question => {
            reveal_strlit("question");
            assert(forall|i: int| 0 <= i < "question"@.len() ==> is_plain_char(#[trigger] "question"@[i]));
            lemma_esc_plain("question"@);
        },
        Sound::JobDone => {
            reveal_strlit("jobDone");
            assert(forall|i: int| 0 <= i < "jobDone"@.len() ==> is_plain_char(#[trigger] "jobDone"@[i]));
            lemma_esc_plain("jobDone"@);
        },
        Sound::Problem => {
            reveal_strlit("problem");
            assert(forall|i: int| 0 <= i < "problem"@.len() ==> is_plain_char(#[trigger] "problem"@[i]));
            lemma_esc_plain("problem"@);
        },
        Sound::Loud => {
            reveal_strlit("loud");
            assert(forall|i: int| 0 <= i < "loud"@.len() ==> is_plain_char(#[trigger] "loud"@[i]));
            lemma_esc_plain("loud"@);
        },
        Sound::Lasers => {
            reveal_strlit("lasers");
            assert(forall|i: int| 0 <= i < "lasers"@.len() ==> is_plain_char(#[trigger] "lasers"@[i]));
            lemma_esc_plain("lasers"@);
        },
        Sound::Custom(_) => (),
    }
}

/// Law: an image selector encodes as a bare JSON string holding its payload,
/// whichever representation was chosen — no variant tag is ever emitted.
pub proof fn lemma_image_transparency(img: Image)
    ensures
        img.wire() == json_string(img.text()),
        img matches Image::Reference(s) ==> img.text() == s@,
        img matches Image::Data(s) ==> img.text() == s@,
{
}

} // verus!
