//! The canonical JSON wire format, at the specification level: how a string
//! is escaped and quoted, how a number is written in decimal, how an object
//! is assembled from its present fields and an array from its items, and
//! which key/value pairs each payload type contributes. The executable
//! encoder is proved to produce exactly these character sequences.
use vstd::prelude::*;
use crate::model::{Action, BackgroundOptions, HttpHeader, HttpMethod, Image, NotificationRequest, Sound};

verus! {

/// The lower-case hex digit for a value below 16.
pub open spec fn hex_char(d: int) -> char {
    if d == 0 { '0' }
    else if d == 1 { '1' }
    else if d == 2 { '2' }
    else if d == 3 { '3' }
    else if d == 4 { '4' }
    else if d == 5 { '5' }
    else if d == 6 { '6' }
    else if d == 7 { '7' }
    else if d == 8 { '8' }
    else if d == 9 { '9' }
    else if d == 10 { 'a' }
    else if d == 11 { 'b' }
    else if d == 12 { 'c' }
    else if d == 13 { 'd' }
    else if d == 14 { 'e' }
    else { 'f' }
}

/// The decimal digit character for a value below 10.
pub open spec fn digit_char(d: int) -> char {
    hex_char(if 0 <= d < 10 { d } else { 0 })
}

/// The decimal rendering of a natural number, without leading zeros
/// (a single `0` for zero).
pub open spec fn dec_text(n: nat) -> Seq<char>
    decreases n,
{
    if n < 10 {
        seq![digit_char(n as int)]
    } else {
        dec_text(n / 10) + seq![digit_char((n % 10) as int)]
    }
}

/// How one character appears inside a JSON string literal: quote and
/// backslash are escaped, the common control characters get their short
/// escapes, any other control character a `\u00XX` escape, and everything
/// else stands as itself.
pub open spec fn esc_char(c: char) -> Seq<char> {
    if c == '"' { seq!['\\', '"'] }
    else if c == '\\' { seq!['\\', '\\'] }
    else if c == '\n' { seq!['\\', 'n'] }
    else if c == '\r' { seq!['\\', 'r'] }
    else if c == '\t' { seq!['\\', 't'] }
    else if (c as u32) < 32 {
        seq!['\\', 'u', '0', '0', hex_char((c as u32) as int / 16), hex_char((c as u32) as int % 16)]
    } else {
        seq![c]
    }
}

/// A whole string escaped character by character.
pub open spec fn esc(s: Seq<char>) -> Seq<char>
    decreases s.len(),
{
    if s.len() == 0 {
        Seq::empty()
    } else {
        esc_char(s[0]) + esc(s.drop_first())
    }
}

/// A JSON string literal: the escaped contents between double quotes.
pub open spec fn json_string(s: Seq<char>) -> Seq<char> {
    seq!['"'] + esc(s) + seq!['"']
}

/// A JSON boolean literal.
pub open spec fn bool_text(b: bool) -> Seq<char> {
    if b { "true"@ } else { "false"@ }
}

/// One rendered object member: the quoted key, a colon, and the already
/// rendered value.
pub open spec fn field_text(f: (Seq<char>, Seq<char>)) -> Seq<char> {
    seq!['"'] + f.0 + seq!['"', ':'] + f.1
}

/// The separator written before a member or item, given how many stand
/// before it: nothing before the first, a comma before every later one.
pub open spec fn sep(n: nat) -> Seq<char> {
    if n == 0 { Seq::empty() } else { seq![','] }
}

/// The members of an object joined with commas.
pub open spec fn join_fields(fs: Seq<(Seq<char>, Seq<char>)>) -> Seq<char>
    decreases fs.len(),
{
    if fs.len() == 0 {
        Seq::empty()
    } else {
        field_text(fs[0]) + sep((fs.len() - 1) as nat) + join_fields(fs.drop_first())
    }
}

/// A JSON object holding exactly the given members, in order.
pub open spec fn obj_text(fs: Seq<(Seq<char>, Seq<char>)>) -> Seq<char> {
    seq!['{'] + join_fields(fs) + seq!['}']
}

/// The items of an array joined with commas.
pub open spec fn join_items(es: Seq<Seq<char>>) -> Seq<char>
    decreases es.len(),
{
    if es.len() == 0 {
        Seq::empty()
    } else {
        es[0] + sep((es.len() - 1) as nat) + join_items(es.drop_first())
    }
}

/// A JSON array holding exactly the given rendered items, in order.
pub open spec fn arr_text(es: Seq<Seq<char>>) -> Seq<char> {
    seq!['['] + join_items(es) + seq![']']
}

/// The rendered items of a header array.
pub open spec fn header_items(hs: Seq<HttpHeader>) -> Seq<Seq<char>> {
    hs.map_values(|h: HttpHeader| h.wire())
}

/// The rendered items of an action array.
pub open spec fn action_items(xs: Seq<Action>) -> Seq<Seq<char>> {
    xs.map_values(|a: Action| a.wire())
}

/// The rendered items of a device-name array.
pub open spec fn device_items(ds: Seq<String>) -> Seq<Seq<char>> {
    ds.map_values(|d: String| json_string(d@))
}

/// Whether an object's member list carries the given key.
pub open spec fn obj_has_key(fs: Seq<(Seq<char>, Seq<char>)>, k: Seq<char>) -> bool {
    exists|i: int| 0 <= i < fs.len() && fs[i].0 == k
}

/// The value under the first occurrence of a key in an object's member list.
pub open spec fn lookup_field(fs: Seq<(Seq<char>, Seq<char>)>, k: Seq<char>) -> Option<Seq<char>>
    decreases fs.len(),
{
    if fs.len() == 0 {
        None
    } else if fs[0].0 == k {
        Some(fs[0].1)
    } else {
        lookup_field(fs.drop_first(), k)
    }
}

impl Sound {
    /// The wire form of a sound: a bare JSON string, never a tagged object.
    pub open spec fn wire(self) -> Seq<char> {
        json_string(self.text())
    }
}

impl Image {
    /// The wire form of an image selector: a bare JSON string.
    pub open spec fn wire(self) -> Seq<char> {
        json_string(self.text())
    }
}

impl HttpMethod {
    /// The wire form of a method: its name as a JSON string.
    pub open spec fn wire(self) -> Seq<char> {
        json_string(self.text())
    }
}

impl HttpHeader {
    /// A header is an object of its two required members.
    pub open spec fn fields(self) -> Seq<(Seq<char>, Seq<char>)> {
        seq![("key"@, json_string(self.key@)), ("value"@, json_string(self.value@))]
    }

    pub open spec fn wire(self) -> Seq<char> {
        obj_text(self.fields())
    }
}

impl BackgroundOptions {
    /// The members present in the encoded options: one per field that is set,
    /// in declaration order; an absent field contributes nothing.
    pub open spec fn fields(self) -> Seq<(Seq<char>, Seq<char>)> {
        (match self.http_method {
            Some(m) => seq![("httpMethod"@, m.wire())],
            None => Seq::empty(),
        }) + (match self.http_content_type {
            Some(t) => seq![("httpContentType"@, json_string(t@))],
            None => Seq::empty(),
        }) + (match self.http_header {
            Some(hs) => seq![("httpHeader"@, arr_text(header_items(hs@)))],
            None => Seq::empty(),
        })
    }

    pub open spec fn wire(self) -> Seq<char> {
        obj_text(self.fields())
    }
}

impl Action {
    /// The leading optional members: name, input, keepNotification.
    pub open spec fn fields_basic_part(self) -> Seq<(Seq<char>, Seq<char>)> {
        (match self.name {
            Some(s) => seq![("name"@, json_string(s@))],
            None => Seq::empty(),
        }) + (match self.input {
            Some(s) => seq![("input"@, json_string(s@))],
            None => Seq::empty(),
        }) + (match self.keep_notification {
            Some(b) => seq![("keepNotification"@, bool_text(b))],
            None => Seq::empty(),
        })
    }

    /// The remaining optional members: runOnServer, online,
    /// urlBackgroundOptions.
    pub open spec fn fields_server_part(self) -> Seq<(Seq<char>, Seq<char>)> {
        (match self.run_on_server {
            Some(b) => seq![("runOnServer"@, bool_text(b))],
            None => Seq::empty(),
        }) + (match self.online {
            Some(s) => seq![("online"@, json_string(s@))],
            None => Seq::empty(),
        }) + (match self.url_background_options {
            Some(o) => seq![("urlBackgroundOptions"@, o.wire())],
            None => Seq::empty(),
        })
    }

    /// The members present in the encoded action: one per optional field that
    /// is set, in declaration order, and the action kind last, flattened to a
    /// direct member under the kind's own name.
    pub open spec fn fields(self) -> Seq<(Seq<char>, Seq<char>)> {
        self.fields_basic_part() + self.fields_server_part() + seq![
            (self.kind.key(), json_string(self.kind.text())),
        ]
    }

    pub open spec fn wire(self) -> Seq<char> {
        obj_text(self.fields())
    }
}

impl NotificationRequest {
    /// The textual members: id, text, title.
    pub open spec fn fields_text_part(self) -> Seq<(Seq<char>, Seq<char>)> {
        (match self.id {
            Some(s) => seq![("id"@, json_string(s@))],
            None => Seq::empty(),
        }) + (match self.text {
            Some(s) => seq![("text"@, json_string(s@))],
            None => Seq::empty(),
        }) + (match self.title {
            Some(s) => seq![("title"@, json_string(s@))],
            None => Seq::empty(),
        })
    }

    /// The members carrying actions and media: defaultAction, actions,
    /// sound, image.
    pub open spec fn fields_media_part(self) -> Seq<(Seq<char>, Seq<char>)> {
        (match self.default_action {
            Some(a) => seq![("defaultAction"@, a.wire())],
            None => Seq::empty(),
        }) + (match self.actions {
            Some(xs) => seq![("actions"@, arr_text(action_items(xs@)))],
            None => Seq::empty(),
        }) + (match self.sound {
            Some(s) => seq![("sound"@, s.wire())],
            None => Seq::empty(),
        }) + (match self.image {
            Some(i) => seq![("image"@, i.wire())],
            None => Seq::empty(),
        })
    }

    /// The members addressing the delivery: input, devices, isTimeSensitive.
    pub open spec fn fields_target_part(self) -> Seq<(Seq<char>, Seq<char>)> {
        (match self.input {
            Some(s) => seq![("input"@, json_string(s@))],
            None => Seq::empty(),
        }) + (match self.devices {
            Some(ds) => seq![("devices"@, arr_text(device_items(ds@)))],
            None => Seq::empty(),
        }) + (match self.is_time_sensitive {
            Some(b) => seq![("isTimeSensitive"@, bool_text(b))],
            None => Seq::empty(),
        })
    }

    /// The members about threading and timing: threadId, delay,
    /// scheduleTimestamp.
    pub open spec fn fields_schedule_part(self) -> Seq<(Seq<char>, Seq<char>)> {
        (match self.thread_id {
            Some(s) => seq![("threadId"@, json_string(s@))],
            None => Seq::empty(),
        }) + (match self.delay {
            Some(s) => seq![("delay"@, json_string(s@))],
            None => Seq::empty(),
        }) + (match self.schedule_timestamp {
            Some(n) => seq![("scheduleTimestamp"@, dec_text(n as nat))],
            None => Seq::empty(),
        })
    }

    /// The members present in the encoded request: one per field that is set,
    /// in declaration order; an absent field contributes nothing, at this
    /// level just as inside every nested object.
    pub open spec fn fields(self) -> Seq<(Seq<char>, Seq<char>)> {
        self.fields_text_part() + self.fields_media_part() + self.fields_target_part()
            + self.fields_schedule_part()
    }

    pub open spec fn wire(self) -> Seq<char> {
        obj_text(self.fields())
    }
}

} // verus!
