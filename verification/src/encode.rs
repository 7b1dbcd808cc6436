//! The executable JSON encoder. Every function here appends to a character
//! buffer and is proved to append exactly the wire text that the
//! specification functions in `wire` assign to the value; the public entry
//! points hand the finished buffer back as a `String`.
use vstd::prelude::*;
use vstd::string::*;
use crate::model::{Action, ActionKind, BackgroundOptions, HttpHeader, HttpMethod, Image, NotificationRequest, Sound};
use crate::wire::{action_items, arr_text, bool_text, dec_text, device_items, digit_char, esc, esc_char, field_text, header_items, hex_char, join_fields, join_items, json_string, sep};

verus! {

/// The separator written before a member, given whether it is the first.
pub(crate) open spec fn sep_for(first: bool) -> Seq<char> {
    if first { Seq::empty() } else { seq![','] }
}

/// Escaping a string one character longer escapes the new character after
/// the rest.
proof fn lemma_esc_snoc(s: Seq<char>, c: char)
    ensures
        esc(s.push(c)) == esc(s) + esc_char(c),
    decreases s.len(),
{
    if s.len() == 0 {
        reveal_with_fuel(esc, 3);
        assert(s.push(c).drop_first() =~= Seq::<char>::empty());
        assert(esc(s.push(c)) =~= esc(s) + esc_char(c));
    } else {
        assert(s.push(c).drop_first() =~= s.drop_first().push(c));
        lemma_esc_snoc(s.drop_first(), c);
        assert(esc(s.push(c)) =~= esc(s) + esc_char(c));
    }
}

/// Joining one more member appends its separator and text after the rest.
proof fn lemma_join_fields_snoc(fs: Seq<(Seq<char>, Seq<char>)>, f: (Seq<char>, Seq<char>))
    ensures
        join_fields(fs.push(f)) == join_fields(fs) + sep(fs.len()) + field_text(f),
    decreases fs.len(),
{
    if fs.len() == 0 {
        reveal_with_fuel(join_fields, 3);
        assert(fs.push(f).drop_first() =~= Seq::<(Seq<char>, Seq<char>)>::empty());
        assert(join_fields(fs.push(f)) =~= join_fields(fs) + sep(fs.len()) + field_text(f));
    } else {
        assert(fs.push(f).drop_first() =~= fs.drop_first().push(f));
        lemma_join_fields_snoc(fs.drop_first(), f);
        assert(join_fields(fs.push(f)) =~= join_fields(fs) + sep(fs.len()) + field_text(f));
    }
}

/// Appending one member's lead-in and value after an object prefix extends
/// the joined member list by that member. The left side is grouped exactly as
/// the writer's buffer grows, so each field block closes with one call here.
proof fn lemma_append_field(
    base: Seq<char>,
    fs: Seq<(Seq<char>, Seq<char>)>,
    first: bool,
    k: Seq<char>,
    v: Seq<char>,
)
    requires
        first == (fs.len() == 0),
    ensures
        base + seq!['{'] + join_fields(fs) + sep_for(first) + seq!['"'] + k + seq!['"', ':'] + v
            == base + seq!['{'] + join_fields(fs.push((k, v))),
{
    lemma_join_fields_snoc(fs, (k, v));
    assert(base + seq!['{'] + join_fields(fs) + sep_for(first) + seq!['"'] + k + seq!['"', ':']
        + v =~= base + seq!['{'] + join_fields(fs.push((k, v))));
}

/// Joining one more item appends its separator and text after the rest.
proof fn lemma_join_items_snoc(es: Seq<Seq<char>>, e: Seq<char>)
    ensures
        join_items(es.push(e)) == join_items(es) + sep(es.len()) + e,
    decreases es.len(),
{
    if es.len() == 0 {
        reveal_with_fuel(join_items, 3);
        assert(es.push(e).drop_first() =~= Seq::<Seq<char>>::empty());
        assert(join_items(es.push(e)) =~= join_items(es) + sep(es.len()) + e);
    } else {
        assert(es.push(e).drop_first() =~= es.drop_first().push(e));
        lemma_join_items_snoc(es.drop_first(), e);
        assert(join_items(es.push(e)) =~= join_items(es) + sep(es.len()) + e);
    }
}

/// The lower-case hex digit for a value below 16, as an executable value.
fn hex_char_of(d: u8) -> (c: char)
    requires
        d < 16,
    ensures
        c == hex_char(d as int),
{
    if d == 0 { '0' }
    else if d == 1 { '1' }
    else if d == 2 { '2' }
    else if d == 3 { '3' }
    else if d == 4 { '4' }
    else if d == 5 { '5' }
    else if d == 6 { '6' }
    else if d == 7 { '7' }
    else if d == 8 { '8' }
    else if d == 9 { '9' }
    else if d == 10 { 'a' }
    else if d == 11 { 'b' }
    else if d == 12 { 'c' }
    else if d == 13 { 'd' }
    else if d == 14 { 'e' }
    else { 'f' }
}

/// Appends the characters of `s` unchanged.
fn push_str_chars(out: &mut Vec<char>, s: &str)
    ensures
        final(out)@ == old(out)@ + s@,
{
    let n: usize = s.unicode_len();
    let mut i: usize = 0;
    proof {
        assert(out@ =~= old(out)@ + s@.subrange(0, 0));
    }
    while i < n
        invariant
            i <= n,
            n == s@.len(),
            out@ == old(out)@ + s@.subrange(0, i as int),
        decreases n - i,
    {
        let c = s.get_char(i);
        out.push(c);
        proof {
            assert(s@.subrange(0, i as int + 1) =~= s@.subrange(0, i as int).push(s@[i as int]));
            assert(out@ =~= old(out)@ + s@.subrange(0, i as int + 1));
        }
        i = i + 1;
    }
    proof {
        assert(s@.subrange(0, n as int) =~= s@);
    }
}

/// Appends the JSON string literal for `s`: quoted, with every character
/// escaped as the wire format prescribes.
fn push_json_string(out: &mut Vec<char>, s: &str)
    ensures
        final(out)@ == old(out)@ + json_string(s@),
{
    out.push('"');
    let n: usize = s.unicode_len();
    let mut i: usize = 0;
    proof {
        assert(out@ =~= old(out)@ + seq!['"'] + esc(s@.subrange(0, 0)));
    }
    while i < n
        invariant
            i <= n,
            n == s@.len(),
            out@ == old(out)@ + seq!['"'] + esc(s@.subrange(0, i as int)),
        decreases n - i,
    {
        let c = s.get_char(i);
        if c == '"' {
            out.push('\\');
            out.push('"');
        } else if c == '\\' {
            out.push('\\');
            out.push('\\');
        } else if c == '\n' {
            out.push('\\');
            out.push('n');
        } else if c == '\r' {
            out.push('\\');
            out.push('r');
        } else if c == '\t' {
            out.push('\\');
            out.push('t');
        } else if (c as u32) < 32 {
            let code: u32 = c as u32;
            out.push('\\');
            out.push('u');
            out.push('0');
            out.push('0');
            out.push(hex_char_of((code / 16) as u8));
            out.push(hex_char_of((code % 16) as u8));
            proof {
                assert(((code / 16) as u8) as int == (c as u32) as int / 16);
                assert(((code % 16) as u8) as int == (c as u32) as int % 16);
            }
        } else {
            out.push(c);
        }
        proof {
            lemma_esc_snoc(s@.subrange(0, i as int), s@[i as int]);
            assert(s@.subrange(0, i as int + 1) =~= s@.subrange(0, i as int).push(s@[i as int]));
            assert(out@ =~= old(out)@ + seq!['"'] + esc(s@.subrange(0, i as int + 1)));
        }
        i = i + 1;
    }
    out.push('"');
    proof {
        assert(s@.subrange(0, n as int) =~= s@);
        assert(out@ =~= old(out)@ + json_string(s@));
    }
}

/// Appends the JSON boolean literal for `b`.
fn push_bool(out: &mut Vec<char>, b: bool)
    ensures
        final(out)@ == old(out)@ + bool_text(b),
{
    if b {
        push_str_chars(out, "true");
    } else {
        push_str_chars(out, "false");
    }
}

/// Appends the decimal rendering of `n`, without leading zeros.
fn push_u128_dec(out: &mut Vec<char>, n: u128)
    ensures
        final(out)@ == old(out)@ + dec_text(n as nat),
{
    let mut digits: Vec<char> = Vec::new();
    let mut m: u128 = n;
    proof {
        assert(dec_text(n as nat) =~= dec_text(m as nat) + digits@.reverse());
    }
    loop
        invariant_except_break
            dec_text(n as nat) == dec_text(m as nat) + digits@.reverse(),
        ensures
            dec_text(n as nat) == digits@.reverse(),
        decreases m,
    {
        let d: u8 = (m % 10) as u8;
        let ghost prev = digits@;
        digits.push(hex_char_of(d));
        proof {
            assert(d < 10);
            assert(hex_char(d as int) == digit_char((m as nat % 10) as int));
            assert(digits@.reverse() =~= seq![digit_char((m as nat % 10) as int)] + prev.reverse());
        }
        let m2: u128 = m / 10;
        if m2 == 0 {
            proof {
                assert(m < 10);
                assert(dec_text(m as nat) == seq![digit_char(m as int)]);
                assert(dec_text(n as nat) =~= digits@.reverse());
            }
            break;
        }
        proof {
            assert(m >= 10);
            assert(dec_text(m as nat) == dec_text((m as nat) / 10) + seq![digit_char((m as nat % 10) as int)]);
            assert(m2 as nat == (m as nat) / 10);
            assert(dec_text(n as nat) =~= dec_text(m2 as nat) + digits@.reverse());
        }
        m = m2;
    }
    let k: usize = digits.len();
    let mut j: usize = 0;
    proof {
        assert(out@ =~= old(out)@ + digits@.reverse().subrange(0, 0));
    }
    while j < k
        invariant
            j <= k,
            k == digits@.len(),
            dec_text(n as nat) == digits@.reverse(),
            out@ == old(out)@ + digits@.reverse().subrange(0, j as int),
        decreases k - j,
    {
        let c = digits[k - 1 - j];
        out.push(c);
        proof {
            assert(digits@.reverse()[j as int] == digits@[k - 1 - j as int]);
            assert(digits@.reverse().subrange(0, j as int + 1) =~= digits@.reverse().subrange(
                0,
                j as int,
            ).push(digits@.reverse()[j as int]));
            assert(out@ =~= old(out)@ + digits@.reverse().subrange(0, j as int + 1));
        }
        j = j + 1;
    }
    proof {
        assert(digits@.reverse().subrange(0, k as int) =~= digits@.reverse());
        assert(out@ =~= old(out)@ + dec_text(n as nat));
    }
}

/// Appends the lead-in of one object member: a comma unless it is the first,
/// then the quoted key and the colon.
fn push_field_start(out: &mut Vec<char>, first: bool, key: &str)
    ensures
        final(out)@ == old(out)@ + sep_for(first) + seq!['"'] + key@ + seq!['"', ':'],
{
    if !first {
        out.push(',');
    }
    out.push('"');
    push_str_chars(out, key);
    out.push('"');
    out.push(':');
    proof {
        assert(out@ =~= old(out)@ + sep_for(first) + seq!['"'] + key@ + seq!['"', ':']);
    }
}

/// Appends the wire form of a sound: a bare JSON string holding its name.
fn push_sound(out: &mut Vec<char>, s: &Sound)
    ensures
        final(out)@ == old(out)@ + s.wire(),
{
    match s {
        Sound::VibrateOnly => push_json_string(out, "vibrateOnly"),
        Sound::System => push_json_string(out, "system"),
        Sound::Subtle => push_json_string(out, "subtle"),
        Sound::Question => push_json_string(out, "question"),
        Sound::JobDone => push_json_string(out, "jobDone"),
        Sound::Problem => push_json_string(out, "problem"),
        Sound::Loud => push_json_string(out, "loud"),
        Sound::Lasers => push_json_string(out, "lasers"),
        Sound::Custom(name) => push_json_string(out, name.as_str()),
    }
}

/// Appends the wire form of an image selector: a bare JSON string.
fn push_image(out: &mut Vec<char>, img: &Image)
    ensures
        final(out)@ == old(out)@ + img.wire(),
{
    match img {
        Image::Reference(s) => push_json_string(out, s.as_str()),
        Image::Data(s) => push_json_string(out, s.as_str()),
    }
}

/// Appends the wire form of an HTTP method: its name as a JSON string.
fn push_method(out: &mut Vec<char>, m: &HttpMethod)
    ensures
        final(out)@ == old(out)@ + m.wire(),
{
    match m {
        HttpMethod::Get => push_json_string(out, "GET"),
        HttpMethod::Post => push_json_string(out, "POST"),
        HttpMethod::Put => push_json_string(out, "PUT"),
    }
}

/// Appends the wire form of one header: an object of its two members.
fn push_http_header(out: &mut Vec<char>, h: &HttpHeader)
    ensures
        final(out)@ == old(out)@ + h.wire(),
{
    out.push('{');
    push_field_start(out, true, "key");
    push_json_string(out, h.key.as_str());
    push_field_start(out, false, "value");
    push_json_string(out, h.value.as_str());
    out.push('}');
    proof {
        reveal_with_fuel(join_fields, 4);
        let fs = h.fields();
        assert(fs.drop_first() =~= seq![("value"@, json_string(h.value@))]);
        assert(fs.drop_first().drop_first() =~= Seq::<(Seq<char>, Seq<char>)>::empty());
        assert(join_fields(fs) =~= field_text(fs[0]) + seq![','] + field_text(fs.drop_first()[0]));
        assert(out@ =~= old(out)@ + h.wire());
    }
}

/// Appends the wire form of a header array.
fn push_headers(out: &mut Vec<char>, hs: &Vec<HttpHeader>)
    ensures
        final(out)@ == old(out)@ + arr_text(header_items(hs@)),
{
    out.push('[');
    let mut i: usize = 0;
    proof {
        assert(out@ =~= old(out)@ + seq!['['] + join_items(header_items(hs@).subrange(0, 0)));
    }
    while i < hs.len()
        invariant
            i <= hs@.len(),
            out@ == old(out)@ + seq!['['] + join_items(header_items(hs@).subrange(0, i as int)),
        decreases hs@.len() - i,
    {
        if i > 0 {
            out.push(',');
        }
        push_http_header(out, &hs[i]);
        proof {
            let items = header_items(hs@);
            lemma_join_items_snoc(items.subrange(0, i as int), items[i as int]);
            assert(items.subrange(0, i as int + 1) =~= items.subrange(0, i as int).push(
                items[i as int],
            ));
            assert(out@ =~= old(out)@ + seq!['['] + join_items(items.subrange(0, i as int + 1)));
        }
        i = i + 1;
    }
    out.push(']');
    proof {
        assert(header_items(hs@).subrange(0, hs@.len() as int) =~= header_items(hs@));
        assert(out@ =~= old(out)@ + arr_text(header_items(hs@)));
    }
}

/// Appends the wire form of the background options: an object holding only
/// the fields that are set.
#[verifier::rlimit(100)]
fn push_background_options(out: &mut Vec<char>, b: &BackgroundOptions)
    ensures
        final(out)@ == old(out)@ + b.wire(),
{
    out.push('{');
    let ghost mut fs: Seq<(Seq<char>, Seq<char>)> = Seq::empty();
    let mut first: bool = true;
    proof {
        assert(out@ =~= old(out)@ + seq!['{'] + join_fields(fs));
    }
    if let Some(m) = &b.http_method {
        push_field_start(out, first, "httpMethod");
        push_method(out, m);
        proof {
            lemma_append_field(old(out)@, fs, first, "httpMethod"@, m.wire());
            fs = fs.push(("httpMethod"@, m.wire()));
            assert(out@ == old(out)@ + seq!['{'] + join_fields(fs));
        }
        first = false;
    }
    if let Some(t) = &b.http_content_type {
        push_field_start(out, first, "httpContentType");
        push_json_string(out, t.as_str());
        proof {
            lemma_append_field(old(out)@, fs, first, "httpContentType"@, json_string(t@));
            fs = fs.push(("httpContentType"@, json_string(t@)));
            assert(out@ == old(out)@ + seq!['{'] + join_fields(fs));
        }
        first = false;
    }
    if let Some(hs) = &b.http_header {
        push_field_start(out, first, "httpHeader");
        push_headers(out, hs);
        proof {
            lemma_append_field(old(out)@, fs, first, "httpHeader"@, arr_text(header_items(hs@)));
            fs = fs.push(("httpHeader"@, arr_text(header_items(hs@))));
            assert(out@ == old(out)@ + seq!['{'] + join_fields(fs));
        }
        first = false;
    }
    out.push('}');
    proof {
        assert(fs =~= b.fields());
        assert(out@ =~= old(out)@ + b.wire());
    }
}

/// Writes the leading optional action members: name, input, keepNotification.
/// Continues an object whose text so far is the brace and the members in
/// `fs0`; hands back the grown member list and whether it is still empty.
fn push_action_basic_part(
    out: &mut Vec<char>,
    a: &Action,
    first: bool,
    base: Ghost<Seq<char>>,
    fs0: Ghost<Seq<(Seq<char>, Seq<char>)>>,
) -> (res: (bool, Ghost<Seq<(Seq<char>, Seq<char>)>>))
    requires
        old(out)@ == base@ + seq!['{'] + join_fields(fs0@),
        first == (fs0@.len() == 0),
    ensures
        res.1@ == fs0@ + a.fields_basic_part(),
        final(out)@ == base@ + seq!['{'] + join_fields(res.1@),
        res.0 == (res.1@.len() == 0),
{
    let ghost mut fs = fs0@;
    let mut first = first;
    let ghost fs1 = fs;
    if let Some(s) = &a.name {
        push_field_start(out, first, "name");
        push_json_string(out, s.as_str());
        proof {
            lemma_append_field(base@, fs, first, "name"@, json_string(s@));
            fs = fs.push(("name"@, json_string(s@)));
        }
        first = false;
    }
    proof {
        assert(fs =~= fs1 + (match a.name {
            Some(s) => seq![("name"@, json_string(s@))],
            None => Seq::empty(),
        }));
        assert(out@ == base@ + seq!['{'] + join_fields(fs));
    }
    let ghost fs2 = fs;
    if let Some(s) = &a.input {
        push_field_start(out, first, "input");
        push_json_string(out, s.as_str());
        proof {
            lemma_append_field(base@, fs, first, "input"@, json_string(s@));
            fs = fs.push(("input"@, json_string(s@)));
        }
        first = false;
    }
    proof {
        assert(fs =~= fs2 + (match a.input {
            Some(s) => seq![("input"@, json_string(s@))],
            None => Seq::empty(),
        }));
        assert(out@ == base@ + seq!['{'] + join_fields(fs));
    }
    let ghost fs3 = fs;
    if let Some(bv) = a.keep_notification {
        push_field_start(out, first, "keepNotification");
        push_bool(out, bv);
        proof {
            lemma_append_field(base@, fs, first, "keepNotification"@, bool_text(bv));
            fs = fs.push(("keepNotification"@, bool_text(bv)));
        }
        first = false;
    }
    proof {
        assert(fs =~= fs3 + (match a.keep_notification {
            Some(bv) => seq![("keepNotification"@, bool_text(bv))],
            None => Seq::empty(),
        }));
        assert(out@ == base@ + seq!['{'] + join_fields(fs));
    }
    proof {
        assert(fs =~= fs0@ + a.fields_basic_part());
    }
    (first, Ghost(fs))
}

/// Writes the remaining optional action members: runOnServer, online, urlBackgroundOptions.
/// Continues an object whose text so far is the brace and the members in
/// `fs0`; hands back the grown member list and whether it is still empty.
fn push_action_server_part(
    out: &mut Vec<char>,
    a: &Action,
    first: bool,
    base: Ghost<Seq<char>>,
    fs0: Ghost<Seq<(Seq<char>, Seq<char>)>>,
) -> (res: (bool, Ghost<Seq<(Seq<char>, Seq<char>)>>))
    requires
        old(out)@ == base@ + seq!['{'] + join_fields(fs0@),
        first == (fs0@.len() == 0),
    ensures
        res.1@ == fs0@ + a.fields_server_part(),
        final(out)@ == base@ + seq!['{'] + join_fields(res.1@),
        res.0 == (res.1@.len() == 0),
{
    let ghost mut fs = fs0@;
    let mut first = first;
    let ghost fs1 = fs;
    if let Some(bv) = a.run_on_server {
        push_field_start(out, first, "runOnServer");
        push_bool(out, bv);
        proof {
            lemma_append_field(base@, fs, first, "runOnServer"@, bool_text(bv));
            fs = fs.push(("runOnServer"@, bool_text(bv)));
        }
        first = false;
    }
    proof {
        assert(fs =~= fs1 + (match a.run_on_server {
            Some(bv) => seq![("runOnServer"@, bool_text(bv))],
            None => Seq::empty(),
        }));
        assert(out@ == base@ + seq!['{'] + join_fields(fs));
    }
    let ghost fs2 = fs;
    if let Some(s) = &a.online {
        push_field_start(out, first, "online");
        push_json_string(out, s.as_str());
        proof {
            lemma_append_field(base@, fs, first, "online"@, json_string(s@));
            fs = fs.push(("online"@, json_string(s@)));
        }
        first = false;
    }
    proof {
        assert(fs =~= fs2 + (match a.online {
            Some(s) => seq![("online"@, json_string(s@))],
            None => Seq::empty(),
        }));
        assert(out@ == base@ + seq!['{'] + join_fields(fs));
    }
    let ghost fs3 = fs;
    if let Some(o) = &a.url_background_options {
        push_field_start(out, first, "urlBackgroundOptions");
        push_background_options(out, o);
        proof {
            lemma_append_field(base@, fs, first, "urlBackgroundOptions"@, o.wire());
            fs = fs.push(("urlBackgroundOptions"@, o.wire()));
        }
        first = false;
    }
    proof {
        assert(fs =~= fs3 + (match a.url_background_options {
            Some(o) => seq![("urlBackgroundOptions"@, o.wire())],
            None => Seq::empty(),
        }));
        assert(out@ == base@ + seq!['{'] + join_fields(fs));
    }
    proof {
        assert(fs =~= fs0@ + a.fields_server_part());
    }
    (first, Ghost(fs))
}

/// Appends the wire form of one action: an object of the optional fields
/// that are set, with the action kind flattened in as the last member.
fn push_action(out: &mut Vec<char>, a: &Action)
    ensures
        final(out)@ == old(out)@ + a.wire(),
{
    out.push('{');
    proof {
        assert(out@ =~= old(out)@ + seq!['{'] + join_fields(
            Seq::<(Seq<char>, Seq<char>)>::empty(),
        ));
    }
    let (f1, g1) = push_action_basic_part(out, a, true, Ghost(old(out)@), Ghost(Seq::empty()));
    let (f2, g2) = push_action_server_part(out, a, f1, Ghost(old(out)@), g1);
    let ghost mut fs = g2@;
    let first: bool = f2;
    match &a.kind {
        ActionKind::Shortcut(s) => {
            push_field_start(out, first, "shortcut");
            push_json_string(out, s.as_str());
            proof {
                lemma_append_field(old(out)@, fs, first, "shortcut"@, json_string(s@));
                fs = fs.push(("shortcut"@, json_string(s@)));
            }
        },
        ActionKind::Homekit(s) => {
            push_field_start(out, first, "homekit");
            push_json_string(out, s.as_str());
            proof {
                lemma_append_field(old(out)@, fs, first, "homekit"@, json_string(s@));
                fs = fs.push(("homekit"@, json_string(s@)));
            }
        },
        ActionKind::Url(s) => {
            push_field_start(out, first, "url");
            push_json_string(out, s.as_str());
            proof {
                lemma_append_field(old(out)@, fs, first, "url"@, json_string(s@));
                fs = fs.push(("url"@, json_string(s@)));
            }
        },
    }
    out.push('}');
    proof {
        assert(fs =~= g2@ + seq![(a.kind.key(), json_string(a.kind.text()))]);
        assert(fs =~= a.fields());
        assert(out@ =~= old(out)@ + a.wire());
    }
}

/// Appends the wire form of an action array.
fn push_actions(out: &mut Vec<char>, xs: &Vec<Action>)
    ensures
        final(out)@ == old(out)@ + arr_text(action_items(xs@)),
{
    out.push('[');
    let mut i: usize = 0;
    proof {
        assert(out@ =~= old(out)@ + seq!['['] + join_items(action_items(xs@).subrange(0, 0)));
    }
    while i < xs.len()
        invariant
            i <= xs@.len(),
            out@ == old(out)@ + seq!['['] + join_items(action_items(xs@).subrange(0, i as int)),
        decreases xs@.len() - i,
    {
        if i > 0 {
            out.push(',');
        }
        push_action(out, &xs[i]);
        proof {
            let items = action_items(xs@);
            lemma_join_items_snoc(items.subrange(0, i as int), items[i as int]);
            assert(items.subrange(0, i as int + 1) =~= items.subrange(0, i as int).push(
                items[i as int],
            ));
            assert(out@ =~= old(out)@ + seq!['['] + join_items(items.subrange(0, i as int + 1)));
        }
        i = i + 1;
    }
    out.push(']');
    proof {
        assert(action_items(xs@).subrange(0, xs@.len() as int) =~= action_items(xs@));
        assert(out@ =~= old(out)@ + arr_text(action_items(xs@)));
    }
}

/// Appends the wire form of a device-name array.
fn push_devices(out: &mut Vec<char>, ds: &Vec<String>)
    ensures
        final(out)@ == old(out)@ + arr_text(device_items(ds@)),
{
    out.push('[');
    let mut i: usize = 0;
    proof {
        assert(out@ =~= old(out)@ + seq!['['] + join_items(device_items(ds@).subrange(0, 0)));
    }
    while i < ds.len()
        invariant
            i <= ds@.len(),
            out@ == old(out)@ + seq!['['] + join_items(device_items(ds@).subrange(0, i as int)),
        decreases ds@.len() - i,
    {
        if i > 0 {
            out.push(',');
        }
        push_json_string(out, ds[i].as_str());
        proof {
            let items = device_items(ds@);
            lemma_join_items_snoc(items.subrange(0, i as int), items[i as int]);
            assert(items.subrange(0, i as int + 1) =~= items.subrange(0, i as int).push(
                items[i as int],
            ));
            assert(out@ =~= old(out)@ + seq!['['] + join_items(items.subrange(0, i as int + 1)));
        }
        i = i + 1;
    }
    out.push(']');
    proof {
        assert(device_items(ds@).subrange(0, ds@.len() as int) =~= device_items(ds@));
        assert(out@ =~= old(out)@ + arr_text(device_items(ds@)));
    }
}

/// Writes the textual request members: id, text, title.
/// Continues an object whose text so far is the brace and the members in
/// `fs0`; hands back the grown member list and whether it is still empty.
fn push_request_text_part(
    out: &mut Vec<char>,
    r: &NotificationRequest,
    first: bool,
    base: Ghost<Seq<char>>,
    fs0: Ghost<Seq<(Seq<char>, Seq<char>)>>,
) -> (res: (bool, Ghost<Seq<(Seq<char>, Seq<char>)>>))
    requires
        old(out)@ == base@ + seq!['{'] + join_fields(fs0@),
        first == (fs0@.len() == 0),
    ensures
        res.1@ == fs0@ + r.fields_text_part(),
        final(out)@ == base@ + seq!['{'] + join_fields(res.1@),
        res.0 == (res.1@.len() == 0),
{
    let ghost mut fs = fs0@;
    let mut first = first;
    let ghost fs1 = fs;
    if let Some(s) = &r.id {
        push_field_start(out, first, "id");
        push_json_string(out, s.as_str());
        proof {
            lemma_append_field(base@, fs, first, "id"@, json_string(s@));
            fs = fs.push(("id"@, json_string(s@)));
        }
        first = false;
    }
    proof {
        assert(fs =~= fs1 + (match r.id {
            Some(s) => seq![("id"@, json_string(s@))],
            None => Seq::empty(),
        }));
        assert(out@ == base@ + seq!['{'] + join_fields(fs));
    }
    let ghost fs2 = fs;
    if let Some(s) = &r.text {
        push_field_start(out, first, "text");
        push_json_string(out, s.as_str());
        proof {
            lemma_append_field(base@, fs, first, "text"@, json_string(s@));
            fs = fs.push(("text"@, json_string(s@)));
        }
        first = false;
    }
    proof {
        assert(fs =~= fs2 + (match r.text {
            Some(s) => seq![("text"@, json_string(s@))],
            None => Seq::empty(),
        }));
        assert(out@ == base@ + seq!['{'] + join_fields(fs));
    }
    let ghost fs3 = fs;
    if let Some(s) = &r.title {
        push_field_start(out, first, "title");
        push_json_string(out, s.as_str());
        proof {
            lemma_append_field(base@, fs, first, "title"@, json_string(s@));
            fs = fs.push(("title"@, json_string(s@)));
        }
        first = false;
    }
    proof {
        assert(fs =~= fs3 + (match r.title {
            Some(s) => seq![("title"@, json_string(s@))],
            None => Seq::empty(),
        }));
        assert(out@ == base@ + seq!['{'] + join_fields(fs));
    }
    proof {
        assert(fs =~= fs0@ + r.fields_text_part());
    }
    (first, Ghost(fs))
}

/// Writes the action and media request members: defaultAction, actions, sound, image.
/// Continues an object whose text so far is the brace and the members in
/// `fs0`; hands back the grown member list and whether it is still empty.
fn push_request_media_part(
    out: &mut Vec<char>,
    r: &NotificationRequest,
    first: bool,
    base: Ghost<Seq<char>>,
    fs0: Ghost<Seq<(Seq<char>, Seq<char>)>>,
) -> (res: (bool, Ghost<Seq<(Seq<char>, Seq<char>)>>))
    requires
        old(out)@ == base@ + seq!['{'] + join_fields(fs0@),
        first == (fs0@.len() == 0),
    ensures
        res.1@ == fs0@ + r.fields_media_part(),
        final(out)@ == base@ + seq!['{'] + join_fields(res.1@),
        res.0 == (res.1@.len() == 0),
{
    let ghost mut fs = fs0@;
    let mut first = first;
    let ghost fs1 = fs;
    if let Some(a) = &r.default_action {
        push_field_start(out, first, "defaultAction");
        push_action(out, a);
        proof {
            lemma_append_field(base@, fs, first, "defaultAction"@, a.wire());
            fs = fs.push(("defaultAction"@, a.wire()));
        }
        first = false;
    }
    proof {
        assert(fs =~= fs1 + (match r.default_action {
            Some(a) => seq![("defaultAction"@, a.wire())],
            None => Seq::empty(),
        }));
        assert(out@ == base@ + seq!['{'] + join_fields(fs));
    }
    let ghost fs2 = fs;
    if let Some(xs) = &r.actions {
        push_field_start(out, first, "actions");
        push_actions(out, xs);
        proof {
            lemma_append_field(base@, fs, first, "actions"@, arr_text(action_items(xs@)));
            fs = fs.push(("actions"@, arr_text(action_items(xs@))));
        }
        first = false;
    }
    proof {
        assert(fs =~= fs2 + (match r.actions {
            Some(xs) => seq![("actions"@, arr_text(action_items(xs@)))],
            None => Seq::empty(),
        }));
        assert(out@ == base@ + seq!['{'] + join_fields(fs));
    }
    let ghost fs3 = fs;
    if let Some(snd) = &r.sound {
        push_field_start(out, first, "sound");
        push_sound(out, snd);
        proof {
            lemma_append_field(base@, fs, first, "sound"@, snd.wire());
            fs = fs.push(("sound"@, snd.wire()));
        }
        first = false;
    }
    proof {
        assert(fs =~= fs3 + (match r.sound {
            Some(snd) => seq![("sound"@, snd.wire())],
            None => Seq::empty(),
        }));
        assert(out@ == base@ + seq!['{'] + join_fields(fs));
    }
    let ghost fs4 = fs;
    if let Some(img) = &r.image {
        push_field_start(out, first, "image");
        push_image(out, img);
        proof {
            lemma_append_field(base@, fs, first, "image"@, img.wire());
            fs = fs.push(("image"@, img.wire()));
        }
        first = false;
    }
    proof {
        assert(fs =~= fs4 + (match r.image {
            Some(img) => seq![("image"@, img.wire())],
            None => Seq::empty(),
        }));
        assert(out@ == base@ + seq!['{'] + join_fields(fs));
    }
    proof {
        assert(fs =~= fs0@ + r.fields_media_part());
    }
    (first, Ghost(fs))
}

/// Writes the delivery request members: input, devices, isTimeSensitive.
/// Continues an object whose text so far is the brace and the members in
/// `fs0`; hands back the grown member list and whether it is still empty.
fn push_request_target_part(
    out: &mut Vec<char>,
    r: &NotificationRequest,
    first: bool,
    base: Ghost<Seq<char>>,
    fs0: Ghost<Seq<(Seq<char>, Seq<char>)>>,
) -> (res: (bool, Ghost<Seq<(Seq<char>, Seq<char>)>>))
    requires
        old(out)@ == base@ + seq!['{'] + join_fields(fs0@),
        first == (fs0@.len() == 0),
    ensures
        res.1@ == fs0@ + r.fields_target_part(),
        final(out)@ == base@ + seq!['{'] + join_fields(res.1@),
        res.0 == (res.1@.len() == 0),
{
    let ghost mut fs = fs0@;
    let mut first = first;
    let ghost fs1 = fs;
    if let Some(s) = &r.input {
        push_field_start(out, first, "input");
        push_json_string(out, s.as_str());
        proof {
            lemma_append_field(base@, fs, first, "input"@, json_string(s@));
            fs = fs.push(("input"@, json_string(s@)));
        }
        first = false;
    }
    proof {
        assert(fs =~= fs1 + (match r.input {
            Some(s) => seq![("input"@, json_string(s@))],
            None => Seq::empty(),
        }));
        assert(out@ == base@ + seq!['{'] + join_fields(fs));
    }
    let ghost fs2 = fs;
    if let Some(ds) = &r.devices {
        push_field_start(out, first, "devices");
        push_devices(out, ds);
        proof {
            lemma_append_field(base@, fs, first, "devices"@, arr_text(device_items(ds@)));
            fs = fs.push(("devices"@, arr_text(device_items(ds@))));
        }
        first = false;
    }
    proof {
        assert(fs =~= fs2 + (match r.devices {
            Some(ds) => seq![("devices"@, arr_text(device_items(ds@)))],
            None => Seq::empty(),
        }));
        assert(out@ == base@ + seq!['{'] + join_fields(fs));
    }
    let ghost fs3 = fs;
    if let Some(bv) = r.is_time_sensitive {
        push_field_start(out, first, "isTimeSensitive");
        push_bool(out, bv);
        proof {
            lemma_append_field(base@, fs, first, "isTimeSensitive"@, bool_text(bv));
            fs = fs.push(("isTimeSensitive"@, bool_text(bv)));
        }
        first = false;
    }
    proof {
        assert(fs =~= fs3 + (match r.is_time_sensitive {
            Some(bv) => seq![("isTimeSensitive"@, bool_text(bv))],
            None => Seq::empty(),
        }));
        assert(out@ == base@ + seq!['{'] + join_fields(fs));
    }
    proof {
        assert(fs =~= fs0@ + r.fields_target_part());
    }
    (first, Ghost(fs))
}

/// Writes the threading and timing request members: threadId, delay, scheduleTimestamp.
/// Continues an object whose text so far is the brace and the members in
/// `fs0`; hands back the grown member list and whether it is still empty.
fn push_request_schedule_part(
    out: &mut Vec<char>,
    r: &NotificationRequest,
    first: bool,
    base: Ghost<Seq<char>>,
    fs0: Ghost<Seq<(Seq<char>, Seq<char>)>>,
) -> (res: (bool, Ghost<Seq<(Seq<char>, Seq<char>)>>))
    requires
        old(out)@ == base@ + seq!['{'] + join_fields(fs0@),
        first == (fs0@.len() == 0),
    ensures
        res.1@ == fs0@ + r.fields_schedule_part(),
        final(out)@ == base@ + seq!['{'] + join_fields(res.1@),
        res.0 == (res.1@.len() == 0),
{
    let ghost mut fs = fs0@;
    let mut first = first;
    let ghost fs1 = fs;
    if let Some(s) = &r.thread_id {
        push_field_start(out, first, "threadId");
        push_json_string(out, s.as_str());
        proof {
            lemma_append_field(base@, fs, first, "threadId"@, json_string(s@));
            fs = fs.push(("threadId"@, json_string(s@)));
        }
        first = false;
    }
    proof {
        assert(fs =~= fs1 + (match r.thread_id {
            Some(s) => seq![("threadId"@, json_string(s@))],
            None => Seq::empty(),
        }));
        assert(out@ == base@ + seq!['{'] + join_fields(fs));
    }
    let ghost fs2 = fs;
    if let Some(s) = &r.delay {
        push_field_start(out, first, "delay");
        push_json_string(out, s.as_str());
        proof {
            lemma_append_field(base@, fs, first, "delay"@, json_string(s@));
            fs = fs.push(("delay"@, json_string(s@)));
        }
        first = false;
    }
    proof {
        assert(fs =~= fs2 + (match r.delay {
            Some(s) => seq![("delay"@, json_string(s@))],
            None => Seq::empty(),
        }));
        assert(out@ == base@ + seq!['{'] + join_fields(fs));
    }
    let ghost fs3 = fs;
    if let Some(n) = r.schedule_timestamp {
        push_field_start(out, first, "scheduleTimestamp");
        push_u128_dec(out, n);
        proof {
            lemma_append_field(base@, fs, first, "scheduleTimestamp"@, dec_text(n as nat));
            fs = fs.push(("scheduleTimestamp"@, dec_text(n as nat)));
        }
        first = false;
    }
    proof {
        assert(fs =~= fs3 + (match r.schedule_timestamp {
            Some(n) => seq![("scheduleTimestamp"@, dec_text(n as nat))],
            None => Seq::empty(),
        }));
        assert(out@ == base@ + seq!['{'] + join_fields(fs));
    }
    proof {
        assert(fs =~= fs0@ + r.fields_schedule_part());
    }
    (first, Ghost(fs))
}

/// Appends the wire form of the whole request: an object holding exactly the
/// fields that are set, in declaration order, omitted entirely when absent.
fn push_request(out: &mut Vec<char>, r: &NotificationRequest)
    ensures
        final(out)@ == old(out)@ + r.wire(),
{
    out.push('{');
    proof {
        assert(out@ =~= old(out)@ + seq!['{'] + join_fields(
            Seq::<(Seq<char>, Seq<char>)>::empty(),
        ));
    }
    let (f1, g1) = push_request_text_part(out, r, true, Ghost(old(out)@), Ghost(Seq::empty()));
    let (f2, g2) = push_request_media_part(out, r, f1, Ghost(old(out)@), g1);
    let (f3, g3) = push_request_target_part(out, r, f2, Ghost(old(out)@), g2);
    let (_f4, g4) = push_request_schedule_part(out, r, f3, Ghost(old(out)@), g3);
    out.push('}');
    proof {
        assert(g4@ =~= r.fields());
        assert(out@ =~= old(out)@ + r.wire());
    }
}

/// Relies on `String::from_iter`: builds the string holding exactly the given
/// characters, in order.
#[verifier::external_body]
fn string_from_chars(v: Vec<char>) -> (r: String)
    ensures
        r@ == v@,
{
    String::from_iter(v)
}

/// Encodes a request to its canonical JSON document. The text holds exactly
/// the fields that are set, omits absent fields at every nesting level, and
/// is the same on every call for the same value.
pub fn encode_notification_request(r: &NotificationRequest) -> (s: String)
    ensures
        s@ == r.wire(),
{
    let mut out: Vec<char> = Vec::new();
    push_request(&mut out, r);
    string_from_chars(out)
}

/// Encodes one action to its canonical JSON object.
pub fn encode_action(a: &Action) -> (s: String)
    ensures
        s@ == a.wire(),
{
    let mut out: Vec<char> = Vec::new();
    push_action(&mut out, a);
    string_from_chars(out)
}

} // verus!
