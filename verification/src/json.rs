//! The wire format: a single JSON object per dispatch. The spec functions
//! here define the exact character sequence a request serializes to, and
//! the executable serializer is proved to produce it.

use crate::message::{MessageView, RayColors, RayMessage, RayMessageType, color_carried};
use crate::model::{EntryView, MetaView, OriginView, RequestView};
use crate::trusted::chars_to_string;
use crate::{RayContent, RayMeta, RayOrigin, RayPayload};
use vstd::prelude::*;

verus! {

/// The lower-case hex digit of a value below 16.
pub open spec fn hex_char(n: u32) -> char {
    if n == 0 {
        '0'
    } else if n == 1 {
        '1'
    } else if n == 2 {
        '2'
    } else if n == 3 {
        '3'
    } else if n == 4 {
        '4'
    } else if n == 5 {
        '5'
    } else if n == 6 {
        '6'
    } else if n == 7 {
        '7'
    } else if n == 8 {
        '8'
    } else if n == 9 {
        '9'
    } else if n == 10 {
        'a'
    } else if n == 11 {
        'b'
    } else if n == 12 {
        'c'
    } else if n == 13 {
        'd'
    } else if n == 14 {
        'e'
    } else {
        'f'
    }
}

/// How one character appears inside a JSON string: quotes and backslashes
/// get a backslash, control characters a four-digit escape, and everything
/// else stands as itself.
pub open spec fn esc_char(c: char) -> Seq<char> {
    if c == '"' {
        seq!['\\', '"']
    } else if c == '\\' {
        seq!['\\', '\\']
    } else if (c as u32) < 0x20 {
        seq!['\\', 'u', '0', '0', hex_char((c as u32) / 16), hex_char((c as u32) % 16)]
    } else {
        seq![c]
    }
}

/// A whole character sequence escaped.
pub open spec fn esc_seq(s: Seq<char>) -> Seq<char>
    decreases s.len(),
{
    if s.len() == 0 {
        Seq::empty()
    } else {
        esc_seq(s.drop_last()) + esc_char(s.last())
    }
}

/// A JSON string: the escaped characters between quotes.
pub open spec fn json_string(s: Seq<char>) -> Seq<char> {
    seq!['"'] + esc_seq(s) + seq!['"']
}

/// The decimal digit of a value below 10.
pub open spec fn dig_char(n: u32) -> char {
    hex_char(n % 10)
}

/// A number written in decimal, most significant digit first.
pub open spec fn dec_u32(n: u32) -> Seq<char>
    decreases n,
{
    if n < 10 {
        seq![dig_char(n)]
    } else {
        dec_u32(n / 10) + seq![dig_char(n % 10)]
    }
}

/// A comma-separated list of JSON strings.
pub open spec fn json_string_list(vs: Seq<Seq<char>>) -> Seq<char>
    decreases vs.len(),
{
    if vs.len() == 0 {
        Seq::empty()
    } else if vs.len() == 1 {
        json_string(vs[0])
    } else {
        json_string_list(vs.drop_last()) + seq![','] + json_string(vs.last())
    }
}

/// The name an inner label puts on the wire.
pub open spec fn label_text(l: RayMessageType) -> Seq<char> {
    match l {
        RayMessageType::Log => "Log"@,
        RayMessageType::Text => "Text"@,
        RayMessageType::HTML => "HTML"@,
        RayMessageType::ClearAll => "ClearAll"@,
        RayMessageType::Confetti => "Confetti"@,
        RayMessageType::Charles => "Charles"@,
        RayMessageType::NewScreen => "NewScreen"@,
    }
}

/// The JSON object of one payload. Text, HTML and the celebratory marker
/// share the `custom` outer kind, so receivers key off the `label` field
/// written here.
pub open spec fn json_of_message(m: MessageView) -> Seq<char> {
    match m {
        MessageView::Log(l, values) => "{\"label\":"@ + json_string(label_text(l))
            + ",\"values\":["@ + json_string_list(values) + "]}"@,
        MessageView::Text(l, content) => "{\"label\":"@ + json_string(label_text(l))
            + ",\"content\":"@ + json_string(content) + "}"@,
        MessageView::Color(c) => "{\"color\":"@ + json_string(color_carried(c)) + "}"@,
        MessageView::Html(l, content) => "{\"label\":"@ + json_string(label_text(l))
            + ",\"content\":"@ + json_string(content) + "}"@,
        MessageView::ClearAll(l) => "{\"label\":"@ + json_string(label_text(l)) + "}"@,
        MessageView::Confetti(l) => "{\"label\":"@ + json_string(label_text(l)) + "}"@,
        MessageView::Charles(content) => "{\"content\":"@ + json_string(content) + "}"@,
        MessageView::NewScreen(l, name) => "{\"label\":"@ + json_string(label_text(l))
            + ",\"name\":"@ + json_string(name) + "}"@,
    }
}

/// The JSON object of a call-site snapshot.
pub open spec fn json_of_origin(o: OriginView) -> Seq<char> {
    "{\"function_name\":"@ + json_string(o.function_name) + ",\"file\":"@ + json_string(o.file)
        + ",\"line_number\":"@ + dec_u32(o.line_number) + ",\"hostname\":"@ + json_string(
        o.hostname,
    ) + "}"@
}

/// The JSON object of the environment snapshot.
pub open spec fn json_of_meta(m: MetaView) -> Seq<char> {
    "{\"rustc_version\":"@ + json_string(m.rustc_version) + ",\"package_version\":"@ + json_string(
        m.package_version,
    ) + "}"@
}

/// The JSON object of one logged event.
pub open spec fn json_of_entry(e: EntryView) -> Seq<char> {
    "{\"type\":"@ + json_string(e.content_type) + ",\"content\":"@ + json_of_message(e.content)
        + ",\"origin\":"@ + json_of_origin(e.origin) + "}"@
}

/// A comma-separated list of event objects, in insertion order.
pub open spec fn json_entry_list(es: Seq<EntryView>) -> Seq<char>
    decreases es.len(),
{
    if es.len() == 0 {
        Seq::empty()
    } else if es.len() == 1 {
        json_of_entry(es[0])
    } else {
        json_entry_list(es.drop_last()) + seq![','] + json_of_entry(es.last())
    }
}

/// The whole request as it goes over the wire.
pub open spec fn json_of_request(r: RequestView) -> Seq<char> {
    "{\"uuid\":"@ + json_string(r.uuid) + ",\"payloads\":["@ + json_entry_list(r.payloads) + "],\"meta\":"@
        + json_of_meta(r.meta) + "}"@
}

fn hex_char_exec(n: u32) -> (r: char)
    ensures
        r == hex_char(n),
{
    if n == 0 {
        '0'
    } else if n == 1 {
        '1'
    } else if n == 2 {
        '2'
    } else if n == 3 {
        '3'
    } else if n == 4 {
        '4'
    } else if n == 5 {
        '5'
    } else if n == 6 {
        '6'
    } else if n == 7 {
        '7'
    } else if n == 8 {
        '8'
    } else if n == 9 {
        '9'
    } else if n == 10 {
        'a'
    } else if n == 11 {
        'b'
    } else if n == 12 {
        'c'
    } else if n == 13 {
        'd'
    } else if n == 14 {
        'e'
    } else {
        'f'
    }
}

/// Appends the literal characters of `s`.
fn push_chars(out: &mut Vec<char>, s: &str)
    ensures
        final(out)@ == old(out)@ + s@,
{
    let n = s.unicode_len();
    let mut i: usize = 0;
    while i < n
        invariant
            n == s@.len(),
            i <= n,
            out@ == old(out)@ + s@.take(i as int),
        decreases n - i,
    {
        out.push(s.get_char(i));
        proof {
            assert(old(out)@ + s@.take(i + 1) =~= (old(out)@ + s@.take(i as int)).push(
                s@[i as int],
            ));
        }
        i = i + 1;
    }
    proof {
        assert(s@.take(n as int) =~= s@);
    }
}

/// Appends one escaped character.
fn push_esc_char(out: &mut Vec<char>, c: char)
    ensures
        final(out)@ == old(out)@ + esc_char(c),
{
    if c == '"' {
        out.push('\\');
        out.push('"');
        proof {
            assert(out@ =~= old(out)@ + esc_char(c));
        }
    } else if c == '\\' {
        out.push('\\');
        out.push('\\');
        proof {
            assert(out@ =~= old(out)@ + esc_char(c));
        }
    } else if (c as u32) < 0x20 {
        out.push('\\');
        out.push('u');
        out.push('0');
        out.push('0');
        out.push(hex_char_exec((c as u32) / 16));
        out.push(hex_char_exec((c as u32) % 16));
        proof {
            assert(out@ =~= old(out)@ + esc_char(c));
        }
    } else {
        out.push(c);
        proof {
            assert(out@ =~= old(out)@ + esc_char(c));
        }
    }
}

proof fn lemma_esc_seq_step(s: Seq<char>, i: int)
    requires
        0 <= i < s.len(),
    ensures
        esc_seq(s.take(i + 1)) == esc_seq(s.take(i)) + esc_char(s[i]),
{
    assert(s.take(i + 1).drop_last() =~= s.take(i));
    assert(s.take(i + 1).last() == s[i]);
}

/// Appends `s` as a JSON string, quotes and escaping included.
fn push_json_string(out: &mut Vec<char>, s: &str)
    ensures
        final(out)@ == old(out)@ + json_string(s@),
{
    out.push('"');
    let n = s.unicode_len();
    let mut i: usize = 0;
    while i < n
        invariant
            n == s@.len(),
            i <= n,
            out@ == old(out)@ + seq!['"'] + esc_seq(s@.take(i as int)),
        decreases n - i,
    {
        push_esc_char(out, s.get_char(i));
        proof {
            lemma_esc_seq_step(s@, i as int);
        }
        i = i + 1;
    }
    out.push('"');
    proof {
        assert(s@.take(n as int) =~= s@);
        assert(out@ =~= old(out)@ + json_string(s@));
    }
}

/// Appends a number in decimal.
fn push_dec(out: &mut Vec<char>, n: u32)
    ensures
        final(out)@ == old(out)@ + dec_u32(n),
    decreases n,
{
    if n < 10 {
        out.push(hex_char_exec(n % 10));
        proof {
            assert(out@ =~= old(out)@ + dec_u32(n));
        }
    } else {
        assert(n / 10 < n) by (nonlinear_arith)
            requires
                n >= 10,
        ;
        push_dec(out, n / 10);
        out.push(hex_char_exec((n % 10) % 10));
        proof {
            assert(out@ =~= old(out)@ + dec_u32(n));
        }
    }
}

/// Appends the comma-separated JSON strings of `vs`.
fn push_string_list(out: &mut Vec<char>, vs: &Vec<String>)
    ensures
        final(out)@ == old(out)@ + json_string_list(vs@.map_values(|s: String| s@)),
{
    let ghost views = vs@.map_values(|s: String| s@);
    let n = vs.len();
    let mut i: usize = 0;
    while i < n
        invariant
            n == vs@.len(),
            views == vs@.map_values(|s: String| s@),
            i <= n,
            out@ == old(out)@ + json_string_list(views.take(i as int)),
        decreases n - i,
    {
        if i > 0 {
            out.push(',');
        }
        push_json_string(out, vs[i].as_str());
        proof {
            assert(views.take(i + 1).drop_last() =~= views.take(i as int));
            assert(views.take(i + 1).last() == views[i as int]);
            if i > 0 {
                assert(out@ =~= old(out)@ + json_string_list(views.take(i + 1)));
            } else {
                assert(views.take(1int) =~= seq![views[0]]);
                assert(out@ =~= old(out)@ + json_string_list(views.take(i + 1)));
            }
        }
        i = i + 1;
    }
    proof {
        assert(views.take(n as int) =~= views);
    }
}

/// Appends the JSON object of one payload.
fn push_message(out: &mut Vec<char>, m: &RayMessage)
    ensures
        final(out)@ == old(out)@ + json_of_message(m@),
{
    match m {
        RayMessage::Log(inner) => {
            push_chars(out, "{\"label\":");
            push_label(out, inner.label);
            push_chars(out, ",\"values\":[");
            push_string_list(out, &inner.values);
            push_chars(out, "]}");
        },
        RayMessage::Text(inner) => {
            push_chars(out, "{\"label\":");
            push_label(out, inner.label);
            push_chars(out, ",\"content\":");
            push_json_string(out, inner.content.as_str());
            push_chars(out, "}");
        },
        RayMessage::Color(inner) => {
            push_chars(out, "{\"color\":");
            match &inner.color {
                RayColors::Green(s) => push_json_string(out, s.as_str()),
                RayColors::Orange(s) => push_json_string(out, s.as_str()),
                RayColors::Red(s) => push_json_string(out, s.as_str()),
                RayColors::Purple(s) => push_json_string(out, s.as_str()),
                RayColors::Blue(s) => push_json_string(out, s.as_str()),
                RayColors::Gray(s) => push_json_string(out, s.as_str()),
            }
            push_chars(out, "}");
        },
        RayMessage::HTML(inner) => {
            push_chars(out, "{\"label\":");
            push_label(out, inner.label);
            push_chars(out, ",\"content\":");
            push_json_string(out, inner.content.as_str());
            push_chars(out, "}");
        },
        RayMessage::ClearAll(inner) => {
            push_chars(out, "{\"label\":");
            push_label(out, inner.label);
            push_chars(out, "}");
        },
        RayMessage::Confetti(inner) => {
            push_chars(out, "{\"label\":");
            push_label(out, inner.label);
            push_chars(out, "}");
        },
        RayMessage::Charles(inner) => {
            push_chars(out, "{\"content\":");
            push_json_string(out, inner.content.as_str());
            push_chars(out, "}");
        },
        RayMessage::NewScreen(inner) => {
            push_chars(out, "{\"label\":");
            push_label(out, inner.label);
            push_chars(out, ",\"name\":");
            push_json_string(out, inner.name.as_str());
            push_chars(out, "}");
        },
    }
    proof {
        assert(out@ =~= old(out)@ + json_of_message(m@));
    }
}

/// Appends an inner label as a JSON string.
fn push_label(out: &mut Vec<char>, l: RayMessageType)
    ensures
        final(out)@ == old(out)@ + json_string(label_text(l)),
{
    match l {
        RayMessageType::Log => push_json_string(out, "Log"),
        RayMessageType::Text => push_json_string(out, "Text"),
        RayMessageType::HTML => push_json_string(out, "HTML"),
        RayMessageType::ClearAll => push_json_string(out, "ClearAll"),
        RayMessageType::Confetti => push_json_string(out, "Confetti"),
        RayMessageType::Charles => push_json_string(out, "Charles"),
        RayMessageType::NewScreen => push_json_string(out, "NewScreen"),
    }
}

/// Appends the JSON object of a call-site snapshot.
fn push_origin(out: &mut Vec<char>, o: &RayOrigin)
    ensures
        final(out)@ == old(out)@ + json_of_origin(o@),
{
    push_chars(out, "{\"function_name\":");
    push_json_string(out, o.function_name.as_str());
    push_chars(out, ",\"file\":");
    push_json_string(out, o.file.as_str());
    push_chars(out, ",\"line_number\":");
    push_dec(out, o.line_number);
    push_chars(out, ",\"hostname\":");
    push_json_string(out, o.hostname.as_str());
    push_chars(out, "}");
    proof {
        assert(out@ =~= old(out)@ + json_of_origin(o@));
    }
}

/// Appends the JSON object of the environment snapshot.
fn push_meta(out: &mut Vec<char>, m: &RayMeta)
    ensures
        final(out)@ == old(out)@ + json_of_meta(m@),
{
    push_chars(out, "{\"rustc_version\":");
    push_json_string(out, m.rustc_version.as_str());
    push_chars(out, ",\"package_version\":");
    push_json_string(out, m.package_version.as_str());
    push_chars(out, "}");
    proof {
        assert(out@ =~= old(out)@ + json_of_meta(m@));
    }
}

/// Appends the JSON object of one logged event.
fn push_entry_json(out: &mut Vec<char>, e: &RayContent)
    ensures
        final(out)@ == old(out)@ + json_of_entry(e@),
{
    push_chars(out, "{\"type\":");
    push_json_string(out, e.content_type.as_str());
    push_chars(out, ",\"content\":");
    push_message(out, &e.content);
    push_chars(out, ",\"origin\":");
    push_origin(out, &e.origin);
    push_chars(out, "}");
    proof {
        assert(out@ =~= old(out)@ + json_of_entry(e@));
    }
}

/// Appends the comma-separated event objects, in insertion order.
fn push_entries(out: &mut Vec<char>, es: &Vec<RayContent>)
    ensures
        final(out)@ == old(out)@ + json_entry_list(es@.map_values(|c: RayContent| c@)),
{
    let ghost views = es@.map_values(|c: RayContent| c@);
    let n = es.len();
    let mut i: usize = 0;
    while i < n
        invariant
            n == es@.len(),
            views == es@.map_values(|c: RayContent| c@),
            i <= n,
            out@ == old(out)@ + json_entry_list(views.take(i as int)),
        decreases n - i,
    {
        if i > 0 {
            out.push(',');
        }
        push_entry_json(out, &es[i]);
        proof {
            assert(views.take(i + 1).drop_last() =~= views.take(i as int));
            assert(views.take(i + 1).last() == views[i as int]);
            if i > 0 {
                assert(out@ =~= old(out)@ + json_entry_list(views.take(i + 1)));
            } else {
                assert(views.take(1int) =~= seq![views[0]]);
                assert(out@ =~= old(out)@ + json_entry_list(views.take(i + 1)));
            }
        }
        i = i + 1;
    }
    proof {
        assert(views.take(n as int) =~= views);
    }
}

/// Serializes a whole request to the single JSON object the wire carries.
pub fn serialize_request(r: &RayPayload) -> (body: String)
    ensures
        body@ == json_of_request(r@),
{
    let mut out: Vec<char> = Vec::new();
    push_chars(&mut out, "{\"uuid\":");
    push_json_string(&mut out, r.uuid.as_str());
    push_chars(&mut out, ",\"payloads\":[");
    push_entries(&mut out, &r.payloads);
    push_chars(&mut out, "],\"meta\":");
    push_meta(&mut out, &r.meta);
    push_chars(&mut out, "}");
    proof {
        assert(out@ =~= json_of_request(r@));
    }
    chars_to_string(&out)
}

} // verus!
