//! JSON encoding of activity-log batches.
//!
//! An activity batch is persisted as one JSON document:
//! `{"activities":[...]}` with one object per record, whose optional
//! fields are omitted when absent. Strings are escaped byte-wise over
//! their UTF-8 encoding — quote, backslash and the control characters,
//! the latter as `\u00XX` where no short escape exists — which leaves
//! multi-byte sequences untouched, so the document is valid UTF-8
//! exactly as JSON asks.
use crate::activity::{views_of, ActivityMeta, ActivityType, ActivityView, LogData};
use vstd::prelude::*;
use vstd::slice::slice_index_get;
use vstd::utf8::encode_utf8;

verus! {

/// The lower-case hex digit of a value below sixteen, as a byte.
pub open spec fn spec_hex_digit(d: int) -> u8 {
    if d < 10 {
        (0x30 + d) as u8
    } else {
        (0x61 + d - 10) as u8
    }
}

/// How one byte of a string's UTF-8 encoding appears inside a JSON
/// string literal.
pub open spec fn spec_escape_byte(b: u8) -> Seq<u8> {
    if b == 0x22 {
        seq![0x5cu8, 0x22u8]
    } else if b == 0x5c {
        seq![0x5cu8, 0x5cu8]
    } else if b == 0x08 {
        seq![0x5cu8, 0x62u8]
    } else if b == 0x09 {
        seq![0x5cu8, 0x74u8]
    } else if b == 0x0a {
        seq![0x5cu8, 0x6eu8]
    } else if b == 0x0c {
        seq![0x5cu8, 0x66u8]
    } else if b == 0x0d {
        seq![0x5cu8, 0x72u8]
    } else if b < 0x20 {
        seq![0x5cu8, 0x75u8, 0x30u8, 0x30u8, spec_hex_digit(b as int / 16), spec_hex_digit(
            b as int % 16,
        )]
    } else {
        seq![b]
    }
}

/// A byte string escaped for a JSON string literal.
pub open spec fn spec_escape_bytes(s: Seq<u8>) -> Seq<u8>
    decreases s.len(),
{
    if s.len() == 0 {
        Seq::empty()
    } else {
        spec_escape_bytes(s.drop_last()) + spec_escape_byte(s.last())
    }
}

/// A JSON string literal: quotes around the escaped UTF-8 encoding.
pub open spec fn spec_json_string(s: Seq<char>) -> Seq<u8> {
    seq![0x22u8] + spec_escape_bytes(encode_utf8(s)) + seq![0x22u8]
}

/// The name an activity kind is serialized under.
pub open spec fn spec_activity_type_name(t: ActivityType) -> Seq<char> {
    match t {
        ActivityType::KeyboardInput => "KeyboardInput"@,
        ActivityType::MouseClick => "MouseClick"@,
        ActivityType::MouseScroll => "MouseScroll"@,
        ActivityType::WindowFocus => "WindowFocus"@,
        ActivityType::BrowserActivity => "BrowserActivity"@,
    }
}

/// One record as a JSON object; the two optional fields are omitted when
/// absent.
pub open spec fn spec_json_meta(m: ActivityView) -> Seq<u8> {
    encode_utf8("{\"timestamp\":"@) + spec_json_string(m.timestamp) + encode_utf8(
        ",\"activity_type\":"@,
    ) + spec_json_string(spec_activity_type_name(m.activity_type)) + encode_utf8(
        ",\"details\":"@,
    ) + spec_json_string(m.details) + (match m.window_title {
        Some(t) => encode_utf8(",\"window_title\":"@) + spec_json_string(t),
        None => Seq::empty(),
    }) + (match m.app_name {
        Some(a) => encode_utf8(",\"app_name\":"@) + spec_json_string(a),
        None => Seq::empty(),
    }) + encode_utf8("}"@)
}

/// A batch's records, comma separated.
pub open spec fn spec_json_metas(s: Seq<ActivityView>) -> Seq<u8>
    decreases s.len(),
{
    if s.len() == 0 {
        Seq::empty()
    } else {
        spec_json_metas(s.drop_last()) + (if s.len() > 1 {
            encode_utf8(","@)
        } else {
            Seq::empty()
        }) + spec_json_meta(s.last())
    }
}

/// A whole persisted batch.
pub open spec fn spec_json_log(activities: Seq<ActivityView>) -> Seq<u8> {
    encode_utf8("{\"activities\":["@) + spec_json_metas(activities) + encode_utf8("]}"@)
}

/// Appends a byte slice.
fn push_bytes(out: &mut Vec<u8>, s: &[u8])
    ensures
        final(out)@ == old(out)@ + s@,
{
    let n = s.len();
    let mut i: usize = 0;
    while i < n
        invariant
            n == s@.len(),
            i <= n,
            out@ == old(out)@ + s@.take(i as int),
        decreases n - i,
    {
        out.push(*slice_index_get(s, i));
        proof {
            assert(s@.take(i as int).push(s@[i as int]) =~= s@.take(i as int + 1));
            assert(out@ =~= old(out)@ + s@.take(i as int + 1));
        }
        i = i + 1;
    }
    proof {
        assert(s@.take(n as int) =~= s@);
    }
}

/// The lower-case hex digit of a value below sixteen.
fn hex_digit(d: u8) -> (r: u8)
    requires
        d < 16,
    ensures
        r == spec_hex_digit(d as int),
{
    if d < 10 {
        0x30 + d
    } else {
        0x61 + (d - 10)
    }
}

/// Appends one string as a JSON string literal, escaping byte-wise.
fn push_json_string(out: &mut Vec<u8>, s: &str)
    ensures
        final(out)@ == old(out)@ + spec_json_string(s@),
{
    let ghost start = out@;
    out.push(0x22);
    let bytes = s.as_bytes();
    let n = bytes.len();
    let mut i: usize = 0;
    while i < n
        invariant
            n == bytes@.len(),
            i <= n,
            out@ == start + seq![0x22u8] + spec_escape_bytes(bytes@.take(i as int)),
        decreases n - i,
    {
        let b = *slice_index_get(bytes, i);
        if b == 0x22 {
            out.push(0x5c);
            out.push(0x22);
        } else if b == 0x5c {
            out.push(0x5c);
            out.push(0x5c);
        } else if b == 0x08 {
            out.push(0x5c);
            out.push(0x62);
        } else if b == 0x09 {
            out.push(0x5c);
            out.push(0x74);
        } else if b == 0x0a {
            out.push(0x5c);
            out.push(0x6e);
        } else if b == 0x0c {
            out.push(0x5c);
            out.push(0x66);
        } else if b == 0x0d {
            out.push(0x5c);
            out.push(0x72);
        } else if b < 0x20 {
            out.push(0x5c);
            out.push(0x75);
            out.push(0x30);
            out.push(0x30);
            out.push(hex_digit(b / 16));
            out.push(hex_digit(b % 16));
        } else {
            out.push(b);
        }
        i = i + 1;
        proof {
            assert(bytes@.take(i as int).drop_last() =~= bytes@.take(i as int - 1));
            assert(bytes@.take(i as int).last() == bytes@[i as int - 1]);
            assert(out@ =~= start + seq![0x22u8] + spec_escape_bytes(bytes@.take(i as int)));
        }
    }
    out.push(0x22);
    proof {
        assert(bytes@.take(n as int) =~= bytes@);
        assert(out@ =~= old(out)@ + spec_json_string(s@));
    }
}

/// Appends the name of an activity kind as a JSON string literal.
fn push_activity_type(out: &mut Vec<u8>, t: ActivityType)
    ensures
        final(out)@ == old(out)@ + spec_json_string(spec_activity_type_name(t)),
{
    match t {
        ActivityType::KeyboardInput => push_json_string(out, "KeyboardInput"),
        ActivityType::MouseClick => push_json_string(out, "MouseClick"),
        ActivityType::MouseScroll => push_json_string(out, "MouseScroll"),
        ActivityType::WindowFocus => push_json_string(out, "WindowFocus"),
        ActivityType::BrowserActivity => push_json_string(out, "BrowserActivity"),
    }
}

/// Appends one record as a JSON object.
fn push_json_meta(out: &mut Vec<u8>, m: &ActivityMeta)
    ensures
        final(out)@ == old(out)@ + spec_json_meta(m@),
{
    push_bytes(out, "{\"timestamp\":".as_bytes());
    push_json_string(out, m.timestamp.as_str());
    push_bytes(out, ",\"activity_type\":".as_bytes());
    push_activity_type(out, m.activity_type);
    push_bytes(out, ",\"details\":".as_bytes());
    push_json_string(out, m.details.as_str());
    match &m.window_title {
        Some(t) => {
            push_bytes(out, ",\"window_title\":".as_bytes());
            push_json_string(out, t.as_str());
        },
        None => (),
    }
    match &m.app_name {
        Some(a) => {
            push_bytes(out, ",\"app_name\":".as_bytes());
            push_json_string(out, a.as_str());
        },
        None => (),
    }
    push_bytes(out, "}".as_bytes());
}

/// Encodes a batch as the JSON document the ingestion endpoint is fed:
/// exactly `spec_json_log` of the records' views.
pub fn encode_log_data(d: &LogData) -> (out: Vec<u8>)
    ensures
        out@ == spec_json_log(views_of(d.activities@)),
{
    let mut out: Vec<u8> = Vec::new();
    push_bytes(&mut out, "{\"activities\":[".as_bytes());
    let ghost head = out@;
    let n = d.activities.len();
    let mut i: usize = 0;
    while i < n
        invariant
            n == d.activities@.len(),
            i <= n,
            out@ == head + spec_json_metas(views_of(d.activities@.take(i as int))),
        decreases n - i,
    {
        if i > 0 {
            push_bytes(&mut out, ",".as_bytes());
        }
        push_json_meta(&mut out, &d.activities[i]);
        i = i + 1;
        proof {
            let vs = views_of(d.activities@.take(i as int));
            assert(vs.drop_last() =~= views_of(d.activities@.take(i as int - 1)));
            assert(vs.last() == d.activities@[i as int - 1]@);
            assert(out@ =~= head + spec_json_metas(vs));
        }
    }
    proof {
        assert(d.activities@.take(n as int) =~= d.activities@);
        assert(views_of(d.activities@.take(n as int)) =~= views_of(d.activities@));
    }
    push_bytes(&mut out, "]}".as_bytes());
    proof {
        assert(out@ =~= spec_json_log(views_of(d.activities@)));
    }
    out
}

} // verus!
