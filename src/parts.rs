//! Reading Gmail message resources: attachments, bodies and headers.
use vstd::prelude::*;
use vstd::string::*;
use crate::json::{lookup, JsonValue};
use crate::text::str_eq;
use crate::token::opt_view;
use crate::email::{decode_email_content, email_text, ContentError};

verus! {

/// The text of member `key`, if it is a string.
pub open spec fn str_member(v: JsonValue, key: Seq<char>) -> Option<Seq<char>> {
    JsonValue::str_of(v.member(key))
}

/// The text of member `key`, or empty text when it is missing or not a
/// string.
pub open spec fn text_or_empty(v: JsonValue, key: Seq<char>) -> Seq<char> {
    match str_member(v, key) {
        Some(s) => s,
        None => Seq::empty(),
    }
}

/// The nested `parts` of a message part; none when the member is missing
/// or not an array.
pub open spec fn nested_parts(part: JsonValue) -> Seq<JsonValue> {
    match part.member("parts"@) {
        Some(JsonValue::Array(v)) => v@,
        _ => Seq::empty(),
    }
}

/// A member found by `lookup` is smaller than the entries it was found in.
pub proof fn lemma_lookup_smaller(entries: Seq<(String, JsonValue)>, key: Seq<char>)
    ensures
        lookup(entries, key) matches Some(m) ==> decreases_to!(entries => m),
    decreases entries.len(),
{
    if entries.len() > 0 {
        if entries[0].0@ == key {
            assert(decreases_to!(entries => entries[0]));
            assert(decreases_to!(entries[0] => entries[0].1));
        } else {
            lemma_lookup_smaller(entries.drop_first(), key);
            assert(decreases_to!(entries => entries.subrange(1, entries.len() as int)));
            assert(entries.drop_first() == entries.subrange(1, entries.len() as int));
        }
    }
}

/// The nested parts of a part are smaller than the part.
pub proof fn lemma_nested_smaller(part: JsonValue)
    ensures
        nested_parts(part).len() > 0 ==> decreases_to!(part => nested_parts(part)),
{
    if let JsonValue::Object(entries) = part {
        lemma_lookup_smaller(entries@, "parts"@);
        if let Some(JsonValue::Array(v)) = lookup(entries@, "parts"@) {
            assert(decreases_to!(part => entries));
            assert(decreases_to!(entries => entries@));
            assert(decreases_to!(JsonValue::Array(v) => v));
            assert(decreases_to!(v => v@));
        }
    }
}

/// The attachment a part itself describes, when its file name is
/// `filename`: its attachment id and MIME type (by default
/// `application/octet-stream`).
pub open spec fn part_hit(part: JsonValue, filename: Seq<char>) -> Option<(Seq<char>, Seq<char>)> {
    if str_member(part, "filename"@) == Some(filename) {
        match part.member("body"@) {
            Some(b) => match str_member(b, "attachmentId"@) {
                Some(id) => Some(
                    (
                        id,
                        match str_member(part, "mimeType"@) {
                            Some(m) => m,
                            None => "application/octet-stream"@,
                        },
                    ),
                ),
                None => None,
            },
            None => None,
        }
    } else {
        None
    }
}

/// The first attachment named `filename` in a depth-first walk of `parts`.
pub open spec fn find_in_parts(parts: Seq<JsonValue>, filename: Seq<char>) -> Option<(Seq<char>, Seq<char>)>
    decreases parts,
{
    if parts.len() == 0 {
        None
    } else {
        match find_in_part(parts[0], filename) {
            Some(x) => Some(x),
            None => find_in_parts(parts.subrange(1, parts.len() as int), filename),
        }
    }
}

/// The first attachment named `filename` in a part or below it.
pub open spec fn find_in_part(part: JsonValue, filename: Seq<char>) -> Option<(Seq<char>, Seq<char>)>
    decreases part,
{
    match part_hit(part, filename) {
        Some(x) => Some(x),
        None => {
            proof {
                lemma_nested_smaller(part);
            }
            if nested_parts(part).len() > 0 {
                find_in_parts(nested_parts(part), filename)
            } else {
                None
            }
        },
    }
}

pub open spec fn pair_view(r: Option<(String, String)>) -> Option<(Seq<char>, Seq<char>)> {
    match r {
        Some((a, b)) => Some((a@, b@)),
        None => None,
    }
}

pub fn str_member_exec<'a>(v: &'a JsonValue, key: &str) -> (r: Option<&'a str>)
    ensures
        match r {
            Some(s) => str_member(*v, key@) == Some(s@),
            None => str_member(*v, key@) is None,
        },
{
    match v.get(key) {
        Some(m) => m.as_str(),
        None => None,
    }
}

fn part_hit_exec(part: &JsonValue, filename: &str) -> (r: Option<(String, String)>)
    ensures
        pair_view(r) == part_hit(*part, filename@),
{
    match str_member_exec(part, "filename") {
        Some(f) => {
            if !str_eq(f, filename) {
                return None;
            }
        },
        None => return None,
    }
    let body = match part.get("body") {
        Some(b) => b,
        None => return None,
    };
    let id = match str_member_exec(body, "attachmentId") {
        Some(id) => id,
        None => return None,
    };
    let mime = match str_member_exec(part, "mimeType") {
        Some(m) => m.to_string(),
        None => "application/octet-stream".to_string(),
    };
    Some((id.to_string(), mime))
}

fn nested_parts_exec(part: &JsonValue) -> (r: Option<&Vec<JsonValue>>)
    ensures
        match r {
            Some(v) => v@ == nested_parts(*part) && v@.len() > 0,
            None => nested_parts(*part).len() == 0,
        },
{
    match part.get("parts") {
        Some(JsonValue::Array(v)) => {
            if v.len() > 0 {
                Some(v)
            } else {
                None
            }
        },
        _ => None,
    }
}

/// The first attachment named `filename` in a depth-first walk of the
/// message parts: its attachment id and MIME type.
pub fn find_attachment(parts: &Vec<JsonValue>, filename: &str) -> (r: Option<(String, String)>)
    ensures
        pair_view(r) == find_in_parts(parts@, filename@),
    decreases parts@,
{
    let mut i: usize = 0;
    assert(parts@.subrange(0, parts@.len() as int) =~= parts@);
    while i < parts.len()
        invariant
            0 <= i <= parts.len(),
            find_in_parts(parts@, filename@) == find_in_parts(parts@.subrange(i as int, parts@.len() as int), filename@),
        decreases parts.len() - i,
    {
        let ghost rest = parts@.subrange(i as int, parts@.len() as int);
        assert(rest[0] == parts@[i as int]);
        assert(rest.subrange(1, rest.len() as int) =~= parts@.subrange(i + 1, parts@.len() as int));
        let found = find_in_part_exec(&parts[i], filename);
        if found.is_some() {
            return found;
        }
        i += 1;
    }
    None
}

fn find_in_part_exec(part: &JsonValue, filename: &str) -> (r: Option<(String, String)>)
    ensures
        pair_view(r) == find_in_part(*part, filename@),
    decreases part,
{
    let hit = part_hit_exec(part, filename);
    if hit.is_some() {
        return hit;
    }
    proof {
        lemma_nested_smaller(*part);
    }
    match nested_parts_exec(part) {
        Some(v) => find_attachment(v, filename),
        None => None,
    }
}

/// The encoded body data held directly by a part.
pub open spec fn body_data(part: JsonValue) -> Option<Seq<char>> {
    match part.member("body"@) {
        Some(b) => str_member(b, "data"@),
        None => None,
    }
}

/// The body data of the first part of MIME type `mime` that has body data.
pub open spec fn first_with(parts: Seq<JsonValue>, mime: Seq<char>) -> Option<Seq<char>>
    decreases parts.len(),
{
    if parts.len() == 0 {
        None
    } else if str_member(parts[0], "mimeType"@) == Some(mime) && body_data(parts[0]) is Some {
        body_data(parts[0])
    } else {
        first_with(parts.drop_first(), mime)
    }
}

/// Plain text before HTML, among the nested parts of each part in turn.
pub open spec fn nested_body(parts: Seq<JsonValue>) -> Option<Seq<char>>
    decreases parts.len(),
{
    if parts.len() == 0 {
        None
    } else {
        let ns = nested_parts(parts[0]);
        match first_with(ns, "text/plain"@) {
            Some(d) => Some(d),
            None => match first_with(ns, "text/html"@) {
                Some(d) => Some(d),
                None => nested_body(parts.drop_first()),
            },
        }
    }
}

/// The encoded body of a message: the payload's own body data; else the
/// first plain-text part, else the first HTML part; else the same search one
/// level further down.
pub open spec fn message_body_data(message: JsonValue) -> Option<Seq<char>> {
    match message.member("payload"@) {
        Some(payload) => match body_data(payload) {
            Some(d) => Some(d),
            None => match payload.member("parts"@) {
                Some(JsonValue::Array(v)) => match first_with(v@, "text/plain"@) {
                    Some(d) => Some(d),
                    None => match first_with(v@, "text/html"@) {
                        Some(d) => Some(d),
                        None => nested_body(v@),
                    },
                },
                _ => None,
            },
        },
        None => None,
    }
}

fn body_data_exec(part: &JsonValue) -> (r: Option<&str>)
    ensures
        match r {
            Some(d) => body_data(*part) == Some(d@),
            None => body_data(*part) is None,
        },
{
    match part.get("body") {
        Some(b) => str_member_exec(b, "data"),
        None => None,
    }
}

fn first_with_exec<'a>(parts: &'a Vec<JsonValue>, mime: &str) -> (r: Option<&'a str>)
    ensures
        match r {
            Some(d) => first_with(parts@, mime@) == Some(d@),
            None => first_with(parts@, mime@) is None,
        },
{
    let mut i: usize = 0;
    assert(parts@.subrange(0, parts@.len() as int) =~= parts@);
    while i < parts.len()
        invariant
            0 <= i <= parts.len(),
            first_with(parts@, mime@) == first_with(parts@.subrange(i as int, parts@.len() as int), mime@),
        decreases parts.len() - i,
    {
        let ghost rest = parts@.subrange(i as int, parts@.len() as int);
        assert(rest[0] == parts@[i as int]);
        assert(rest.drop_first() =~= parts@.subrange(i + 1, parts@.len() as int));
        let is_mime = match str_member_exec(&parts[i], "mimeType") {
            Some(m) => str_eq(m, mime),
            None => false,
        };
        if is_mime {
            match body_data_exec(&parts[i]) {
                Some(d) => return Some(d),
                None => {},
            }
        }
        i += 1;
    }
    None
}

fn nested_body_exec<'a>(parts: &'a Vec<JsonValue>) -> (r: Option<&'a str>)
    ensures
        match r {
            Some(d) => nested_body(parts@) == Some(d@),
            None => nested_body(parts@) is None,
        },
{
    let mut i: usize = 0;
    assert(parts@.subrange(0, parts@.len() as int) =~= parts@);
    while i < parts.len()
        invariant
            0 <= i <= parts.len(),
            nested_body(parts@) == nested_body(parts@.subrange(i as int, parts@.len() as int)),
        decreases parts.len() - i,
    {
        let ghost rest = parts@.subrange(i as int, parts@.len() as int);
        assert(rest[0] == parts@[i as int]);
        assert(rest.drop_first() =~= parts@.subrange(i + 1, parts@.len() as int));
        match nested_parts_exec(&parts[i]) {
            Some(ns) => {
                match first_with_exec(ns, "text/plain") {
                    Some(d) => return Some(d),
                    None => {},
                }
                match first_with_exec(ns, "text/html") {
                    Some(d) => return Some(d),
                    None => {},
                }
            },
            None => {
                assert(first_with(nested_parts(parts@[i as int]), "text/plain"@) is None);
                assert(first_with(nested_parts(parts@[i as int]), "text/html"@) is None);
            },
        }
        i += 1;
    }
    None
}

/// The encoded body of a message, as `message_body_data` picks it.
pub fn message_body(message: &JsonValue) -> (r: Option<&str>)
    ensures
        match r {
            Some(d) => message_body_data(*message) == Some(d@),
            None => message_body_data(*message) is None,
        },
{
    let payload = match message.get("payload") {
        Some(p) => p,
        None => return None,
    };
    match body_data_exec(payload) {
        Some(d) => return Some(d),
        None => {},
    }
    let parts = match payload.get("parts") {
        Some(JsonValue::Array(v)) => v,
        _ => return None,
    };
    match first_with_exec(parts, "text/plain") {
        Some(d) => return Some(d),
        None => {},
    }
    match first_with_exec(parts, "text/html") {
        Some(d) => return Some(d),
        None => {},
    }
    nested_body_exec(parts)
}

/// Why a message body could not be read.
#[derive(Debug, Clone, Copy, PartialEq, Eq, Structural)]
pub enum BodyError {
    /// No part of the message carries body data.
    NotFound,
    /// The body data is not valid base64url text.
    Undecodable(ContentError),
}

/// The decoded text of a message's body.
pub fn extract_message_body(message: &JsonValue) -> (r: Result<String, BodyError>)
    ensures
        match message_body_data(*message) {
            None => r == Err::<String, BodyError>(BodyError::NotFound),
            Some(d) => match email_text(d) {
                Ok(t) => r matches Ok(s) && s@ == t,
                Err(e) => r == Err::<String, BodyError>(BodyError::Undecodable(e)),
            },
        },
{
    match message_body(message) {
        None => Err(BodyError::NotFound),
        Some(d) => match decode_email_content(d) {
            Ok(s) => Ok(s),
            Err(e) => Err(BodyError::Undecodable(e)),
        },
    }
}

/// The headers of a message, `payload.headers`; none when missing.
pub open spec fn message_header_list(message: JsonValue) -> Seq<JsonValue> {
    match message.member("payload"@) {
        Some(p) => match p.member("headers"@) {
            Some(JsonValue::Array(v)) => v@,
            _ => Seq::empty(),
        },
        None => Seq::empty(),
    }
}

/// The value of the last header called `name`; a header without a string
/// value reads as empty.
pub open spec fn header_value(headers: Seq<JsonValue>, name: Seq<char>) -> Option<Seq<char>>
    decreases headers.len(),
{
    if headers.len() == 0 {
        None
    } else if text_or_empty(headers.last(), "name"@) == name {
        Some(text_or_empty(headers.last(), "value"@))
    } else {
        header_value(headers.drop_last(), name)
    }
}

/// The sender, subject and date of a message.
#[derive(Debug, Clone)]
pub struct MessageHeaders {
    pub from: Option<String>,
    pub subject: Option<String>,
    pub date: Option<String>,
}

fn text_or_empty_exec(v: &JsonValue, key: &str) -> (r: String)
    ensures
        r@ == text_or_empty(*v, key@),
{
    match str_member_exec(v, key) {
        Some(s) => s.to_string(),
        None => String::new(),
    }
}

/// The `From`, `Subject` and `Date` headers of a message; when a header
/// occurs more than once the last occurrence counts.
pub fn message_headers(message: &JsonValue) -> (r: MessageHeaders)
    ensures
        opt_view(r.from) == header_value(message_header_list(*message), "From"@),
        opt_view(r.subject) == header_value(message_header_list(*message), "Subject"@),
        opt_view(r.date) == header_value(message_header_list(*message), "Date"@),
{
    let mut out = MessageHeaders { from: None, subject: None, date: None };
    let headers: &Vec<JsonValue> = match message.get("payload") {
        Some(p) => match p.get("headers") {
            Some(JsonValue::Array(v)) => v,
            _ => return out,
        },
        None => return out,
    };
    let mut i: usize = 0;
    while i < headers.len()
        invariant
            0 <= i <= headers.len(),
            headers@ == message_header_list(*message),
            opt_view(out.from) == header_value(headers@.subrange(0, i as int), "From"@),
            opt_view(out.subject) == header_value(headers@.subrange(0, i as int), "Subject"@),
            opt_view(out.date) == header_value(headers@.subrange(0, i as int), "Date"@),
        decreases headers.len() - i,
    {
        let ghost before = headers@.subrange(0, i as int);
        let ghost after = headers@.subrange(0, i + 1);
        assert(after.drop_last() =~= before);
        assert(after.last() == headers@[i as int]);
        let name = text_or_empty_exec(&headers[i], "name");
        let value = text_or_empty_exec(&headers[i], "value");
        if str_eq(name.as_str(), "From") {
            out.from = Some(value);
        } else if str_eq(name.as_str(), "Subject") {
            out.subject = Some(value);
        } else if str_eq(name.as_str(), "Date") {
            out.date = Some(value);
        }
        proof {
            reveal_strlit("From");
            reveal_strlit("Subject");
            reveal_strlit("Date");
            assert("From"@.len() != "Subject"@.len());
            assert("From"@[0] != "Date"@[0]);
            assert("Subject"@.len() != "Date"@.len());
        }
        i += 1;
    }
    assert(headers@.subrange(0, headers@.len() as int) =~= headers@);
    out
}

} // verus!
