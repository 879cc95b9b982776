//! The decisions of the Gmail tools: request URLs and bodies, status checks,
//! and reading the resources that come back. The requests themselves are
//! sent by the caller.
use vstd::prelude::*;
use vstd::string::*;
use crate::encoding::{base64url_decode, base64url_decoded, base64url_encode, base64url_encoded, percent_encode, percent_encoded};
use crate::error::AuthError;
use crate::extract::ExtractError;
use crate::gmail::GMAIL_API_BASE;
use crate::json::JsonValue;
use crate::parts::{str_member, str_member_exec, BodyError, MessageHeaders};
use crate::text::{decimal, push_decimal};
use crate::token::opt_view;

verus! {

/// Why a tool call failed.
#[derive(Debug, Clone)]
pub enum ToolError {
    /// The authentication guard refused the call.
    Auth(AuthError),
    /// Gmail answered with a non-success status.
    Api { status: u16, body: String },
    /// A Gmail resource does not have the expected shape.
    InvalidResponse(String),
    /// The message has no attachment with this file name.
    AttachmentNotFound { filename: String },
    /// The attachment data is not valid base64url.
    InvalidAttachmentData,
    /// The message body could not be read.
    Body(BodyError),
    /// Text could not be extracted from the attachment.
    Extract(ExtractError),
}

/// A 2xx status.
pub open spec fn is_success(status: u16) -> bool {
    200 <= status <= 299
}

/// Passes a successful response; any other status becomes an error that
/// carries the status and the response body.
pub fn check_status(status: u16, body: &str) -> (r: Result<(), ToolError>)
    ensures
        is_success(status) ==> r is Ok,
        !is_success(status) ==> (r matches Err(ToolError::Api { status: s, body: b }) && s == status && b@ == body@),
{
    if 200 <= status && status <= 299 {
        Ok(())
    } else {
        Err(ToolError::Api { status, body: body.to_string() })
    }
}

/// The API prefix for a user's resources.
pub open spec fn users_base(user_id: Seq<char>) -> Seq<char> {
    GMAIL_API_BASE@ + "/users/"@ + user_id
}

fn users_base_exec(user_id: &str) -> (r: String)
    ensures
        r@ == users_base(user_id@),
{
    let mut s = GMAIL_API_BASE.to_string();
    s.append("/users/");
    s.append(user_id);
    s
}

pub fn message_url(user_id: &str, message_id: &str) -> (r: String)
    ensures
        r@ == users_base(user_id@) + "/messages/"@ + message_id@,
{
    let mut s = users_base_exec(user_id);
    s.append("/messages/");
    s.append(message_id);
    s
}

pub fn attachment_url(user_id: &str, message_id: &str, attachment_id: &str) -> (r: String)
    ensures
        r@ == users_base(user_id@) + "/messages/"@ + message_id@ + "/attachments/"@ + attachment_id@,
{
    let mut s = message_url(user_id, message_id);
    s.append("/attachments/");
    s.append(attachment_id);
    s
}

pub fn thread_url(user_id: &str, thread_id: &str) -> (r: String)
    ensures
        r@ == users_base(user_id@) + "/threads/"@ + thread_id@,
{
    let mut s = users_base_exec(user_id);
    s.append("/threads/");
    s.append(thread_id);
    s
}

pub fn drafts_url(user_id: &str) -> (r: String)
    ensures
        r@ == users_base(user_id@) + "/drafts"@,
{
    let mut s = users_base_exec(user_id);
    s.append("/drafts");
    s
}

pub fn draft_send_url(user_id: &str, draft_id: &str) -> (r: String)
    ensures
        r@ == users_base(user_id@) + "/drafts/"@ + draft_id@ + "/send"@,
{
    let mut s = users_base_exec(user_id);
    s.append("/drafts/");
    s.append(draft_id);
    s.append("/send");
    s
}

pub fn message_send_url(user_id: &str) -> (r: String)
    ensures
        r@ == users_base(user_id@) + "/messages/send"@,
{
    let mut s = users_base_exec(user_id);
    s.append("/messages/send");
    s
}

/// The decimal form of a signed integer.
pub open spec fn signed_decimal(n: int) -> Seq<char> {
    if n < 0 {
        "-"@ + decimal((-n) as nat)
    } else {
        decimal(n as nat)
    }
}

/// The thread search URL: the query percent-encoded, then the result limit.
pub fn search_threads_url(user_id: &str, query: &str, max_results: i64) -> (r: String)
    ensures
        r@ == users_base(user_id@) + "/threads?q="@ + percent_encoded(query.spec_bytes()) + "&maxResults="@
            + signed_decimal(max_results as int),
{
    let mut s = users_base_exec(user_id);
    s.append("/threads?q=");
    let q = percent_encode(query);
    s.append(q.as_str());
    s.append("&maxResults=");
    if max_results < 0 {
        s.append("-");
        let magnitude: u64 = (-(max_results as i128)) as u64;
        push_decimal(&mut s, magnitude);
    } else {
        push_decimal(&mut s, max_results as u64);
    }
    s
}

/// A plain-text message in RFC 2822 form.
pub open spec fn plain_message(to: Seq<char>, subject: Seq<char>, body: Seq<char>) -> Seq<char> {
    "To: "@ + to + "\r\nSubject: "@ + subject + "\r\nContent-Type: text/plain; charset=utf-8\r\n"@
        + "\r\n"@ + body
}

pub fn build_plain_message(to: &str, subject: &str, body: &str) -> (r: String)
    ensures
        r@ == plain_message(to@, subject@, body@),
{
    let mut m = "To: ".to_string();
    m.append(to);
    m.append("\r\nSubject: ");
    m.append(subject);
    m.append("\r\nContent-Type: text/plain; charset=utf-8\r\n");
    m.append("\r\n");
    m.append(body);
    m
}

/// A header line when the header is known, else nothing.
pub open spec fn optional_line(label: Seq<char>, value: Option<Seq<char>>) -> Seq<char> {
    match value {
        Some(v) => label + v + "\r\n"@,
        None => Seq::empty(),
    }
}

/// A forward: the new message, then the original's sender, date, subject
/// and body under a separator.
pub open spec fn forward_message(
    to: Seq<char>,
    subject: Seq<char>,
    body: Seq<char>,
    from: Option<Seq<char>>,
    date: Option<Seq<char>>,
    original_subject: Option<Seq<char>>,
    original_body: Seq<char>,
) -> Seq<char> {
    plain_message(to, subject, body) + "\r\n\r\n"@ + "---------- Forwarded message ----------\r\n"@
        + optional_line("From: "@, from) + optional_line("Date: "@, date) + optional_line(
        "Subject: "@,
        original_subject,
    ) + "\r\n"@ + original_body
}

fn push_optional_line(m: &mut String, label: &str, value: &Option<String>)
    ensures
        final(m)@ == old(m)@ + optional_line(label@, opt_view(*value)),
{
    match value {
        Some(v) => {
            m.append(label);
            m.append(v.as_str());
            m.append("\r\n");
        },
        None => {},
    }
}

pub fn build_forward_message(
    to: &str,
    subject: &str,
    body: &str,
    original: &MessageHeaders,
    original_body: &str,
) -> (r: String)
    ensures
        r@ == forward_message(
            to@,
            subject@,
            body@,
            opt_view(original.from),
            opt_view(original.date),
            opt_view(original.subject),
            original_body@,
        ),
{
    let mut m = build_plain_message(to, subject, body);
    m.append("\r\n\r\n");
    m.append("---------- Forwarded message ----------\r\n");
    push_optional_line(&mut m, "From: ", &original.from);
    push_optional_line(&mut m, "Date: ", &original.date);
    push_optional_line(&mut m, "Subject: ", &original.subject);
    m.append("\r\n");
    m.append(original_body);
    m
}

/// The `raw` field of a message: its UTF-8 bytes in base64url.
pub fn encode_raw_message(message: &str) -> (r: String)
    ensures
        r@ == base64url_encoded(message.spec_bytes()),
{
    base64url_encode(message.as_bytes())
}

/// The body of a draft creation request:
/// `{"message": {"raw": raw, "threadId": thread_id}}`, without `threadId`
/// when no thread is given.
pub fn draft_request(raw: String, thread_id: Option<&str>) -> (r: JsonValue)
    ensures
        r.member("message"@) matches Some(m) && str_member(m, "raw"@) == Some(raw@) && str_member(
            m,
            "threadId"@,
        ) == match thread_id {
            Some(t) => Some(t@),
            None => None::<Seq<char>>,
        },
{
    let ghost raw_view = raw@;
    let mut fields: Vec<(String, JsonValue)> = vec![("raw".to_string(), JsonValue::Str(raw))];
    match thread_id {
        Some(t) => fields.push(("threadId".to_string(), JsonValue::Str(t.to_string()))),
        None => {},
    }
    let r = JsonValue::Object(vec![("message".to_string(), JsonValue::Object(fields))]);
    proof {
        reveal_strlit("raw");
        reveal_strlit("threadId");
        assert("raw"@.len() != "threadId"@.len());
        reveal_with_fuel(crate::json::lookup, 3);
    }
    r
}

/// The body of a send request: `{"raw": raw}`.
pub fn send_request(raw: String) -> (r: JsonValue)
    ensures
        str_member(r, "raw"@) == Some(raw@),
{
    JsonValue::Object(vec![("raw".to_string(), JsonValue::Str(raw))])
}

/// The top-level parts of a message, `payload.parts`.
pub fn message_parts(message: &JsonValue) -> (r: Result<&Vec<JsonValue>, ToolError>)
    ensures
        match r {
            Ok(v) => message.member("payload"@) matches Some(p) && p.member("parts"@) == Some(
                JsonValue::Array(*v),
            ),
            Err(e) => e is InvalidResponse && !(message.member("payload"@) matches Some(p) && p.member(
                "parts"@,
            ) matches Some(JsonValue::Array(_))),
        },
{
    match message.get("payload") {
        Some(p) => match p.get("parts") {
            Some(JsonValue::Array(v)) => Ok(v),
            _ => Err(ToolError::InvalidResponse("Invalid message structure".to_string())),
        },
        None => Err(ToolError::InvalidResponse("Invalid message structure".to_string())),
    }
}

/// The decoded bytes of an attachment resource's `data` field.
pub fn attachment_bytes(attachment: &JsonValue) -> (r: Result<Vec<u8>, ToolError>)
    ensures
        match str_member(*attachment, "data"@) {
            None => r matches Err(e) && e is InvalidResponse,
            Some(d) => match base64url_decoded(d) {
                Some(b) => r matches Ok(v) && v@ == b,
                None => r matches Err(e) && e is InvalidAttachmentData,
            },
        },
{
    match str_member_exec(attachment, "data") {
        None => Err(ToolError::InvalidResponse("Invalid attachment data".to_string())),
        Some(d) => match base64url_decode(d) {
            Ok(b) => Ok(b),
            Err(_) => Err(ToolError::InvalidAttachmentData),
        },
    }
}

/// The ids of the messages of a thread resource, in order.
pub fn thread_message_ids(thread: &JsonValue) -> (r: Result<Vec<String>, ToolError>)
    ensures
        match r {
            Ok(ids) => thread.member("messages"@) matches Some(JsonValue::Array(ms)) && ids@.len()
                == ms@.len() && forall|i: int|
                0 <= i < ids@.len() ==> str_member(ms@[i], "id"@) == Some(#[trigger] ids@[i]@),
            Err(e) => e is InvalidResponse && !(thread.member("messages"@) matches Some(
                JsonValue::Array(ms),
            ) && forall|i: int| 0 <= i < ms@.len() ==> str_member(#[trigger] ms@[i], "id"@) is Some),
        },
{
    let messages = match thread.get("messages") {
        Some(JsonValue::Array(v)) => v,
        _ => return Err(ToolError::InvalidResponse("Invalid thread structure".to_string())),
    };
    let mut ids: Vec<String> = Vec::new();
    let mut i: usize = 0;
    while i < messages.len()
        invariant
            0 <= i <= messages.len(),
            thread.member("messages"@) == Some(JsonValue::Array(*messages)),
            ids@.len() == i,
            forall|k: int| 0 <= k < i ==> str_member(messages@[k], "id"@) == Some(#[trigger] ids@[k]@),
        decreases messages.len() - i,
    {
        match str_member_exec(&messages[i], "id") {
            Some(id) => ids.push(id.to_string()),
            None => {
                assert(str_member(messages@[i as int], "id"@) is None);
                return Err(ToolError::InvalidResponse("Message missing ID".to_string()));
            },
        }
        i += 1;
    }
    Ok(ids)
}

proof fn lemma_report_keys()
    ensures
        "mime_type"@ != "filename"@,
        "size"@ != "filename"@,
        "size"@ != "mime_type"@,
        "extracted_text"@ != "filename"@,
        "extracted_text"@ != "mime_type"@,
        "extracted_text"@ != "size"@,
        "error"@ != "filename"@,
        "error"@ != "mime_type"@,
        "error"@ != "size"@,
        "error"@ != "extracted_text"@,
{
    reveal_strlit("filename");
    reveal_strlit("mime_type");
    reveal_strlit("size");
    reveal_strlit("extracted_text");
    reveal_strlit("error");
    assert("mime_type"@.len() != "filename"@.len());
    assert("size"@.len() != "filename"@.len());
    assert("size"@.len() != "mime_type"@.len());
    assert("extracted_text"@.len() != "filename"@.len());
    assert("extracted_text"@.len() != "mime_type"@.len());
    assert("extracted_text"@.len() != "size"@.len());
    assert("error"@.len() != "filename"@.len());
    assert("error"@.len() != "mime_type"@.len());
    assert("error"@.len() != "size"@.len());
    assert("error"@.len() != "extracted_text"@.len());
}

/// Whether a fetch in a batch is passed over: a thread or message whose
/// request failed is skipped, so that one bad item does not fail the batch.
pub fn skip_failed_fetch(status: u16) -> (r: bool)
    ensures
        r == !is_success(status),
{
    !(200 <= status && status <= 299)
}

/// The result of extracting an attachment's text:
/// `{filename, mime_type, size, extracted_text}`. When no text could be
/// extracted, `extracted_text` is null and `error` says that the type is not
/// supported; this is a result, not a failure.
pub fn attachment_text_report(filename: &str, mime_type: &str, size: usize, extracted: Option<String>) -> (r: JsonValue)
    ensures
        r is Object,
        str_member(r, "filename"@) == Some(filename@),
        str_member(r, "mime_type"@) == Some(mime_type@),
        r.member("size"@) == Some(JsonValue::Number(size as u64)),
        match extracted {
            Some(t) => str_member(r, "extracted_text"@) == Some(t@) && r.member("error"@) is None,
            None => r.member("extracted_text"@) == Some(JsonValue::Null) && str_member(r, "error"@) == Some(
                "File type not supported for text extraction"@,
            ),
        },
{
    let mut fields: Vec<(String, JsonValue)> = vec![
        ("filename".to_string(), JsonValue::Str(filename.to_string())),
        ("mime_type".to_string(), JsonValue::Str(mime_type.to_string())),
        ("size".to_string(), JsonValue::Number(size as u64)),
    ];
    match extracted {
        Some(t) => {
            fields.push(("extracted_text".to_string(), JsonValue::Str(t)));
        },
        None => {
            fields.push(("extracted_text".to_string(), JsonValue::Null));
            fields.push(
                ("error".to_string(), JsonValue::Str("File type not supported for text extraction".to_string())),
            );
        },
    }
    proof {
        lemma_report_keys();
        reveal_with_fuel(crate::json::lookup, 6);
    }
    JsonValue::Object(fields)
}

} // verus!
