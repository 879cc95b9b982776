//! Email bodies: decoding and recognising HTML.
use vstd::prelude::*;
use vstd::string::*;
use vstd::utf8::{decode_utf8, valid_utf8};
use crate::encoding::{base64url_decode, base64url_decoded, lowercase, lowercase_of, utf8_text};
use crate::text::{contains_seq, contains_str};

verus! {

/// Why an encoded email part could not be read.
#[derive(Debug, Clone, Copy, PartialEq, Eq, Structural)]
pub enum ContentError {
    /// The data is not valid base64url.
    InvalidBase64,
    /// The decoded bytes are not valid UTF-8.
    InvalidUtf8,
}

/// The text of a base64url-encoded email part.
pub open spec fn email_text(data: Seq<char>) -> Result<Seq<char>, ContentError> {
    match base64url_decoded(data) {
        Some(b) => if valid_utf8(b) { Ok(decode_utf8(b)) } else { Err(ContentError::InvalidUtf8) },
        None => Err(ContentError::InvalidBase64),
    }
}

/// The text of decoded email bytes.
pub fn text_from_bytes(bytes: &[u8]) -> (r: Result<String, ContentError>)
    ensures
        match r {
            Ok(s) => valid_utf8(bytes@) && s@ == decode_utf8(bytes@),
            Err(e) => !valid_utf8(bytes@) && e == ContentError::InvalidUtf8,
        },
{
    match utf8_text(bytes) {
        Some(s) => Ok(s),
        None => Err(ContentError::InvalidUtf8),
    }
}

/// Decodes base64url-encoded email content to text.
pub fn decode_email_content(data: &str) -> (r: Result<String, ContentError>)
    ensures
        match r {
            Ok(s) => email_text(data@) == Ok::<Seq<char>, ContentError>(s@),
            Err(e) => email_text(data@) == Err::<Seq<char>, ContentError>(e),
        },
{
    match base64url_decode(data) {
        Ok(bytes) => text_from_bytes(bytes.as_slice()),
        Err(_) => Err(ContentError::InvalidBase64),
    }
}

/// The opening tags that mark content as HTML.
pub open spec fn html_tags() -> Seq<Seq<char>> {
    seq![
        "<html"@,
        "<body"@,
        "<p"@,
        "<div"@,
        "<span"@,
        "<h1"@,
        "<h2"@,
        "<h3"@,
        "<h4"@,
        "<h5"@,
        "<h6"@,
        "<strong"@,
        "<b"@,
        "<em"@,
        "<i"@,
        "<u"@,
        "<a"@,
        "<img"@,
        "<br"@,
        "<hr"@,
        "<ul"@,
        "<ol"@,
        "<li"@,
        "<table"@,
        "<tr"@,
        "<td"@,
        "<th"@,
    ]
}

/// Some opening tag of `html_tags` occurs in `s`.
pub open spec fn has_html_tag(s: Seq<char>) -> bool {
    exists|i: int| 0 <= i < html_tags().len() && #[trigger] contains_seq(s, html_tags()[i])
}

/// Whether already lower-cased text holds an HTML opening tag.
pub fn contains_html_tag(lowered: &str) -> (r: bool)
    ensures
        r == has_html_tag(lowered@),
{
    let tags: Vec<&'static str> = vec![
        "<html",
        "<body",
        "<p",
        "<div",
        "<span",
        "<h1",
        "<h2",
        "<h3",
        "<h4",
        "<h5",
        "<h6",
        "<strong",
        "<b",
        "<em",
        "<i",
        "<u",
        "<a",
        "<img",
        "<br",
        "<hr",
        "<ul",
        "<ol",
        "<li",
        "<table",
        "<tr",
        "<td",
        "<th",
    ];
    assert(tags.deep_view() =~= html_tags());
    let mut i: usize = 0;
    while i < tags.len()
        invariant
            0 <= i <= tags.len(),
            tags.deep_view() == html_tags(),
            forall|j: int| 0 <= j < i ==> !contains_seq(lowered@, #[trigger] html_tags()[j]),
        decreases tags.len() - i,
    {
        assert(tags.deep_view()[i as int] == tags@[i as int]@);
        if contains_str(lowered, tags[i]) {
            return true;
        }
        i += 1;
    }
    false
}

/// Whether content looks like HTML: some opening tag occurs in it, letter
/// case aside.
pub fn is_html_content(content: &str) -> (r: bool)
    ensures
        r == has_html_tag(lowercase_of(content@)),
{
    let lowered = lowercase(content);
    contains_html_tag(lowered.as_str())
}

} // verus!
