//! Which attachments can be turned into text, and how.
use vstd::prelude::*;
use vstd::string::*;
use vstd::utf8::{decode_utf8, valid_utf8};
use crate::encoding::{lowercase, lowercase_of};
use crate::email::text_from_bytes;
use crate::text::{ends_with_seq, ends_with_str, str_eq};

verus! {

/// A document format that text can be extracted from.
#[derive(Debug, Clone, Copy, PartialEq, Eq, Structural)]
pub enum DocumentKind {
    Pdf,
    Docx,
    PlainText,
}

/// The format of a document, from its declared MIME type or else from the
/// extension of its lower-cased file name.
pub open spec fn kind_of(mime_type: Seq<char>, lowered_filename: Seq<char>) -> Option<DocumentKind> {
    if mime_type == "application/pdf"@ {
        Some(DocumentKind::Pdf)
    } else if mime_type == "application/vnd.openxmlformats-officedocument.wordprocessingml.document"@ {
        Some(DocumentKind::Docx)
    } else if mime_type == "text/plain"@ {
        Some(DocumentKind::PlainText)
    } else if ends_with_seq(lowered_filename, ".pdf"@) {
        Some(DocumentKind::Pdf)
    } else if ends_with_seq(lowered_filename, ".docx"@) {
        Some(DocumentKind::Docx)
    } else if ends_with_seq(lowered_filename, ".txt"@) {
        Some(DocumentKind::PlainText)
    } else {
        None
    }
}

/// The format of a document whose file name is already lower-cased.
pub fn kind_from_lowered(mime_type: &str, lowered_filename: &str) -> (r: Option<DocumentKind>)
    ensures
        r == kind_of(mime_type@, lowered_filename@),
{
    if str_eq(mime_type, "application/pdf") {
        Some(DocumentKind::Pdf)
    } else if str_eq(mime_type, "application/vnd.openxmlformats-officedocument.wordprocessingml.document") {
        Some(DocumentKind::Docx)
    } else if str_eq(mime_type, "text/plain") {
        Some(DocumentKind::PlainText)
    } else if ends_with_str(lowered_filename, ".pdf") {
        Some(DocumentKind::Pdf)
    } else if ends_with_str(lowered_filename, ".docx") {
        Some(DocumentKind::Docx)
    } else if ends_with_str(lowered_filename, ".txt") {
        Some(DocumentKind::PlainText)
    } else {
        None
    }
}

/// The format of a document, if text can be extracted from it.
pub fn document_kind(mime_type: &str, filename: &str) -> (r: Option<DocumentKind>)
    ensures
        r == kind_of(mime_type@, lowercase_of(filename@)),
{
    let lowered = lowercase(filename);
    kind_from_lowered(mime_type, lowered.as_str())
}

/// Whether text can be extracted from this document.
pub fn is_extractable_document(mime_type: &str, filename: &str) -> (r: bool)
    ensures
        r == kind_of(mime_type@, lowercase_of(filename@)) is Some,
{
    document_kind(mime_type, filename).is_some()
}

/// What extraction gives.
#[derive(Debug, Clone)]
pub enum Extracted {
    /// The text itself.
    Text(String),
    /// The bytes are a document of this format, to be handed to its converter.
    NeedsConversion(DocumentKind),
}

/// Why no text could be extracted.
#[derive(Debug, Clone)]
pub enum ExtractError {
    /// Neither the MIME type nor the file name names a supported format.
    Unsupported { mime_type: String },
    /// A plain-text attachment is not valid UTF-8.
    InvalidText,
}

/// Extraction for a document of format `kind` (none when unsupported).
pub open spec fn extraction(kind: Option<DocumentKind>, data: Seq<u8>, r: Result<Extracted, ExtractError>) -> bool {
    match kind {
        None => r matches Err(ExtractError::Unsupported { .. }),
        Some(DocumentKind::PlainText) => if valid_utf8(data) {
            r matches Ok(Extracted::Text(s)) && s@ == decode_utf8(data)
        } else {
            r matches Err(ExtractError::InvalidText)
        },
        Some(k) => r == Ok::<Extracted, ExtractError>(Extracted::NeedsConversion(k)),
    }
}

/// Extracts text from attachment bytes. Plain text is decoded here; PDF and
/// DOCX documents are named for their converter.
pub fn extract_text_from_bytes(data: &[u8], mime_type: &str, filename: &str) -> (r: Result<Extracted, ExtractError>)
    ensures
        extraction(kind_of(mime_type@, lowercase_of(filename@)), data@, r),
        r matches Err(ExtractError::Unsupported { mime_type: m }) ==> m@ == mime_type@,
{
    match document_kind(mime_type, filename) {
        None => Err(ExtractError::Unsupported { mime_type: mime_type.to_string() }),
        Some(DocumentKind::PlainText) => match text_from_bytes(data) {
            Ok(s) => Ok(Extracted::Text(s)),
            Err(_) => Err(ExtractError::InvalidText),
        },
        Some(k) => Ok(Extracted::NeedsConversion(k)),
    }
}

} // verus!
