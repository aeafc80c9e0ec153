use crate::text::{chars_of, has_prefix, starts_with, text_view, trim, trimmed};
use vstd::prelude::*;

verus! {

/// A content type that names a document: `application/pdf`, with or without
/// parameters behind it.
pub open spec fn is_document(content_type: Option<Seq<char>>) -> bool {
    match content_type {
        Some(t) => has_prefix(trim(t), "application/pdf"@),
        None => false,
    }
}

/// Questions about what a probe of a URL brought back.
pub struct DownloadMisc;

impl DownloadMisc {
    /// Whether the content type that a probe reported, if it reported one,
    /// names a document.
    pub fn is_pdf_file(content_type: Option<&str>) -> (b: bool)
        ensures
            b == is_document(text_view(content_type)),
    {
        match content_type {
            Some(t) => starts_with(&trimmed(&chars_of(t)), &chars_of("application/pdf")),
            None => false,
        }
    }
}

} // verus!
