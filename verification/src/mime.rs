//! MIME resolution: a deterministic, ASCII-case-insensitive mapping from a
//! file extension to a content-type string. Unknown and absent extensions
//! both fall back to `application/octet-stream`.
use vstd::prelude::*;
use crate::text::lower_seq;
use crate::text::str_eq_lower;
use crate::request::extension;
use crate::request::extension_of;

verus! {

/// The content type served for a file with the given extension, or with
/// none. The match is on the ASCII-lowercased extension.
pub open spec fn content_type_of(ext: Option<Seq<char>>) -> Seq<char> {
    match ext {
        None => "application/octet-stream"@,
        Some(e) => {
            let l = lower_seq(e);
            if l == "html"@ || l == "htm"@ {
                "text/html"@
            } else if l == "css"@ || l == "scss"@ {
                "text/css"@
            } else if l == "js"@ || l == "es6"@ {
                "text/javascript"@
            } else if l == "pdf"@ {
                "application/pdf"@
            } else if l == "zip"@ {
                "application/zip"@
            } else if l == "mp3"@ {
                "application/mp3"@
            } else if l == "ico"@ {
                "image/x-icon"@
            } else if l == "png"@ {
                "image/png"@
            } else if l == "bmp"@ {
                "image/bmp"@
            } else if l == "gif"@ {
                "image/gif"@
            } else if l == "jpg"@ || l == "jpeg"@ {
                "image/jpeg"@
            } else if l == "txt"@ || l == "text"@ || l == "md"@ {
                "text/plain"@
            } else {
                "application/octet-stream"@
            }
        },
    }
}

/// Law: MIME resolution is case-insensitive — two extensions with the
/// same ASCII-lowercased form resolve to the same content type.
pub proof fn lemma_content_type_case_insensitive(e1: Seq<char>, e2: Seq<char>)
    requires
        lower_seq(e1) == lower_seq(e2),
    ensures
        content_type_of(Some(e1)) == content_type_of(Some(e2)),
{
}

/// Law: a file without an extension resolves to the fallback type.
pub proof fn lemma_content_type_fallback()
    ensures
        content_type_of(None) == "application/octet-stream"@,
{
}

/// The content type for the file named by `file`, resolved from its
/// extension.
pub fn get_contenttype_from_file(file: &str) -> (r: String)
    ensures
        r@ == content_type_of(extension_of(file@)),
{
    let ctype: &str = match extension(file) {
        None => "application/octet-stream",
        Some(e) => {
            if str_eq_lower(e, "html") || str_eq_lower(e, "htm") {
                "text/html"
            } else if str_eq_lower(e, "css") || str_eq_lower(e, "scss") {
                "text/css"
            } else if str_eq_lower(e, "js") || str_eq_lower(e, "es6") {
                "text/javascript"
            } else if str_eq_lower(e, "pdf") {
                "application/pdf"
            } else if str_eq_lower(e, "zip") {
                "application/zip"
            } else if str_eq_lower(e, "mp3") {
                "application/mp3"
            } else if str_eq_lower(e, "ico") {
                "image/x-icon"
            } else if str_eq_lower(e, "png") {
                "image/png"
            } else if str_eq_lower(e, "bmp") {
                "image/bmp"
            } else if str_eq_lower(e, "gif") {
                "image/gif"
            } else if str_eq_lower(e, "jpg") || str_eq_lower(e, "jpeg") {
                "image/jpeg"
            } else if str_eq_lower(e, "txt") || str_eq_lower(e, "text") || str_eq_lower(
                e,
                "md",
            ) {
                "text/plain"
            } else {
                "application/octet-stream"
            }
        },
    };
    ctype.to_owned()
}

} // verus!
