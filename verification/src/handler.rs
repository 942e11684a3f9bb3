//! The decisions a connection handler makes, separated from the socket and
//! filesystem work around them: classify the raw request bytes, choose the
//! file to serve or the fallback, and assemble the response head.
use vstd::prelude::*;
use crate::request::is_html;
use crate::request::is_html_file;
use crate::request::parse_filename_from_request;
use crate::request::request_path;

verus! {

/// Whether the raw request bytes begin with `GET ` — the only method the
/// server implements.
pub open spec fn is_get_request(b: Seq<u8>) -> bool {
    b.len() >= 4 && b[0] == ('G' as u8) && b[1] == ('E' as u8) && b[2] == ('T' as u8) && b[3] == (' ' as u8)
}

/// What std's `String::from_utf8_lossy` decodes the given bytes to.
pub uninterp spec fn lossy_utf8(b: Seq<u8>) -> Seq<char>;

/// Relies on std's `String::from_utf8_lossy`: the decoding is a function
/// of the bytes alone, and ASCII bytes decode to themselves.
#[verifier::external_body]
fn utf8_lossy(b: &[u8]) -> (r: String)
    ensures
        r@ == lossy_utf8(b@),
        (forall|i: int| 0 <= i < b@.len() ==> b@[i] < 128) ==> r@ == b@.map_values(
            |x: u8| x as char,
        ),
{
    String::from_utf8_lossy(b).into_owned()
}

/// The file a request line asks for: the parsed path, or `index.html` when
/// the line names the root or no path at all.
pub open spec fn requested_file(line: Seq<char>) -> Seq<char> {
    match request_path(line) {
        Some(p) => p,
        None => "index.html"@,
    }
}

/// What to do with one raw request: refuse the method, or fetch a file.
pub enum RequestPlan {
    NotImplemented,
    Fetch { filename: String },
}

/// Classify the raw bytes read from a connection. Anything that does not
/// begin with `GET ` is refused without naming a file, so nothing is ever
/// looked up on disk for an unsupported method.
pub fn plan_request(buffer: &[u8]) -> (r: RequestPlan)
    ensures
        !is_get_request(buffer@) ==> r is NotImplemented,
        is_get_request(buffer@) ==> (r matches RequestPlan::Fetch { filename } && filename@
            == requested_file(lossy_utf8(buffer@))),
{
    if !(buffer.len() >= 4 && buffer[0] == ('G' as u8) && buffer[1] == ('E' as u8) && buffer[2] == ('T' as u8)
        && buffer[3] == (' ' as u8)) {
        return RequestPlan::NotImplemented;
    }
    let s = utf8_lossy(buffer);
    let filename = match parse_filename_from_request(s.as_str()) {
        Some(f) => f.to_owned(),
        None => "index.html".to_owned(),
    };
    RequestPlan::Fetch { filename }
}

/// The filesystem outcome of a request: a file to serve (with the status
/// depending on whether the requested file itself was found), or nothing.
pub enum Resolution {
    Serve { found: bool, file: String },
    Missing,
}

/// Decide what to serve once the filesystem has been consulted:
/// `primary_exists` says whether the requested file exists under the
/// served root, `fallback_exists` whether the configured `404.html` does.
/// A missing HTML target is replaced by the 404 page (served with a 404
/// status); a missing non-HTML target gets no substitute.
pub fn resolve_target(filename: &str, primary_exists: bool, fallback_exists: bool) -> (r:
    Resolution)
    ensures
        primary_exists ==> (r matches Resolution::Serve { found, file } && found && file@
            == filename@),
        !primary_exists && is_html(filename@) && fallback_exists ==> (r
            matches Resolution::Serve { found, file } && !found && file@ == "404.html"@),
        !primary_exists && !(is_html(filename@) && fallback_exists) ==> r is Missing,
{
    if primary_exists {
        Resolution::Serve { found: true, file: filename.to_owned() }
    } else if is_html_file(filename) && fallback_exists {
        Resolution::Serve { found: false, file: "404.html".to_owned() }
    } else {
        Resolution::Missing
    }
}

/// The status line for a served or missing target.
pub open spec fn status_line_text(found: bool) -> Seq<char> {
    if found {
        "HTTP/1.1 200 OK"@
    } else {
        "HTTP/1.1 404 NOT FOUND"@
    }
}

/// Everything written before the body: status line, header block, and the
/// blank line that separates the head from the body.
pub fn build_response_head(found: bool, headers: &str) -> (r: String)
    ensures
        r@ == status_line_text(found) + "\r\n"@ + headers@ + "\r\n\r\n"@,
{
    let mut s = if found {
        "HTTP/1.1 200 OK".to_owned()
    } else {
        "HTTP/1.1 404 NOT FOUND".to_owned()
    };
    s.append("\r\n");
    s.append(headers);
    s.append("\r\n\r\n");
    proof {
        assert(s@ =~= status_line_text(found) + "\r\n"@ + headers@ + "\r\n\r\n"@);
    }
    s
}

/// The complete response sent for any method other than GET.
pub fn not_implemented_response() -> (r: &'static str)
    ensures
        r@ == "HTTP/1.1 501 Not Implemented\r\n\r\nRequested method is not implemented"@,
{
    "HTTP/1.1 501 Not Implemented\r\n\r\nRequested method is not implemented"
}

} // verus!
