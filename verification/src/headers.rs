//! Response-header construction. A header block is built from a current
//! date, a last-modified date, a content length and a content type; the
//! dates come from chrono behind trusted wrappers, everything else is
//! assembled and proved here.
use vstd::prelude::*;
use crate::mime::content_type_of;
use crate::mime::get_contenttype_from_file;
use crate::request::extension_of;

verus! {

/// Latest timestamp (last second of year 9999) accepted by the date
/// formatter; chrono returns a date for every second in `0..=` this bound.
pub const MAX_FORMAT_SECS: i64 = 253402300799;

/// The character for a single decimal digit.
pub open spec fn digit_char(d: nat) -> char {
    ((48 + d) as u8) as char
}

/// The decimal digits of `n`, most significant first.
pub open spec fn dec_str(n: nat) -> Seq<char>
    decreases n,
{
    if n < 10 {
        seq![digit_char(n)]
    } else {
        dec_str(n / 10).push(digit_char(n % 10))
    }
}

/// Format `n` in decimal.
pub fn u64_to_string(n: u64) -> (r: String)
    ensures
        r@ == dec_str(n as nat),
    decreases n,
{
    let digits = "0123456789";
    proof {
        reveal_strlit("0123456789");
    }
    if n < 10 {
        let d = digits.substring_char(n as usize, n as usize + 1);
        proof {
            assert(d@ =~= seq![digit_char(n as nat)]);
        }
        d.to_owned()
    } else {
        let mut prefix = u64_to_string(n / 10);
        let last = digits.substring_char((n % 10) as usize, (n % 10) as usize + 1);
        prefix.append(last);
        proof {
            assert(last@ =~= seq![digit_char((n % 10) as nat)]);
            assert(dec_str((n / 10) as nat) + seq![digit_char((n % 10) as nat)] =~= dec_str(
                n as nat,
            ));
        }
        prefix
    }
}

/// What chrono's formatter prints, under the server's fixed date format,
/// for the given count of seconds since the Unix epoch.
pub uninterp spec fn http_date_of(secs: int) -> Seq<char>;

/// Relies on chrono's `DateTime::<Utc>::from_timestamp` and
/// `DateTime::format` with the fixed format `%a, %d %b %Y %H:%M:%S %Z`:
/// the printed date is a function of the timestamp alone, and every
/// timestamp the precondition admits is in chrono's accepted range.
#[verifier::external_body]
fn format_http_date(secs: i64) -> (r: String)
    requires
        0 <= secs <= MAX_FORMAT_SECS,
    ensures
        r@ == http_date_of(secs as int),
{
    let date = chrono::DateTime::<chrono::Utc>::from_timestamp(secs, 0).unwrap();
    date.format("%a, %d %b %Y %H:%M:%S %Z").to_string()
}

/// Relies on chrono's `Utc::now` and `DateTime::format` with the fixed
/// format `%a, %d %b %Y %H:%M:%S %Z`. The result depends on the wall
/// clock, so nothing is promised of it.
#[verifier::external_body]
fn now_http_date() -> (r: String) {
    chrono::Utc::now().format("%a, %d %b %Y %H:%M:%S %Z").to_string()
}

/// The header block sent when no file body exists: only dates, the server
/// identity, and the close notice.
pub open spec fn default_headers_text(now: Seq<char>) -> Seq<char> {
    "Date: "@ + now + "\nServer: DKG WebServer/0.1 alpha\nLast-Modified: "@ + now
        + "\nConnection: Closed"@
}

/// The header block sent with a file body: dates, server identity,
/// content length, content type, and the close notice.
pub open spec fn file_headers_text(
    now: Seq<char>,
    modified: Seq<char>,
    size: nat,
    ctype: Seq<char>,
) -> Seq<char> {
    "Date: "@ + now + "\nServer: DKG WebServer/0.1 alpha\nLast-Modified: "@ + modified
        + "\nContent-Length: "@ + dec_str(size) + "\nContent-Type: "@ + ctype
        + "\nConnection: Closed"@
}

/// Build the bodiless header block around the given current date.
pub fn build_default_headers(now: &str) -> (r: String)
    ensures
        r@ == default_headers_text(now@),
{
    let mut s = "Date: ".to_owned();
    s.append(now);
    s.append("\nServer: DKG WebServer/0.1 alpha\nLast-Modified: ");
    s.append(now);
    s.append("\nConnection: Closed");
    proof {
        assert(s@ =~= default_headers_text(now@));
    }
    s
}

/// Build the with-file header block from its parts.
pub fn build_file_headers(now: &str, modified: &str, size: u64, ctype: &str) -> (r: String)
    ensures
        r@ == file_headers_text(now@, modified@, size as nat, ctype@),
{
    let mut s = "Date: ".to_owned();
    s.append(now);
    s.append("\nServer: DKG WebServer/0.1 alpha\nLast-Modified: ");
    s.append(modified);
    s.append("\nContent-Length: ");
    let len_str = u64_to_string(size);
    s.append(len_str.as_str());
    s.append("\nContent-Type: ");
    s.append(ctype);
    s.append("\nConnection: Closed");
    proof {
        assert(s@ =~= file_headers_text(now@, modified@, size as nat, ctype@));
    }
    s
}

/// The header block for a response without a file body, dated now. The
/// current date is read from the clock, so it is only known to be shared
/// by the Date and Last-Modified lines.
pub fn get_default_response_headers() -> (r: String)
    ensures
        exists|now: Seq<char>| r@ == default_headers_text(now),
{
    let now = now_http_date();
    let r = build_default_headers(now.as_str());
    proof {
        assert(r@ == default_headers_text(now@));
    }
    r
}

/// The header block for serving the file named `filepath`, of `size`
/// bytes, last modified `modified_secs` seconds after the Unix epoch.
/// Everything but the clock-dependent Date line is pinned down.
pub fn get_response_headers_from_file(filepath: &str, size: u64, modified_secs: i64) -> (r:
    String)
    requires
        0 <= modified_secs <= MAX_FORMAT_SECS,
    ensures
        exists|now: Seq<char>|
            r@ == file_headers_text(
                now,
                http_date_of(modified_secs as int),
                size as nat,
                content_type_of(extension_of(filepath@)),
            ),
{
    let now = now_http_date();
    let modified = format_http_date(modified_secs);
    let ctype = get_contenttype_from_file(filepath);
    let r = build_file_headers(now.as_str(), modified.as_str(), size, ctype.as_str());
    proof {
        assert(r@ == file_headers_text(
            now@,
            http_date_of(modified_secs as int),
            size as nat,
            content_type_of(extension_of(filepath@)),
        ));
    }
    r
}

} // verus!
