use webserver::request::extension;
use webserver::request::is_html_file;
use webserver::request::parse_filename_from_request;

#[test]
fn parse_filename_from_request_none() {
    let line = "GET / HTTP/1.1\r\n";
    assert_eq!(None, parse_filename_from_request(&line));
}

#[test]
fn parse_filename_from_request_pathtofile() {
    let line = "GET /path/to/file.html HTTP/1.1\r\n";
    assert_eq!(
        Some("path/to/file.html"),
        parse_filename_from_request(&line)
    );
}

#[test]
fn parse_filename_from_request_other() {
    let line = "GET /other.css HTTP/1.1\r\n";
    assert_eq!(Some("other.css"), parse_filename_from_request(&line));
}

#[test]
fn parse_filename_from_request_nonsense() {
    let line = "GETindex.htmlHTTP/1.1\r\n";
    assert_eq!(None, parse_filename_from_request(&line));
}

#[test]
fn parse_filename_handles_leading_whitespace_and_short_lines() {
    assert_eq!(Some("a/b.css"), parse_filename_from_request("GET /a/b.css HTTP/1.1\r\n"));
    assert_eq!(None, parse_filename_from_request(""));
    assert_eq!(None, parse_filename_from_request("GET"));
    assert_eq!(None, parse_filename_from_request("GET \r\n"));
}

#[test]
fn extension_finds_the_last_dot_of_the_file_name() {
    assert_eq!(Some("html"), extension("index.html"));
    assert_eq!(Some("xz"), extension("archive.tar.xz"));
    assert_eq!(Some("css"), extension("a/b/c.css"));
    assert_eq!(None, extension("noext"));
    assert_eq!(None, extension(".hidden"));
    assert_eq!(None, extension("dir.d/file"));
}

#[test]
fn is_html_file_checks_the_extension_case_insensitively() {
    assert!(is_html_file("index.html"));
    assert!(is_html_file("index.HTML"));
    assert!(is_html_file("a/b/page.Htm"));
    assert!(!is_html_file("style.css"));
    assert!(!is_html_file("html"));
    assert!(!is_html_file("page.html.bak"));
}
