use webserver::handler::build_response_head;
use webserver::handler::not_implemented_response;
use webserver::handler::plan_request;
use webserver::handler::resolve_target;
use webserver::handler::RequestPlan;
use webserver::handler::Resolution;
use webserver::headers::build_default_headers;
use webserver::headers::build_file_headers;
use webserver::headers::get_default_response_headers;
use webserver::headers::get_response_headers_from_file;
use webserver::headers::u64_to_string;

#[test]
fn non_get_requests_are_refused_without_naming_a_file() {
    let plan = plan_request(b"POST / HTTP/1.1\r\n");
    assert!(matches!(plan, RequestPlan::NotImplemented));
    let plan = plan_request(b"PUT /x.html HTTP/1.1\r\n");
    assert!(matches!(plan, RequestPlan::NotImplemented));
    let plan = plan_request(b"");
    assert!(matches!(plan, RequestPlan::NotImplemented));
    assert_eq!(
        "HTTP/1.1 501 Not Implemented\r\n\r\nRequested method is not implemented",
        not_implemented_response()
    );
}

#[test]
fn get_requests_name_the_requested_file() {
    match plan_request(b"GET /a/b.css HTTP/1.1\r\n") {
        RequestPlan::Fetch { filename } => assert_eq!("a/b.css", filename),
        _ => panic!("expected a fetch plan"),
    }
}

#[test]
fn root_requests_fetch_the_index_page() {
    match plan_request(b"GET / HTTP/1.1\r\n") {
        RequestPlan::Fetch { filename } => assert_eq!("index.html", filename),
        _ => panic!("expected a fetch plan"),
    }
}

#[test]
fn an_existing_target_is_served_as_found() {
    match resolve_target("style.css", true, false) {
        Resolution::Serve { found, file } => {
            assert!(found);
            assert_eq!("style.css", file);
        },
        _ => panic!("expected the file to be served"),
    }
}

#[test]
fn a_missing_html_target_is_replaced_by_the_404_page() {
    match resolve_target("absent.html", false, true) {
        Resolution::Serve { found, file } => {
            assert!(!found);
            assert_eq!("404.html", file);
        },
        _ => panic!("expected the fallback page to be served"),
    }
}

#[test]
fn a_missing_non_html_target_gets_no_substitute() {
    assert!(matches!(resolve_target("absent.css", false, true), Resolution::Missing));
    assert!(matches!(resolve_target("absent.css", false, false), Resolution::Missing));
    assert!(matches!(resolve_target("absent.html", false, false), Resolution::Missing));
}

#[test]
fn the_response_head_joins_status_headers_and_blank_line() {
    assert_eq!(
        "HTTP/1.1 200 OK\r\nH: v\r\n\r\n",
        build_response_head(true, "H: v")
    );
    assert_eq!(
        "HTTP/1.1 404 NOT FOUND\r\nH: v\r\n\r\n",
        build_response_head(false, "H: v")
    );
}

#[test]
fn decimal_formatting_is_exact() {
    assert_eq!("0", u64_to_string(0));
    assert_eq!("7", u64_to_string(7));
    assert_eq!("1024", u64_to_string(1024));
    assert_eq!("65535", u64_to_string(65535));
    assert_eq!("18446744073709551615", u64_to_string(u64::MAX));
}

#[test]
fn the_default_header_block_has_the_documented_shape() {
    assert_eq!(
        "Date: X\nServer: DKG WebServer/0.1 alpha\nLast-Modified: X\nConnection: Closed",
        build_default_headers("X")
    );
    let headers = get_default_response_headers();
    assert!(headers.starts_with("Date: "));
    assert!(headers.contains("\nServer: DKG WebServer/0.1 alpha\n"));
    assert!(headers.ends_with("\nConnection: Closed"));
}

#[test]
fn the_file_header_block_has_the_documented_shape() {
    assert_eq!(
        "Date: N\nServer: DKG WebServer/0.1 alpha\nLast-Modified: M\n\
         Content-Length: 1024\nContent-Type: text/html\nConnection: Closed",
        build_file_headers("N", "M", 1024, "text/html")
    );
}

#[test]
fn file_headers_carry_length_type_and_modification_date() {
    let headers = get_response_headers_from_file("www/index.html", 5, 0);
    assert!(headers.contains("Last-Modified: Thu, 01 Jan 1970 00:00:00 UTC"));
    assert!(headers.contains("Content-Length: 5"));
    assert!(headers.contains("Content-Type: text/html"));
    let headers = get_response_headers_from_file("logo.png", 31337, 1431648000);
    assert!(headers.contains("Last-Modified: Fri, 15 May 2015 00:00:00 UTC"));
    assert!(headers.contains("Content-Length: 31337"));
    assert!(headers.contains("Content-Type: image/png"));
}
