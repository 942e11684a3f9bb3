use webserver::mime::get_contenttype_from_file;

#[test]
fn get_contenttype_from_file_test() {
    let file = "test/index.html";
    let expected = "text/html";
    let result = get_contenttype_from_file(&file);
    assert_eq!(expected, result);
}

#[test]
fn get_contenttype_from_file_test_upper() {
    let file = "index.HTML";
    let expected = "text/html";
    let result = get_contenttype_from_file(&file);
    assert_eq!(expected, result);
}

#[test]
fn get_contenttype_from_file_test_htm() {
    let file = "index.HTm";
    let expected = "text/html";
    let result = get_contenttype_from_file(&file);
    assert_eq!(expected, result);
}

#[test]
fn get_contenttype_from_file_test_unknown() {
    let file = "index.xxx";
    let expected = "application/octet-stream";
    let result = get_contenttype_from_file(&file);
    assert_eq!(expected, result);
}

#[test]
fn get_contenttype_from_file_test_noext() {
    let file = "some file name";
    let expected = "application/octet-stream";
    let result = get_contenttype_from_file(&file);
    assert_eq!(expected, result);
}

#[test]
fn known_extensions_resolve_case_insensitively() {
    assert_eq!("text/html", get_contenttype_from_file("INDEX.HTML"));
    assert_eq!("text/html", get_contenttype_from_file("a.htm"));
    assert_eq!("text/css", get_contenttype_from_file("style.css"));
    assert_eq!("text/css", get_contenttype_from_file("style.SCSS"));
    assert_eq!("text/javascript", get_contenttype_from_file("app.js"));
    assert_eq!("text/javascript", get_contenttype_from_file("app.ES6"));
    assert_eq!("application/pdf", get_contenttype_from_file("doc.pdf"));
    assert_eq!("application/zip", get_contenttype_from_file("a.ZIP"));
    assert_eq!("application/mp3", get_contenttype_from_file("song.mp3"));
    assert_eq!("image/x-icon", get_contenttype_from_file("favicon.ico"));
    assert_eq!("image/png", get_contenttype_from_file("img.PNG"));
    assert_eq!("image/bmp", get_contenttype_from_file("img.bmp"));
    assert_eq!("image/gif", get_contenttype_from_file("anim.gif"));
    assert_eq!("image/jpeg", get_contenttype_from_file("photo.jpg"));
    assert_eq!("image/jpeg", get_contenttype_from_file("photo.Jpeg"));
    assert_eq!("text/plain", get_contenttype_from_file("notes.txt"));
    assert_eq!("text/plain", get_contenttype_from_file("notes.text"));
    assert_eq!("text/plain", get_contenttype_from_file("README.md"));
}

#[test]
fn unknown_or_absent_extension_falls_back() {
    assert_eq!("application/octet-stream", get_contenttype_from_file("archive.tar.xz"));
    assert_eq!("application/octet-stream", get_contenttype_from_file("noext"));
    assert_eq!("application/octet-stream", get_contenttype_from_file("dir.d/file"));
    assert_eq!("application/octet-stream", get_contenttype_from_file(".hidden"));
    assert_eq!("application/octet-stream", get_contenttype_from_file(""));
}
