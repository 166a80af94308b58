use file_prober::request::{make_php_session_cookie, make_request};

#[test]
fn url_carries_the_identifier_as_file_id() {
    assert_eq!(
        make_request("https://example.com/files", "ABCD1234-EFGH-IJKL-MNOP-QRSTUVWXYZ12"),
        "https://example.com/files?fileId=ABCD1234-EFGH-IJKL-MNOP-QRSTUVWXYZ12"
    );
}

#[test]
fn url_with_empty_parts() {
    assert_eq!(make_request("", ""), "?fileId=");
}

#[test]
fn cookie_names_the_session() {
    assert_eq!(make_php_session_cookie("abc123"), "PHPSESSID=abc123");
}

#[test]
fn cookie_keeps_the_credential_verbatim() {
    assert_eq!(make_php_session_cookie(" a=b;c "), "PHPSESSID= a=b;c ");
    assert_eq!(make_php_session_cookie(""), "PHPSESSID=");
}
