use rovr::extract::extract;

#[test]
fn full_url_with_scheme_and_www() {
    let r = extract("https://www.youtube.com/watch?v=dQw4w9WgXcQ");
    assert_eq!(r.as_deref(), Some("dQw4w9WgXcQ"));
}

#[test]
fn plain_host_no_scheme() {
    let r = extract("youtube.com/watch?v=abcdefghijk");
    assert_eq!(r.as_deref(), Some("abcdefghijk"));
}

#[test]
fn short_domain_form() {
    let r = extract("youtu.be/abc_def-123");
    assert_eq!(r.as_deref(), Some("abc_def-123"));
}

#[test]
fn short_domain_with_http_scheme() {
    let r = extract("see http://youtu.be/AAAAABBBBB1 please");
    assert_eq!(r.as_deref(), Some("AAAAABBBBB1"));
}

#[test]
fn reference_embedded_in_text() {
    let r = extract("hey, grab https://youtube.com/watch?v=0123456789_ for me");
    assert_eq!(r.as_deref(), Some("0123456789_"));
}

#[test]
fn longer_tail_takes_first_eleven() {
    let r = extract("www.youtube.com/watch?v=12345678901234");
    assert_eq!(r.as_deref(), Some("12345678901"));
}

#[test]
fn first_of_two_references_wins() {
    let r = extract("youtu.be/firstfirst1 and youtu.be/secondsecon");
    assert_eq!(r.as_deref(), Some("firstfirst1"));
}

#[test]
fn no_reference_at_all() {
    assert_eq!(extract("no link here"), None);
}

#[test]
fn identifier_too_short() {
    assert_eq!(extract("https://youtu.be/abcdefghij!"), None);
}

#[test]
fn host_is_case_sensitive() {
    assert_eq!(extract("YOUTU.BE/AAAAAAAAAAA"), None);
}

#[test]
fn empty_message() {
    assert_eq!(extract(""), None);
}

#[test]
fn scheme_without_recognized_host() {
    assert_eq!(extract("https://example.com/watch?v=abcdefghijk"), None);
}
