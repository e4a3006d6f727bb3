use koharu::mcp::data_url::{split_data_url, DEFAULT_MEDIA_TYPE};

fn split(url: &str) -> Option<(String, String)> {
    split_data_url(url)
}

fn parts(mime: &str, data: &str) -> Option<(String, String)> {
    Some((mime.to_string(), data.to_string()))
}

#[test]
fn splits_a_base64_url() {
    assert_eq!(split("data:image/png;base64,AAAA"), parts("image/png", "AAAA"));
    assert_eq!(split("data:image/jpeg;base64,"), parts("image/jpeg", ""));
}

#[test]
fn splits_at_the_first_comma_only() {
    assert_eq!(split("data:text/plain,a,b,c"), parts("text/plain", "a,b,c"));
    assert_eq!(split(",,"), parts(DEFAULT_MEDIA_TYPE, ","));
}

#[test]
fn media_type_ends_at_the_first_semicolon() {
    assert_eq!(split("data:a;b;c,x"), parts("a", "x"));
    assert_eq!(split("data:a/b,x;y"), parts("a/b", "x;y"));
}

#[test]
fn missing_media_type_falls_back() {
    assert_eq!(DEFAULT_MEDIA_TYPE, "image/webp");
    assert_eq!(split("data:;base64,AA"), parts("image/webp", "AA"));
    assert_eq!(split("data:,AA"), parts("image/webp", "AA"));
    assert_eq!(split("image/png;base64,AA"), parts("image/webp", "AA"));
    assert_eq!(split("DATA:image/png;base64,AA"), parts("image/webp", "AA"));
    assert_eq!(split(","), parts("image/webp", ""));
}

#[test]
fn url_without_a_comma_is_not_split() {
    assert_eq!(split(""), None);
    assert_eq!(split("data:image/png;base64"), None);
}

#[test]
fn splits_text_beyond_ascii() {
    assert_eq!(split("data:\u{e9}\u{4e2d};x,\u{1f600},\u{e9}"), parts("\u{e9}\u{4e2d}", "\u{1f600},\u{e9}"));
}

#[test]
fn splitting_inverts_joining() {
    let mimes = ["image/png", "image/svg+xml", "x"];
    let payloads = ["", "AAAA", "a,b;c,data:", ";base64,"];
    for mime in mimes {
        for payload in payloads {
            let url = format!("data:{mime};base64,{payload}");
            assert_eq!(split(&url), parts(mime, payload));
        }
    }
}
