use wavefront_sentinel::http::{HttpContentType, HttpStatusCode};
use wavefront_sentinel::text::{second_word_of, str_eq};

#[test]
fn status_lines_are_fixed() {
    assert_eq!(HttpStatusCode::OK.status_line(), "200 OK");
    assert_eq!(HttpStatusCode::BadRequest.status_line(), "400 BAD REQUEST");
    assert_eq!(HttpStatusCode::NotFound.status_line(), "404 NOT FOUND");
    assert_eq!(
        HttpStatusCode::InternalServerError.status_line(),
        "500 INTERNAL SERVER ERROR"
    );
}

#[test]
fn mime_types_are_fixed() {
    assert_eq!(HttpContentType::Html.content_type(), "text/html");
    assert_eq!(HttpContentType::Css.content_type(), "text/css");
    assert_eq!(HttpContentType::Jpg.content_type(), "image/jpg");
    assert_eq!(HttpContentType::Png.content_type(), "image/png");
}

#[test]
fn jpeg_and_jpg_share_a_type_and_unknown_falls_back() {
    assert_eq!(HttpContentType::from("jpeg").content_type(), "image/jpg");
    assert_eq!(HttpContentType::from("jpg").content_type(), "image/jpg");
    assert_eq!(HttpContentType::from("xyz").content_type(), "image/png");
}

#[test]
fn extensions_match_exactly() {
    assert_eq!(HttpContentType::from("html"), HttpContentType::Html);
    assert_eq!(HttpContentType::from("css"), HttpContentType::Css);
    assert_eq!(HttpContentType::from("png"), HttpContentType::Png);
    assert_eq!(HttpContentType::from("HTML"), HttpContentType::Png);
    assert_eq!(HttpContentType::from("htm"), HttpContentType::Png);
    assert_eq!(HttpContentType::from(""), HttpContentType::Png);
    assert_eq!(HttpContentType::from_extension("jpeg"), HttpContentType::Jpg);
}

#[test]
fn string_equality_compares_characters() {
    assert!(str_eq("abc", "abc"));
    assert!(str_eq("", ""));
    assert!(!str_eq("abc", "abd"));
    assert!(!str_eq("abc", "ab"));
    assert!(!str_eq("é", "e"));
}

#[test]
fn second_word_skips_any_whitespace() {
    assert_eq!(second_word_of("GET /a HTTP/1.1"), Some("/a"));
    assert_eq!(second_word_of("  GET\t\t/b\r\n"), Some("/b"));
    assert_eq!(second_word_of("GET\u{3000}/c\u{a0}x"), Some("/c"));
    assert_eq!(second_word_of("GET"), None);
    assert_eq!(second_word_of("GET   "), None);
    assert_eq!(second_word_of(""), None);
}
