use pasta_create::url::{is_valid_url, span_is_whole_url, SpanKind, TextSpan};

#[test]
fn a_url_with_a_scheme_is_a_url() {
    assert!(is_valid_url("https://example.com"));
    assert!(is_valid_url("http://example.org/path?x=1"));
}

#[test]
fn plain_text_is_no_url() {
    assert!(!is_valid_url("hello world"));
    assert!(!is_valid_url("example"));
}

#[test]
fn the_empty_text_is_no_url() {
    assert!(!is_valid_url(""));
}

#[test]
fn text_around_a_url_is_no_url() {
    assert!(!is_valid_url("see https://example.com"));
    assert!(!is_valid_url("https://example.com and more"));
}

#[test]
fn an_email_address_is_no_url() {
    assert!(!is_valid_url("foo@example.org"));
}

#[test]
fn a_span_is_the_whole_url_only_from_front_to_end() {
    let url = |start, end| Some(TextSpan { start, end, kind: SpanKind::Url });
    assert!(span_is_whole_url(url(0, 19), 19));
    assert!(!span_is_whole_url(url(0, 18), 19));
    assert!(!span_is_whole_url(url(1, 19), 19));
    assert!(!span_is_whole_url(None, 0));
    assert!(!span_is_whole_url(None, 19));
    for kind in [SpanKind::Plain, SpanKind::Email, SpanKind::Other] {
        assert!(!span_is_whole_url(Some(TextSpan { start: 0, end: 19, kind }), 19));
    }
}
