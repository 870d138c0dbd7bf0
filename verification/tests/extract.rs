use vlive::extract::assignment_at;
use vlive::extract::capture_format;
use vlive::extract::capture_span;
use vlive::extract::extract_state;
use vlive::extract::find_inline_state;
use vlive::extract::find_object_end;
use vlive::extract::find_state_span;
use vlive::extract::find_video;
use vlive::extract::marker_bytes;
use vlive::extract::occurs;
use vlive::extract::skip_spaces_from;
use vlive::extract::span_bytes;
use vlive::extract::ExtractionError;
use vlive::extract::Format;

fn captured(page: &str) -> Result<(String, Format), ExtractionError> {
    let bytes = page.as_bytes();
    let taken = extract_state(bytes).map(|(text, format)| (String::from_utf8(text).unwrap(), format));
    let located = find_state_span(bytes).map(|span| {
        (String::from_utf8(span_bytes(bytes, &span).to_vec()).unwrap(), span.format)
    });
    assert_eq!(taken, located);
    taken
}

#[test]
fn current_format_is_found() {
    let page = "<html><script>window.__PRELOADED_STATE__={\"a\":{\"b\":1}},function(){}</script></html>";
    assert_eq!(captured(page), Ok(("{\"a\":{\"b\":1}}".to_string(), Format::Current)));
}

#[test]
fn legacy_format_is_found() {
    let page = "<script type=\"text/javascript\">\nvar oVideoStatus = {\"vid\":\"abc\"}\n</script>";
    assert_eq!(captured(page), Ok(("{\"vid\":\"abc\"}".to_string(), Format::Legacy)));
}

#[test]
fn span_indices_are_exact() {
    let page = b"xx var oVideoStatus = {} yy";
    let span = find_state_span(page).unwrap();
    assert_eq!((span.start, span.end, span.format), (22, 24, Format::Legacy));
}

#[test]
fn white_space_around_the_assignment_does_not_matter() {
    let json = "{\"postDetail\":{\"post\":{\"title\":\"a = b\"}}}";
    let expected = Ok((json.to_string(), Format::Current));
    let gaps = ["", " ", "\n", "\t \r\n", "   \n\n   ", "\u{b}\u{c}"];
    for before in gaps {
        for after in gaps {
            let page = format!(
                "<script>window.__PRELOADED_STATE__{}={}{},function(){{}}</script>",
                before, after, json
            );
            assert_eq!(captured(&page), expected);
        }
    }
}

#[test]
fn legacy_and_current_pages_yield_the_same_text() {
    let json = "{\"postDetail\":{\"post\":null},\"channel\":{\"channel\":{}}}";
    let current = format!("<script>window.__PRELOADED_STATE__ = {}, function(){{}}</script>", json);
    let legacy = format!("<script type=\"x\">\nvar oVideoStatus = {}\n</script>", json);
    let from_current = captured(&current).unwrap();
    let from_legacy = captured(&legacy).unwrap();
    assert_eq!(from_current.0, json);
    assert_eq!(from_legacy.0, from_current.0);
    assert_eq!(from_current.1, Format::Current);
    assert_eq!(from_legacy.1, Format::Legacy);
}

#[test]
fn page_without_assignment_has_no_format() {
    assert_eq!(captured("<html><body>nothing here</body></html>"), Err(ExtractionError::FormatNotFound));
    assert_eq!(captured(""), Err(ExtractionError::FormatNotFound));
    assert_eq!(captured("window.__PRELOADED_STATE__"), Err(ExtractionError::FormatNotFound));
    assert_eq!(captured("window.__PRELOADED_STATE__ = [1]"), Err(ExtractionError::FormatNotFound));
    assert_eq!(captured("window.__PRELOADED_STATE__ : {}"), Err(ExtractionError::FormatNotFound));
}

#[test]
fn truncated_object_is_malformed() {
    assert_eq!(
        captured("<script>window.__PRELOADED_STATE__ = {\"a\":{\"b\":1}"),
        Err(ExtractionError::MalformedState { stage: Format::Current })
    );
    assert_eq!(
        captured("var oVideoStatus = {\"a\":\"}"),
        Err(ExtractionError::MalformedState { stage: Format::Legacy })
    );
}

#[test]
fn braces_inside_strings_do_not_count() {
    let json = "{\"a\":\"}{\",\"b\":\"\\\"}\",\"c\":\"\\\\\"}";
    let page = format!("window.__PRELOADED_STATE__={}</script>", json);
    assert_eq!(captured(&page), Ok((json.to_string(), Format::Current)));
}

#[test]
fn first_complete_assignment_is_taken() {
    let page = "window.__PRELOADED_STATE__ = {\"a\":\"unterminated} \
                <script>window.__PRELOADED_STATE__ = {\"b\":2}</script> \
                <script>window.__PRELOADED_STATE__ = {\"c\":3}</script>";
    // The first assignment never closes: its string runs on to the quote
    // that opens "b", and from there on every brace lies inside a string.
    assert_eq!(captured(page), Ok(("{\"b\":2}".to_string(), Format::Current)));
    let two = "window.__PRELOADED_STATE__ = {\"a\":1} window.__PRELOADED_STATE__ = {\"b\":2}";
    assert_eq!(captured(two), Ok(("{\"a\":1}".to_string(), Format::Current)));
}

#[test]
fn incomplete_assignment_is_passed_over() {
    let page = "window.__PRELOADED_STATE__ = {{ window.__PRELOADED_STATE__ = {\"b\":2}";
    // Read from the first assignment, two braces open and the text ends
    // before both are closed; read from the second, the object is complete.
    assert_eq!(captured(page), Ok(("{\"b\":2}".to_string(), Format::Current)));
}

#[test]
fn current_format_has_priority() {
    let page = "var oVideoStatus = {\"old\":1}\nwindow.__PRELOADED_STATE__ = {\"new\":1}";
    assert_eq!(captured(page), Ok(("{\"new\":1}".to_string(), Format::Current)));
    let broken = "var oVideoStatus = {\"old\":1}\nwindow.__PRELOADED_STATE__ = {\"new\":1";
    assert_eq!(captured(broken), Err(ExtractionError::MalformedState { stage: Format::Current }));
}

#[test]
fn strategies_work_alone() {
    let page = b"var oVideoStatus = {\"old\":1}\nwindow.__PRELOADED_STATE__ = {\"new\":1}";
    let current = find_inline_state(page).unwrap();
    assert_eq!(span_bytes(page, &current), b"{\"new\":1}");
    assert_eq!(current.format, Format::Current);
    let legacy = find_video(page).unwrap();
    assert_eq!(span_bytes(page, &legacy), b"{\"old\":1}");
    assert_eq!(legacy.format, Format::Legacy);
    assert!(find_video(b"window.__PRELOADED_STATE__ = {}").is_none());
    assert!(find_inline_state(b"var oVideoStatus = {}").is_none());
}

#[test]
fn non_ascii_text_is_passed_through() {
    let json = "{\"title\":\"굿데이 {방송}\"}";
    let page = format!("<p>굿데이</p><script>window.__PRELOADED_STATE__ = {}, function</script>", json);
    assert_eq!(captured(&page), Ok((json.to_string(), Format::Current)));
}

#[test]
fn building_blocks() {
    assert_eq!(marker_bytes(Format::Current), b"window.__PRELOADED_STATE__");
    assert_eq!(marker_bytes(Format::Legacy), b"oVideoStatus");
    assert_eq!(skip_spaces_from(b"ab \t\r\n\x0b\x0ccd", 2), 8);
    assert_eq!(skip_spaces_from(b"ab", 2), 2);
    assert_eq!(skip_spaces_from(b"ab  ", 2), 4);
    assert!(occurs(b"hello", b"llo", 2));
    assert!(!occurs(b"hello", b"llo", 3));
    assert!(!occurs(b"hello", b"hellos", 0));
    assert!(occurs(b"hello", b"", 5));
    assert_eq!(assignment_at(b"oVideoStatus={", Format::Legacy, 0), Some(13));
    assert_eq!(assignment_at(b"oVideoStatus = x", Format::Legacy, 0), None);
    assert_eq!(assignment_at(b"oVideoStatus", Format::Legacy, 0), None);
    assert_eq!(find_object_end(b"{{}}{}", 0), Some(4));
    assert_eq!(find_object_end(b"{{}", 0), None);
    assert_eq!(find_object_end(b"x{}", 1), Some(3));
    assert_eq!(capture_format(b"oVideoStatus = {", Format::Legacy), (true, None));
    assert_eq!(capture_format(b"oVideoStatus = {}", Format::Legacy), (true, Some((15, 17))));
    assert_eq!(capture_format(b"nothing", Format::Legacy), (false, None));
    assert_eq!(capture_span(b"oVideoStatus = {}", Format::Current), None);
    let span = capture_span(b"oVideoStatus = {}", Format::Legacy).unwrap();
    assert_eq!((span.start, span.end, span.format), (15, 17, Format::Legacy));
}
