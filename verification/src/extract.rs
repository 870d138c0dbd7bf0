//! Locating the client state that a video page embeds in an inline script.
//!
//! The page assigns a JSON object to a global variable. Its name and the
//! script around it changed between generations of the site, so the
//! extractor knows several formats and tries them in a fixed order. This
//! module works on the raw bytes of the page and isolates the JSON object;
//! decoding it is the caller's business.

use vstd::prelude::*;
use vstd::slice::slice_subrange;
use vstd::slice::slice_to_vec;
use vstd::string::StringSliceAdditionalSpecFns;
use vstd::utf8::is_ascii_chars;
use vstd::utf8::is_ascii_chars_encode_utf8;

verus! {

/// A generation of the site's embedding syntax.
#[derive(Clone, Copy, Debug, PartialEq, Eq, Structural)]
pub enum Format {
    /// `window.__PRELOADED_STATE__ = {...}`, the syntax in use today.
    Current,
    /// `var oVideoStatus = {...}`, the syntax of earlier pages. The name
    /// is what is looked for, with or without the keyword before it.
    Legacy,
}

/// Where in a page the embedded JSON object lies, and which format led to it.
#[derive(Clone, Copy, Debug, PartialEq, Eq, Structural)]
pub struct JsonSpan {
    /// Index of the opening brace.
    pub start: usize,
    /// Index just past the closing brace.
    pub end: usize,
    /// The format whose assignment was matched.
    pub format: Format,
}

/// Why no state could be taken from a page.
#[derive(Clone, Copy, Debug, PartialEq, Eq, Structural)]
pub enum ExtractionError {
    /// No known assignment occurs in the page.
    FormatNotFound,
    /// An assignment of format `stage` occurs, but what it assigns is not a
    /// complete JSON object.
    MalformedState { stage: Format },
}

/// The byte `=`.
pub const EQUALS: u8 = 0x3d;

/// The byte `{`.
pub const OPEN_BRACE: u8 = 0x7b;

/// The byte `}`.
pub const CLOSE_BRACE: u8 = 0x7d;

/// The byte `"`.
pub const QUOTE: u8 = 0x22;

/// The byte `\`.
pub const BACKSLASH: u8 = 0x5c;

/// The name that `format` assigns the state to, as bytes.
pub open spec fn marker(format: Format) -> Seq<u8> {
    match format {
        Format::Current => "window.__PRELOADED_STATE__".spec_bytes(),
        Format::Legacy => "oVideoStatus".spec_bytes(),
    }
}

/// A byte that may occur in a name: a letter, a digit, `.`, `_` or `$`.
pub open spec fn is_name_byte(b: u8) -> bool {
    (0x41 <= b && b <= 0x5a) || (0x61 <= b && b <= 0x7a) || (0x30 <= b && b <= 0x39) || b == 0x2e
        || b == 0x5f || b == 0x24
}

/// The markers are names: they are not empty and hold name bytes only.
pub proof fn lemma_marker_is_name(format: Format)
    ensures
        marker(format).len() > 0,
        forall|j: int| 0 <= j < marker(format).len() ==> is_name_byte(#[trigger] marker(format)[j]),
{
    reveal_strlit("window.__PRELOADED_STATE__");
    reveal_strlit("oVideoStatus");
    let chars = match format {
        Format::Current => "window.__PRELOADED_STATE__"@,
        Format::Legacy => "oVideoStatus"@,
    };
    assert(is_ascii_chars(chars));
    is_ascii_chars_encode_utf8(chars);
    assert forall|j: int| 0 <= j < marker(format).len() implies is_name_byte(#[trigger] marker(format)[j]) by {
        assert(marker(format)[j] == chars[j] as u8);
    }
}

/// ASCII white space: space, tab, line feed, vertical tab, form feed,
/// carriage return.
pub open spec fn is_space(b: u8) -> bool {
    b == 0x20 || (0x09 <= b && b <= 0x0d)
}

/// The first index at or after `i` that holds no white space, or the length
/// of `s` if only white space follows.
pub open spec fn skip_spaces(s: Seq<u8>, i: int) -> int
    decreases s.len() - i,
{
    if 0 <= i < s.len() && is_space(s[i]) {
        skip_spaces(s, i + 1)
    } else {
        i
    }
}

/// `m` occurs in `s` at index `i`.
pub open spec fn occurs_at(s: Seq<u8>, m: Seq<u8>, i: int) -> bool {
    0 <= i && i + m.len() <= s.len() && s.subrange(i, i + m.len()) == m
}

/// If an assignment of `format` starts at index `i`, that is its marker,
/// optional white space, `=`, optional white space and an opening brace,
/// the index of that brace.
pub open spec fn object_start(s: Seq<u8>, format: Format, i: int) -> Option<int> {
    if occurs_at(s, marker(format), i) {
        let eq = skip_spaces(s, i + marker(format).len());
        if eq < s.len() && s[eq] == EQUALS {
            let open = skip_spaces(s, eq + 1);
            if open < s.len() && s[open] == OPEN_BRACE {
                Some(open)
            } else {
                None
            }
        } else {
            None
        }
    } else {
        None
    }
}

/// What a reader of JSON text has to remember between bytes in order to tell
/// structural braces from braces inside string literals.
pub struct Lex {
    /// Number of objects opened and not yet closed.
    pub depth: nat,
    /// The reader is inside a string literal.
    pub in_string: bool,
    /// The previous byte was a backslash that escapes this one.
    pub escaped: bool,
}

/// The state before any byte is read.
pub open spec fn lex_start() -> Lex {
    Lex { depth: 0, in_string: false, escaped: false }
}

/// The state after reading byte `b` in state `st`.
pub open spec fn lex_step(st: Lex, b: u8) -> Lex {
    if st.in_string {
        if st.escaped {
            Lex { escaped: false, ..st }
        } else if b == BACKSLASH {
            Lex { escaped: true, ..st }
        } else if b == QUOTE {
            Lex { in_string: false, ..st }
        } else {
            st
        }
    } else if b == QUOTE {
        Lex { in_string: true, ..st }
    } else if b == OPEN_BRACE {
        Lex { depth: st.depth + 1, ..st }
    } else if b == CLOSE_BRACE && st.depth > 0 {
        Lex { depth: (st.depth - 1) as nat, ..st }
    } else {
        st
    }
}

/// The state after reading `s[from..to]`, starting fresh at `from`.
pub open spec fn lex_between(s: Seq<u8>, from: int, to: int) -> Lex
    decreases to - from,
{
    if to <= from || to > s.len() || from < 0 {
        lex_start()
    } else {
        lex_step(lex_between(s, from, to - 1), s[to - 1])
    }
}

/// The object opened at `open` is closed by the byte before `end`, and not
/// earlier.
pub open spec fn closes_at(s: Seq<u8>, open: int, end: int) -> bool {
    &&& 0 <= open < end <= s.len()
    &&& lex_between(s, open, end).depth == 0
    &&& forall|m: int| open < m < end ==> (#[trigger] lex_between(s, open, m)).depth > 0
}

/// Index just past the brace that closes the object opened at `open`, if the
/// text holds one.
pub open spec fn object_end(s: Seq<u8>, open: int) -> Option<int> {
    if exists|end: int| closes_at(s, open, end) {
        Some(choose|end: int| closes_at(s, open, end))
    } else {
        None
    }
}

/// At most one index closes the object opened at `open`.
pub proof fn lemma_closes_at_unique(s: Seq<u8>, open: int, e1: int, e2: int)
    requires
        closes_at(s, open, e1),
        closes_at(s, open, e2),
    ensures
        e1 == e2,
{
    if e1 < e2 {
        assert(lex_between(s, open, e1).depth > 0);
    } else if e2 < e1 {
        assert(lex_between(s, open, e2).depth > 0);
    }
}

/// An escape is pending only right after a backslash inside a string.
pub proof fn lemma_lex_escaped(s: Seq<u8>, o: int, e: int)
    requires
        0 <= o <= e <= s.len(),
    ensures
        lex_between(s, o, e).escaped ==> lex_between(s, o, e).in_string && o < e && s[e - 1]
            == BACKSLASH,
    decreases e - o,
{
    if o < e {
        lemma_lex_escaped(s, o, e - 1);
    }
}

/// The byte that closes an object is a brace outside of any string, and
/// after it the reader is where it began.
pub proof fn lemma_closed_by_brace(s: Seq<u8>, open: int, end: int)
    requires
        closes_at(s, open, end),
        s[open] == OPEN_BRACE,
    ensures
        open + 1 < end,
        s[end - 1] == CLOSE_BRACE,
        lex_between(s, open, end) == lex_start(),
{
    lemma_lex_escaped(s, open, end - 1);
    assert(lex_between(s, open, open + 1) == lex_step(lex_between(s, open, open), s[open]));
    if end - 1 > open {
        assert(lex_between(s, open, end - 1).depth > 0);
    }
}

/// Reads on from the opening brace at `open` to the brace that closes it.
pub fn find_object_end(page: &[u8], open: usize) -> (end: Option<usize>)
    requires
        open < page@.len(),
        page@[open as int] == OPEN_BRACE,
    ensures
        match end {
            Some(e) => object_end(page@, open as int) == Some(e as int),
            None => object_end(page@, open as int) is None,
        },
{
    let n = page.len();
    let mut depth: usize = 0;
    let mut in_string = false;
    let mut escaped = false;
    let mut i: usize = open;
    while i < n
        invariant
            n == page@.len(),
            open <= i <= n,
            page@[open as int] == OPEN_BRACE,
            depth <= i - open,
            lex_between(page@, open as int, i as int) == (Lex {
                depth: depth as nat,
                in_string,
                escaped,
            }),
            forall|m: int| open < m <= i ==> (#[trigger] lex_between(page@, open as int, m)).depth > 0,
        decreases n - i,
    {
        let b = page[i];
        if in_string {
            if escaped {
                escaped = false;
            } else if b == BACKSLASH {
                escaped = true;
            } else if b == QUOTE {
                in_string = false;
            }
        } else if b == QUOTE {
            in_string = true;
        } else if b == OPEN_BRACE {
            depth = depth + 1;
        } else if b == CLOSE_BRACE && depth > 0 {
            depth = depth - 1;
        }
        i = i + 1;
        if depth == 0 {
            proof {
                assert(closes_at(page@, open as int, i as int));
                let c = choose|end: int| closes_at(page@, open as int, end);
                lemma_closes_at_unique(page@, open as int, i as int, c);
            }
            return Some(i);
        }
    }
    proof {
        assert forall|end: int| !closes_at(page@, open as int, end) by {
            if closes_at(page@, open as int, end) {
                assert(open < end <= i);
                assert(lex_between(page@, open as int, end).depth > 0);
            }
        }
    }
    None
}

/// An assignment of `format` starts at index `i` and assigns a complete
/// object.
pub open spec fn is_complete(s: Seq<u8>, format: Format, i: int) -> bool {
    object_start(s, format, i) matches Some(open) && object_end(s, open) is Some
}

/// Index `i` holds the first assignment of `format` that assigns a complete
/// object.
pub open spec fn is_first_complete(s: Seq<u8>, format: Format, i: int) -> bool {
    is_complete(s, format, i) && forall|k: int| 0 <= k < i ==> !is_complete(s, format, k)
}

/// An assignment of `format` occurs somewhere in `s`, complete or not.
pub open spec fn format_matches(s: Seq<u8>, format: Format) -> bool {
    exists|i: int| object_start(s, format, i) is Some
}

/// Start and end of the object that the first complete assignment of
/// `format` assigns.
pub open spec fn capture(s: Seq<u8>, format: Format) -> Option<(int, int)> {
    if exists|i: int| is_first_complete(s, format, i) {
        let i = choose|i: int| is_first_complete(s, format, i);
        let open = object_start(s, format, i)->0;
        Some((open, object_end(s, open)->0))
    } else {
        None
    }
}

/// What a page yields when `format` is the first format that matches it.
pub open spec fn outcome(s: Seq<u8>, format: Format) -> Result<(int, int, Format), ExtractionError> {
    match capture(s, format) {
        Some((open, end)) => Ok((open, end, format)),
        None => Err(ExtractionError::MalformedState { stage: format }),
    }
}

/// The result of extraction on page `s`: the formats are tried in the order
/// current, legacy; the first one of which an assignment occurs decides.
pub open spec fn extraction(s: Seq<u8>) -> Result<(int, int, Format), ExtractionError> {
    if format_matches(s, Format::Current) {
        outcome(s, Format::Current)
    } else if format_matches(s, Format::Legacy) {
        outcome(s, Format::Legacy)
    } else {
        Err(ExtractionError::FormatNotFound)
    }
}

/// The bytes of the name that `format` assigns the state to.
pub fn marker_bytes(format: Format) -> (m: &'static [u8])
    ensures
        m@ == marker(format),
{
    match format {
        Format::Current => "window.__PRELOADED_STATE__".as_bytes(),
        Format::Legacy => "oVideoStatus".as_bytes(),
    }
}

/// Tells whether `b` is white space.
pub fn is_space_byte(b: u8) -> (space: bool)
    ensures
        space == is_space(b),
{
    b == 0x20 || (0x09 <= b && b <= 0x0d)
}

/// Steps over white space from index `i` on.
pub fn skip_spaces_from(page: &[u8], i: usize) -> (j: usize)
    requires
        i <= page@.len(),
    ensures
        j == skip_spaces(page@, i as int),
        i <= j <= page@.len(),
{
    let n = page.len();
    let mut j = i;
    while j < n && is_space_byte(page[j])
        invariant
            n == page@.len(),
            i <= j <= n,
            skip_spaces(page@, i as int) == skip_spaces(page@, j as int),
        decreases n - j,
    {
        j = j + 1;
    }
    j
}

/// Tells whether `m` occurs in `page` at index `i`.
pub fn occurs(page: &[u8], m: &[u8], i: usize) -> (found: bool)
    requires
        i <= page@.len(),
    ensures
        found == occurs_at(page@, m@, i as int),
{
    let n = page.len();
    let len = m.len();
    if len > n - i {
        return false;
    }
    let mut k: usize = 0;
    while k < len
        invariant
            n == page@.len(),
            len == m@.len(),
            i + len <= n,
            k <= len,
            forall|j: int| 0 <= j < k ==> page@[i + j] == m@[j],
        decreases len - k,
    {
        if page[i + k] != m[k] {
            proof {
                assert(page@.subrange(i as int, i + len)[k as int] == page@[i + k]);
            }
            return false;
        }
        k = k + 1;
    }
    proof {
        assert(page@.subrange(i as int, i + len) =~= m@);
    }
    true
}

/// Matches an assignment of `format` at index `i` and returns the index of
/// the brace that opens the assigned object.
pub fn assignment_at(page: &[u8], format: Format, i: usize) -> (open: Option<usize>)
    requires
        i <= page@.len(),
    ensures
        match open {
            Some(a) => object_start(page@, format, i as int) == Some(a as int) && a < page@.len()
                && page@[a as int] == OPEN_BRACE,
            None => object_start(page@, format, i as int) is None,
        },
{
    let n = page.len();
    let m = marker_bytes(format);
    if !occurs(page, m, i) {
        return None;
    }
    let eq = skip_spaces_from(page, i + m.len());
    if eq < n && page[eq] == EQUALS {
        let open = skip_spaces_from(page, eq + 1);
        if open < n && page[open] == OPEN_BRACE {
            return Some(open);
        }
    }
    None
}

/// Two indices that are both the first complete assignment are one index.
pub proof fn lemma_first_complete_unique(s: Seq<u8>, format: Format, i: int, j: int)
    requires
        is_first_complete(s, format, i),
        is_first_complete(s, format, j),
        0 <= i,
        0 <= j,
    ensures
        i == j,
{
}

/// No assignment starts at a negative index or past the end of the page.
pub proof fn lemma_object_start_in_range(s: Seq<u8>, format: Format, i: int)
    requires
        object_start(s, format, i) is Some,
    ensures
        0 <= i <= s.len(),
{
}

/// Searches `page` for assignments of `format`. The first component tells
/// whether one occurs at all, the second gives the object of the first
/// complete one.
pub fn capture_format(page: &[u8], format: Format) -> (r: (bool, Option<(usize, usize)>))
    ensures
        r.0 == format_matches(page@, format),
        match r.1 {
            Some((open, end)) => capture(page@, format) == Some((open as int, end as int)),
            None => capture(page@, format) is None,
        },
        r.1 is Some ==> r.0,
{
    let n = page.len();
    let mut seen = false;
    let mut i: usize = 0;
    while i < n
        invariant
            n == page@.len(),
            i <= n,
            seen <==> exists|k: int| 0 <= k < i && object_start(page@, format, k) is Some,
            forall|k: int| 0 <= k < i ==> !is_complete(page@, format, k),
        decreases n - i,
    {
        match assignment_at(page, format, i) {
            Some(open) => {
                seen = true;
                match find_object_end(page, open) {
                    Some(end) => {
                        proof {
                            let s = page@;
                            assert(is_first_complete(s, format, i as int));
                            let c = choose|c: int| is_first_complete(s, format, c);
                            lemma_object_start_in_range(s, format, c);
                            lemma_first_complete_unique(s, format, i as int, c);
                        }
                        return (true, Some((open, end)));
                    },
                    None => {},
                }
            },
            None => {},
        }
        i = i + 1;
    }
    proof {
        let s = page@;
        assert(object_start(s, format, n as int) is None);
        assert forall|k: int| !is_complete(s, format, k) by {
            if is_complete(s, format, k) {
                lemma_object_start_in_range(s, format, k);
            }
        }
        assert forall|k: int| !is_first_complete(s, format, k) by {}
        if format_matches(s, format) {
            let k = choose|k: int| object_start(s, format, k) is Some;
            lemma_object_start_in_range(s, format, k);
        }
    }
    (seen, None)
}

/// The extraction strategy of one format: the object that the first
/// complete assignment of `format` assigns, if the page holds one.
pub fn capture_span(page: &[u8], format: Format) -> (r: Option<JsonSpan>)
    ensures
        match r {
            Some(span) => capture(page@, format) == Some((span.start as int, span.end as int))
                && span.format == format && span.start < span.end <= page@.len()
                && page@[span.start as int] == OPEN_BRACE && page@[span.end - 1] == CLOSE_BRACE,
            None => capture(page@, format) is None,
        },
{
    match capture_format(page, format).1 {
        Some((start, end)) => {
            proof {
                lemma_capture_bounds(page@, format);
            }
            Some(JsonSpan { start, end, format })
        },
        None => None,
    }
}

/// The strategy for pages of today: finds the state assigned to
/// `window.__PRELOADED_STATE__`.
pub fn find_inline_state(page: &[u8]) -> (r: Option<JsonSpan>)
    ensures
        match r {
            Some(span) => capture(page@, Format::Current) == Some((span.start as int, span.end as int))
                && span.format == Format::Current && span.start < span.end <= page@.len(),
            None => capture(page@, Format::Current) is None,
        },
{
    capture_span(page, Format::Current)
}

/// The strategy for earlier pages: finds the status assigned to
/// `oVideoStatus`.
pub fn find_video(page: &[u8]) -> (r: Option<JsonSpan>)
    ensures
        match r {
            Some(span) => capture(page@, Format::Legacy) == Some((span.start as int, span.end as int))
                && span.format == Format::Legacy && span.start < span.end <= page@.len(),
            None => capture(page@, Format::Legacy) is None,
        },
{
    capture_span(page, Format::Legacy)
}

/// Locates the embedded state in `page`.
///
/// The current format is tried first, then the legacy one. Of the first
/// format of which an assignment occurs, the first assignment of a complete
/// object is taken; if none of its assignments is complete, the state is
/// malformed. A page without any known assignment has no state.
pub fn find_state_span(page: &[u8]) -> (r: Result<JsonSpan, ExtractionError>)
    ensures
        match r {
            Ok(span) => extraction(page@) == Ok::<(int, int, Format), ExtractionError>(
                (span.start as int, span.end as int, span.format),
            ) && span.start < span.end <= page@.len() && page@[span.start as int] == OPEN_BRACE
                && page@[span.end - 1] == CLOSE_BRACE,
            Err(e) => extraction(page@) == Err::<(int, int, Format), ExtractionError>(e),
        },
{
    let current = capture_format(page, Format::Current);
    if current.0 {
        return match current.1 {
            Some((start, end)) => {
                proof {
                    lemma_capture_bounds(page@, Format::Current);
                }
                Ok(JsonSpan { start, end, format: Format::Current })
            },
            None => Err(ExtractionError::MalformedState { stage: Format::Current }),
        };
    }
    let legacy = capture_format(page, Format::Legacy);
    if legacy.0 {
        return match legacy.1 {
            Some((start, end)) => {
                proof {
                    lemma_capture_bounds(page@, Format::Legacy);
                }
                Ok(JsonSpan { start, end, format: Format::Legacy })
            },
            None => Err(ExtractionError::MalformedState { stage: Format::Legacy }),
        };
    }
    Err(ExtractionError::FormatNotFound)
}

/// A captured object lies inside the page, opens with a brace and is
/// closed by the brace that matches it.
pub proof fn lemma_capture_bounds(s: Seq<u8>, format: Format)
    requires
        capture(s, format) is Some,
    ensures
        ({
            let (open, end) = capture(s, format)->0;
            &&& 0 <= open < end <= s.len()
            &&& s[open] == OPEN_BRACE
            &&& s[end - 1] == CLOSE_BRACE
            &&& closes_at(s, open, end)
        }),
{
    let i = choose|i: int| is_first_complete(s, format, i);
    let open = object_start(s, format, i)->0;
    let end = choose|end: int| closes_at(s, open, end);
    assert(closes_at(s, open, end));
    lemma_closed_by_brace(s, open, end);
}

/// What extraction yields: the text it isolates and the format that led to
/// it, or the reason why there is none.
pub open spec fn extracted(s: Seq<u8>) -> Result<(Seq<u8>, Format), ExtractionError> {
    match extraction(s) {
        Ok((open, end, format)) => Ok((s.subrange(open, end), format)),
        Err(error) => Err(error),
    }
}

/// Takes the embedded state out of `page`: a copy of its JSON text, and
/// the format that led to it.
pub fn extract_state(page: &[u8]) -> (r: Result<(Vec<u8>, Format), ExtractionError>)
    ensures
        match r {
            Ok((text, format)) => extracted(page@) == Ok::<(Seq<u8>, Format), ExtractionError>(
                (text@, format),
            ),
            Err(error) => extracted(page@) == Err::<(Seq<u8>, Format), ExtractionError>(error),
        },
{
    match find_state_span(page) {
        Ok(span) => Ok((slice_to_vec(span_bytes(page, &span)), span.format)),
        Err(error) => Err(error),
    }
}

/// The bytes of `page` that `span` covers.
pub fn span_bytes<'a>(page: &'a [u8], span: &JsonSpan) -> (text: &'a [u8])
    requires
        span.start <= span.end <= page@.len(),
    ensures
        text@ == page@.subrange(span.start as int, span.end as int),
{
    slice_subrange(page, span.start, span.end)
}

} // verus!
