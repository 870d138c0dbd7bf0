//! Extraction does not depend on the white space around the assignment.
//!
//! The pages compared here differ only in the white space between the
//! marker and `=` and between `=` and what is assigned. Every position of
//! one page that matters to extraction has a counterpart in the other, and
//! what extraction finds at the one it finds at the other.

use vstd::prelude::*;
use crate::extract::capture;
use crate::extract::closes_at;
use crate::extract::extracted;
use crate::extract::extraction;
use crate::extract::format_matches;
use crate::extract::is_complete;
use crate::extract::is_first_complete;
use crate::extract::is_name_byte;
use crate::extract::is_space;
use crate::extract::lemma_closes_at_unique;
use crate::extract::lemma_lex_escaped;
use crate::extract::lemma_marker_is_name;
use crate::extract::lex_between;
use crate::extract::lex_step;
use crate::extract::marker;
use crate::extract::object_end;
use crate::extract::object_start;
use crate::extract::occurs_at;
use crate::extract::skip_spaces;
use crate::extract::ExtractionError;
use crate::extract::Format;
use crate::extract::BACKSLASH;
use crate::extract::EQUALS;
use crate::extract::OPEN_BRACE;

verus! {

/// `gap` holds white space only.
pub open spec fn all_spaces(gap: Seq<u8>) -> bool {
    forall|k: int| 0 <= k < gap.len() ==> is_space(#[trigger] gap[k])
}

/// A page in four parts: `head`, which ends with the marker of an
/// assignment; the white space `gap1`; `=`; the white space `gap2`; and
/// `tail`, which begins with what is assigned.
pub open spec fn page(head: Seq<u8>, gap1: Seq<u8>, gap2: Seq<u8>, tail: Seq<u8>) -> Seq<u8> {
    head + gap1 + seq![EQUALS] + gap2 + tail
}

/// The index at which `tail` begins in `page(head, gap1, gap2, tail)`.
pub open spec fn tail_start(head: Seq<u8>, gap1: Seq<u8>, gap2: Seq<u8>) -> int {
    (head.len() + gap1.len() + 1 + gap2.len()) as int
}

/// The parts are what `page` says they are.
pub open spec fn parts_ok(head: Seq<u8>, gap1: Seq<u8>, gap2: Seq<u8>, tail: Seq<u8>) -> bool {
    &&& head.len() > 0
    &&& is_name_byte(head.last())
    &&& all_spaces(gap1)
    &&& all_spaces(gap2)
    &&& tail.len() > 0
    &&& !is_space(tail[0])
}

/// The bytes of a page, part by part.
proof fn lemma_page_bytes(head: Seq<u8>, gap1: Seq<u8>, gap2: Seq<u8>, tail: Seq<u8>)
    requires
        parts_ok(head, gap1, gap2, tail),
    ensures
        ({
            let x = page(head, gap1, gap2, tail);
            let t = tail_start(head, gap1, gap2);
            &&& x.len() == t + tail.len()
            &&& forall|j: int| 0 <= j < head.len() ==> #[trigger] x[j] == head[j]
            &&& forall|j: int| head.len() <= j < t ==> is_space(#[trigger] x[j]) || x[j] == EQUALS
            &&& forall|j: int| head.len() <= j < head.len() + gap1.len() ==> is_space(#[trigger] x[j])
            &&& x[(head.len() + gap1.len()) as int] == EQUALS
            &&& forall|j: int| head.len() + gap1.len() < j < t ==> is_space(#[trigger] x[j])
            &&& forall|k: int| 0 <= k < tail.len() ==> #[trigger] x[t + k] == tail[k]
        }),
{
    let x = page(head, gap1, gap2, tail);
    let t = tail_start(head, gap1, gap2);
    assert forall|j: int| head.len() <= j < head.len() + gap1.len() implies is_space(#[trigger] x[j]) by {
        assert(x[j] == gap1[j - head.len()]);
    }
    assert forall|j: int| head.len() + gap1.len() < j < t implies is_space(#[trigger] x[j]) by {
        assert(x[j] == gap2[j - head.len() - gap1.len() - 1]);
    }
}

/// Where `skip_spaces` ends: it steps over white space only and stops at
/// the first byte that is none.
pub proof fn lemma_skip_spaces_result(s: Seq<u8>, i: int)
    requires
        0 <= i <= s.len(),
    ensures
        i <= skip_spaces(s, i) <= s.len(),
        forall|k: int| i <= k < skip_spaces(s, i) ==> is_space(#[trigger] s[k]),
        skip_spaces(s, i) < s.len() ==> !is_space(s[skip_spaces(s, i)]),
    decreases s.len() - i,
{
    if i < s.len() && is_space(s[i]) {
        lemma_skip_spaces_result(s, i + 1);
    }
}

/// `skip_spaces` ends at `j` if white space reaches from `i` to `j` and
/// `j` holds none or is the end.
pub proof fn lemma_skip_spaces_to(s: Seq<u8>, i: int, j: int)
    requires
        0 <= i <= j <= s.len(),
        forall|k: int| i <= k < j ==> is_space(#[trigger] s[k]),
        j < s.len() ==> !is_space(s[j]),
    ensures
        skip_spaces(s, i) == j,
    decreases j - i,
{
    if i < j {
        lemma_skip_spaces_to(s, i + 1, j);
    }
}

/// `t` is what `x` holds from index `at` on.
pub open spec fn is_suffix(x: Seq<u8>, at: int, t: Seq<u8>) -> bool {
    &&& 0 <= at
    &&& x.len() == at + t.len()
    &&& forall|k: int| 0 <= k < t.len() ==> #[trigger] x[at + k] == t[k]
}

/// The index `at` further on, if there is one.
pub open spec fn shifted(index: Option<int>, at: int) -> Option<int> {
    match index {
        Some(i) => Some(i + at),
        None => None,
    }
}

proof fn lemma_suffix_skip(x: Seq<u8>, at: int, t: Seq<u8>, k: int)
    requires
        is_suffix(x, at, t),
        0 <= k <= t.len(),
    ensures
        skip_spaces(x, at + k) == at + skip_spaces(t, k),
    decreases t.len() - k,
{
    if k < t.len() {
        assert(x[at + k] == t[k]);
        if is_space(t[k]) {
            lemma_suffix_skip(x, at, t, k + 1);
        }
    }
}

proof fn lemma_suffix_occurs(x: Seq<u8>, at: int, t: Seq<u8>, m: Seq<u8>, k: int)
    requires
        is_suffix(x, at, t),
        0 <= k,
    ensures
        occurs_at(x, m, at + k) == occurs_at(t, m, k),
{
    if k + m.len() <= t.len() {
        let xs = x.subrange(at + k, at + k + m.len());
        let ts = t.subrange(k, k + m.len());
        assert forall|j: int| 0 <= j < m.len() implies #[trigger] xs[j] == ts[j] by {
            assert(x[at + (k + j)] == t[k + j]);
        }
        assert(xs =~= ts);
    }
}

proof fn lemma_suffix_object_start(x: Seq<u8>, at: int, t: Seq<u8>, format: Format, k: int)
    requires
        is_suffix(x, at, t),
        0 <= k,
    ensures
        object_start(x, format, at + k) == shifted(object_start(t, format, k), at),
{
    let m = marker(format);
    lemma_suffix_occurs(x, at, t, m, k);
    if occurs_at(t, m, k) {
        lemma_suffix_skip(x, at, t, k + m.len());
        let eq = skip_spaces(t, k + m.len());
        lemma_skip_spaces_result(t, k + m.len());
        if eq < t.len() {
            assert(x[at + eq] == t[eq]);
            lemma_suffix_skip(x, at, t, eq + 1);
            let open = skip_spaces(t, eq + 1);
            lemma_skip_spaces_result(t, eq + 1);
            if open < t.len() {
                assert(x[at + open] == t[open]);
            }
        }
    }
}

proof fn lemma_suffix_lex(x: Seq<u8>, at: int, t: Seq<u8>, o: int, e: int)
    requires
        is_suffix(x, at, t),
        0 <= o <= e <= t.len(),
    ensures
        lex_between(x, at + o, at + e) == lex_between(t, o, e),
    decreases e - o,
{
    if o < e {
        lemma_suffix_lex(x, at, t, o, e - 1);
        assert(x[at + (e - 1)] == t[e - 1]);
    }
}

proof fn lemma_suffix_closes(x: Seq<u8>, at: int, t: Seq<u8>, o: int, e: int)
    requires
        is_suffix(x, at, t),
        0 <= o,
    ensures
        closes_at(x, at + o, at + e) == closes_at(t, o, e),
{
    if o < e <= t.len() {
        lemma_suffix_lex(x, at, t, o, e);
        assert forall|m: int| o < m < e implies lex_between(x, at + o, at + m) == lex_between(t, o, m) by {
            lemma_suffix_lex(x, at, t, o, m);
        }
        if closes_at(t, o, e) {
            assert forall|m: int| at + o < m < at + e implies (#[trigger] lex_between(x, at + o, m)).depth
                > 0 by {
                assert(lex_between(x, at + o, at + (m - at)) == lex_between(t, o, m - at));
            }
        }
        if closes_at(x, at + o, at + e) {
            assert forall|m: int| o < m < e implies (#[trigger] lex_between(t, o, m)).depth > 0 by {
                assert(lex_between(x, at + o, at + m).depth > 0);
            }
        }
    }
}

proof fn lemma_suffix_object_end(x: Seq<u8>, at: int, t: Seq<u8>, o: int)
    requires
        is_suffix(x, at, t),
        0 <= o,
    ensures
        object_end(x, at + o) == shifted(object_end(t, o), at),
{
    let xo = at + o;
    if exists|e: int| closes_at(t, o, e) {
        let e = choose|e: int| closes_at(t, o, e);
        lemma_suffix_closes(x, at, t, o, e);
        assert(closes_at(x, xo, at + e));
        let c = choose|c: int| closes_at(x, xo, c);
        lemma_closes_at_unique(x, xo, at + e, c);
    } else {
        if exists|c: int| closes_at(x, xo, c) {
            let c = choose|c: int| closes_at(x, xo, c);
            lemma_suffix_closes(x, at, t, o, c - at);
            assert(closes_at(t, o, c - at));
        }
    }
}

proof fn lemma_suffix_complete(x: Seq<u8>, at: int, t: Seq<u8>, format: Format, k: int)
    requires
        is_suffix(x, at, t),
        0 <= k,
    ensures
        is_complete(x, format, at + k) == is_complete(t, format, k),
        object_start(x, format, at + k) == shifted(object_start(t, format, k), at),
        object_start(t, format, k) matches Some(o) ==> o > 0 && object_end(x, at + o) == shifted(
            object_end(t, o),
            at,
        ),
{
    lemma_suffix_object_start(x, at, t, format, k);
    if object_start(t, format, k) is Some {
        let o = object_start(t, format, k)->0;
        lemma_marker_is_name(format);
        lemma_skip_spaces_result(t, k + marker(format).len());
        lemma_skip_spaces_result(t, skip_spaces(t, k + marker(format).len()) + 1);
        lemma_suffix_object_end(x, at, t, o);
    }
}

proof fn lemma_page_suffix(head: Seq<u8>, gap1: Seq<u8>, gap2: Seq<u8>, tail: Seq<u8>)
    requires
        parts_ok(head, gap1, gap2, tail),
    ensures
        is_suffix(page(head, gap1, gap2, tail), tail_start(head, gap1, gap2), tail),
{
    lemma_page_bytes(head, gap1, gap2, tail);
}

proof fn lemma_prefix_occurs(head: Seq<u8>, gap1: Seq<u8>, gap2: Seq<u8>, tail: Seq<u8>, m: Seq<u8>, i: int)
    requires
        parts_ok(head, gap1, gap2, tail),
        0 <= i,
        i + m.len() <= head.len(),
    ensures
        occurs_at(page(head, gap1, gap2, tail), m, i) == occurs_at(head, m, i),
{
    let x = page(head, gap1, gap2, tail);
    lemma_page_bytes(head, gap1, gap2, tail);
    let xs = x.subrange(i, i + m.len());
    let hs = head.subrange(i, i + m.len());
    assert forall|j: int| 0 <= j < m.len() implies #[trigger] xs[j] == hs[j] by {
        assert(x[i + j] == head[i + j]);
    }
    assert(xs =~= hs);
}

/// No marker lies across the white space and the `=` of the assignment.
proof fn lemma_no_occurrence_in_gap(
    head: Seq<u8>,
    gap1: Seq<u8>,
    gap2: Seq<u8>,
    tail: Seq<u8>,
    format: Format,
    i: int,
)
    requires
        parts_ok(head, gap1, gap2, tail),
        occurs_at(page(head, gap1, gap2, tail), marker(format), i),
    ensures
        i + marker(format).len() <= head.len() || i >= tail_start(head, gap1, gap2),
        0 <= i,
{
    let x = page(head, gap1, gap2, tail);
    let t = tail_start(head, gap1, gap2);
    let m = marker(format);
    lemma_page_bytes(head, gap1, gap2, tail);
    lemma_marker_is_name(format);
    if i < t && i + m.len() > head.len() {
        let q = if i >= head.len() {
            i
        } else {
            head.len() as int
        };
        assert(x.subrange(i, i + m.len())[q - i] == x[q]);
        assert(is_name_byte(m[q - i]));
        assert(is_space(x[q]) || x[q] == EQUALS);
    }
}

/// What an assignment whose marker lies in `head` assigns.
proof fn lemma_prefix_object_start(
    head: Seq<u8>,
    gap1: Seq<u8>,
    gap2: Seq<u8>,
    tail: Seq<u8>,
    format: Format,
    i: int,
)
    requires
        parts_ok(head, gap1, gap2, tail),
        0 <= i,
        i + marker(format).len() <= head.len(),
    ensures
        object_start(page(head, gap1, gap2, tail), format, i) == (if i + marker(format).len()
            < head.len() {
            object_start(head, format, i)
        } else if occurs_at(head, marker(format), i) && tail[0] == OPEN_BRACE {
            Some(tail_start(head, gap1, gap2))
        } else {
            None
        }),
{
    let x = page(head, gap1, gap2, tail);
    let t = tail_start(head, gap1, gap2);
    let m = marker(format);
    let hl = head.len() as int;
    lemma_page_bytes(head, gap1, gap2, tail);
    lemma_prefix_occurs(head, gap1, gap2, tail, m, i);
    if occurs_at(head, m, i) {
        if i + m.len() == hl {
            let eq = hl + gap1.len();
            lemma_skip_spaces_to(x, hl, eq);
            assert(x[t + 0] == tail[0]);
            lemma_skip_spaces_to(x, eq + 1, t);
        } else {
            let j0 = i + m.len();
            lemma_skip_spaces_result(head, j0);
            let r = skip_spaces(head, j0);
            if r == hl {
                assert(is_space(head[hl - 1]));
            }
            assert forall|k: int| j0 <= k < r implies is_space(#[trigger] x[k]) by {
                assert(x[k] == head[k]);
            }
            assert(x[r] == head[r]);
            lemma_skip_spaces_to(x, j0, r);
            if head[r] == EQUALS {
                lemma_skip_spaces_result(head, r + 1);
                let r2 = skip_spaces(head, r + 1);
                if r2 == hl {
                    assert(is_space(head[hl - 1]));
                }
                assert forall|k: int| r + 1 <= k < r2 implies is_space(#[trigger] x[k]) by {
                    assert(x[k] == head[k]);
                }
                assert(x[r2] == head[r2]);
                lemma_skip_spaces_to(x, r + 1, r2);
            }
        }
    }
}

proof fn lemma_lex_agree(s1: Seq<u8>, s2: Seq<u8>, o: int, e: int)
    requires
        0 <= o <= e,
        e <= s1.len(),
        e <= s2.len(),
        forall|j: int| o <= j < e ==> s1[j] == s2[j],
    ensures
        lex_between(s1, o, e) == lex_between(s2, o, e),
    decreases e - o,
{
    if o < e {
        lemma_lex_agree(s1, s2, o, e - 1);
    }
}

/// Reading the white space and the `=` of the assignment changes nothing.
proof fn lemma_lex_gap(head: Seq<u8>, gap1: Seq<u8>, gap2: Seq<u8>, tail: Seq<u8>, o: int, q: int)
    requires
        parts_ok(head, gap1, gap2, tail),
        0 <= o < head.len() <= q <= tail_start(head, gap1, gap2),
    ensures
        lex_between(page(head, gap1, gap2, tail), o, q) == lex_between(head, o, head.len() as int),
    decreases q - head.len(),
{
    let x = page(head, gap1, gap2, tail);
    let hl = head.len() as int;
    lemma_page_bytes(head, gap1, gap2, tail);
    if q == hl {
        lemma_lex_agree(x, head, o, hl);
    } else {
        lemma_lex_gap(head, gap1, gap2, tail, o, q - 1);
        lemma_lex_escaped(head, o, hl);
        let st = lex_between(head, o, hl);
        assert(is_name_byte(head[hl - 1]));
        assert(!st.escaped);
        assert(is_space(x[q - 1]) || x[q - 1] == EQUALS);
        assert(lex_step(st, x[q - 1]) == st);
    }
}

/// Two pages that differ in the white space of the assignment read alike
/// from the start of `tail` on.
proof fn lemma_lex_cross(
    head: Seq<u8>,
    gap1: Seq<u8>,
    gap2: Seq<u8>,
    other1: Seq<u8>,
    other2: Seq<u8>,
    tail: Seq<u8>,
    o: int,
    k: int,
)
    requires
        parts_ok(head, gap1, gap2, tail),
        parts_ok(head, other1, other2, tail),
        0 <= o < head.len(),
        0 <= k <= tail.len(),
    ensures
        lex_between(page(head, gap1, gap2, tail), o, tail_start(head, gap1, gap2) + k) == lex_between(
            page(head, other1, other2, tail),
            o,
            tail_start(head, other1, other2) + k,
        ),
    decreases k,
{
    let a = page(head, gap1, gap2, tail);
    let b = page(head, other1, other2, tail);
    let ta = tail_start(head, gap1, gap2);
    let tb = tail_start(head, other1, other2);
    lemma_page_bytes(head, gap1, gap2, tail);
    lemma_page_bytes(head, other1, other2, tail);
    if k == 0 {
        lemma_lex_gap(head, gap1, gap2, tail, o, ta);
        lemma_lex_gap(head, other1, other2, tail, o, tb);
    } else {
        lemma_lex_cross(head, gap1, gap2, other1, other2, tail, o, k - 1);
        assert(a[ta + (k - 1)] == tail[k - 1]);
        assert(b[tb + (k - 1)] == tail[k - 1]);
    }
}

/// The counterpart of an index past the opening brace of an object that
/// opens in `head`.
pub open spec fn moved_end(head_len: int, from: int, to: int, e: int) -> int {
    if e <= head_len {
        e
    } else {
        e - from + to
    }
}

/// The counterpart of the index of an assignment.
pub open spec fn moved_start(from: int, to: int, i: int) -> int {
    if i < from {
        i
    } else {
        i - from + to
    }
}

proof fn lemma_prefix_closes(
    head: Seq<u8>,
    gap1: Seq<u8>,
    gap2: Seq<u8>,
    other1: Seq<u8>,
    other2: Seq<u8>,
    tail: Seq<u8>,
    o: int,
    e: int,
)
    requires
        parts_ok(head, gap1, gap2, tail),
        parts_ok(head, other1, other2, tail),
        0 <= o < head.len(),
        closes_at(page(head, gap1, gap2, tail), o, e),
    ensures
        e <= head.len() || e > tail_start(head, gap1, gap2),
        closes_at(
            page(head, other1, other2, tail),
            o,
            moved_end(
                head.len() as int,
                tail_start(head, gap1, gap2),
                tail_start(head, other1, other2),
                e,
            ),
        ),
{
    let a = page(head, gap1, gap2, tail);
    let b = page(head, other1, other2, tail);
    let ta = tail_start(head, gap1, gap2);
    let tb = tail_start(head, other1, other2);
    let hl = head.len() as int;
    lemma_page_bytes(head, gap1, gap2, tail);
    lemma_page_bytes(head, other1, other2, tail);
    if hl < e <= ta {
        lemma_lex_gap(head, gap1, gap2, tail, o, e);
        lemma_lex_gap(head, gap1, gap2, tail, o, hl);
        assert(lex_between(a, o, hl).depth > 0);
    } else if e <= hl {
        lemma_lex_agree(a, b, o, e);
        assert forall|m: int| o < m < e implies (#[trigger] lex_between(b, o, m)).depth > 0 by {
            lemma_lex_agree(a, b, o, m);
            assert(lex_between(a, o, m).depth > 0);
        }
    } else {
        let k = e - ta;
        lemma_lex_cross(head, gap1, gap2, other1, other2, tail, o, k);
        lemma_lex_gap(head, gap1, gap2, tail, o, hl);
        assert(lex_between(a, o, hl).depth > 0);
        assert forall|m: int| o < m < tb + k implies (#[trigger] lex_between(b, o, m)).depth > 0 by {
            if m <= hl {
                lemma_lex_agree(a, b, o, m);
                assert(lex_between(a, o, m).depth > 0);
            } else if m <= tb {
                lemma_lex_gap(head, other1, other2, tail, o, m);
            } else {
                lemma_lex_cross(head, gap1, gap2, other1, other2, tail, o, m - tb);
                assert(lex_between(a, o, ta + (m - tb)).depth > 0);
            }
        }
    }
}

proof fn lemma_prefix_object_end(
    head: Seq<u8>,
    gap1: Seq<u8>,
    gap2: Seq<u8>,
    other1: Seq<u8>,
    other2: Seq<u8>,
    tail: Seq<u8>,
    o: int,
)
    requires
        parts_ok(head, gap1, gap2, tail),
        parts_ok(head, other1, other2, tail),
        0 <= o < head.len(),
    ensures
        object_end(page(head, gap1, gap2, tail), o) is Some <==> object_end(
            page(head, other1, other2, tail),
            o,
        ) is Some,
{
    let a = page(head, gap1, gap2, tail);
    let b = page(head, other1, other2, tail);
    if exists|e: int| closes_at(a, o, e) {
        let e = choose|e: int| closes_at(a, o, e);
        lemma_prefix_closes(head, gap1, gap2, other1, other2, tail, o, e);
    }
    if exists|e: int| closes_at(b, o, e) {
        let e = choose|e: int| closes_at(b, o, e);
        lemma_prefix_closes(head, other1, other2, gap1, gap2, tail, o, e);
    }
}

/// A complete assignment of one page has a complete counterpart in the
/// other; and if it assigns what `tail` begins with, so does the
/// counterpart, and the objects end alike.
proof fn lemma_complete_moves(
    head: Seq<u8>,
    gap1: Seq<u8>,
    gap2: Seq<u8>,
    other1: Seq<u8>,
    other2: Seq<u8>,
    tail: Seq<u8>,
    format: Format,
    i: int,
)
    requires
        parts_ok(head, gap1, gap2, tail),
        parts_ok(head, other1, other2, tail),
        is_complete(page(head, gap1, gap2, tail), format, i),
    ensures
        0 <= i,
        i + marker(format).len() <= head.len() || i >= tail_start(head, gap1, gap2),
        is_complete(
            page(head, other1, other2, tail),
            format,
            moved_start(tail_start(head, gap1, gap2), tail_start(head, other1, other2), i),
        ),
        object_start(page(head, gap1, gap2, tail), format, i) == Some(tail_start(head, gap1, gap2)) ==> {
            &&& object_start(
                page(head, other1, other2, tail),
                format,
                moved_start(tail_start(head, gap1, gap2), tail_start(head, other1, other2), i),
            ) == Some(tail_start(head, other1, other2))
            &&& object_end(page(head, gap1, gap2, tail), tail_start(head, gap1, gap2)) == shifted(
                object_end(tail, 0),
                tail_start(head, gap1, gap2),
            )
            &&& object_end(page(head, other1, other2, tail), tail_start(head, other1, other2))
                == shifted(object_end(tail, 0), tail_start(head, other1, other2))
        },
{
    let a = page(head, gap1, gap2, tail);
    let b = page(head, other1, other2, tail);
    let ta = tail_start(head, gap1, gap2);
    let tb = tail_start(head, other1, other2);
    let hl = head.len() as int;
    let m = marker(format);
    lemma_marker_is_name(format);
    lemma_no_occurrence_in_gap(head, gap1, gap2, tail, format, i);
    lemma_page_suffix(head, gap1, gap2, tail);
    lemma_page_suffix(head, other1, other2, tail);
    if i + m.len() <= hl {
        lemma_prefix_object_start(head, gap1, gap2, tail, format, i);
        lemma_prefix_object_start(head, other1, other2, tail, format, i);
        if i + m.len() < hl {
            let o = object_start(head, format, i)->0;
            lemma_prefix_object_end(head, gap1, gap2, other1, other2, tail, o);
        } else {
            lemma_suffix_object_end(a, ta, tail, 0);
            lemma_suffix_object_end(b, tb, tail, 0);
        }
    } else {
        let k = i - ta;
        lemma_suffix_complete(a, ta, tail, format, k);
        lemma_suffix_complete(b, tb, tail, format, k);
    }
}

proof fn lemma_first_complete_moves(
    head: Seq<u8>,
    gap1: Seq<u8>,
    gap2: Seq<u8>,
    other1: Seq<u8>,
    other2: Seq<u8>,
    tail: Seq<u8>,
    format: Format,
    i: int,
)
    requires
        parts_ok(head, gap1, gap2, tail),
        parts_ok(head, other1, other2, tail),
        is_first_complete(page(head, gap1, gap2, tail), format, i),
    ensures
        is_first_complete(
            page(head, other1, other2, tail),
            format,
            moved_start(tail_start(head, gap1, gap2), tail_start(head, other1, other2), i),
        ),
{
    let a = page(head, gap1, gap2, tail);
    let b = page(head, other1, other2, tail);
    let ta = tail_start(head, gap1, gap2);
    let tb = tail_start(head, other1, other2);
    let target = moved_start(ta, tb, i);
    lemma_marker_is_name(format);
    lemma_complete_moves(head, gap1, gap2, other1, other2, tail, format, i);
    assert forall|k: int| 0 <= k < target implies !is_complete(b, format, k) by {
        if is_complete(b, format, k) {
            lemma_complete_moves(head, other1, other2, gap1, gap2, tail, format, k);
            let j = moved_start(tb, ta, k);
            assert(is_complete(a, format, j));
            assert(0 <= j < i);
        }
    }
}

/// A format that matches one page matches the other.
proof fn lemma_format_matches_moves(
    head: Seq<u8>,
    gap1: Seq<u8>,
    gap2: Seq<u8>,
    other1: Seq<u8>,
    other2: Seq<u8>,
    tail: Seq<u8>,
    format: Format,
)
    requires
        parts_ok(head, gap1, gap2, tail),
        parts_ok(head, other1, other2, tail),
        format_matches(page(head, gap1, gap2, tail), format),
    ensures
        format_matches(page(head, other1, other2, tail), format),
{
    let a = page(head, gap1, gap2, tail);
    let b = page(head, other1, other2, tail);
    let ta = tail_start(head, gap1, gap2);
    let tb = tail_start(head, other1, other2);
    let i = choose|i: int| object_start(a, format, i) is Some;
    lemma_no_occurrence_in_gap(head, gap1, gap2, tail, format, i);
    if i + marker(format).len() <= head.len() {
        lemma_prefix_object_start(head, gap1, gap2, tail, format, i);
        lemma_prefix_object_start(head, other1, other2, tail, format, i);
        assert(object_start(b, format, i) is Some);
    } else {
        lemma_page_suffix(head, gap1, gap2, tail);
        lemma_page_suffix(head, other1, other2, tail);
        let k = i - ta;
        lemma_suffix_object_start(a, ta, tail, format, k);
        lemma_suffix_object_start(b, tb, tail, format, k);
        assert(object_start(b, format, tb + k) is Some);
    }
}

/// The first complete assignment of one page has the first complete
/// assignment of the other as its counterpart.
proof fn lemma_capture_moves(
    head: Seq<u8>,
    gap1: Seq<u8>,
    gap2: Seq<u8>,
    other1: Seq<u8>,
    other2: Seq<u8>,
    tail: Seq<u8>,
    format: Format,
)
    requires
        parts_ok(head, gap1, gap2, tail),
        parts_ok(head, other1, other2, tail),
        capture(page(head, gap1, gap2, tail), format) is Some,
    ensures
        capture(page(head, other1, other2, tail), format) is Some,
        ({
            let (open, end) = capture(page(head, gap1, gap2, tail), format)->0;
            open == tail_start(head, gap1, gap2) ==> capture(page(head, other1, other2, tail), format)
                == Some(
                (
                    tail_start(head, other1, other2),
                    end - tail_start(head, gap1, gap2) + tail_start(head, other1, other2),
                ),
            )
        }),
{
    let a = page(head, gap1, gap2, tail);
    let b = page(head, other1, other2, tail);
    let ta = tail_start(head, gap1, gap2);
    let tb = tail_start(head, other1, other2);
    let i = choose|i: int| is_first_complete(a, format, i);
    lemma_first_complete_moves(head, gap1, gap2, other1, other2, tail, format, i);
    lemma_complete_moves(head, gap1, gap2, other1, other2, tail, format, i);
    let target = moved_start(ta, tb, i);
    let c = choose|c: int| is_first_complete(b, format, c);
    crate::extract::lemma_object_start_in_range(b, format, c);
    crate::extract::lemma_first_complete_unique(b, format, target, c);
}

/// The page that holds, after `pre`, an assignment of `format` with the
/// white space `gap1` before `=` and `gap2` after it, and then `tail`.
pub open spec fn assignment_page(
    pre: Seq<u8>,
    format: Format,
    gap1: Seq<u8>,
    gap2: Seq<u8>,
    tail: Seq<u8>,
) -> Seq<u8> {
    page(pre + marker(format), gap1, gap2, tail)
}

/// Extraction succeeds identically whatever white space surrounds the `=`
/// of the embedded assignment.
///
/// Take a page from which extraction takes the object that an assignment
/// assigns, and replace the white space before and after the `=` of that
/// assignment by any other white space, or by none. Then extraction takes
/// the object of that assignment from the new page too, through the same
/// format, and isolates the same text.
pub proof fn lemma_extraction_ignores_spacing(
    pre: Seq<u8>,
    format: Format,
    gap1: Seq<u8>,
    gap2: Seq<u8>,
    other1: Seq<u8>,
    other2: Seq<u8>,
    tail: Seq<u8>,
)
    requires
        all_spaces(gap1),
        all_spaces(gap2),
        all_spaces(other1),
        all_spaces(other2),
        extraction(assignment_page(pre, format, gap1, gap2, tail)) matches Ok((open, _, _)) && open
            == tail_start(pre + marker(format), gap1, gap2),
    ensures
        extraction(assignment_page(pre, format, other1, other2, tail)) matches Ok((open, _, _))
            && open == tail_start(pre + marker(format), other1, other2),
        extracted(assignment_page(pre, format, other1, other2, tail)) == extracted(
            assignment_page(pre, format, gap1, gap2, tail),
        ),
{
    let head = pre + marker(format);
    let a = page(head, gap1, gap2, tail);
    let b = page(head, other1, other2, tail);
    let ta = tail_start(head, gap1, gap2);
    let tb = tail_start(head, other1, other2);
    lemma_marker_is_name(format);
    assert(head.last() == marker(format).last());
    let (open, end, f) = extraction(a)->Ok_0;
    assert(capture(a, f) == Some((open, end)));
    crate::extract::lemma_capture_bounds(a, f);
    assert(a.len() == ta + tail.len());
    assert(a[ta] == tail[0]);
    let i = choose|i: int| is_first_complete(a, f, i);
    assert(a[open] == OPEN_BRACE);
    assert(parts_ok(head, gap1, gap2, tail));
    assert(parts_ok(head, other1, other2, tail));
    lemma_capture_moves(head, gap1, gap2, other1, other2, tail, f);
    if f == Format::Legacy {
        if format_matches(b, Format::Current) {
            lemma_format_matches_moves(head, other1, other2, gap1, gap2, tail, Format::Current);
        }
    }
    lemma_format_matches_moves(head, gap1, gap2, other1, other2, tail, f);
    let end_b = end - ta + tb;
    assert(extraction(b) == Ok::<(int, int, Format), ExtractionError>((tb, end_b, f)));
    lemma_page_bytes(head, gap1, gap2, tail);
    lemma_page_bytes(head, other1, other2, tail);
    let text_a = a.subrange(ta, end);
    let text_b = b.subrange(tb, end_b);
    assert forall|k: int| 0 <= k < end - ta implies #[trigger] text_a[k] == text_b[k] by {
        assert(a[ta + k] == tail[k]);
        assert(b[tb + k] == tail[k]);
    }
    assert(text_a =~= text_b);
}

/// What extraction isolates does not depend on the format that led to it.
///
/// Take two pages that hold the same text from the opening brace of the
/// embedded object on, one embedding it in the current syntax and one in
/// the legacy syntax, or in any two ways. If extraction takes that object
/// from both, it isolates the same text from both, so that both decode
/// into the same state.
pub proof fn lemma_formats_yield_same_text(before1: Seq<u8>, before2: Seq<u8>, tail: Seq<u8>)
    requires
        extraction(before1 + tail) matches Ok((open, _, _)) && open == before1.len(),
        extraction(before2 + tail) matches Ok((open, _, _)) && open == before2.len(),
    ensures
        extracted(before1 + tail) matches Ok((text1, _)) && extracted(before2 + tail) matches Ok(
            (text2, _),
        ) && text1 == text2,
{
    let x1 = before1 + tail;
    let x2 = before2 + tail;
    let o1 = before1.len() as int;
    let o2 = before2.len() as int;
    let (open1, end1, f1) = extraction(x1)->Ok_0;
    let (open2, end2, f2) = extraction(x2)->Ok_0;
    assert(capture(x1, f1) == Some((open1, end1)));
    assert(capture(x2, f2) == Some((open2, end2)));
    assert(is_suffix(x1, o1, tail));
    assert(is_suffix(x2, o2, tail));
    lemma_suffix_object_end(x1, o1, tail, 0);
    lemma_suffix_object_end(x2, o2, tail, 0);
    let i1 = choose|i: int| is_first_complete(x1, f1, i);
    let i2 = choose|i: int| is_first_complete(x2, f2, i);
    assert(object_end(x1, o1) == Some(end1));
    assert(object_end(x2, o2) == Some(end2));
    let text1 = x1.subrange(o1, end1);
    let text2 = x2.subrange(o2, end2);
    crate::extract::lemma_capture_bounds(x1, f1);
    crate::extract::lemma_capture_bounds(x2, f2);
    assert forall|k: int| 0 <= k < end1 - o1 implies #[trigger] text1[k] == text2[k] by {
        assert(x1[o1 + k] == tail[k]);
        assert(x2[o2 + k] == tail[k]);
    }
    assert(text1 =~= text2);
}

} // verus!
