//! Small operations on text that the rest of the library builds on.

use vstd::prelude::*;
use vstd::string::StringSliceAdditionalSpecFns;
use vstd::utf8::encode_utf8_decode_utf8;

verus! {

/// Tells whether two strings hold the same characters.
pub fn str_eq(a: &str, b: &str) -> (same: bool)
    ensures
        same == (a@ == b@),
{
    let x = a.as_bytes();
    let y = b.as_bytes();
    proof {
        encode_utf8_decode_utf8(a@);
        encode_utf8_decode_utf8(b@);
    }
    if x.len() != y.len() {
        return false;
    }
    let n = x.len();
    let mut i: usize = 0;
    while i < n
        invariant
            n == x@.len(),
            n == y@.len(),
            i <= n,
            x@ == a.spec_bytes(),
            y@ == b.spec_bytes(),
            forall|k: int| 0 <= k < i ==> x@[k] == y@[k],
        decreases n - i,
    {
        if x[i] != y[i] {
            assert(x@[i as int] != y@[i as int]);
            return false;
        }
        i = i + 1;
    }
    proof {
        assert(x@ =~= y@);
    }
    true
}

/// `c` is one of the ten decimal digits.
pub open spec fn is_digit(c: char) -> bool {
    '0' <= c && c <= '9'
}

/// The number that the digit `c` stands for.
pub open spec fn digit_value(c: char) -> nat {
    (c as nat - '0' as nat) as nat
}

/// The number that a sequence of digits denotes in base ten; zero for the
/// empty sequence.
pub open spec fn digits_value(s: Seq<char>) -> nat
    decreases s.len(),
{
    if s.len() == 0 {
        0
    } else {
        digits_value(s.drop_last()) * 10 + digit_value(s.last())
    }
}

/// `s` is made of digits only, and of at least one.
pub open spec fn is_digits(s: Seq<char>) -> bool {
    s.len() > 0 && forall|i: int| 0 <= i < s.len() ==> is_digit(#[trigger] s[i])
}

/// The digits of a numeral: the text without its sign.
pub open spec fn unsigned_body(s: Seq<char>) -> Seq<char> {
    if s.len() > 0 && s[0] == '+' {
        s.drop_first()
    } else {
        s
    }
}

/// The value of `s` read as an unsigned 64-bit numeral: an optional `+`,
/// then one or more decimal digits, denoting a number that fits. Anything
/// else is no numeral.
pub open spec fn parse_u64(s: Seq<char>) -> Option<u64> {
    let body = unsigned_body(s);
    if is_digits(body) && digits_value(body) <= u64::MAX {
        Some(digits_value(body) as u64)
    } else {
        None
    }
}

/// A longer sequence of digits denotes no smaller a number than its prefix.
pub proof fn lemma_digits_value_grows(s: Seq<char>, k: int)
    requires
        0 <= k <= s.len(),
    ensures
        digits_value(s.take(k)) <= digits_value(s),
    decreases s.len() - k,
{
    if k == s.len() {
        assert(s.take(k) =~= s);
    } else {
        lemma_digits_value_grows(s, k + 1);
        assert(s.take(k + 1).drop_last() =~= s.take(k));
    }
}

/// Reads `chars[from..to]` as a sequence of digits.
fn read_digits(chars: &[char], from: usize, to: usize) -> (r: Option<u64>)
    requires
        from <= to <= chars@.len(),
    ensures
        r == (if is_digits(chars@.subrange(from as int, to as int)) && digits_value(
            chars@.subrange(from as int, to as int),
        ) <= u64::MAX {
            Some(digits_value(chars@.subrange(from as int, to as int)) as u64)
        } else {
            None
        }),
{
    let ghost body = chars@.subrange(from as int, to as int);
    if from == to {
        return None;
    }
    let mut acc: u64 = 0;
    let mut i: usize = from;
    while i < to
        invariant
            from <= i <= to <= chars@.len(),
            body == chars@.subrange(from as int, to as int),
            forall|k: int| 0 <= k < i - from ==> is_digit(#[trigger] body[k]),
            acc == digits_value(body.take(i - from)),
        decreases to - i,
    {
        let c = chars[i];
        assert(body[i - from] == c);
        if !('0' <= c && c <= '9') {
            return None;
        }
        let d = (c as u64) - ('0' as u64);
        proof {
            assert(body.take(i - from + 1).drop_last() =~= body.take(i - from));
            assert(digits_value(body.take(i - from + 1)) == acc * 10 + d);
            lemma_digits_value_grows(body, i - from + 1);
        }
        let next = match acc.checked_mul(10) {
            Some(m) => m.checked_add(d),
            None => None,
        };
        match next {
            Some(v) => {
                acc = v;
            },
            None => {
                return None;
            },
        }
        i = i + 1;
    }
    proof {
        assert(body.take(to - from) =~= body);
    }
    Some(acc)
}

/// Reads `chars[from..to]` as an unsigned 64-bit numeral.
pub fn read_u64(chars: &[char], from: usize, to: usize) -> (r: Option<u64>)
    requires
        from <= to <= chars@.len(),
    ensures
        r == parse_u64(chars@.subrange(from as int, to as int)),
{
    let ghost s = chars@.subrange(from as int, to as int);
    if from < to && chars[from] == '+' {
        proof {
            assert(s[0] == '+');
            assert(s.drop_first() =~= chars@.subrange(from + 1, to as int));
        }
        read_digits(chars, from + 1, to)
    } else {
        proof {
            if s.len() > 0 {
                assert(s[0] == chars@[from as int]);
            }
        }
        read_digits(chars, from, to)
    }
}

/// Reads `s` as an unsigned 64-bit numeral.
pub fn parse_u64_text(s: &str) -> (r: Option<u64>)
    ensures
        r == parse_u64(s@),
{
    let chars = chars_of(s);
    proof {
        assert(chars@.subrange(0, chars@.len() as int) =~= chars@);
    }
    read_u64(chars.as_slice(), 0, chars.len())
}

/// The characters of `s`, one by one.
pub fn chars_of(s: &str) -> (chars: Vec<char>)
    ensures
        chars@ == s@,
{
    let mut chars: Vec<char> = Vec::new();
    for c in it: s.chars()
        invariant
            chars@ == it.seq().take(it.index()),
    {
        chars.push(c);
    }
    chars
}

/// `s` without the occurrences of `c`.
pub open spec fn without(s: Seq<char>, c: char) -> Seq<char>
    decreases s.len(),
{
    if s.len() == 0 {
        s
    } else if s.last() == c {
        without(s.drop_last(), c)
    } else {
        without(s.drop_last(), c).push(s.last())
    }
}

/// Copies `chars`, leaving out each `c`.
pub fn remove_char(chars: &[char], c: char) -> (kept: Vec<char>)
    ensures
        kept@ == without(chars@, c),
{
    let mut kept: Vec<char> = Vec::new();
    let n = chars.len();
    let mut i: usize = 0;
    while i < n
        invariant
            n == chars@.len(),
            i <= n,
            kept@ == without(chars@.take(i as int), c),
        decreases n - i,
    {
        proof {
            assert(chars@.take(i + 1).drop_last() =~= chars@.take(i as int));
        }
        if chars[i] != c {
            kept.push(chars[i]);
        }
        i = i + 1;
    }
    proof {
        assert(chars@.take(n as int) =~= chars@);
    }
    kept
}

/// `s` ends with `suffix`.
pub open spec fn ends_with(s: Seq<char>, suffix: Seq<char>) -> bool {
    suffix.len() <= s.len() && s.subrange(s.len() - suffix.len(), s.len() as int) == suffix
}

/// `s` without every copy of `suffix` at its end. An empty suffix takes
/// nothing away.
pub open spec fn trim_end(s: Seq<char>, suffix: Seq<char>) -> Seq<char>
    decreases s.len(),
{
    if suffix.len() > 0 && ends_with(s, suffix) {
        trim_end(s.take(s.len() - suffix.len()), suffix)
    } else {
        s
    }
}

/// Tells whether `pat` occurs in `chars` at index `at`.
pub fn occurs_at_index(chars: &[char], pat: &[char], at: usize) -> (found: bool)
    requires
        at <= chars@.len(),
    ensures
        found == (at + pat@.len() <= chars@.len() && chars@.subrange(at as int, at + pat@.len())
            == pat@),
{
    let n = chars.len();
    let len = pat.len();
    if len > n - at {
        return false;
    }
    let mut k: usize = 0;
    while k < len
        invariant
            n == chars@.len(),
            len == pat@.len(),
            at + len <= n,
            k <= len,
            forall|j: int| 0 <= j < k ==> chars@[at + j] == pat@[j],
        decreases len - k,
    {
        if chars[at + k] != pat[k] {
            proof {
                assert(chars@.subrange(at as int, at + len)[k as int] == chars@[at + k]);
            }
            return false;
        }
        k = k + 1;
    }
    proof {
        assert(chars@.subrange(at as int, at + len) =~= pat@);
    }
    true
}

/// Removes every copy of `suffix` from the end of `s`.
pub fn trim_end_matches(s: &str, suffix: &str) -> (trimmed: String)
    ensures
        trimmed@ == trim_end(s@, suffix@),
{
    let chars = chars_of(s);
    let pat = chars_of(suffix);
    let len = pat.len();
    let mut keep: usize = chars.len();
    proof {
        assert(s@.take(keep as int) =~= s@);
    }
    if len > 0 {
        while keep >= len && occurs_at_index(chars.as_slice(), pat.as_slice(), keep - len)
            invariant
                len == pat@.len(),
                len > 0,
                pat@ == suffix@,
                chars@ == s@,
                keep <= chars@.len(),
                trim_end(s@, suffix@) == trim_end(s@.take(keep as int), suffix@),
            decreases keep,
        {
            proof {
                let cur = s@.take(keep as int);
                assert(cur.subrange(cur.len() - len, cur.len() as int) =~= chars@.subrange(
                    keep - len,
                    (keep - len) + len,
                ));
                assert(cur.take(cur.len() - len) =~= s@.take(keep - len));
            }
            keep = keep - len;
        }
        proof {
            let cur = s@.take(keep as int);
            if keep >= len {
                assert(cur.subrange(cur.len() - len, cur.len() as int) =~= chars@.subrange(
                    keep - len,
                    (keep - len) + len,
                ));
            }
        }
    }
    proof {
        assert(s@.take(s@.len() as int) =~= s@);
        assert(s@.subrange(0, keep as int) =~= s@.take(keep as int));
    }
    String::from_str(s.substring_char(0, keep))
}

/// `s` without the occurrences of `pat`, found from left to right, none
/// overlapping another. An empty `pat` takes nothing away.
pub open spec fn remove_all(s: Seq<char>, pat: Seq<char>) -> Seq<char>
    decreases s.len(),
{
    if pat.len() == 0 || s.len() < pat.len() {
        s
    } else if s.take(pat.len() as int) == pat {
        remove_all(s.skip(pat.len() as int), pat)
    } else {
        seq![s[0]] + remove_all(s.skip(1), pat)
    }
}

/// Without a match at its start, the search goes on one character later.
proof fn lemma_remove_all_step(s: Seq<char>, pat: Seq<char>)
    requires
        pat.len() > 0,
        s.len() >= pat.len(),
        s.take(pat.len() as int) != pat,
    ensures
        remove_all(s, pat) == seq![s[0]] + remove_all(s.skip(1), pat),
{
}

/// Removes every occurrence of `pat` from `s`.
pub fn remove_matches(s: &str, pat: &str) -> (rest: String)
    ensures
        rest@ == remove_all(s@, pat@),
{
    let chars = chars_of(s);
    let p = chars_of(pat);
    let n = chars.len();
    let len = p.len();
    if len == 0 {
        return String::from_str(s);
    }
    let mut rest = String::new();
    // The characters from `kept` to `i` are to stay and wait to be copied.
    let mut kept: usize = 0;
    let mut i: usize = 0;
    proof {
        assert(s@.skip(0) =~= s@);
        assert(rest@ + s@.subrange(0, 0) + remove_all(s@, pat@) =~= remove_all(s@, pat@));
    }
    while i < n && n - i >= len
        invariant
            n == chars@.len(),
            len == p@.len(),
            len > 0,
            chars@ == s@,
            p@ == pat@,
            kept <= i <= n,
            remove_all(s@, pat@) == rest@ + s@.subrange(kept as int, i as int) + remove_all(
                s@.skip(i as int),
                pat@,
            ),
        decreases n - i,
    {
        let ghost cur = s@.skip(i as int);
        proof {
            assert(cur.take(len as int) =~= chars@.subrange(i as int, i + len));
        }
        if occurs_at_index(chars.as_slice(), p.as_slice(), i) {
            rest.append(s.substring_char(kept, i));
            proof {
                assert(cur.skip(len as int) =~= s@.skip(i + len));
                assert(s@.subrange(i + len, i + len) =~= Seq::<char>::empty());
            }
            i = i + len;
            kept = i;
        } else {
            proof {
                lemma_remove_all_step(cur, pat@);
                assert(cur.skip(1) =~= s@.skip(i + 1));
                assert(s@.subrange(kept as int, i as int) + seq![cur[0]] =~= s@.subrange(
                    kept as int,
                    i + 1,
                ));
                assert(rest@ + s@.subrange(kept as int, i as int) + (seq![cur[0]] + remove_all(
                    cur.skip(1),
                    pat@,
                )) =~= rest@ + (s@.subrange(kept as int, i as int) + seq![cur[0]]) + remove_all(
                    cur.skip(1),
                    pat@,
                ));
            }
            i = i + 1;
        }
    }
    proof {
        let cur = s@.skip(i as int);
        assert(remove_all(cur, pat@) == cur);
        assert(s@.subrange(kept as int, i as int) + cur =~= s@.subrange(kept as int, n as int));
        assert(rest@ + s@.subrange(kept as int, i as int) + cur =~= rest@ + (s@.subrange(
            kept as int,
            i as int,
        ) + cur));
    }
    rest.append(s.substring_char(kept, n));
    rest
}

} // verus!
