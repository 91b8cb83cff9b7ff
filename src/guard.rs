//! A test on a feed document's bytes that lets through only documents whose
//! media play times the document parser reads without failing hard. The
//! parser reads a play time from the text of a `duration` element and from
//! the `start`, `end` and `time` attributes, and fails on a run of digits too
//! long for a 64-bit count or on a non-ASCII digit. So each such value must
//! hold only ASCII bytes, no `&` (a character reference could name any
//! digit), and no more than 15 digits in a row; white space, letters and any
//! other ASCII byte are read without harm.
//!
//! The parser finds tags and attributes on the raw bytes and decodes names in
//! the document's declared encoding. The test refuses the zero byte, which
//! every UTF-16 document holds, and the escape byte 0x1B, without which an
//! ISO-2022-JP document stays in ASCII; in every other encoding the parser
//! decodes, an ASCII name can come only from the same ASCII bytes.

use vstd::prelude::*;

verus! {

pub open spec fn is_digit(c: u8) -> bool {
    48 <= c <= 57
}

/// A byte allowed inside a play-time value: ASCII, but not `&` or escape.
pub open spec fn is_value_byte(c: u8) -> bool {
    c < 128 && c != 38 && c != 27
}

/// XML white space.
pub open spec fn is_ws(c: u8) -> bool {
    c == 32 || c == 9 || c == 10 || c == 13
}

/// A byte that may continue an XML name (any non-ASCII byte counts).
pub open spec fn is_name_byte(c: u8) -> bool {
    (65 <= c <= 90) || (97 <= c <= 122) || is_digit(c) || c == 45 || c == 95 || c == 46 || c == 58
        || c >= 128
}

/// The first position at or after `n` that is not white space.
pub open spec fn skip_ws(b: Seq<u8>, n: int) -> int
    decreases b.len() - n,
{
    if 0 <= n < b.len() && is_ws(b[n]) {
        skip_ws(b, n + 1)
    } else {
        n
    }
}

/// The first position at or after `n` that holds `close` or a byte not
/// allowed in a value (or the end).
pub open spec fn value_end(b: Seq<u8>, n: int, close: u8) -> int
    decreases b.len() - n,
{
    if 0 <= n < b.len() && b[n] != close && is_value_byte(b[n]) {
        value_end(b, n + 1, close)
    } else {
        n
    }
}

/// The number of digits in `j..p` that end at `p`.
pub open spec fn digit_run(b: Seq<u8>, j: int, p: int) -> nat
    decreases p - j,
{
    if p <= j || !is_digit(b[p - 1]) {
        0
    } else {
        digit_run(b, j, p - 1) + 1
    }
}

/// No more than 15 digits in a row within `j..k`.
pub open spec fn runs_short(b: Seq<u8>, j: int, k: int) -> bool {
    forall|p: int| j <= p <= k ==> digit_run(b, j, p) <= 15
}

/// From `j` on: allowed bytes with short digit runs, closed by `close`.
pub open spec fn safe_value(b: Seq<u8>, j: int, close: u8) -> bool {
    let k = value_end(b, j, close);
    &&& k < b.len()
    &&& b[k] == close
    &&& runs_short(b, j, k)
}

/// A non-empty CDATA section at `k` (its `<`) whose content is a safe value.
pub open spec fn cdata_ok(b: Seq<u8>, k: int) -> bool {
    &&& k + 9 <= b.len()
    &&& b[k + 1] == 33 && b[k + 2] == 91 && b[k + 3] == 67 && b[k + 4] == 68 && b[k + 5] == 65
        && b[k + 6] == 84 && b[k + 7] == 65 && b[k + 8] == 91
    &&& safe_value(b, k + 9, 93)
    &&& {
        let e = value_end(b, k + 9, 93);
        e > k + 9 && e + 2 < b.len() && b[e + 1] == 93 && b[e + 2] == 62
    }
}

/// The text an element's content starts with at `j` is safe: a non-empty
/// safe text up to the next `<`; or, with no text, an end tag or a safe CDATA
/// section.
pub open spec fn safe_text(b: Seq<u8>, j: int) -> bool {
    let k = value_end(b, j, 60);
    &&& k < b.len()
    &&& b[k] == 60
    &&& runs_short(b, j, k)
    &&& k > j || (k + 1 < b.len() && (b[k + 1] == 47 || cdata_ok(b, k)))
}

/// The `>` that closes a start tag, from `n` on, with `q` the quote of the
/// attribute value that `n` is inside (0 if none); -1 where the tag does not
/// close, or a quoted value holds `>`.
pub open spec fn tag_end(b: Seq<u8>, n: int, q: u8) -> int
    decreases b.len() - n,
{
    if n < 0 || n >= b.len() {
        -1
    } else if q == 0 {
        if b[n] == 62 {
            n
        } else if b[n] == 34 || b[n] == 39 {
            tag_end(b, n + 1, b[n])
        } else {
            tag_end(b, n + 1, 0)
        }
    } else if b[n] == 62 {
        -1
    } else if b[n] == q {
        tag_end(b, n + 1, 0)
    } else {
        tag_end(b, n + 1, q)
    }
}

pub open spec fn duration_at(b: Seq<u8>, i: int) -> bool {
    0 <= i && i + 8 <= b.len() && b[i] == 100 && b[i + 1] == 117 && b[i + 2] == 114 && b[i + 3]
        == 97 && b[i + 4] == 116 && b[i + 5] == 105 && b[i + 6] == 111 && b[i + 7] == 110
}

pub open spec fn start_at(b: Seq<u8>, i: int) -> bool {
    0 <= i && i + 5 <= b.len() && b[i] == 115 && b[i + 1] == 116 && b[i + 2] == 97 && b[i + 3]
        == 114 && b[i + 4] == 116
}

pub open spec fn end_at(b: Seq<u8>, i: int) -> bool {
    0 <= i && i + 3 <= b.len() && b[i] == 101 && b[i + 1] == 110 && b[i + 2] == 100
}

pub open spec fn time_at(b: Seq<u8>, i: int) -> bool {
    0 <= i && i + 4 <= b.len() && b[i] == 116 && b[i + 1] == 105 && b[i + 2] == 109 && b[i + 3]
        == 101
}

/// A byte that ends a tag name: white space, `<`, `>` or `/`.
pub open spec fn is_name_end(c: u8) -> bool {
    is_ws(c) || c == 60 || c == 62 || c == 47
}

/// The start of the run of bytes, none ending a tag name, that ends at `p`.
pub open spec fn name_start(b: Seq<u8>, p: int) -> int
    decreases p,
{
    if 0 < p <= b.len() && !is_name_end(b[p - 1]) {
        name_start(b, p - 1)
    } else {
        p
    }
}

/// `duration` at `i` may end an opening tag's name: the bytes before it, up
/// to the tag's `<`, hold nothing that ends a name (a closing tag's `/` does).
pub open spec fn element_hit(b: Seq<u8>, i: int) -> bool {
    duration_at(b, i) && {
        let q = name_start(b, i);
        q > 0 && b[q - 1] == 60
    }
}

/// The name ending before `n` is longer; or its start tag closes, and is
/// empty (`/>`) or is followed by safe text.
pub open spec fn element_ok(b: Seq<u8>, n: int) -> bool {
    n < b.len() && (is_name_byte(b[n]) || {
        let t = tag_end(b, n, 0);
        t >= n && (b[t - 1] == 47 || safe_text(b, t + 1))
    })
}

/// A word at `i` may be an attribute name: it follows white space, `:`, `/`
/// or a quote.
pub open spec fn attribute_before(b: Seq<u8>, i: int) -> bool {
    i > 0 && (is_ws(b[i - 1]) || b[i - 1] == 58 || b[i - 1] == 34 || b[i - 1] == 39 || b[i - 1]
        == 47)
}

/// The name ending before `n` is longer, or is not given a value, or is
/// given a safe quoted value.
pub open spec fn attribute_ok(b: Seq<u8>, n: int) -> bool {
    n < b.len() && (is_name_byte(b[n]) || {
        let m = skip_ws(b, n);
        !(m < b.len() && b[m] == 61) || {
            let v = skip_ws(b, m + 1);
            v < b.len() && (b[v] == 34 || b[v] == 39) && safe_value(b, v + 1, b[v])
        }
    })
}

/// What the test asks of position `i`.
pub open spec fn position_ok(b: Seq<u8>, i: int) -> bool {
    &&& b[i] != 0
    &&& b[i] != 27
    &&& element_hit(b, i) ==> element_ok(b, i + 8)
    &&& attribute_before(b, i) && start_at(b, i) ==> attribute_ok(b, i + 5)
    &&& attribute_before(b, i) && end_at(b, i) ==> attribute_ok(b, i + 3)
    &&& attribute_before(b, i) && time_at(b, i) ==> attribute_ok(b, i + 4)
}

/// Every play time in the document is one the parser reads safely.
pub open spec fn npt_safe(b: Seq<u8>) -> bool {
    forall|i: int| 0 <= i < b.len() ==> position_ok(b, i)
}

fn skip_ws_exec(b: &[u8], n: usize) -> (r: usize)
    requires
        n <= b@.len(),
    ensures
        r == skip_ws(b@, n as int),
        n <= r <= b@.len(),
{
    let mut m = n;
    while m < b.len() && (b[m] == 32 || b[m] == 9 || b[m] == 10 || b[m] == 13)
        invariant
            n <= m <= b@.len(),
            skip_ws(b@, n as int) == skip_ws(b@, m as int),
        decreases b@.len() - m,
    {
        m += 1;
    }
    m
}

proof fn lemma_value_end_ge(b: Seq<u8>, n: int, close: u8)
    requires
        0 <= n,
    ensures
        value_end(b, n, close) >= n,
    decreases b.len() - n,
{
    if 0 <= n < b.len() && b[n] != close && is_value_byte(b[n]) {
        lemma_value_end_ge(b, n + 1, close);
    }
}

/// The end of the value from `j` (as `value_end`), or `None` where a digit
/// run in it is longer than 15.
fn scan_value(b: &[u8], j: usize, close: u8) -> (r: Option<usize>)
    requires
        j <= b@.len(),
    ensures
        r matches Some(k) ==> k == value_end(b@, j as int, close) && runs_short(b@, j as int, k as int),
        r.is_none() ==> !runs_short(b@, j as int, value_end(b@, j as int, close)),
        r matches Some(k) ==> k <= b@.len(),
{
    let mut p = j;
    let mut run: usize = 0;
    while p < b.len() && b[p] != close && b[p] < 128 && b[p] != 38 && b[p] != 27
        invariant
            j <= p <= b@.len(),
            value_end(b@, j as int, close) == value_end(b@, p as int, close),
            run == digit_run(b@, j as int, p as int),
            run <= 15,
            runs_short(b@, j as int, p as int),
        decreases b@.len() - p,
    {
        if 48 <= b[p] && b[p] <= 57 {
            if run == 15 {
                proof {
                    lemma_value_end_ge(b@, p + 1, close);
                    assert(digit_run(b@, j as int, p + 1) == 16);
                }
                return None;
            }
            run += 1;
        } else {
            run = 0;
        }
        p += 1;
    }
    Some(p)
}

fn safe_value_exec(b: &[u8], j: usize, close: u8) -> (r: bool)
    requires
        j <= b@.len(),
    ensures
        r == safe_value(b@, j as int, close),
{
    match scan_value(b, j, close) {
        Some(k) => k < b.len() && b[k] == close,
        None => false,
    }
}

fn cdata_ok_exec(b: &[u8], k: usize) -> (r: bool)
    requires
        k < b@.len(),
    ensures
        r == cdata_ok(b@, k as int),
{
    if b.len() - k < 9 {
        return false;
    }
    if !(b[k + 1] == 33 && b[k + 2] == 91 && b[k + 3] == 67 && b[k + 4] == 68 && b[k + 5] == 65
        && b[k + 6] == 84 && b[k + 7] == 65 && b[k + 8] == 91) {
        return false;
    }
    match scan_value(b, k + 9, 93) {
        Some(e) => e < b.len() && b[e] == 93 && e > k + 9 && b.len() - e > 2 && b[e + 1] == 93
            && b[e + 2] == 62,
        None => false,
    }
}

fn safe_text_exec(b: &[u8], j: usize) -> (r: bool)
    requires
        j <= b@.len(),
    ensures
        r == safe_text(b@, j as int),
{
    match scan_value(b, j, 60) {
        Some(k) => {
            if !(k < b.len() && b[k] == 60) {
                return false;
            }
            k > j || (b.len() - k > 1 && (b[k + 1] == 47 || cdata_ok_exec(b, k)))
        },
        None => false,
    }
}

fn tag_end_exec(b: &[u8], n: usize) -> (r: Option<usize>)
    requires
        n <= b@.len(),
    ensures
        r matches Some(t) ==> t as int == tag_end(b@, n as int, 0) && n <= t < b@.len(),
        r.is_none() ==> tag_end(b@, n as int, 0) == -1,
{
    let mut p = n;
    let mut q: u8 = 0;
    while p < b.len()
        invariant
            n <= p <= b@.len(),
            tag_end(b@, n as int, 0) == tag_end(b@, p as int, q),
        decreases b@.len() - p,
    {
        if q == 0 {
            if b[p] == 62 {
                return Some(p);
            } else if b[p] == 34 || b[p] == 39 {
                q = b[p];
            }
        } else if b[p] == 62 {
            return None;
        } else if b[p] == q {
            q = 0;
        }
        p += 1;
    }
    None
}

fn element_ok_exec(b: &[u8], n: usize) -> (r: bool)
    requires
        n <= b@.len(),
        n >= 1,
    ensures
        r == element_ok(b@, n as int),
{
    if n >= b.len() {
        return false;
    }
    if name_byte(b[n]) {
        return true;
    }
    match tag_end_exec(b, n) {
        Some(t) => b[t - 1] == 47 || safe_text_exec(b, t + 1),
        None => false,
    }
}

fn attribute_ok_exec(b: &[u8], n: usize) -> (r: bool)
    requires
        n <= b@.len(),
    ensures
        r == attribute_ok(b@, n as int),
{
    if n >= b.len() {
        return false;
    }
    if name_byte(b[n]) {
        return true;
    }
    let m = skip_ws_exec(b, n);
    if !(m < b.len() && b[m] == 61) {
        return true;
    }
    let v = skip_ws_exec(b, m + 1);
    v < b.len() && (b[v] == 34 || b[v] == 39) && safe_value_exec(b, v + 1, b[v])
}

fn name_byte(c: u8) -> (r: bool)
    ensures
        r == is_name_byte(c),
{
    (65 <= c && c <= 90) || (97 <= c && c <= 122) || (48 <= c && c <= 57) || c == 45 || c == 95
        || c == 46 || c == 58 || c >= 128
}

fn name_start_exec(b: &[u8], p: usize) -> (r: usize)
    requires
        p <= b@.len(),
    ensures
        r == name_start(b@, p as int),
        r <= p,
{
    let mut q = p;
    while q > 0 && !(b[q - 1] == 32 || b[q - 1] == 9 || b[q - 1] == 10 || b[q - 1] == 13 || b[q
        - 1] == 60 || b[q - 1] == 62 || b[q - 1] == 47)
        invariant
            q <= p <= b@.len(),
            name_start(b@, p as int) == name_start(b@, q as int),
        decreases q,
    {
        q -= 1;
    }
    q
}

fn position_ok_exec(b: &[u8], i: usize) -> (r: bool)
    requires
        i < b@.len(),
    ensures
        r == position_ok(b@, i as int),
{
    if b[i] == 0 || b[i] == 27 {
        return false;
    }
    let len = b.len();
    let hit_duration = len - i >= 8 && b[i] == 100 && b[i + 1] == 117 && b[i + 2] == 114 && b[i
        + 3] == 97 && b[i + 4] == 116 && b[i + 5] == 105 && b[i + 6] == 111 && b[i + 7] == 110 && {
        let q = name_start_exec(b, i);
        q > 0 && b[q - 1] == 60
    };
    if hit_duration && !element_ok_exec(b, i + 8) {
        return false;
    }
    let before = i > 0 && (b[i - 1] == 32 || b[i - 1] == 9 || b[i - 1] == 10 || b[i - 1] == 13
        || b[i - 1] == 58 || b[i - 1] == 34 || b[i - 1] == 39 || b[i - 1] == 47);
    if before {
        if len - i >= 5 && b[i] == 115 && b[i + 1] == 116 && b[i + 2] == 97 && b[i + 3] == 114
            && b[i + 4] == 116 && !attribute_ok_exec(b, i + 5) {
            return false;
        }
        if len - i >= 3 && b[i] == 101 && b[i + 1] == 110 && b[i + 2] == 100
            && !attribute_ok_exec(b, i + 3) {
            return false;
        }
        if len - i >= 4 && b[i] == 116 && b[i + 1] == 105 && b[i + 2] == 109 && b[i + 3] == 101
            && !attribute_ok_exec(b, i + 4) {
            return false;
        }
    }
    true
}

/// Whether every play time in the document is one the parser reads safely.
pub fn check_npt_safe(b: &[u8]) -> (r: bool)
    ensures
        r == npt_safe(b@),
{
    let mut i: usize = 0;
    while i < b.len()
        invariant
            i <= b@.len(),
            forall|k: int| 0 <= k < i ==> position_ok(b@, k),
        decreases b@.len() - i,
    {
        if !position_ok_exec(b, i) {
            return false;
        }
        i += 1;
    }
    true
}

} // verus!
