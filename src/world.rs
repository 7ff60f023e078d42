use vstd::prelude::*;

use crate::error::NeHeError;

verus! {

/// ASCII white space: space, tab, line feed, vertical tab, form feed and
/// carriage return.
pub open spec fn is_space(b: u8) -> bool {
    b == 0x20 || (0x09 <= b && b <= 0x0d)
}

fn space(b: u8) -> (r: bool)
    ensures
        r == is_space(b),
{
    b == 0x20 || (0x09 <= b && b <= 0x0d)
}

/// A line that counts: it holds something besides white space and does not
/// start with '/'.
pub open spec fn is_content(t: Seq<u8>, s: int, e: int) -> bool {
    &&& s < e
    &&& t[s] != 0x2f
    &&& exists|k: int| s <= k < e && !is_space(#[trigger] t[k])
}

/// The end of a line that runs from `s` to a line feed at `i`: a carriage
/// return before the line feed is not part of the line.
pub open spec fn line_stop(t: Seq<u8>, s: int, i: int) -> int {
    if i > s && t[i - 1] == 0x0d {
        i - 1
    } else {
        i
    }
}

/// The spans of the lines that count, scanning from `i` where the current
/// line began at `s`. The last line needs no line feed.
pub open spec fn content_lines_from(t: Seq<u8>, i: int, s: int) -> Seq<(int, int)>
    decreases t.len() - i,
{
    if i >= t.len() {
        if is_content(t, s, t.len() as int) {
            seq![(s, t.len() as int)]
        } else {
            seq![]
        }
    } else if t[i] == 0x0a {
        let c = line_stop(t, s, i);
        (if is_content(t, s, c) {
            seq![(s, c)]
        } else {
            seq![]
        }) + content_lines_from(t, i + 1, i + 1)
    } else {
        content_lines_from(t, i + 1, s)
    }
}

/// The spans of the lines of `t` that count, in order.
pub open spec fn content_lines(t: Seq<u8>) -> Seq<(int, int)> {
    content_lines_from(t, 0, 0)
}

/// Each span is non-empty and lies within the first `n` bytes.
pub open spec fn spans_within(v: Seq<(usize, usize)>, n: int) -> bool {
    forall|j: int| 0 <= j < v.len() ==> #[trigger] v[j].0 < v[j].1 <= n
}

/// Spans as pairs of integers.
pub open spec fn spans_view(v: Seq<(usize, usize)>) -> Seq<(int, int)> {
    v.map_values(|p: (usize, usize)| (p.0 as int, p.1 as int))
}

proof fn lemma_spans_within_push(v: Seq<(usize, usize)>, p: (usize, usize), n: int)
    requires
        spans_within(v, n),
        p.0 < p.1 <= n,
    ensures
        spans_within(v.push(p), n),
{
    assert forall|j: int| 0 <= j < v.push(p).len() implies #[trigger] v.push(p)[j].0 < v.push(p)[j].1 <= n by {
        if j < v.len() {
            assert(v.push(p)[j] == v[j]);
        }
    }
}

/// Whether the line from `s` to `e` counts; `s <= e <= t.len()`.
fn line_counts(t: &[u8], s: usize, e: usize) -> (r: bool)
    requires
        s <= e <= t@.len(),
    ensures
        r == is_content(t@, s as int, e as int),
{
    if s == e || t[s] == 0x2f {
        return false;
    }
    let mut k: usize = s;
    while k < e
        invariant
            s <= k <= e <= t@.len(),
            s < e,
            t@[s as int] != 0x2f,
            forall|j: int| s <= j < k ==> is_space(#[trigger] t@[j]),
        decreases e - k,
    {
        if !space(t[k]) {
            assert(s <= k < e && !is_space(t@[k as int]));
            return true;
        }
        k = k + 1;
    }
    false
}

/// The spans of the lines of `t` that count, in order.
pub fn content_line_spans(t: &[u8]) -> (r: Vec<(usize, usize)>)
    ensures
        spans_view(r@) == content_lines(t@),
        spans_within(r@, t@.len() as int),
{
    let n = t.len();
    let mut r: Vec<(usize, usize)> = Vec::new();
    let mut s: usize = 0;
    let mut i: usize = 0;
    while i < n
        invariant
            s <= i <= n == t@.len(),
            spans_view(r@) + content_lines_from(t@, i as int, s as int) == content_lines(t@),
            spans_within(r@, n as int),
        decreases n - i,
    {
        if t[i] == 0x0a {
            let c = if i > s && t[i - 1] == 0x0d {
                i - 1
            } else {
                i
            };
            let ghost before = r@;
            if line_counts(t, s, c) {
                r.push((s, c));
                proof {
                    lemma_spans_within_push(before, (s, c), n as int);
                }
            }
            proof {
                assert(spans_view(before.push((s, c))) =~= spans_view(before) + seq![(s as int, c as int)]);
                assert(spans_view(r@) + content_lines_from(t@, i + 1, i + 1) =~= spans_view(before)
                    + content_lines_from(t@, i as int, s as int));
            }
            s = i + 1;
        }
        i = i + 1;
    }
    let ghost before = r@;
    if line_counts(t, s, n) {
        r.push((s, n));
        proof {
            lemma_spans_within_push(before, (s, n), n as int);
        }
    }
    proof {
        assert(spans_view(before.push((s, n))) =~= spans_view(before) + seq![(s as int, n as int)]);
        assert(spans_view(r@) =~= content_lines(t@));
    }
    r
}

/// The spans of the words of `t[i..e)`, separated by white space; `w` is
/// where the word being scanned began, or -1 between words.
pub open spec fn words_from(t: Seq<u8>, i: int, e: int, w: int) -> Seq<(int, int)>
    decreases e - i,
{
    if i >= e {
        if w >= 0 {
            seq![(w, e)]
        } else {
            seq![]
        }
    } else if is_space(t[i]) {
        (if w >= 0 {
            seq![(w, i)]
        } else {
            seq![]
        }) + words_from(t, i + 1, e, -1)
    } else {
        words_from(t, i + 1, e, if w >= 0 {
            w
        } else {
            i
        })
    }
}

/// The first five words of `t[s..e)`, or all of them where there are fewer.
pub open spec fn first_words(t: Seq<u8>, s: int, e: int) -> Seq<(int, int)> {
    let w = words_from(t, s, e, -1);
    if w.len() <= 5 {
        w
    } else {
        w.subrange(0, 5)
    }
}

/// The spans of the first five words of `t[s..e)`.
pub fn line_words(t: &[u8], s: usize, e: usize) -> (r: Vec<(usize, usize)>)
    requires
        s <= e <= t@.len(),
    ensures
        spans_view(r@) == first_words(t@, s as int, e as int),
{
    let mut r: Vec<(usize, usize)> = Vec::new();
    let mut w: usize = 0;
    let mut in_word = false;
    let mut i: usize = s;
    while i < e
        invariant
            s <= i <= e <= t@.len(),
            in_word ==> s <= w < i,
            r@.len() < 5,
            spans_view(r@) + words_from(t@, i as int, e as int, if in_word {
                w as int
            } else {
                -1
            }) == words_from(t@, s as int, e as int, -1),
        decreases e - i,
    {
        let ghost wi: int = if in_word {
            w as int
        } else {
            -1
        };
        let ghost before = r@;
        if space(t[i]) {
            if in_word {
                r.push((w, i));
                proof {
                    assert(spans_view(r@) =~= spans_view(before) + seq![(w as int, i as int)]);
                }
                in_word = false;
                if r.len() == 5 {
                    proof {
                        let all = words_from(t@, s as int, e as int, -1);
                        assert(all == spans_view(r@) + words_from(t@, i + 1, e as int, -1));
                        assert(all.subrange(0, 5) =~= spans_view(r@));
                    }
                    return r;
                }
            }
        } else if !in_word {
            w = i;
            in_word = true;
        }
        i = i + 1;
    }
    let ghost before = r@;
    if in_word {
        r.push((w, e));
        proof {
            assert(spans_view(r@) =~= spans_view(before) + seq![(w as int, e as int)]);
        }
    }
    proof {
        assert(spans_view(r@) =~= words_from(t@, s as int, e as int, -1));
    }
    r
}

/// An ASCII decimal digit.
pub open spec fn is_digit(b: u8) -> bool {
    0x30 <= b <= 0x39
}

/// The value of a string of decimal digits.
pub open spec fn digits_value(d: Seq<u8>) -> nat
    decreases d.len(),
{
    if d.len() == 0 {
        0
    } else {
        digits_value(d.drop_last()) * 10 + (d.last() - 0x30) as nat
    }
}

/// The count that `d` spells as a machine word: an optional '+', then one or
/// more decimal digits, of a value that fits.
pub open spec fn count_value(d: Seq<u8>) -> Option<nat> {
    if count_digits(d).len() > 0 && (forall|k: int|
        0 <= k < count_digits(d).len() ==> is_digit(#[trigger] count_digits(d)[k])) && digits_value(
        count_digits(d),
    ) <= usize::MAX {
        Some(digits_value(count_digits(d)))
    } else {
        None
    }
}

/// `d` without a leading '+'.
pub open spec fn count_digits(d: Seq<u8>) -> Seq<u8> {
    if d.len() > 0 && d[0] == 0x2b {
        d.drop_first()
    } else {
        d
    }
}

proof fn lemma_digits_value_grows(d: Seq<u8>, k: int)
    requires
        0 <= k <= d.len(),
        forall|j: int| 0 <= j < d.len() ==> is_digit(#[trigger] d[j]),
    ensures
        digits_value(d.subrange(0, k)) <= digits_value(d),
    decreases d.len() - k,
{
    if k < d.len() {
        let p = d.subrange(0, k + 1);
        assert(p.drop_last() =~= d.subrange(0, k));
        lemma_digits_value_grows(d, k + 1);
    } else {
        assert(d.subrange(0, k) =~= d);
    }
}

/// Reads the count in `t[s..e)`, as `count_value` describes it.
pub fn parse_count(t: &[u8], s: usize, e: usize) -> (r: Option<usize>)
    requires
        s <= e <= t@.len(),
    ensures
        r matches Some(n) ==> count_value(t@.subrange(s as int, e as int)) == Some(n as nat),
        r is None ==> count_value(t@.subrange(s as int, e as int)) is None,
{
    let ghost d = t@.subrange(s as int, e as int);
    let start: usize = if s < e && t[s] == 0x2b {
        s + 1
    } else {
        s
    };
    let ghost body = t@.subrange(start as int, e as int);
    assert(body =~= count_digits(d));
    if start == e {
        return None;
    }
    let mut acc: usize = 0;
    let mut i: usize = start;
    while i < e
        invariant
            s <= start <= i <= e <= t@.len(),
            start < e,
            d == t@.subrange(s as int, e as int),
            body == t@.subrange(start as int, e as int),
            body == count_digits(d),
            forall|j: int| start <= j < i ==> is_digit(#[trigger] t@[j]),
            acc as nat == digits_value(t@.subrange(start as int, i as int)),
        decreases e - i,
    {
        let b = t[i];
        if b < 0x30 || b > 0x39 {
            proof {
                assert(body[i - start] == t@[i as int]);
                assert(!is_digit(body[i - start]));
                assert(count_value(d) is None);
            }
            return None;
        }
        let ghost p = t@.subrange(start as int, i + 1);
        proof {
            assert(p.drop_last() =~= t@.subrange(start as int, i as int));
            assert(p.last() == b);
            assert(digits_value(p) == acc as nat * 10 + (b - 0x30) as nat);
            if forall|j: int| 0 <= j < body.len() ==> is_digit(#[trigger] count_digits(d)[j]) {
                lemma_digits_value_grows(body, i - start + 1);
                assert(body.subrange(0, i - start + 1) =~= p);
            }
        }
        let v = match acc.checked_mul(10) {
            None => None,
            Some(m) => m.checked_add((b - 0x30) as usize),
        };
        match v {
            None => {
                proof {
                    assert(digits_value(p) > usize::MAX);
                    assert(count_value(d) is None);
                }
                return None;
            },
            Some(v) => {
                acc = v;
            },
        }
        i = i + 1;
    }
    assert(t@.subrange(start as int, e as int) =~= body);
    Some(acc)
}

/// The bytes that open the header line: "NUMPOLLIES ".
pub open spec fn header_prefix() -> Seq<u8> {
    seq![0x4e, 0x55, 0x4d, 0x50, 0x4f, 0x4c, 0x4c, 0x49, 0x45, 0x53, 0x20]
}

/// Whether the line from `s` to `e` opens with the header prefix.
pub open spec fn has_header(t: Seq<u8>, s: int, e: int) -> bool {
    e - s >= 11 && t.subrange(s, s + 11) == header_prefix()
}

fn starts_with_header(t: &[u8], s: usize, e: usize) -> (r: bool)
    requires
        s <= e <= t@.len(),
    ensures
        r == has_header(t@, s as int, e as int),
{
    if e - s < 11 {
        return false;
    }
    let h: Vec<u8> = vec![0x4e, 0x55, 0x4d, 0x50, 0x4f, 0x4c, 0x4c, 0x49, 0x45, 0x53, 0x20];
    assert(h@ =~= header_prefix());
    let mut k: usize = 0;
    while k < 11
        invariant
            k <= 11,
            s + 11 <= e <= t@.len(),
            h@ == header_prefix(),
            forall|j: int| 0 <= j < k ==> #[trigger] t@[s + j] == h@[j],
        decreases 11 - k,
    {
        if t[s + k] != h[k] {
            assert(t@.subrange(s as int, s + 11)[k as int] != header_prefix()[k as int]);
            return false;
        }
        k = k + 1;
    }
    assert forall|j: int| 0 <= j < 11 implies #[trigger] t@.subrange(s as int, s + 11)[j] == header_prefix()[j] by {
        assert(t@.subrange(s as int, s + 11)[j] == t@[s + j]);
    }
    assert(t@.subrange(s as int, s + 11) =~= header_prefix());
    true
}

/// Why a world text is refused.
#[derive(Clone, Copy, Debug, PartialEq, Eq, Structural)]
pub enum WorldError {
    /// No line counts.
    Empty,
    /// The first line that counts is not a header.
    MissingHeader,
    /// The header's count is not a number that fits.
    InvalidCount,
}

pub open spec fn world_error_text(e: WorldError) -> Seq<char> {
    match e {
        WorldError::Empty => "Empty world text file"@,
        WorldError::MissingHeader => "World file didn't start with NUMPOLLIES"@,
        WorldError::InvalidCount => "Invalid NUMPOLLIES definition"@,
    }
}

impl WorldError {
    pub fn message(&self) -> (r: &'static str)
        ensures
            r@ == world_error_text(*self),
    {
        match self {
            WorldError::Empty => "Empty world text file",
            WorldError::MissingHeader => "World file didn't start with NUMPOLLIES",
            WorldError::InvalidCount => "Invalid NUMPOLLIES definition",
        }
    }

    /// The framework error for this refusal.
    pub fn to_error(&self) -> (r: NeHeError)
        ensures
            r matches NeHeError::Fatal(m) && m@ == world_error_text(*self),
    {
        NeHeError::Fatal(self.message())
    }
}

/// How many vertex lines a header of `n` triangles takes when `available`
/// lines follow it: three per triangle, or all there are.
pub open spec fn vertex_line_count(n: nat, available: int) -> int {
    if 3 * n <= available {
        (3 * n) as int
    } else {
        available
    }
}

/// What a world text holds: after the header "NUMPOLLIES n", the words of
/// the vertex lines that the header claims, or why the text is refused.
pub open spec fn world_outcome(t: Seq<u8>) -> Result<(nat, Seq<Seq<(int, int)>>), WorldError> {
    let lines = content_lines(t);
    if lines.len() == 0 {
        Err(WorldError::Empty)
    } else if !has_header(t, lines[0].0, lines[0].1) {
        Err(WorldError::MissingHeader)
    } else {
        match count_value(t.subrange(lines[0].0 + 11, lines[0].1)) {
            None => Err(WorldError::InvalidCount),
            Some(n) => Ok(
                (
                    n,
                    Seq::new(
                        vertex_line_count(n, lines.len() - 1) as nat,
                        |j: int| first_words(t, lines[j + 1].0, lines[j + 1].1),
                    ),
                ),
            ),
        }
    }
}

/// A world text laid out: the triangle count of its header, and for each
/// vertex line the spans of its first five words (x, y, z, u, v).
pub struct WorldLayout {
    pub triangles: usize,
    pub vertices: Vec<Vec<(usize, usize)>>,
}

/// Lays out a world text. Blank lines and lines that start with '/' are
/// skipped; the first other line is the header "NUMPOLLIES n", and the next
/// `3 * n` lines, or as many as there are, hold one vertex each.
pub fn parse_world(t: &[u8]) -> (r: Result<WorldLayout, WorldError>)
    ensures
        world_outcome(t@) matches Err(e) ==> r matches Err(x) && x == e,
        world_outcome(t@) matches Ok(w) ==> r matches Ok(l) && l.triangles == w.0
            && l.vertices@.len() == w.1.len() && forall|j: int|
            0 <= j < w.1.len() ==> spans_view(#[trigger] l.vertices@[j]@) == w.1[j],
{
    let lines = content_line_spans(t);
    let ghost sl = content_lines(t@);
    proof {
        assert(forall|j: int| 0 <= j < lines@.len() ==> #[trigger] sl[j] == (lines@[j].0 as int, lines@[j].1 as int)) by {
            assert(spans_view(lines@) == sl);
        }
    }
    if lines.len() == 0 {
        return Err(WorldError::Empty);
    }
    let (s, c) = lines[0];
    assert(sl[0] == (s as int, c as int));
    if !starts_with_header(t, s, c) {
        return Err(WorldError::MissingHeader);
    }
    let n = match parse_count(t, s + 11, c) {
        None => {
            return Err(WorldError::InvalidCount);
        },
        Some(n) => n,
    };
    let available = lines.len() - 1;
    let k = if n <= available / 3 {
        3 * n
    } else {
        available
    };
    assert(k as int == vertex_line_count(n as nat, sl.len() - 1));
    let ghost want = Seq::new(
        k as nat,
        |j: int| first_words(t@, sl[j + 1].0, sl[j + 1].1),
    );
    let mut vertices: Vec<Vec<(usize, usize)>> = Vec::new();
    let mut j: usize = 0;
    while j < k
        invariant
            j <= k <= available == lines@.len() - 1,
            spans_within(lines@, t@.len() as int),
            forall|i: int| 0 <= i < lines@.len() ==> #[trigger] sl[i] == (lines@[i].0 as int, lines@[i].1 as int),
            want.len() == k,
            forall|i: int| 0 <= i < k ==> #[trigger] want[i] == first_words(t@, sl[i + 1].0, sl[i + 1].1),
            vertices@.len() == j,
            forall|i: int| 0 <= i < j ==> spans_view(#[trigger] vertices@[i]@) == want[i],
        decreases k - j,
    {
        let (ls, le) = lines[j + 1];
        assert(lines@[j + 1].0 < lines@[j + 1].1 <= t@.len());
        let w = line_words(t, ls, le);
        vertices.push(w);
        j = j + 1;
    }
    Ok(WorldLayout { triangles: n, vertices })
}

} // verus!
