//! Reply-fallback stripping: a reply's plain-text body carries the quoted
//! original as leading lines starting with `>`, optionally followed by one
//! blank line. The stripped body is the remaining lines joined by
//! newlines, unless only whitespace would remain, in which case the body
//! stands as it is. A line ends at a newline; a carriage return directly
//! before the newline belongs to the line ending, and a final line ending
//! is optional. Also here: trimming whitespace off both ends of a text.

use vstd::prelude::*;

use crate::util::chars_of;
use crate::util::push_char;

verus! {

/// Whitespace inside one line (a newline ends the line instead).
pub open spec fn is_blank_char(c: char) -> bool {
    c == ' ' || c == '\t' || c == '\r'
}

/// Whitespace anywhere, newlines included.
pub open spec fn is_space_char(c: char) -> bool {
    is_blank_char(c) || c == '\n'
}

/// Whether the text holds nothing but whitespace.
pub open spec fn spec_all_space(s: Seq<char>) -> bool {
    forall|i: int| 0 <= i < s.len() ==> is_space_char(#[trigger] s[i])
}

/// Where the first line ends: the offset of the first newline, or the
/// whole length when there is none.
pub open spec fn spec_line_break(s: Seq<char>) -> nat
    decreases s.len(),
{
    if s.len() == 0 {
        0
    } else if s[0] == '\n' {
        0
    } else {
        1 + spec_line_break(s.skip(1))
    }
}

/// A line with the carriage return of its line ending dropped.
pub open spec fn spec_chop_cr(l: Seq<char>) -> Seq<char> {
    if l.len() > 0 && l.last() == '\r' {
        l.drop_last()
    } else {
        l
    }
}

/// The lines of a text: split at newlines, each without its line ending
/// (a carriage return directly before the newline included); a final line
/// ending opens no further line, and a last line without one is kept
/// whole.
pub open spec fn spec_lines(s: Seq<char>) -> Seq<Seq<char>>
    decreases s.len(),
{
    if s.len() == 0 {
        Seq::empty()
    } else {
        let e = spec_line_break(s);
        if e < s.len() {
            seq![spec_chop_cr(s.take(e as int))] + spec_lines(s.skip((e + 1) as int))
        } else {
            seq![s]
        }
    }
}

/// How many leading lines start with the quote mark.
pub open spec fn spec_quoted_lines(ls: Seq<Seq<char>>) -> nat
    decreases ls.len(),
{
    if ls.len() > 0 && ls[0].len() > 0 && ls[0][0] == '>' {
        1 + spec_quoted_lines(ls.drop_first())
    } else {
        0
    }
}

/// The index of the first kept line: past the quoted block and, when a
/// quoted block was consumed, past one following whitespace-only line.
pub open spec fn spec_strip_start(ls: Seq<Seq<char>>) -> nat {
    let q = spec_quoted_lines(ls);
    if q > 0 && q < ls.len() && spec_all_space(ls[q as int]) {
        (q + 1) as nat
    } else {
        q
    }
}

/// Lines joined by newlines, with no line ending after the last.
pub open spec fn spec_join_lines(ls: Seq<Seq<char>>) -> Seq<char>
    decreases ls.len(),
{
    if ls.len() == 0 {
        Seq::empty()
    } else if ls.len() == 1 {
        ls[0]
    } else {
        ls[0] + seq!['\n'] + spec_join_lines(ls.drop_first())
    }
}

/// The stripped body: the kept lines joined by newlines, unless only
/// whitespace would remain, in which case the whole body stands.
pub open spec fn spec_strip_reply(s: Seq<char>) -> Seq<char> {
    let ls = spec_lines(s);
    let kept = spec_join_lines(ls.skip(spec_strip_start(ls) as int));
    if spec_all_space(kept) {
        s
    } else {
        kept
    }
}

/// The absolute position where the line starting at `i` ends: the first
/// newline at or past `i`, or the length.
fn line_break_at(v: &Vec<char>, i: usize) -> (e: usize)
    requires
        i <= v.len(),
    ensures
        i <= e <= v.len(),
        e - i == spec_line_break(v@.skip(i as int)),
    decreases v.len() - i,
{
    if i == v.len() {
        i
    } else if v[i] == '\n' {
        proof {
            assert(v@.skip(i as int)[0] == v@[i as int]);
        }
        i
    } else {
        proof {
            assert(v@.skip(i as int)[0] == v@[i as int]);
            assert(v@.skip(i as int).skip(1) =~= v@.skip(i + 1));
        }
        line_break_at(v, i + 1)
    }
}

/// The lines of the characters from position `i` on, each given as the
/// bounds of its content within the characters.
fn line_spans_from(v: &Vec<char>, i: usize) -> (spans: Vec<(usize, usize)>)
    requires
        i <= v.len(),
    ensures
        spans@.len() == spec_lines(v@.skip(i as int)).len(),
        forall|k: int|
            0 <= k < spans@.len() ==> {
                &&& i <= (#[trigger] spans@[k]).0
                &&& spans@[k].0 <= spans@[k].1 <= v@.len()
                &&& v@.subrange(spans@[k].0 as int, spans@[k].1 as int) == spec_lines(
                    v@.skip(i as int),
                )[k]
            },
    decreases v.len() - i,
{
    let ghost s = v@.skip(i as int);
    if i == v.len() {
        proof {
            assert(s =~= Seq::<char>::empty());
        }
        Vec::new()
    } else {
        let e = line_break_at(v, i);
        if e < v.len() {
            proof {
                assert(s.take(e - i) =~= v@.subrange(i as int, e as int));
                assert(s.skip((e - i) + 1) =~= v@.skip(e + 1));
            }
            let head_end: usize = if e > i && v[e - 1] == '\r' {
                proof {
                    assert(s.take(e - i).last() == v@[e - 1]);
                    assert(s.take(e - i).drop_last() =~= v@.subrange(i as int, e - 1));
                }
                e - 1
            } else {
                proof {
                    if e > i {
                        assert(s.take(e - i).last() == v@[e - 1]);
                    }
                }
                e
            };
            proof {
                assert(v@.subrange(i as int, head_end as int) == spec_chop_cr(s.take(e - i)));
            }
            let rest = line_spans_from(v, e + 1);
            let ghost rest_view = rest@;
            let mut spans: Vec<(usize, usize)> = Vec::new();
            spans.push((i, head_end));
            let mut rest = rest;
            spans.append(&mut rest);
            proof {
                assert(spec_lines(s) == seq![spec_chop_cr(s.take(e - i))] + spec_lines(
                    v@.skip(e + 1),
                ));
                assert(spans@ =~= seq![(i, head_end)] + rest_view);
                assert forall|k: int| 0 <= k < spans@.len() implies {
                    &&& i <= (#[trigger] spans@[k]).0
                    &&& spans@[k].0 <= spans@[k].1 <= v@.len()
                    &&& v@.subrange(spans@[k].0 as int, spans@[k].1 as int) == spec_lines(s)[k]
                } by {
                    if k == 0 {
                        assert(spans@[0] == (i, head_end));
                        assert(spec_lines(s)[0] == spec_chop_cr(s.take(e - i)));
                    } else {
                        assert(spans@[k] == rest_view[k - 1]);
                        assert(spec_lines(s)[k] == spec_lines(v@.skip(e + 1))[k - 1]);
                    }
                }
            }
            spans
        } else {
            proof {
                assert(s.take(e - i) =~= s);
                assert(v@.subrange(i as int, e as int) =~= s);
                assert(spec_lines(s) == seq![s]);
            }
            let mut spans: Vec<(usize, usize)> = Vec::new();
            spans.push((i, e));
            proof {
                assert(spans@[0] == (i, e));
                assert(spec_lines(s)[0] == s);
            }
            spans
        }
    }
}

/// Whether everything in `[a, b)` is whitespace.
fn span_all_space(v: &Vec<char>, a: usize, b: usize) -> (r: bool)
    requires
        a <= b <= v.len(),
    ensures
        r == spec_all_space(v@.subrange(a as int, b as int)),
{
    let ghost piece = v@.subrange(a as int, b as int);
    let mut k: usize = a;
    while k < b
        invariant
            a <= k <= b <= v.len(),
            piece == v@.subrange(a as int, b as int),
            forall|j: int| 0 <= j < k - a ==> is_space_char(#[trigger] piece[j]),
        decreases b - k,
    {
        let c = v[k];
        proof {
            assert(piece[k - a] == v@[k as int]);
        }
        if !(c == ' ' || c == '\t' || c == '\r' || c == '\n') {
            return false;
        }
        k = k + 1;
    }
    true
}

/// Appends the characters in `[a, b)` to the text.
fn push_span(out: &mut String, v: &Vec<char>, a: usize, b: usize)
    requires
        a <= b <= v.len(),
    ensures
        final(out)@ == old(out)@ + v@.subrange(a as int, b as int),
{
    let mut k: usize = a;
    proof {
        assert(out@ =~= old(out)@ + v@.subrange(a as int, a as int));
    }
    while k < b
        invariant
            a <= k <= b <= v.len(),
            out@ =~= old(out)@ + v@.subrange(a as int, k as int),
        decreases b - k,
    {
        push_char(out, v[k]);
        proof {
            assert(v@.subrange(a as int, k + 1) =~= v@.subrange(a as int, k as int).push(
                v@[k as int],
            ));
        }
        k = k + 1;
    }
}

/// Joining a line range one line further: one line alone joins to itself;
/// a longer range gains a newline and the new line at the end.
proof fn lemma_join_extend(ls: Seq<Seq<char>>, lo: int, k: int)
    requires
        0 <= lo <= k < ls.len(),
    ensures
        k == lo ==> spec_join_lines(ls.subrange(lo, k + 1)) == ls[lo],
        k > lo ==> spec_join_lines(ls.subrange(lo, k + 1)) == spec_join_lines(
            ls.subrange(lo, k),
        ) + seq!['\n'] + ls[k],
    decreases k - lo,
{
    if k == lo {
        assert(ls.subrange(lo, lo + 1) =~= seq![ls[lo]]);
        assert(spec_join_lines(seq![ls[lo]]) == ls[lo]);
    } else {
        lemma_join_extend(ls, lo + 1, k);
        let a = ls.subrange(lo, k + 1);
        assert(a.drop_first() =~= ls.subrange(lo + 1, k + 1));
        assert(a[0] == ls[lo]);
        assert(spec_join_lines(a) == ls[lo] + seq!['\n'] + spec_join_lines(
            ls.subrange(lo + 1, k + 1),
        ));
        if k == lo + 1 {
            assert(spec_join_lines(ls.subrange(lo + 1, k + 1)) == ls[k]);
            assert(ls.subrange(lo, k) =~= seq![ls[lo]]);
            assert(spec_join_lines(ls.subrange(lo, k)) == ls[lo]);
        } else {
            let b = ls.subrange(lo, k);
            assert(b.drop_first() =~= ls.subrange(lo + 1, k));
            assert(b[0] == ls[lo]);
            assert(spec_join_lines(b) == ls[lo] + seq!['\n'] + spec_join_lines(
                ls.subrange(lo + 1, k),
            ));
            assert(ls[lo] + seq!['\n'] + (spec_join_lines(ls.subrange(lo + 1, k)) + seq!['\n']
                + ls[k]) =~= (ls[lo] + seq!['\n'] + spec_join_lines(ls.subrange(lo + 1, k)))
                + seq!['\n'] + ls[k]);
        }
    }
}

/// Strips the reply-fallback quote block off a plain-text body: the
/// leading `>` lines go, one following blank line goes with them, and the
/// remaining lines come back joined by newlines; a body that would be left
/// all-whitespace stands whole.
pub fn strip_reply_fallback(body: &str) -> (r: String)
    ensures
        r@ == spec_strip_reply(body@),
{
    let v = chars_of(body);
    proof {
        assert(v@.skip(0) =~= v@);
    }
    let spans = line_spans_from(&v, 0);
    let ghost ls = spec_lines(v@);
    let m: usize = spans.len();

    // Count the leading quoted lines.
    let mut q: usize = 0;
    proof {
        assert(ls.skip(0) =~= ls);
    }
    while q < m && spans[q].1 > spans[q].0 && v[spans[q].0] == '>'
        invariant
            v@ == body@,
            ls == spec_lines(v@),
            m == spans.len(),
            m == ls.len(),
            forall|k: int|
                0 <= k < spans@.len() ==> {
                    &&& (#[trigger] spans@[k]).0 <= spans@[k].1 <= v@.len()
                    &&& v@.subrange(spans@[k].0 as int, spans@[k].1 as int) == ls[k]
                },
            q <= m,
            spec_quoted_lines(ls) == q + spec_quoted_lines(ls.skip(q as int)),
        decreases m - q,
    {
        proof {
            assert(ls[q as int] == v@.subrange(
                spans@[q as int].0 as int,
                spans@[q as int].1 as int,
            ));
            assert(ls[q as int].len() > 0);
            assert(ls[q as int][0] == v@[spans@[q as int].0 as int]);
            assert(ls.skip(q as int)[0] == ls[q as int]);
            assert(ls.skip(q as int).drop_first() =~= ls.skip(q + 1));
        }
        q = q + 1;
    }
    proof {
        if q < m {
            assert(ls[q as int] == v@.subrange(
                spans@[q as int].0 as int,
                spans@[q as int].1 as int,
            ));
            assert(ls.skip(q as int)[0] == ls[q as int]);
            if spans@[q as int].1 > spans@[q as int].0 {
                assert(ls[q as int][0] == v@[spans@[q as int].0 as int]);
            }
            assert(spec_quoted_lines(ls.skip(q as int)) == 0);
        } else {
            assert(ls.skip(q as int) =~= Seq::<Seq<char>>::empty());
        }
        assert(spec_quoted_lines(ls) == q);
    }

    // Skip one blank line after a consumed quote block.
    let start: usize = if q > 0 && q < m && span_all_space(&v, spans[q].0, spans[q].1) {
        q + 1
    } else {
        q
    };
    proof {
        assert(start as nat == spec_strip_start(ls));
        assert(start <= m);
    }

    // Join the kept lines.
    let mut out = String::new();
    let mut k: usize = start;
    while k < m
        invariant
            v@ == body@,
            ls == spec_lines(v@),
            m == spans.len(),
            m == ls.len(),
            forall|w: int|
                0 <= w < spans@.len() ==> {
                    &&& (#[trigger] spans@[w]).0 <= spans@[w].1 <= v@.len()
                    &&& v@.subrange(spans@[w].0 as int, spans@[w].1 as int) == ls[w]
                },
            start <= k <= m,
            k == start ==> out@ == Seq::<char>::empty(),
            k > start ==> out@ == spec_join_lines(ls.subrange(start as int, k as int)),
        decreases m - k,
    {
        let ghost prev = out@;
        if k > start {
            push_char(&mut out, '\n');
        }
        push_span(&mut out, &v, spans[k].0, spans[k].1);
        proof {
            lemma_join_extend(ls, start as int, k as int);
            assert(v@.subrange(spans@[k as int].0 as int, spans@[k as int].1 as int) == ls[
                k as int]);
            if k == start {
                assert(out@ =~= ls[k as int]);
            } else {
                assert(out@ =~= prev.push('\n') + ls[k as int]);
                assert(prev.push('\n') + ls[k as int] =~= prev + seq!['\n'] + ls[k as int]);
            }
        }
        k = k + 1;
    }
    proof {
        if m > start {
            assert(ls.subrange(start as int, m as int) =~= ls.skip(start as int));
        } else {
            assert(ls.skip(start as int) =~= Seq::<Seq<char>>::empty());
        }
        assert(out@ == spec_join_lines(ls.skip(start as int)));
    }

    if crate::render::str_all_space(out.as_str()) {
        return body.to_owned();
    }
    out
}

/// The text with leading whitespace dropped.
pub open spec fn spec_ltrim_space(s: Seq<char>) -> Seq<char>
    decreases s.len(),
{
    if s.len() > 0 && is_space_char(s[0]) {
        spec_ltrim_space(s.skip(1))
    } else {
        s
    }
}

/// The text with trailing whitespace dropped.
pub open spec fn spec_rtrim_space(s: Seq<char>) -> Seq<char>
    decreases s.len(),
{
    if s.len() > 0 && is_space_char(s.last()) {
        spec_rtrim_space(s.drop_last())
    } else {
        s
    }
}

/// The text with whitespace dropped from both ends.
pub open spec fn spec_trim_space(s: Seq<char>) -> Seq<char> {
    spec_rtrim_space(spec_ltrim_space(s))
}

/// Trimming whitespace from both ends of a text whose whitespace sits
/// exactly outside `[lo, hi)` yields that subrange, provided its edges are
/// not whitespace.
proof fn lemma_trim_space_is_subrange(s: Seq<char>, lo: int, hi: int)
    requires
        0 <= lo <= hi <= s.len(),
        forall|j: int| 0 <= j < lo ==> is_space_char(#[trigger] s[j]),
        forall|j: int| hi <= j < s.len() ==> is_space_char(#[trigger] s[j]),
        lo < hi ==> !is_space_char(s[lo]) && !is_space_char(s[hi - 1]),
        lo == hi ==> lo == s.len(),
    ensures
        lo < hi ==> spec_trim_space(s) == s.subrange(lo, hi),
        lo == hi ==> spec_trim_space(s) == Seq::<char>::empty(),
{
    if lo < hi {
        lemma_ltrim_space(s, lo);
        lemma_rtrim_space(s.skip(lo), hi - lo);
        assert(s.skip(lo).take(hi - lo) =~= s.subrange(lo, hi));
    } else {
        lemma_ltrim_space_all(s);
        assert(spec_ltrim_space(s) =~= Seq::<char>::empty());
    }
}

/// Trimming the front stops exactly at the first non-whitespace.
proof fn lemma_ltrim_space(s: Seq<char>, lo: int)
    requires
        0 <= lo < s.len(),
        forall|j: int| 0 <= j < lo ==> is_space_char(#[trigger] s[j]),
        !is_space_char(s[lo]),
    ensures
        spec_ltrim_space(s) == s.skip(lo),
    decreases lo,
{
    if lo == 0 {
        assert(s.skip(0) =~= s);
    } else {
        lemma_ltrim_space(s.skip(1), lo - 1);
        assert(s.skip(1).skip(lo - 1) =~= s.skip(lo));
    }
}

/// Trimming the front of an all-whitespace text leaves nothing.
proof fn lemma_ltrim_space_all(s: Seq<char>)
    requires
        forall|j: int| 0 <= j < s.len() ==> is_space_char(#[trigger] s[j]),
    ensures
        spec_ltrim_space(s).len() == 0,
    decreases s.len(),
{
    if s.len() > 0 {
        lemma_ltrim_space_all(s.skip(1));
    }
}

/// Trimming the back stops exactly at the last non-whitespace.
proof fn lemma_rtrim_space(s: Seq<char>, hi: int)
    requires
        0 < hi <= s.len(),
        forall|j: int| hi <= j < s.len() ==> is_space_char(#[trigger] s[j]),
        !is_space_char(s[hi - 1]),
    ensures
        spec_rtrim_space(s) == s.take(hi),
    decreases s.len(),
{
    if hi == s.len() {
        assert(s.take(hi) =~= s);
    } else {
        lemma_rtrim_space(s.drop_last(), hi);
        assert(s.drop_last().take(hi) =~= s.take(hi));
    }
}

/// Drops whitespace from both ends of a text.
pub fn trim_spaces(s: &str) -> (r: String)
    ensures
        r@ == spec_trim_space(s@),
{
    let v = chars_of(s);
    let n: usize = v.len();
    let mut lo: usize = 0;
    while lo < n && (v[lo] == ' ' || v[lo] == '\t' || v[lo] == '\r' || v[lo] == '\n')
        invariant
            n == v.len(),
            v@ == s@,
            lo <= n,
            forall|j: int| 0 <= j < lo ==> is_space_char(#[trigger] v@[j]),
        decreases n - lo,
    {
        lo = lo + 1;
    }
    let mut hi: usize = n;
    while hi > lo && (v[hi - 1] == ' ' || v[hi - 1] == '\t' || v[hi - 1] == '\r' || v[hi - 1]
        == '\n')
        invariant
            n == v.len(),
            v@ == s@,
            lo <= hi <= n,
            lo < n ==> !is_space_char(v@[lo as int]),
            forall|j: int| hi <= j < n ==> is_space_char(#[trigger] v@[j]),
        decreases hi,
    {
        hi = hi - 1;
    }
    let mut out = String::new();
    push_span(&mut out, &v, lo, hi);
    proof {
        assert(out@ =~= v@.subrange(lo as int, hi as int));
        lemma_trim_space_is_subrange(s@, lo as int, hi as int);
    }
    out
}

} // verus!
