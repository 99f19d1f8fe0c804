//! Cutting a text into overlapping chunks of lines.
use vstd::prelude::*;

use crate::statement::texts;
use crate::text::{blank, chars_of, lemma_trimmed_ends, text_of, trim};

verus! {

/// The place of the first line feed at or after `from`, or the length.
pub open spec fn line_end(s: Seq<char>, from: int) -> int
    decreases s.len() - from,
{
    if from >= s.len() || s[from] == '\n' {
        from
    } else {
        line_end(s, from + 1)
    }
}

proof fn lemma_line_end(s: Seq<char>, from: int)
    requires
        0 <= from <= s.len(),
    ensures
        from <= line_end(s, from) <= s.len(),
        line_end(s, from) < s.len() ==> s[line_end(s, from)] == '\n',
    decreases s.len() - from,
{
    if from < s.len() && s[from] != '\n' {
        lemma_line_end(s, from + 1);
    }
}

/// The text of a line that ends at `end`: without the carriage return before
/// a line feed.
pub open spec fn line_text(s: Seq<char>, from: int, end: int) -> Seq<char> {
    if end < s.len() && end > from && s[end - 1] == '\r' {
        s.subrange(from, end - 1)
    } else {
        s.subrange(from, end)
    }
}

/// The lines of a text from `from` on: each ends with a line feed or at the
/// end of the text, and nothing follows a last line feed.
pub open spec fn lines_from(s: Seq<char>, from: int) -> Seq<Seq<char>>
    decreases s.len() - from,
    when 0 <= from <= s.len()
    via lines_from_decreases
{
    if from >= s.len() {
        Seq::empty()
    } else {
        let end = line_end(s, from);
        Seq::empty().push(line_text(s, from, end)) + (if end < s.len() {
            lines_from(s, end + 1)
        } else {
            Seq::empty()
        })
    }
}

#[via_fn]
proof fn lines_from_decreases(s: Seq<char>, from: int) {
    lemma_line_end(s, from);
}

/// The lines of a text.
pub open spec fn lines(s: Seq<char>) -> Seq<Seq<char>> {
    lines_from(s, 0)
}

/// Splits a text into its lines.
fn split_lines(content: &str) -> (r: Vec<String>)
    ensures
        texts(r@) == lines(content@),
{
    let s: Vec<char> = chars_of(content);
    let mut out: Vec<String> = Vec::new();
    let mut from: usize = 0;
    assert(texts(out@) + lines_from(s@, 0) =~= lines(s@));
    while from < s.len()
        invariant
            from <= s.len(),
            s@ == content@,
            texts(out@) + lines_from(s@, from as int) == lines(s@),
        decreases s.len() - from,
    {
        proof {
            lemma_line_end(s@, from as int);
        }
        let mut end: usize = from;
        while end < s.len() && s[end] != '\n'
            invariant
                from <= end <= s.len(),
                line_end(s@, from as int) == line_end(s@, end as int),
            decreases s.len() - end,
        {
            end = end + 1;
        }
        let stop: usize = if end < s.len() && end > from && s[end - 1] == '\r' {
            end - 1
        } else {
            end
        };
        let line = text_of(&s, from, stop);
        let ghost before = texts(out@);
        let ghost after = if end < s@.len() {
            lines_from(s@, end + 1)
        } else {
            Seq::empty()
        };
        out.push(line);
        assert(texts(out@) =~= before.push(line@));
        assert(lines_from(s@, from as int) == Seq::empty().push(line@) + after);
        assert(before + (Seq::empty().push(line@) + after) =~= before.push(line@) + after);
        if end < s.len() {
            from = end + 1;
        } else {
            from = end;
        }
    }
    assert(lines_from(s@, from as int) =~= Seq::<Seq<char>>::empty());
    assert(texts(out@) =~= lines(s@));
    out
}

/// The lines from `start` to `end`, joined by line feeds.
pub open spec fn joined_lines(l: Seq<Seq<char>>, start: int, end: int) -> Seq<char>
    decreases end - start,
{
    if end <= start {
        Seq::empty()
    } else if end == start + 1 {
        l[start]
    } else {
        joined_lines(l, start, end - 1).push('\n') + l[end - 1]
    }
}

fn join_lines(l: &Vec<String>, start: usize, end: usize) -> (r: String)
    requires
        start < end <= l.len(),
    ensures
        r@ == joined_lines(texts(l@), start as int, end as int),
{
    let mut m = String::from_str(l[start].as_str());
    let mut i: usize = start + 1;
    assert(texts(l@)[start as int] == l@[start as int]@);
    while i < end
        invariant
            start < i <= end <= l.len(),
            m@ == joined_lines(texts(l@), start as int, i as int),
        decreases end - i,
    {
        m.push('\n');
        m.append(l[i].as_str());
        assert(texts(l@)[i as int] == l@[i as int]@);
        i = i + 1;
    }
    m
}

/// The stretches of lines that chunks are made of, from `start` on: `size`
/// lines each, `step` lines apart, the last one up to the end.
pub open spec fn spans(n: int, size: int, step: int, start: int) -> Seq<(int, int)>
    decreases
        (if n > start {
            n - start
        } else {
            0
        }),
{
    if start >= n || size < 1 || step < 1 {
        Seq::empty()
    } else if start + size >= n {
        Seq::empty().push((start, n))
    } else {
        Seq::empty().push((start, start + size)) + spans(n, size, step, start + step)
    }
}

/// How many lines a chunk has: at least one.
pub open spec fn chunk_size(chunk_size_lines: int) -> int {
    if chunk_size_lines < 1 {
        1
    } else {
        chunk_size_lines
    }
}

/// How far apart chunks start: what a chunk has beyond the overlap, at least
/// one line.
pub open spec fn chunk_step(size: int, overlap_lines: int) -> int {
    if overlap_lines >= size {
        1
    } else {
        size - overlap_lines
    }
}

/// Every line is in a stretch.
pub proof fn law_spans_cover_all_lines(n: int, size: int, step: int, start: int, line: int)
    requires
        1 <= step <= size,
        0 <= start <= line < n,
    ensures
        exists|i: int|
            0 <= i < spans(n, size, step, start).len() && (#[trigger] spans(
                n,
                size,
                step,
                start,
            )[i]).0 <= line < spans(n, size, step, start)[i].1,
    decreases n - start,
{
    let all = spans(n, size, step, start);
    if start + size >= n {
        assert(all[0] == (start, n));
    } else if line < start + size {
        assert(all[0] == (start, start + size));
    } else {
        law_spans_cover_all_lines(n, size, step, start + step, line);
        let rest = spans(n, size, step, start + step);
        let i = choose|i: int|
            0 <= i < rest.len() && (#[trigger] rest[i]).0 <= line < rest[i].1;
        assert(all[i + 1] == rest[i]);
    }
}

/// The stretches are in order, none is empty, each starts `step` lines after
/// the one before, and all but the last have exactly `size` lines; so two
/// neighbours share `size - step` lines.
pub proof fn law_spans_are_regular(n: int, size: int, step: int, start: int)
    requires
        1 <= step <= size,
        0 <= start,
    ensures
        forall|i: int|
            0 <= i < spans(n, size, step, start).len() ==> (#[trigger] spans(
                n,
                size,
                step,
                start,
            )[i]).0 == start + i * step && spans(n, size, step, start)[i].0 < spans(
                n,
                size,
                step,
                start,
            )[i].1 <= n && spans(n, size, step, start)[i].1 - spans(n, size, step, start)[i].0
                <= size && (i + 1 < spans(n, size, step, start).len() ==> spans(
                n,
                size,
                step,
                start,
            )[i].1 - spans(n, size, step, start)[i].0 == size),
    decreases n - start,
{
    if start < n && start + size < n {
        law_spans_are_regular(n, size, step, start + step);
        let all = spans(n, size, step, start);
        let rest = spans(n, size, step, start + step);
        assert forall|i: int| 0 <= i < all.len() implies (#[trigger] all[i]).0 == start + i * step
            && all[i].0 < all[i].1 <= n && all[i].1 - all[i].0 <= size && (i + 1 < all.len()
            ==> all[i].1 - all[i].0 == size) by {
            if i > 0 {
                assert(all[i] == rest[i - 1]);
                assert(rest[i - 1].0 == start + step + (i - 1) * step);
                assert(start + step + (i - 1) * step == start + i * step) by (nonlinear_arith);
            } else {
                assert(0 * step == 0) by (nonlinear_arith);
            }
        }
    } else {
        assert(0 * step == 0) by (nonlinear_arith);
    }
}

/// A chunk: the numbers of its first and last line, from one on, and its text.
pub struct LineChunk {
    pub first: i32,
    pub last: i32,
    pub text: Seq<char>,
}

/// The chunks that stretches of lines make; one that is blank is left out.
pub open spec fn chunks_of(l: Seq<Seq<char>>, spans: Seq<(int, int)>) -> Seq<LineChunk>
    decreases spans.len(),
{
    if spans.len() == 0 {
        Seq::empty()
    } else {
        let before = chunks_of(l, spans.drop_last());
        let (start, end) = spans.last();
        let text = joined_lines(l, start, end);
        if blank(text) {
            before
        } else {
            before.push(LineChunk { first: (start + 1) as i32, last: end as i32, text })
        }
    }
}

/// The chunks of a text.
pub open spec fn text_chunks(
    content: Seq<char>,
    chunk_size_lines: int,
    overlap_lines: int,
) -> Seq<LineChunk> {
    let l = lines(content);
    let size = chunk_size(chunk_size_lines);
    let step = chunk_step(size, overlap_lines);
    chunks_of(l, spans(l.len() as int, size, step, 0))
}

/// Every chunk holds the lines of a stretch, carries the numbers of its first
/// and last line, and is not blank.
pub proof fn law_chunks_hold_the_lines_they_name(l: Seq<Seq<char>>, spans: Seq<(int, int)>, k: int)
    requires
        0 <= k < chunks_of(l, spans).len(),
    ensures
        !blank(chunks_of(l, spans)[k].text),
        exists|j: int|
            0 <= j < spans.len() && chunks_of(l, spans)[k].text == joined_lines(
                l,
                (#[trigger] spans[j]).0,
                spans[j].1,
            ) && chunks_of(l, spans)[k].first == (spans[j].0 + 1) as i32 && chunks_of(
                l,
                spans,
            )[k].last == spans[j].1 as i32,
    decreases spans.len(),
{
    let rest = spans.drop_last();
    let n = spans.len() - 1;
    if k < chunks_of(l, rest).len() {
        law_chunks_hold_the_lines_they_name(l, rest, k);
        let j = choose|j: int|
            0 <= j < rest.len() && chunks_of(l, rest)[k].text == joined_lines(
                l,
                (#[trigger] rest[j]).0,
                rest[j].1,
            ) && chunks_of(l, rest)[k].first == (rest[j].0 + 1) as i32 && chunks_of(
                l,
                rest,
            )[k].last == rest[j].1 as i32;
        assert(spans[j] == rest[j]);
    } else {
        assert(spans[n] == spans.last());
    }
}

/// Only blank stretches are left out: every other one is a chunk.
pub proof fn law_only_blank_stretches_are_left_out(l: Seq<Seq<char>>, spans: Seq<(int, int)>, j: int)
    requires
        0 <= j < spans.len(),
        !blank(joined_lines(l, spans[j].0, spans[j].1)),
    ensures
        exists|k: int|
            0 <= k < chunks_of(l, spans).len() && (#[trigger] chunks_of(l, spans)[k]).text
                == joined_lines(l, spans[j].0, spans[j].1),
    decreases spans.len(),
{
    let rest = spans.drop_last();
    if j < rest.len() {
        assert(rest[j] == spans[j]);
        law_only_blank_stretches_are_left_out(l, rest, j);
        let k = choose|k: int|
            0 <= k < chunks_of(l, rest).len() && (#[trigger] chunks_of(l, rest)[k]).text
                == joined_lines(l, spans[j].0, spans[j].1);
        assert(chunks_of(l, spans)[k] == chunks_of(l, rest)[k]);
    } else {
        let k = chunks_of(l, rest).len() as int;
        assert(chunks_of(l, spans)[k].text == joined_lines(l, spans[j].0, spans[j].1));
    }
}

/// The chunks of a list.
pub open spec fn chunk_list(v: Seq<(i32, i32, String)>) -> Seq<LineChunk> {
    v.map_values(|c: (i32, i32, String)| LineChunk { first: c.0, last: c.1, text: c.2@ })
}

fn line_number(n: usize, plus: u8) -> (r: i32)
    ensures
        r == (n + plus) as i32,
{
    #[verifier::truncate]
    ((n as u128 + plus as u128) as i32)
}

/// Cuts a text into chunks of `chunk_size_lines` lines that overlap by
/// `overlap_lines` lines: the numbers of the first and last line and the text.
/// Blank chunks are left out.
pub fn chunk_text(content: &str, chunk_size_lines: usize, overlap_lines: usize) -> (r: Vec<
    (i32, i32, String),
>)
    ensures
        chunk_list(r@) == text_chunks(
            content@,
            chunk_size_lines as int,
            overlap_lines as int,
        ),
{
    let l: Vec<String> = split_lines(content);
    let ghost all = texts(l@);
    let ghost n = all.len() as int;
    let size: usize = if chunk_size_lines < 1 {
        1
    } else {
        chunk_size_lines
    };
    let step: usize = if overlap_lines >= size {
        1
    } else {
        size - overlap_lines
    };
    let mut out: Vec<(i32, i32, String)> = Vec::new();
    let mut start: usize = 0;
    let ghost mut done: Seq<(int, int)> = Seq::empty();
    let ghost whole = spans(n, size as int, step as int, 0);
    assert(done + whole =~= whole);
    assert(chunk_list(out@) =~= Seq::<LineChunk>::empty());
    while start < l.len()
        invariant
            all == texts(l@),
            n == l.len(),
            1 <= step <= size,
            whole == spans(n, size as int, step as int, 0),
            start < l.len() ==> whole == done + spans(n, size as int, step as int, start as int),
            start >= l.len() ==> whole == done,
            chunk_list(out@) == chunks_of(all, done),
        decreases l.len() - start,
    {
        let last: bool = size >= l.len() - start;
        let end: usize = if last {
            l.len()
        } else {
            start + size
        };
        let text = join_lines(&l, start, end);
        let kept = trim(text.as_str());
        let ghost before = chunk_list(out@);
        let ghost span = (start as int, end as int);
        proof {
            lemma_trimmed_ends(text@);
        }
        let ghost text_view = text@;
        if kept.unicode_len() > 0 {
            out.push((line_number(start, 1), line_number(end, 0), text));
            assert(chunk_list(out@) =~= before.push(
                LineChunk {
                    first: (start + 1) as i32,
                    last: end as i32,
                    text: text_view,
                },
            ));
        }
        let ghost rest = spans(n, size as int, step as int, start as int);
        assert(done.push(span).drop_last() =~= done);
        assert(chunk_list(out@) == chunks_of(all, done.push(span)));
        if last {
            assert(done + rest =~= done.push(span));
            proof {
                done = done.push(span);
            }
            start = l.len();
        } else {
            let ghost later = spans(n, size as int, step as int, start + step);
            assert(done + rest =~= done.push(span) + later);
            proof {
                done = done.push(span);
            }
            start = start + step;
        }
    }
    assert(start >= l.len());
    assert(whole =~= done);
    out
}

/// A text with a carriage return before each line feed.
pub open spec fn with_carriage_returns(s: Seq<char>) -> Seq<char>
    decreases s.len(),
{
    if s.len() == 0 {
        s
    } else if s[0] == '\n' {
        seq!['\r', '\n'] + with_carriage_returns(s.skip(1))
    } else {
        seq![s[0]] + with_carriage_returns(s.skip(1))
    }
}

proof fn lemma_line_end_is(s: Seq<char>, from: int, end: int)
    requires
        0 <= from <= end <= s.len(),
        forall|i: int| from <= i < end ==> s[i] != '\n',
        end < s.len() ==> s[end] == '\n',
    ensures
        line_end(s, from) == end,
    decreases end - from,
{
    if from < end {
        lemma_line_end_is(s, from + 1, end);
    }
}

proof fn lemma_no_feed_in_line(s: Seq<char>, from: int)
    requires
        0 <= from <= s.len(),
    ensures
        forall|i: int| from <= i < line_end(s, from) ==> s[i] != '\n',
    decreases s.len() - from,
{
    if from < s.len() && s[from] != '\n' {
        lemma_no_feed_in_line(s, from + 1);
    }
}

proof fn lemma_lines_of_rest(s: Seq<char>, k: int, from: int)
    requires
        0 <= k <= from <= s.len(),
    ensures
        lines_from(s, from) == lines_from(s.skip(k), from - k),
    decreases s.len() - from,
{
    let t = s.skip(k);
    if from < s.len() {
        let end = line_end(s, from);
        lemma_line_end(s, from);
        lemma_no_feed_in_line(s, from);
        lemma_line_end_is(t, from - k, end - k);
        assert(line_text(s, from, end) =~= line_text(t, from - k, end - k));
        if end < s.len() {
            lemma_lines_of_rest(s, k, end + 1);
        }
    }
}

/// The first line of a text and the lines of what follows it.
proof fn lemma_first_line(s: Seq<char>, end: int)
    requires
        0 <= end < s.len(),
        s[end] == '\n',
        forall|i: int| 0 <= i < end ==> s[i] != '\n',
    ensures
        lines(s) == Seq::empty().push(line_text(s, 0, end)) + lines(s.skip(end + 1)),
{
    lemma_line_end_is(s, 0, end);
    lemma_lines_of_rest(s, end + 1, end + 1);
}

proof fn lemma_final_feed(s: Seq<char>)
    requires
        s.len() > 0,
        s.last() != '\n',
        s.last() != '\r',
    ensures
        lines(s.push('\n')) == lines(s),
    decreases s.len(),
{
    let t = s.push('\n');
    let end = line_end(s, 0);
    lemma_line_end(s, 0);
    lemma_no_feed_in_line(s, 0);
    lemma_first_line(t, end);
    if end < s.len() {
        lemma_first_line(s, end);
        let rest = s.skip(end + 1);
        assert(t.skip(end + 1) =~= rest.push('\n'));
        lemma_final_feed(rest);
        assert(line_text(t, 0, end) =~= line_text(s, 0, end));
    } else {
        assert(t.skip(end + 1) =~= Seq::<char>::empty());
        assert(line_text(t, 0, end) =~= line_text(s, 0, end));
        assert(lines(t.skip(end + 1)) =~= Seq::<Seq<char>>::empty());
        assert(lines(t) =~= lines(s));
    }
}

proof fn lemma_first_carriage_return(s: Seq<char>, end: int)
    requires
        0 <= end <= s.len(),
        forall|i: int| 0 <= i < end ==> s[i] != '\n',
        end < s.len() ==> s[end] == '\n',
    ensures
        end == s.len() ==> with_carriage_returns(s) == s,
        end < s.len() ==> with_carriage_returns(s) == s.take(end) + seq!['\r', '\n']
            + with_carriage_returns(s.skip(end + 1)),
    decreases end,
{
    if end == 0 {
        if s.len() > 0 {
            assert(s.take(0) + seq!['\r', '\n'] =~= seq!['\r', '\n']);
        }
    } else {
        lemma_first_carriage_return(s.skip(1), end - 1);
        if end == s.len() {
            assert(seq![s[0]] + s.skip(1) =~= s);
        } else {
            assert(s.skip(1).skip(end) =~= s.skip(end + 1));
            assert(seq![s[0]] + (s.skip(1).take(end - 1) + seq!['\r', '\n']
                + with_carriage_returns(s.skip(end + 1))) =~= s.take(end) + seq!['\r', '\n']
                + with_carriage_returns(s.skip(end + 1)));
        }
    }
}

proof fn lemma_carriage_returns(s: Seq<char>)
    requires
        !s.contains('\r'),
    ensures
        lines(with_carriage_returns(s)) == lines(s),
    decreases s.len(),
{
    let t = with_carriage_returns(s);
    let end = line_end(s, 0);
    lemma_line_end(s, 0);
    lemma_no_feed_in_line(s, 0);
    lemma_first_carriage_return(s, end);
    if end < s.len() {
        let rest = s.skip(end + 1);
        assert(!rest.contains('\r')) by {
            if rest.contains('\r') {
                let i = choose|i: int| 0 <= i < rest.len() && rest[i] == '\r';
                assert(s[i + end + 1] == '\r');
            }
        }
        lemma_carriage_returns(rest);
        assert forall|i: int| 0 <= i < end + 1 implies t[i] != '\n' by {
            if i < end {
                assert(t[i] == s[i]);
            }
        }
        assert(t[end] == '\r' && t[end + 1] == '\n');
        lemma_first_line(t, end + 1);
        lemma_first_line(s, end);
        assert(t.skip(end + 2) =~= with_carriage_returns(rest));
        assert(end > 0 ==> s[end - 1] != '\r');
        assert(line_text(t, 0, end + 1) =~= line_text(s, 0, end));
    }
}

/// A line feed at the end does not show in the chunks, and neither do carriage
/// returns before the line feeds.
pub proof fn law_line_ends_do_not_show(
    content: Seq<char>,
    chunk_size_lines: int,
    overlap_lines: int,
)
    requires
        content.len() > 0,
        !content.contains('\r'),
        content.last() != '\n',
    ensures
        text_chunks(content.push('\n'), chunk_size_lines, overlap_lines) == text_chunks(
            content,
            chunk_size_lines,
            overlap_lines,
        ),
        text_chunks(with_carriage_returns(content), chunk_size_lines, overlap_lines)
            == text_chunks(content, chunk_size_lines, overlap_lines),
{
    assert(content.last() != '\r') by {
        assert(content[content.len() - 1] == content.last());
    }
    lemma_final_feed(content);
    lemma_carriage_returns(content);
}

} // verus!
