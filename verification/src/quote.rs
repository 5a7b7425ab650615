//! The quote panel: a `fortune` quote folded to fit the panel.

use std::collections::VecDeque;
use vstd::prelude::*;

verus! {

broadcast use vstd::string::group_string_axioms;

/// A shown line holds fewer characters than this.
pub const QUOTE_MAX_WIDTH: usize = 75;

/// At most this many lines of the quote are shown.
pub const QUOTE_MAX_LINES: usize = 5;

/// The lines of a text: the pieces between its line feeds, in order. A text
/// without line feeds is one line; each line feed starts a new one.
pub open spec fn lines_of(s: Seq<char>) -> Seq<Seq<char>>
    decreases s.len(),
{
    if s.len() == 0 {
        seq![Seq::empty()]
    } else {
        let init = lines_of(s.drop_last());
        if s.last() == '\n' {
            init.push(Seq::empty())
        } else {
            init.update(init.len() - 1, init.last().push(s.last()))
        }
    }
}

/// Lines joined into one text, a line feed between each two.
pub open spec fn join_lines(lines: Seq<Seq<char>>) -> Seq<char>
    decreases lines.len(),
{
    if lines.len() == 0 {
        Seq::empty()
    } else if lines.len() == 1 {
        lines[0]
    } else {
        join_lines(lines.drop_last()) + seq!['\n'] + lines.last()
    }
}

/// Whether a line holds no line feed.
pub open spec fn is_single_line(line: Seq<char>) -> bool {
    !line.contains('\n')
}

/// Unicode's White_Space characters, those `char::is_whitespace` accepts.
pub open spec fn is_whitespace(c: char) -> bool {
    let u = c as u32;
    ||| 0x9 <= u <= 0xd
    ||| u == 0x20
    ||| u == 0x85
    ||| u == 0xa0
    ||| u == 0x1680
    ||| 0x2000 <= u <= 0x200a
    ||| u == 0x2028
    ||| u == 0x2029
    ||| u == 0x202f
    ||| u == 0x205f
    ||| u == 0x3000
}

/// A text without its leading whitespace, as `str::trim_start` gives it.
pub open spec fn trim_start(s: Seq<char>) -> Seq<char>
    decreases s.len(),
{
    if s.len() > 0 && is_whitespace(s[0]) {
        trim_start(s.drop_first())
    } else {
        s
    }
}

/// The position of the last space at or before position `i` of a line.
pub open spec fn last_space_through(line: Seq<char>, i: int) -> Option<int>
    decreases i + 1,
{
    if i < 0 {
        None
    } else if line[i] == ' ' {
        Some(i)
    } else {
        last_space_through(line, i - 1)
    }
}

/// A space found at or before `i` is at a position of the line no later
/// than `i`, and holds a space.
proof fn last_space_bounds(line: Seq<char>, i: int)
    ensures
        last_space_through(line, i) matches Some(x) ==> 0 <= x <= i && line[x] == ' ',
    decreases i + 1,
{
    if i >= 0 {
        last_space_bounds(line, i - 1);
    }
}

/// Where a line too long to show whole is broken: at the last space among
/// its first `QUOTE_MAX_WIDTH` characters, else after `QUOTE_MAX_WIDTH - 1`
/// characters.
pub open spec fn break_point(line: Seq<char>) -> int {
    match last_space_through(line, QUOTE_MAX_WIDTH - 1) {
        Some(i) => i,
        None => QUOTE_MAX_WIDTH - 1,
    }
}

/// Folds `pending` lines after the lines `shown` so far. A line shorter
/// than `QUOTE_MAX_WIDTH` is shown whole. A longer one shows up to its break
/// point; what follows, without leading whitespace, goes back first in line
/// unless nothing is left of it. Once `QUOTE_MAX_LINES` lines are shown the
/// rest stays pending. Gives the shown lines and those left over.
pub open spec fn fold_lines(pending: Seq<Seq<char>>, shown: Seq<Seq<char>>) -> (
    Seq<Seq<char>>,
    Seq<Seq<char>>,
)
    decreases (if shown.len() < QUOTE_MAX_LINES {
        QUOTE_MAX_LINES - shown.len()
    } else {
        0
    }),
{
    if pending.len() == 0 || shown.len() >= QUOTE_MAX_LINES {
        (shown, pending)
    } else {
        let line = pending[0];
        let rest = pending.drop_first();
        if line.len() < QUOTE_MAX_WIDTH {
            fold_lines(rest, shown.push(line))
        } else {
            let k = break_point(line);
            let remainder = trim_start(line.subrange(k, line.len() as int));
            fold_lines(
                if remainder.len() == 0 {
                    rest
                } else {
                    seq![remainder] + rest
                },
                shown.push(line.subrange(0, k)),
            )
        }
    }
}

/// The line that marks a quote cut short.
pub open spec fn ellipsis() -> Seq<char> {
    "......"@
}

/// The lines shown for a quote: its lines folded, with `ellipsis` after them
/// where the quote did not fit.
pub open spec fn quote_lines(s: Seq<char>) -> Seq<Seq<char>> {
    let (shown, left) = fold_lines(lines_of(s), Seq::empty());
    if left.len() > 0 && shown.len() == QUOTE_MAX_LINES {
        shown.push(ellipsis())
    } else {
        shown
    }
}

/// The text shown for a quote.
pub open spec fn formatted_quote(s: Seq<char>) -> Seq<char> {
    join_lines(quote_lines(s))
}

/// A text has at least one line, and none of its lines holds a line feed.
pub proof fn lines_of_are_lines(s: Seq<char>)
    ensures
        lines_of(s).len() >= 1,
        forall|i: int| 0 <= i < lines_of(s).len() ==> is_single_line(#[trigger] lines_of(s)[i]),
    decreases s.len(),
{
    if s.len() > 0 {
        lines_of_are_lines(s.drop_last());
        let init = lines_of(s.drop_last());
        if s.last() != '\n' {
            assert forall|i: int| 0 <= i < lines_of(s).len() implies is_single_line(
                #[trigger] lines_of(s)[i],
            ) by {
                if i == init.len() - 1 {
                    let l = init.last().push(s.last());
                    assert(is_single_line(init[i]));
                    if l.contains('\n') {
                        let j = choose|j: int| 0 <= j < l.len() && l[j] == '\n';
                        assert(init[i][j] == '\n');
                    }
                }
            }
        } else {
            assert forall|i: int| 0 <= i < lines_of(s).len() implies is_single_line(
                #[trigger] lines_of(s)[i],
            ) by {
                if i < init.len() {
                    assert(is_single_line(init[i]));
                }
            }
        }
    }
}

/// Joining the lines of a text gives the text back.
pub proof fn join_lines_of(s: Seq<char>)
    ensures
        join_lines(lines_of(s)) == s,
    decreases s.len(),
{
    if s.len() > 0 {
        lines_of_are_lines(s.drop_last());
        join_lines_of(s.drop_last());
        let init = lines_of(s.drop_last());
        if s.last() == '\n' {
            assert(lines_of(s).drop_last() =~= init);
            assert(s =~= join_lines(init) + seq!['\n'] + Seq::<char>::empty());
        } else {
            let l = lines_of(s);
            if init.len() == 1 {
                assert(s =~= init[0].push(s.last()));
            } else {
                assert(l.drop_last() =~= init.drop_last());
                assert(join_lines(init) == join_lines(init.drop_last()) + seq!['\n'] + init.last());
                let a = join_lines(init.drop_last());
                assert(s =~= s.drop_last().push(s.last()));
                assert((a + seq!['\n'] + init.last()).push(s.last()) =~= a + seq!['\n']
                    + init.last().push(s.last()));
                assert(l.last() == init.last().push(s.last()));
            }
        }
    }
}

/// The lines of a text made of a line feed between `x` and a single line `y`
/// are the lines of `x` followed by `y`.
proof fn lines_of_after_feed(x: Seq<char>, y: Seq<char>)
    requires
        is_single_line(y),
    ensures
        lines_of(x + seq!['\n'] + y) == lines_of(x).push(y),
    decreases y.len(),
{
    if y.len() == 0 {
        let z = x + seq!['\n'] + y;
        assert(z.drop_last() =~= x);
        assert(z.last() == '\n');
        assert(y =~= Seq::<char>::empty());
    } else {
        let y0 = y.drop_last();
        assert(!y0.contains('\n')) by {
            if y0.contains('\n') {
                let j = choose|j: int| 0 <= j < y0.len() && y0[j] == '\n';
                assert(y[j] == '\n');
            }
        }
        lines_of_after_feed(x, y0);
        let z = x + seq!['\n'] + y;
        assert(z.drop_last() =~= x + seq!['\n'] + y0);
        assert(y.last() != '\n') by {
            assert(y[y.len() - 1] == y.last());
        }
        assert(z.last() == y.last());
        assert(y0.push(y.last()) =~= y);
        let init = lines_of(x).push(y0);
        assert(init.update(init.len() - 1, init.last().push(y.last())) =~= lines_of(x).push(y));
    }
}

/// A single line is the only line of itself.
proof fn lines_of_single(y: Seq<char>)
    requires
        is_single_line(y),
    ensures
        lines_of(y) == seq![y],
    decreases y.len(),
{
    if y.len() == 0 {
        assert(y =~= Seq::<char>::empty());
    } else {
        let y0 = y.drop_last();
        assert(!y0.contains('\n')) by {
            if y0.contains('\n') {
                let j = choose|j: int| 0 <= j < y0.len() && y0[j] == '\n';
                assert(y[j] == '\n');
            }
        }
        lines_of_single(y0);
        assert(y.last() != '\n') by {
            assert(y[y.len() - 1] == y.last());
        }
        assert(y0.push(y.last()) =~= y);
        assert(seq![y0].update(0, y0.push(y.last())) =~= seq![y]);
    }
}

/// Splitting joined single lines gives the lines back.
pub proof fn lines_of_join(lines: Seq<Seq<char>>)
    requires
        lines.len() >= 1,
        forall|i: int| 0 <= i < lines.len() ==> is_single_line(#[trigger] lines[i]),
    ensures
        lines_of(join_lines(lines)) == lines,
    decreases lines.len(),
{
    if lines.len() == 1 {
        lines_of_single(lines[0]);
        assert(seq![lines[0]] =~= lines);
    } else {
        let init = lines.drop_last();
        assert forall|i: int| 0 <= i < init.len() implies is_single_line(#[trigger] init[i]) by {
            assert(init[i] == lines[i]);
        }
        lines_of_join(init);
        assert(is_single_line(lines[lines.len() - 1]));
        lines_of_after_feed(join_lines(init), lines.last());
        assert(init.push(lines.last()) =~= lines);
    }
}


/// The pieces of `chars` that `ranges` mark out, each range a start and an
/// end position.
spec fn pieces(chars: Seq<char>, ranges: Seq<(usize, usize)>) -> Seq<Seq<char>> {
    ranges.map_values(|r: (usize, usize)| chars.subrange(r.0 as int, r.1 as int))
}

/// Every range starts no later than it ends, and ends within `n`.
spec fn ranges_within(ranges: Seq<(usize, usize)>, n: int) -> bool {
    forall|i: int| 0 <= i < ranges.len() ==> #[trigger] ranges[i].0 <= ranges[i].1 <= n
}

/// The characters of a text.
fn chars_of(s: &str) -> (chars: Vec<char>)
    ensures
        chars@ == s@,
{
    let mut chars: Vec<char> = Vec::new();
    for c in it: s.chars()
        invariant
            chars@ == it.seq().take(it.index() as int),
            it.seq() == s@,
    {
        chars.push(c);
    }
    chars
}

/// Whether `c` is whitespace, as `char::is_whitespace` says.
pub fn is_whitespace_char(c: char) -> (b: bool)
    ensures
        b == is_whitespace(c),
{
    let u = c as u32;
    (0x9 <= u && u <= 0xd) || u == 0x20 || u == 0x85 || u == 0xa0 || u == 0x1680 || (0x2000 <= u
        && u <= 0x200a) || u == 0x2028 || u == 0x2029 || u == 0x202f || u == 0x205f || u == 0x3000
}

/// The ranges of the lines of `chars`.
fn split_lines(chars: &Vec<char>) -> (lines: VecDeque<(usize, usize)>)
    ensures
        pieces(chars@, lines@) == lines_of(chars@),
        ranges_within(lines@, chars.len() as int),
{
    let mut lines: VecDeque<(usize, usize)> = VecDeque::new();
    let mut start: usize = 0;
    let mut i: usize = 0;
    assert(chars@.take(0) =~= Seq::<char>::empty());
    assert(pieces(chars@, lines@) =~= Seq::empty());
    assert(chars@.subrange(0, 0) =~= Seq::<char>::empty());
    while i < chars.len()
        invariant
            start <= i <= chars.len(),
            ranges_within(lines@, start as int),
            pieces(chars@, lines@).push(chars@.subrange(start as int, i as int)) == lines_of(
                chars@.take(i as int),
            ),
        decreases chars.len() - i,
    {
        let ghost old_lines = lines@;
        let ghost cur = chars@.subrange(start as int, i as int);
        assert(chars@.take(i + 1).drop_last() =~= chars@.take(i as int));
        assert(chars@.take(i + 1).last() == chars@[i as int]);
        if chars[i] == '\n' {
            lines.push_back((start, i));
            assert forall|j: int| 0 <= j < lines@.len() implies #[trigger] lines@[j].0
                <= lines@[j].1 <= i + 1 by {
                if j < old_lines.len() {
                    assert(old_lines[j] == lines@[j]);
                }
            }
            start = i + 1;
            assert(pieces(chars@, lines@) =~= pieces(chars@, old_lines).push(cur));
            assert(chars@.subrange(start as int, i + 1) =~= Seq::<char>::empty());
        } else {
            assert(chars@.subrange(start as int, i + 1) =~= cur.push(chars@[i as int]));
            let ghost init = pieces(chars@, old_lines).push(cur);
            assert(init.update(init.len() - 1, init.last().push(chars@[i as int])) =~= pieces(
                chars@,
                lines@,
            ).push(chars@.subrange(start as int, i + 1)));
        }
        i = i + 1;
    }
    let ghost old_lines = lines@;
    lines.push_back((start, chars.len()));
    assert forall|j: int| 0 <= j < lines@.len() implies #[trigger] lines@[j].0 <= lines@[j].1
        <= chars.len() by {
        if j < old_lines.len() {
            assert(old_lines[j] == lines@[j]);
        }
    }
    assert(ranges_within(lines@, chars.len() as int));
    assert(chars@.take(chars.len() as int) =~= chars@);
    assert(pieces(chars@, lines@) =~= pieces(chars@, old_lines).push(
        chars@.subrange(start as int, chars.len() as int),
    ));
    lines
}

/// Where the line at `start..end` of `chars`, too long to show whole, is
/// broken.
fn break_position(chars: &Vec<char>, start: usize, end: usize) -> (k: usize)
    requires
        start + QUOTE_MAX_WIDTH <= end <= chars.len(),
    ensures
        k == start + break_point(chars@.subrange(start as int, end as int)),
        start <= k < start + QUOTE_MAX_WIDTH,
{
    proof {
        last_space_bounds(chars@.subrange(start as int, end as int), QUOTE_MAX_WIDTH - 1);
    }
    let ghost line = chars@.subrange(start as int, end as int);
    let mut last: Option<usize> = None;
    let mut j: usize = 0;
    while j < QUOTE_MAX_WIDTH
        invariant
            j <= QUOTE_MAX_WIDTH,
            start + QUOTE_MAX_WIDTH <= end <= chars.len(),
            line == chars@.subrange(start as int, end as int),
            last matches Some(x) ==> x < j,
            match last {
                Some(x) => last_space_through(line, j - 1) == Some(x as int),
                None => last_space_through(line, j - 1) is None,
            },
        decreases QUOTE_MAX_WIDTH - j,
    {
        assert(line[j as int] == chars@[start + j]);
        if chars[start + j] == ' ' {
            last = Some(j);
        }
        j = j + 1;
    }
    match last {
        Some(x) => start + x,
        None => start + (QUOTE_MAX_WIDTH - 1),
    }
}

/// The position of the first character at or after `from` and before `end`
/// that is not whitespace, or `end`.
fn skip_whitespace(chars: &Vec<char>, from: usize, end: usize) -> (t: usize)
    requires
        from <= end <= chars.len(),
    ensures
        from <= t <= end,
        trim_start(chars@.subrange(from as int, end as int)) == chars@.subrange(
            t as int,
            end as int,
        ),
{
    let mut t = from;
    while t < end && is_whitespace_char(chars[t])
        invariant
            from <= t <= end <= chars.len(),
            trim_start(chars@.subrange(from as int, end as int)) == trim_start(
                chars@.subrange(t as int, end as int),
            ),
        decreases end - t,
    {
        assert(chars@.subrange(t as int, end as int).drop_first() =~= chars@.subrange(
            t + 1,
            end as int,
        ));
        t = t + 1;
    }
    t
}

/// The text shown for a quote: each line shorter than `QUOTE_MAX_WIDTH`
/// characters, longer lines broken at their last space within that width,
/// at most `QUOTE_MAX_LINES` lines, and a line of dots after them where the
/// quote goes on.
pub fn format_quote(s: &str) -> (shown: String)
    ensures
        shown@ == formatted_quote(s@),
{
    let chars = chars_of(s);
    let n = chars.len();
    let mut pending = split_lines(&chars);
    let mut shown: Vec<(usize, usize)> = Vec::new();
    let ghost target = fold_lines(lines_of(s@), Seq::empty());
    assert(pieces(chars@, shown@) =~= Seq::empty());
    while shown.len() < QUOTE_MAX_LINES && pending.len() > 0
        invariant
            chars@ == s@,
            n == chars.len(),
            shown.len() <= QUOTE_MAX_LINES,
            ranges_within(pending@, n as int),
            ranges_within(shown@, n as int),
            fold_lines(pieces(chars@, pending@), pieces(chars@, shown@)) == target,
        decreases QUOTE_MAX_LINES - shown.len(),
    {
        let ghost old_pending = pending@;
        let ghost old_shown = shown@;
        let ghost rest = pieces(chars@, old_pending).drop_first();
        let (a, b) = pending.pop_front().unwrap();
        assert(ranges_within(old_pending, n as int) && old_pending[0] == (a, b));
        assert(pieces(chars@, pending@) =~= rest);
        let ghost line = chars@.subrange(a as int, b as int);
        assert(pieces(chars@, old_pending)[0] == line);
        if b - a < QUOTE_MAX_WIDTH {
            shown.push((a, b));
            assert(pieces(chars@, shown@) =~= pieces(chars@, old_shown).push(line));
        } else {
            let k = break_position(&chars, a, b);
            let ghost kk = k - a;
            shown.push((a, k));
            assert(chars@.subrange(a as int, k as int) =~= line.subrange(0, kk));
            assert(pieces(chars@, shown@) =~= pieces(chars@, old_shown).push(line.subrange(0, kk)));
            let t = skip_whitespace(&chars, k, b);
            assert(chars@.subrange(k as int, b as int) =~= line.subrange(kk, line.len() as int));
            if t < b {
                let ghost rem_pending = pending@;
                pending.push_front((t, b));
                assert(pieces(chars@, pending@) =~= seq![chars@.subrange(t as int, b as int)]
                    + pieces(chars@, rem_pending));
            }
        }
    }
    let show_ellipsis = pending.len() > 0 && shown.len() == QUOTE_MAX_LINES;
    let ghost lines = pieces(chars@, shown@);
    let mut out = String::new();
    let mut i: usize = 0;
    proof {
        reveal_strlit("\n");
        assert(lines.take(0) =~= Seq::<Seq<char>>::empty());
    }
    while i < shown.len()
        invariant
            chars@ == s@,
            n == chars.len(),
            i <= shown.len(),
            lines == pieces(chars@, shown@),
            ranges_within(shown@, n as int),
            "\n"@ == seq!['\n'],
            out@ == join_lines(lines.take(i as int)),
        decreases shown.len() - i,
    {
        let ghost before = out@;
        let (a, b) = shown[i];
        assert(ranges_within(shown@, n as int) && shown@[i as int] == (a, b));
        if i > 0 {
            out.append("\n");
        }
        out.append(s.substring_char(a, b));
        assert(lines[i as int] == chars@.subrange(a as int, b as int));
        assert(lines.take(i + 1).drop_last() =~= lines.take(i as int));
        if i == 0 {
            assert(out@ =~= lines.take(1)[0]);
        } else {
            assert(out@ =~= before + seq!['\n'] + lines.take(i + 1).last());
        }
        i = i + 1;
    }
    assert(lines.take(shown.len() as int) =~= lines);
    if show_ellipsis {
        out.append("\n");
        out.append("......");
        assert(out@ =~= join_lines(lines) + seq!['\n'] + ellipsis());
        assert(lines.push(ellipsis()).drop_last() =~= lines);
    }
    out
}


/// Trimming leading whitespace leaves a suffix of the text.
proof fn trim_start_suffix(x: Seq<char>)
    ensures
        trim_start(x).len() <= x.len(),
        trim_start(x) == x.subrange(x.len() - trim_start(x).len(), x.len() as int),
        all_whitespace(x.take(x.len() - trim_start(x).len())),
    decreases x.len(),
{
    if x.len() > 0 && is_whitespace(x[0]) {
        trim_start_suffix(x.drop_first());
        let t = trim_start(x.drop_first());
        let n = x.len() - t.len();
        assert forall|j: int| 0 <= j < n implies is_whitespace(#[trigger] x.take(n)[j]) by {
            if j > 0 {
                assert(x.take(n)[j] == x.drop_first().take(n - 1)[j - 1]);
            }
        }
        assert(x.drop_first().subrange(x.len() - 1 - t.len(), x.len() - 1) =~= x.subrange(
            x.len() - t.len(),
            x.len() as int,
        ));
    } else {
        assert(x.subrange(0, x.len() as int) =~= x);
    }
}

/// Whether a text is all whitespace.
pub open spec fn all_whitespace(t: Seq<char>) -> bool {
    forall|j: int| 0 <= j < t.len() ==> is_whitespace(#[trigger] t[j])
}

/// Lines read in order, each followed by its gap.
pub open spec fn stitch(lines: Seq<Seq<char>>, gaps: Seq<Seq<char>>) -> Seq<char>
    decreases lines.len(),
{
    if lines.len() == 0 {
        Seq::empty()
    } else {
        lines[0] + gaps[0] + stitch(lines.drop_first(), gaps.drop_first())
    }
}

/// The line feed that separates a line from the lines after it, none after
/// the last.
spec fn feed_before(rest: Seq<Seq<char>>) -> Seq<char> {
    if rest.len() == 0 {
        Seq::empty()
    } else {
        seq!['\n']
    }
}

/// Joining lines, read from the front.
proof fn join_lines_front(line: Seq<char>, rest: Seq<Seq<char>>)
    ensures
        join_lines(seq![line] + rest) == line + feed_before(rest) + join_lines(rest),
    decreases rest.len(),
{
    if rest.len() == 0 {
        assert(seq![line] + rest =~= seq![line]);
        assert(line + feed_before(rest) + join_lines(rest) =~= line);
    } else {
        let all = seq![line] + rest;
        join_lines_front(line, rest.drop_last());
        assert(all.drop_last() =~= seq![line] + rest.drop_last());
        assert(all.last() == rest.last());
        if rest.len() == 1 {
            assert(rest.drop_last() =~= Seq::<Seq<char>>::empty());
            assert(join_lines(rest) == rest[0]);
            assert(all =~= seq![line, rest[0]]);
            assert(seq![line, rest[0]].drop_last() =~= seq![line]);
        } else {
            assert(join_lines(rest) == join_lines(rest.drop_last()) + seq!['\n'] + rest.last());
        }
        assert(join_lines(all) =~= line + feed_before(rest) + join_lines(rest));
    }
}

/// Folding shows the pending lines in order: where nothing is left over,
/// the lines shown after `shown`, each followed by a gap of whitespace (the
/// whitespace dropped at a break, and the line feed ending a line), read in
/// order, give back the pending lines joined.
proof fn fold_lines_in_order(pending: Seq<Seq<char>>, shown: Seq<Seq<char>>) -> (gaps: Seq<
    Seq<char>,
>)
    requires
        fold_lines(pending, shown).1.len() == 0,
    ensures
        fold_lines(pending, shown).0.len() == shown.len() + gaps.len(),
        fold_lines(pending, shown).0.take(shown.len() as int) == shown,
        forall|i: int| 0 <= i < gaps.len() ==> all_whitespace(#[trigger] gaps[i]),
        stitch(fold_lines(pending, shown).0.skip(shown.len() as int), gaps) == join_lines(pending),
    decreases pending.len(), (if shown.len() < QUOTE_MAX_LINES {
        QUOTE_MAX_LINES - shown.len()
    } else {
        0
    }),
{
    let r = fold_lines(pending, shown).0;
    if pending.len() == 0 {
        assert(r == shown);
        assert(r.take(shown.len() as int) =~= shown);
        assert(r.skip(shown.len() as int) =~= Seq::<Seq<char>>::empty());
        Seq::empty()
    } else {
        assert(shown.len() < QUOTE_MAX_LINES);
        let line = pending[0];
        let rest = pending.drop_first();
        assert(pending =~= seq![line] + rest);
        join_lines_front(line, rest);
        let sep = feed_before(rest);
        assert(all_whitespace(sep));
        if line.len() < QUOTE_MAX_WIDTH {
            let next = shown.push(line);
            let g = fold_lines_in_order(rest, next);
            assert(r == fold_lines(rest, next).0);
            assert(r.take(shown.len() as int) =~= next.take(shown.len() as int));
            let tail = r.skip(shown.len() as int);
            assert(r.take(next.len() as int)[shown.len() as int] == line);
            assert(tail[0] == r[shown.len() as int]);
            assert(tail[0] == line);
            assert(tail.drop_first() =~= r.skip(next.len() as int));
            let gaps = seq![sep] + g;
            assert(gaps.drop_first() =~= g);
            assert forall|i: int| 0 <= i < gaps.len() implies all_whitespace(#[trigger] gaps[i]) by {
                if i > 0 {
                    assert(gaps[i] == g[i - 1]);
                }
            }
            assert(stitch(tail, gaps) =~= line + sep + join_lines(rest));
            gaps
        } else {
            let k = break_point(line);
            last_space_bounds(line, QUOTE_MAX_WIDTH - 1);
            let keep = line.subrange(0, k);
            let after = line.subrange(k, line.len() as int);
            let remainder = trim_start(after);
            trim_start_suffix(after);
            let n = after.len() - remainder.len();
            let dropped = after.take(n);
            assert(after =~= dropped + remainder);
            assert(line =~= keep + dropped + remainder);
            let next = shown.push(keep);
            let next_pending = if remainder.len() == 0 {
                rest
            } else {
                seq![remainder] + rest
            };
            let g = fold_lines_in_order(next_pending, next);
            assert(r == fold_lines(next_pending, next).0);
            assert(r.take(shown.len() as int) =~= next.take(shown.len() as int));
            let tail = r.skip(shown.len() as int);
            assert(r.take(next.len() as int)[shown.len() as int] == keep);
            assert(tail[0] == r[shown.len() as int]);
            assert(tail[0] == keep);
            assert(tail.drop_first() =~= r.skip(next.len() as int));
            if remainder.len() == 0 {
                let gaps = seq![dropped + sep] + g;
                assert(gaps.drop_first() =~= g);
                assert(all_whitespace(dropped + sep)) by {
                    assert forall|j: int| 0 <= j < (dropped + sep).len() implies is_whitespace(
                        #[trigger] (dropped + sep)[j],
                    ) by {
                        if j < dropped.len() {
                            assert((dropped + sep)[j] == dropped[j]);
                        } else {
                            assert((dropped + sep)[j] == sep[j - dropped.len()]);
                        }
                    }
                }
                assert forall|i: int| 0 <= i < gaps.len() implies all_whitespace(
                    #[trigger] gaps[i],
                ) by {
                    if i > 0 {
                        assert(gaps[i] == g[i - 1]);
                    }
                }
                assert(remainder =~= Seq::<char>::empty());
                assert(stitch(tail, gaps) =~= line + sep + join_lines(rest));
                gaps
            } else {
                join_lines_front(remainder, rest);
                let gaps = seq![dropped] + g;
                assert(gaps.drop_first() =~= g);
                assert forall|i: int| 0 <= i < gaps.len() implies all_whitespace(
                    #[trigger] gaps[i],
                ) by {
                    if i > 0 {
                        assert(gaps[i] == g[i - 1]);
                    }
                }
                assert(stitch(tail, gaps) =~= line + sep + join_lines(rest));
                gaps
            }
        }
    }
}

/// Whether a quote fits the panel: folding it leaves nothing over.
pub open spec fn fits_panel(s: Seq<char>) -> bool {
    fold_lines(lines_of(s), Seq::empty()).1.len() == 0
}

/// Folding keeps the text in order: for a quote that fits, the shown lines,
/// each followed by the whitespace dropped at its break (or the line feed
/// that ended it), read in order, are the quote's text. So the rest of a
/// broken line comes right after it, before the lines that follow.
pub proof fn folding_keeps_order(s: Seq<char>)
    requires
        fits_panel(s),
    ensures
        exists|gaps: Seq<Seq<char>>|
            {
                &&& gaps.len() == quote_lines(s).len()
                &&& forall|i: int| 0 <= i < gaps.len() ==> all_whitespace(#[trigger] gaps[i])
                &&& stitch(quote_lines(s), gaps) == s
            },
{
    let gaps = fold_lines_in_order(lines_of(s), Seq::empty());
    let shown = fold_lines(lines_of(s), Seq::empty()).0;
    assert(shown.skip(0) =~= shown);
    assert(quote_lines(s) == shown);
    join_lines_of(s);
}

/// A piece of a single line is a single line.
proof fn piece_is_single(line: Seq<char>, i: int, j: int)
    requires
        is_single_line(line),
        0 <= i <= j <= line.len(),
    ensures
        is_single_line(line.subrange(i, j)),
{
    if line.subrange(i, j).contains('\n') {
        let k = choose|k: int| 0 <= k < j - i && line.subrange(i, j)[k] == '\n';
        assert(line[i + k] == '\n');
    }
}

/// A line that fits the panel: a single line shorter than `QUOTE_MAX_WIDTH`.
pub open spec fn fits(line: Seq<char>) -> bool {
    is_single_line(line) && line.len() < QUOTE_MAX_WIDTH
}

/// Folding single lines shows at most `QUOTE_MAX_LINES` lines, each of
/// which fits, and leaves single lines over.
proof fn fold_lines_fit(pending: Seq<Seq<char>>, shown: Seq<Seq<char>>)
    requires
        shown.len() <= QUOTE_MAX_LINES,
        forall|i: int| 0 <= i < shown.len() ==> fits(#[trigger] shown[i]),
        forall|i: int| 0 <= i < pending.len() ==> is_single_line(#[trigger] pending[i]),
    ensures
        fold_lines(pending, shown).0.len() <= QUOTE_MAX_LINES,
        forall|i: int|
            0 <= i < fold_lines(pending, shown).0.len() ==> fits(
                #[trigger] fold_lines(pending, shown).0[i],
            ),
        forall|i: int|
            0 <= i < fold_lines(pending, shown).1.len() ==> is_single_line(
                #[trigger] fold_lines(pending, shown).1[i],
            ),
    decreases (if shown.len() < QUOTE_MAX_LINES {
        QUOTE_MAX_LINES - shown.len()
    } else {
        0
    }),
{
    if pending.len() == 0 || shown.len() >= QUOTE_MAX_LINES {
    } else {
        let line = pending[0];
        let rest = pending.drop_first();
        assert(is_single_line(line));
        assert forall|i: int| 0 <= i < rest.len() implies is_single_line(#[trigger] rest[i]) by {
            assert(rest[i] == pending[i + 1]);
        }
        if line.len() < QUOTE_MAX_WIDTH {
            let next = shown.push(line);
            assert forall|i: int| 0 <= i < next.len() implies fits(#[trigger] next[i]) by {
                if i < shown.len() {
                    assert(next[i] == shown[i]);
                }
            }
            fold_lines_fit(rest, next);
        } else {
            last_space_bounds(line, QUOTE_MAX_WIDTH - 1);
            let k = break_point(line);
            let tail = line.subrange(k, line.len() as int);
            let remainder = trim_start(tail);
            piece_is_single(line, 0, k);
            piece_is_single(line, k, line.len() as int);
            trim_start_suffix(tail);
            piece_is_single(tail, tail.len() - remainder.len(), tail.len() as int);
            let next = shown.push(line.subrange(0, k));
            assert forall|i: int| 0 <= i < next.len() implies fits(#[trigger] next[i]) by {
                if i < shown.len() {
                    assert(next[i] == shown[i]);
                }
            }
            let next_pending = if remainder.len() == 0 {
                rest
            } else {
                seq![remainder] + rest
            };
            assert forall|i: int| 0 <= i < next_pending.len() implies is_single_line(
                #[trigger] next_pending[i],
            ) by {
                if remainder.len() != 0 && i > 0 {
                    assert(next_pending[i] == rest[i - 1]);
                }
            }
            fold_lines_fit(next_pending, next);
        }
    }
}

/// The shown quote has at most `QUOTE_MAX_LINES` lines and the line of dots
/// after them, and each of its lines is shorter than `QUOTE_MAX_WIDTH`
/// characters: splitting the shown text at its line feeds gives back exactly
/// `quote_lines`.
pub proof fn formatted_quote_fits(s: Seq<char>)
    ensures
        lines_of(formatted_quote(s)) == quote_lines(s),
        quote_lines(s).len() <= QUOTE_MAX_LINES + 1,
        forall|i: int| 0 <= i < quote_lines(s).len() ==> fits(#[trigger] quote_lines(s)[i]),
{
    lines_of_are_lines(s);
    assert forall|i: int| 0 <= i < Seq::<Seq<char>>::empty().len() implies fits(
        #[trigger] Seq::<Seq<char>>::empty()[i],
    ) by {}
    fold_lines_fit(lines_of(s), Seq::empty());
    let (shown, left) = fold_lines(lines_of(s), Seq::empty());
    let q = quote_lines(s);
    reveal_strlit("......");
    assert(fits(ellipsis())) by {
        assert(ellipsis() =~= seq!['.', '.', '.', '.', '.', '.']);
    }
    assert forall|i: int| 0 <= i < q.len() implies fits(#[trigger] q[i]) by {
        if i < shown.len() {
            assert(q[i] == shown[i]);
        }
    }
    fold_lines_shows_some(lines_of(s), Seq::empty());
    lines_of_join(q);
}

/// Folding shows at least one line where there is one to show.
proof fn fold_lines_shows_some(pending: Seq<Seq<char>>, shown: Seq<Seq<char>>)
    ensures
        fold_lines(pending, shown).0.len() >= shown.len(),
        pending.len() > 0 ==> fold_lines(pending, shown).0.len() >= 1,
    decreases (if shown.len() < QUOTE_MAX_LINES {
        QUOTE_MAX_LINES - shown.len()
    } else {
        0
    }),
{
    if pending.len() == 0 || shown.len() >= QUOTE_MAX_LINES {
    } else {
        let line = pending[0];
        let rest = pending.drop_first();
        if line.len() < QUOTE_MAX_WIDTH {
            fold_lines_shows_some(rest, shown.push(line));
        } else {
            let k = break_point(line);
            let remainder = trim_start(line.subrange(k, line.len() as int));
            fold_lines_shows_some(
                if remainder.len() == 0 {
                    rest
                } else {
                    seq![remainder] + rest
                },
                shown.push(line.subrange(0, k)),
            );
        }
    }
}

/// Lines that all fit, as many as may be shown, are shown as they are.
proof fn fold_lines_keeps_fitting(pending: Seq<Seq<char>>, shown: Seq<Seq<char>>)
    requires
        shown.len() + pending.len() <= QUOTE_MAX_LINES,
        forall|i: int| 0 <= i < pending.len() ==> (#[trigger] pending[i]).len() < QUOTE_MAX_WIDTH,
    ensures
        fold_lines(pending, shown) == (shown + pending, Seq::<Seq<char>>::empty()),
    decreases pending.len(),
{
    if pending.len() == 0 {
        assert(shown + pending =~= shown);
        assert(pending =~= Seq::<Seq<char>>::empty());
    } else {
        let rest = pending.drop_first();
        assert(pending[0].len() < QUOTE_MAX_WIDTH);
        assert forall|i: int| 0 <= i < rest.len() implies (#[trigger] rest[i]).len()
            < QUOTE_MAX_WIDTH by {
            assert(rest[i] == pending[i + 1]);
        }
        fold_lines_keeps_fitting(rest, shown.push(pending[0]));
        assert(shown.push(pending[0]) + rest =~= shown + pending);
    }
}

/// Lines that all fit are shown as they are, as many as there is room for;
/// the rest stays pending.
proof fn fold_lines_fitting(pending: Seq<Seq<char>>, shown: Seq<Seq<char>>)
    requires
        shown.len() <= QUOTE_MAX_LINES,
        forall|i: int| 0 <= i < pending.len() ==> (#[trigger] pending[i]).len() < QUOTE_MAX_WIDTH,
    ensures
        ({
            let room = QUOTE_MAX_LINES - shown.len();
            let k = if pending.len() <= room {
                pending.len() as int
            } else {
                room
            };
            fold_lines(pending, shown) == (shown + pending.take(k), pending.skip(k))
        }),
    decreases pending.len(),
{
    let room = QUOTE_MAX_LINES - shown.len();
    if pending.len() == 0 || shown.len() >= QUOTE_MAX_LINES {
        assert(pending.take(0) =~= Seq::<Seq<char>>::empty());
        assert(shown + pending.take(0) =~= shown);
        assert(pending.skip(0) =~= pending);
        assert(pending.len() == 0 ==> pending.take(pending.len() as int) =~= pending.take(0)
            && pending.skip(pending.len() as int) =~= pending.skip(0));
    } else {
        let rest = pending.drop_first();
        assert(pending[0].len() < QUOTE_MAX_WIDTH);
        assert forall|i: int| 0 <= i < rest.len() implies (#[trigger] rest[i]).len()
            < QUOTE_MAX_WIDTH by {
            assert(rest[i] == pending[i + 1]);
        }
        fold_lines_fitting(rest, shown.push(pending[0]));
        let k = if pending.len() <= room {
            pending.len() as int
        } else {
            room
        };
        assert(shown.push(pending[0]) + rest.take(k - 1) =~= shown + pending.take(k));
        assert(rest.skip(k - 1) =~= pending.skip(k));
    }
}

/// Folding an already folded quote changes nothing.
pub proof fn format_quote_idempotent(s: Seq<char>)
    ensures
        formatted_quote(formatted_quote(s)) == formatted_quote(s),
{
    let f = formatted_quote(s);
    let q = quote_lines(s);
    formatted_quote_fits(s);
    assert forall|i: int| 0 <= i < lines_of(f).len() implies (#[trigger] lines_of(f)[i]).len()
        < QUOTE_MAX_WIDTH by {
        assert(fits(q[i]));
    }
    fold_lines_fitting(lines_of(f), Seq::empty());
    let (shown, left) = fold_lines(lines_of(s), Seq::empty());
    if q.len() <= QUOTE_MAX_LINES {
        assert(Seq::<Seq<char>>::empty() + q.take(q.len() as int) =~= q);
        assert(q.skip(q.len() as int) =~= Seq::<Seq<char>>::empty());
        join_lines_of(f);
    } else {
        lines_of_are_lines(s);
        assert forall|i: int| 0 <= i < Seq::<Seq<char>>::empty().len() implies fits(
            #[trigger] Seq::<Seq<char>>::empty()[i],
        ) by {}
        fold_lines_fit(lines_of(s), Seq::empty());
        assert(q == shown.push(ellipsis()));
        assert(Seq::<Seq<char>>::empty() + q.take(QUOTE_MAX_LINES as int) =~= shown);
        assert(q.skip(QUOTE_MAX_LINES as int) =~= seq![ellipsis()]);
        assert(quote_lines(f) == q);
    }
}

/// A quote of at most `QUOTE_MAX_LINES` lines, each shorter than
/// `QUOTE_MAX_WIDTH` characters, is shown as it is.
pub proof fn short_quote_unchanged(s: Seq<char>)
    requires
        lines_of(s).len() <= QUOTE_MAX_LINES,
        forall|i: int| 0 <= i < lines_of(s).len() ==> (#[trigger] lines_of(s)[i]).len()
            < QUOTE_MAX_WIDTH,
    ensures
        formatted_quote(s) == s,
{
    fold_lines_keeps_fitting(lines_of(s), Seq::empty());
    assert(Seq::<Seq<char>>::empty() + lines_of(s) =~= lines_of(s));
    join_lines_of(s);
}


/// Decodes `bytes` with `String::from_utf8`. Claimed, as its documentation
/// says: it succeeds exactly on valid UTF-8, and gives the decoded text.
#[verifier::external_body]
fn decode_utf8_bytes(bytes: Vec<u8>) -> (text: Option<String>)
    ensures
        text is Some <==> vstd::utf8::valid_utf8(bytes@),
        text matches Some(t) ==> t@ == vstd::utf8::decode_utf8(bytes@),
{
    String::from_utf8(bytes).ok()
}

/// The quote for what running `fortune` printed: its output where it is
/// UTF-8, a note that it could not be read where it is not, and a note that
/// it could not be run where no output came (`None`).
pub open spec fn fortune_quote(stdout: Option<Seq<u8>>) -> Seq<char> {
    match stdout {
        None => "Error fetching quote from fortune"@,
        Some(bytes) => if vstd::utf8::valid_utf8(bytes) {
            vstd::utf8::decode_utf8(bytes)
        } else {
            "Error parsing quote from fortune"@
        },
    }
}

/// The quote for what running `fortune` printed, as `fortune_quote` says.
pub fn fortune_text(stdout: Option<Vec<u8>>) -> (text: String)
    ensures
        text@ == fortune_quote(
            match stdout {
                Some(b) => Some(b@),
                None => None,
            },
        ),
{
    match stdout {
        None => String::from_str("Error fetching quote from fortune"),
        Some(bytes) => match decode_utf8_bytes(bytes) {
            Some(t) => t,
            None => String::from_str("Error parsing quote from fortune"),
        },
    }
}

/// What the quote panel is told.
#[derive(Clone, Copy, Debug, PartialEq, Eq, Structural)]
pub enum QuoteMsg {
    RefreshQuote,
}

/// What the quote panel asks of its runtime.
#[derive(Clone, Copy, Debug, PartialEq, Eq, Structural)]
pub enum QuoteTask {
    /// Run `fortune` and hand its output to `Quote::fortune_arrived`.
    FetchFortune,
}

/// The quote panel: the quote it shows.
pub struct Quote {
    text: String,
}

impl Quote {
    /// The quote held.
    pub closed spec fn quote(&self) -> Seq<char> {
        self.text@
    }

    /// A panel showing the quote for `fortune`'s first output.
    pub fn new(stdout: Option<Vec<u8>>) -> (quote: Quote)
        ensures
            quote.quote() == fortune_quote(
                match stdout {
                    Some(b) => Some(b@),
                    None => None,
                },
            ),
    {
        Quote { text: fortune_text(stdout) }
    }

    /// Answers a message: a refresh asks for a new fortune.
    pub fn update(&self, message: QuoteMsg) -> (task: QuoteTask)
        ensures
            task == QuoteTask::FetchFortune,
    {
        match message {
            QuoteMsg::RefreshQuote => QuoteTask::FetchFortune,
        }
    }

    /// Takes the output of a fortune that was fetched.
    pub fn fortune_arrived(&mut self, stdout: Option<Vec<u8>>)
        ensures
            final(self).quote() == fortune_quote(
                match stdout {
                    Some(b) => Some(b@),
                    None => None,
                },
            ),
    {
        self.text = fortune_text(stdout);
    }

    /// The text the panel shows: the quote folded to fit.
    pub fn label(&self) -> (label: String)
        ensures
            label@ == formatted_quote(self.quote()),
    {
        format_quote(self.text.as_str())
    }

    /// The tooltip: the whole quote.
    pub fn tooltip(&self) -> (tooltip: &String)
        ensures
            tooltip@ == self.quote(),
    {
        &self.text
    }
}

} // verus!
