use vstd::prelude::*;

verus! {

/// The pieces of `s` between line feeds, as `str::split('\n')` cuts them:
/// always at least one piece, the last one possibly empty.
pub open spec fn raw_pieces(s: Seq<char>) -> Seq<Seq<char>>
    decreases s.len(),
{
    if s.len() == 0 {
        seq![Seq::empty()]
    } else if s.last() == '\n' {
        raw_pieces(s.drop_last()).push(Seq::empty())
    } else {
        let before = raw_pieces(s.drop_last());
        before.update(before.len() - 1, before.last().push(s.last()))
    }
}

/// A line that a line feed ended, without the carriage return that a
/// `"\r\n"` ending leaves before it.
pub open spec fn without_cr(line: Seq<char>) -> Seq<char> {
    if line.len() > 0 && line.last() == '\r' {
        line.drop_last()
    } else {
        line
    }
}

/// Each of `pieces`, without the carriage return before its line feed.
pub open spec fn ended_lines(pieces: Seq<Seq<char>>) -> Seq<Seq<char>> {
    pieces.map_values(|l: Seq<char>| without_cr(l))
}

/// The lines of `s`: each piece that a line feed ends, without its carriage
/// return, then the text after the last line feed if there is any.
pub open spec fn lines_of(s: Seq<char>) -> Seq<Seq<char>> {
    let pieces = raw_pieces(s);
    let ended = ended_lines(pieces.drop_last());
    if pieces.last().len() == 0 {
        ended
    } else {
        ended.push(pieces.last())
    }
}

/// The views of a list of strings.
pub open spec fn string_views(v: Seq<String>) -> Seq<Seq<char>> {
    v.map_values(|l: String| l@)
}

/// The line that ends just before `to`, starting at `from`, without its
/// carriage return when `ended` says that a line feed closed it.
fn cut_line(text: &str, from: usize, to: usize, ended: bool) -> (r: String)
    requires
        from <= to <= text@.len(),
    ensures
        ended ==> r@ == without_cr(text@.subrange(from as int, to as int)),
        !ended ==> r@ == text@.subrange(from as int, to as int),
{
    let mut end = to;
    if ended && to > from && text.get_char(to - 1) == '\r' {
        end = to - 1;
    }
    let line = text.substring_char(from, end);
    proof {
        if ended && to > from && text@[to - 1] == '\r' {
            assert(text@.subrange(from as int, to as int).drop_last() == text@.subrange(
                from as int,
                end as int,
            ));
        }
    }
    String::from_str(line)
}

/// Cuts `text` into its lines, as `str::lines` does: a line ends at a line
/// feed or at a carriage return and line feed, and the last line needs no
/// ending.
pub fn split_lines(text: &str) -> (r: Vec<String>)
    ensures
        string_views(r@) == lines_of(text@),
{
    let n = text.unicode_len();
    let mut lines: Vec<String> = Vec::new();
    let ghost mut done: Seq<Seq<char>> = Seq::empty();
    let mut start: usize = 0;
    let mut i: usize = 0;
    assert(text@.subrange(0, 0) =~= Seq::<char>::empty());
    assert(done.push(text@.subrange(0, 0)) =~= seq![Seq::<char>::empty()]);
    assert(string_views(lines@) =~= ended_lines(done));
    while i < n
        invariant
            n == text@.len(),
            start <= i <= n,
            raw_pieces(text@.subrange(0, i as int)) == done.push(
                text@.subrange(start as int, i as int),
            ),
            string_views(lines@) == ended_lines(done),
        decreases n - i,
    {
        let c = text.get_char(i);
        let ghost prefix = text@.subrange(0, i as int);
        assert(text@.subrange(0, i + 1).drop_last() =~= prefix);
        assert(text@.subrange(0, i + 1).last() == c);
        if c == '\n' {
            let line = cut_line(text, start, i, true);
            let ghost old_lines = lines@;
            let ghost old_done = done;
            lines.push(line);
            proof {
                done = done.push(text@.subrange(start as int, i as int));
                assert(lines@ == old_lines.push(line));
                assert(string_views(old_lines) == ended_lines(old_done));
                assert(string_views(old_lines).len() == old_lines.len());
                assert(ended_lines(old_done).len() == old_done.len());
                assert(done.len() == old_done.len() + 1);
                assert(ended_lines(done).len() == done.len());
                assert forall|k: int| 0 <= k < old_lines.len() implies string_views(lines@)[k]
                    == ended_lines(done)[k] by {
                    assert(string_views(old_lines)[k] == ended_lines(old_done)[k]);
                }
                assert(text@.subrange(i + 1, i + 1) =~= Seq::<char>::empty());
            }
            start = i + 1;
            assert(string_views(lines@) =~= ended_lines(done));
        } else {
            assert(text@.subrange(start as int, i + 1) =~= text@.subrange(
                start as int,
                i as int,
            ).push(c));
            assert(raw_pieces(text@.subrange(0, i + 1)) =~= done.push(
                text@.subrange(start as int, i + 1),
            ));
        }
        i = i + 1;
    }
    assert(text@.subrange(0, n as int) == text@);
    let ghost pieces = raw_pieces(text@);
    assert(pieces.drop_last() =~= done);
    if start < n {
        let line = cut_line(text, start, n, false);
        lines.push(line);
        assert(string_views(lines@) =~= lines_of(text@));
    } else {
        assert(string_views(lines@) =~= lines_of(text@));
    }
    lines
}

} // verus!
