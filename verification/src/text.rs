//! Line splitting and vertical alignment of cell text.
//!
//! A cell's text is split into lines the way `str::lines` does it: lines end
//! at `\n` or `\r\n`, and the final line ending is optional.

use vstd::prelude::*;

use crate::align::VertAlign;

verus! {

/// The number of characters before the first `\n` in `s` (all of `s` when it
/// holds none).
pub open spec fn spec_line_len(s: Seq<char>) -> nat
    decreases s.len(),
{
    if s.len() == 0 || s[0] == '\n' {
        0
    } else {
        1 + spec_line_len(s.drop_first())
    }
}

/// Removes one trailing `\r`, if present.
pub open spec fn spec_strip_cr(line: Seq<char>) -> Seq<char> {
    if line.len() > 0 && line.last() == '\r' {
        line.drop_last()
    } else {
        line
    }
}

/// The lines of `s`: split at `\n` (dropping a `\r` just before it), with no
/// empty line produced by a final line ending.
pub open spec fn spec_lines(s: Seq<char>) -> Seq<Seq<char>>
    decreases s.len(),
{
    if s.len() == 0 {
        seq![]
    } else {
        let n = spec_line_len(s);
        if n < s.len() {
            seq![spec_strip_cr(s.take(n as int))] + spec_lines(s.skip(n as int + 1))
        } else {
            seq![s]
        }
    }
}

/// The views of a vector of string slices.
pub open spec fn str_views(v: Seq<&str>) -> Seq<Seq<char>> {
    v.map_values(|l: &str| l@)
}

/// `spec_line_len` is the position of the first newline.
pub proof fn lemma_line_len(s: Seq<char>, n: int)
    requires
        0 <= n <= s.len(),
        forall|i: int| 0 <= i < n ==> s[i] != '\n',
        n < s.len() ==> s[n] == '\n',
    ensures
        spec_line_len(s) == n,
    decreases n,
{
    if n > 0 {
        assert forall|i: int| 0 <= i < n - 1 implies s.drop_first()[i] != '\n' by {
            assert(s.drop_first()[i] == s[i + 1]);
        }
        lemma_line_len(s.drop_first(), n - 1);
    }
}

/// The first line ends at the first newline.
pub proof fn lemma_line_len_bound(s: Seq<char>)
    ensures
        spec_line_len(s) <= s.len(),
        forall|i: int| 0 <= i < spec_line_len(s) ==> s[i] != '\n',
        spec_line_len(s) < s.len() ==> s[spec_line_len(s) as int] == '\n',
    decreases s.len(),
{
    if s.len() > 0 && s[0] != '\n' {
        lemma_line_len_bound(s.drop_first());
        assert forall|i: int| 0 <= i < spec_line_len(s) implies s[i] != '\n' by {
            if i > 0 {
                assert(s[i] == s.drop_first()[i - 1]);
            }
        }
    }
}

/// Splits `s` into its lines, as `str::lines` does.
pub fn lines(s: &str) -> (res: Vec<&str>)
    ensures
        str_views(res@) == spec_lines(s@),
{
    let len = s.unicode_len();
    let mut res: Vec<&str> = Vec::new();
    let mut pos: usize = 0;
    assert(s@.skip(0) =~= s@);
    while pos < len
        invariant
            pos <= len,
            len == s@.len(),
            str_views(res@) + spec_lines(s@.skip(pos as int)) == spec_lines(s@),
        decreases len - pos,
    {
        let mut j: usize = pos;
        loop
            invariant
                pos <= j <= len,
                len == s@.len(),
                forall|i: int| pos <= i < j ==> s@[i] != '\n',
            ensures
                pos <= j <= len,
                forall|i: int| pos <= i < j ==> s@[i] != '\n',
                j < len ==> s@[j as int] == '\n',
            decreases len - j,
        {
            if j >= len {
                break;
            }
            if s.get_char(j) == '\n' {
                break;
            }
            j = j + 1;
        }
        let ghost rest = s@.skip(pos as int);
        proof {
            assert forall|i: int| 0 <= i < j - pos implies rest[i] != '\n' by {
                assert(rest[i] == s@[pos + i]);
            }
            lemma_line_len(rest, j - pos);
        }
        let mut end: usize = j;
        if j < len && j > pos {
            if s.get_char(j - 1) == '\r' {
                end = j - 1;
            }
        }
        let line = s.substring_char(pos, end);
        let ghost old_res = res@;
        res.push(line);
        proof {
            assert(str_views(res@) =~= str_views(old_res).push(line@));
            if j < len {
                assert(rest.take(j - pos) =~= s@.subrange(pos as int, j as int));
                assert(rest.skip(j - pos + 1) =~= s@.skip(j + 1));
                assert(spec_strip_cr(rest.take(j - pos)) =~= line@);
                assert(spec_lines(rest) == seq![line@] + spec_lines(s@.skip(j + 1)));
                assert(str_views(res@) + spec_lines(s@.skip(j + 1)) =~= str_views(old_res) + spec_lines(rest));
            } else {
                assert(rest =~= line@);
                assert(spec_lines(rest) == seq![line@]);
                assert(s@.skip(len as int) =~= Seq::<char>::empty());
                assert(spec_lines(s@.skip(len as int)) =~= Seq::<Seq<char>>::empty());
                assert(str_views(res@) + spec_lines(s@.skip(len as int)) =~= str_views(old_res) + spec_lines(rest));
            }
        }
        if j < len {
            pos = j + 1;
        } else {
            pos = len;
        }
    }
    assert(s@.skip(len as int) =~= Seq::<char>::empty());
    assert(str_views(res@) + spec_lines(s@.skip(len as int)) =~= str_views(res@));
    res
}

/// Counts the lines of `s`, as `s.lines().count()` does.
pub fn line_count(s: &str) -> (n: usize)
    ensures
        n == spec_lines(s@).len(),
{
    let v = lines(s);
    v.len()
}

/// Lines joined into one, with a single space between neighbouring lines.
pub open spec fn spec_join_lines(ls: Seq<Seq<char>>) -> Seq<char>
    decreases ls.len(),
{
    if ls.len() == 0 {
        Seq::empty()
    } else if ls.len() == 1 {
        ls[0]
    } else {
        spec_join_lines(ls.drop_last()) + seq![' '] + ls.last()
    }
}

/// The text of `s` on a single line: its lines joined with spaces.
pub open spec fn spec_single_line(s: Seq<char>) -> Seq<char> {
    spec_join_lines(spec_lines(s))
}

/// Puts the text of `s` on a single line, joining its lines with spaces.
pub fn single_line(s: &str) -> (res: String)
    ensures
        res@ == spec_single_line(s@),
{
    let ls = lines(s);
    let ghost views = str_views(ls@);
    let mut out = String::new();
    let mut i: usize = 0;
    assert(views.take(0) =~= Seq::<Seq<char>>::empty());
    while i < ls.len()
        invariant
            i <= ls@.len(),
            views == str_views(ls@),
            out@ == spec_join_lines(views.take(i as int)),
        decreases ls.len() - i,
    {
        let ghost prev = out@;
        if i > 0 {
            out.append(" ");
        }
        out.append(ls[i]);
        proof {
            reveal_strlit(" ");
            let t = views.take(i + 1);
            assert(t.drop_last() =~= views.take(i as int));
            assert(t.last() == ls@[i as int]@);
            if i == 0 {
                assert(out@ =~= t[0]);
            } else {
                assert(out@ =~= prev + seq![' '] + t.last());
            }
        }
        i = i + 1;
    }
    assert(views.take(ls.len() as int) =~= views);
    out
}

/// `a - b`, or zero when `b > a`.
pub open spec fn sat_sub(a: nat, b: nat) -> nat {
    if a >= b {
        (a - b) as nat
    } else {
        0
    }
}

/// The index of the row line at which a cell's first text line is placed, for
/// a cell of `n` lines in a row of `height` lines.
pub open spec fn spec_vert_offset(va: VertAlign, height: nat, n: nat) -> nat {
    match va {
        VertAlign::Top => 0,
        VertAlign::Center => sat_sub(height, n) / 2,
        VertAlign::Bottom => sat_sub(height, n),
    }
}

/// The text shown on row line `line_idx` of a cell with the given lines, in a
/// row of `height` lines: the cell's lines start at the alignment offset, and
/// every other row line is empty.
pub open spec fn spec_vert_aligned_line(
    lines: Seq<Seq<char>>,
    line_idx: nat,
    height: nat,
    va: VertAlign,
) -> Seq<char> {
    let off = spec_vert_offset(va, height, lines.len());
    if off <= line_idx && line_idx - off < lines.len() {
        lines[line_idx - off]
    } else {
        Seq::empty()
    }
}

/// Returns the line of `lines` that is shown on row line `line_idx` of a row of
/// `height` lines, after vertically aligning the lines as specified.
pub fn vert_align_lines<'a>(
    lines: &Vec<&'a str>,
    line_idx: usize,
    height: usize,
    vert_align: VertAlign,
) -> (res: &'a str)
    ensures
        res@ == spec_vert_aligned_line(str_views(lines@), line_idx as nat, height as nat, vert_align),
{
    let n = lines.len();
    let slack: usize = if height >= n { height - n } else { 0 };
    let off: usize = match vert_align {
        VertAlign::Top => 0,
        VertAlign::Center => slack / 2,
        VertAlign::Bottom => slack,
    };
    proof {
        reveal_strlit("");
    }
    if off <= line_idx && line_idx - off < n {
        lines[line_idx - off]
    } else {
        ""
    }
}

/// Returns line `line_idx` of `text` after vertically aligning the text's
/// lines in a row of `height` lines.
pub fn vert_aligned_line<'a>(
    text: &'a str,
    line_idx: usize,
    height: usize,
    vert_align: VertAlign,
) -> (res: &'a str)
    ensures
        res@ == spec_vert_aligned_line(spec_lines(text@), line_idx as nat, height as nat, vert_align),
{
    let ls = lines(text);
    vert_align_lines(&ls, line_idx, height, vert_align)
}

} // verus!
