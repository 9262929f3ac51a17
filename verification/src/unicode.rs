//! Unicode-aware text measurement and truncation.
//!
//! Text is measured and cut between extended grapheme clusters, as found by
//! the `unicode-segmentation` crate; the display width of text is the one the
//! `unicode-display-width` crate computes.

use vstd::prelude::*;

use crate::align::HorzAlign;

use unicode_segmentation::UnicodeSegmentation;

verus! {

/// The extended grapheme clusters of a text, in order, as
/// `UnicodeSegmentation::graphemes(text, true)` yields them.
pub uninterp spec fn spec_graphemes(text: Seq<char>) -> Seq<Seq<char>>;

/// The number of terminal columns that `unicode_display_width::width` reports
/// for a text.
pub uninterp spec fn spec_display_width(text: Seq<char>) -> u64;

/// The views of a vector of strings.
pub open spec fn string_views(v: Seq<String>) -> Seq<Seq<char>> {
    v.map_values(|g: String| g@)
}

/// Calls `UnicodeSegmentation::graphemes(text, true)` and collects the
/// clusters. The contract claims what the crate's iterator shows: the clusters
/// are non-empty consecutive slices of `text` that together make up all of it.
/// Where the cluster boundaries fall is left to the name `spec_graphemes`.
#[verifier::external_body]
fn grapheme_clusters(text: &str) -> (res: Vec<String>)
    ensures
        string_views(res@) == spec_graphemes(text@),
        string_views(res@).flatten() == text@,
        forall|i: int| 0 <= i < res@.len() ==> (#[trigger] res@[i])@.len() > 0,
{
    text.graphemes(true).map(String::from).collect()
}

/// Calls `unicode_display_width::width`. The contract names its result; the
/// crate computes it as a sum over the text's grapheme clusters, which is not
/// restated here.
#[verifier::external_body]
fn display_width(text: &str) -> (w: u64)
    ensures
        w == spec_display_width(text@),
{
    unicode_display_width::width(text)
}

/// The sum of the display widths of a sequence of grapheme clusters.
pub open spec fn spec_width_sum(gs: Seq<Seq<char>>) -> int
    decreases gs.len(),
{
    if gs.len() == 0 {
        0
    } else {
        spec_width_sum(gs.drop_last()) + spec_display_width(gs.last()) as int
    }
}

/// The display width of a text as the sum of the widths of its grapheme
/// clusters, each measured on its own.
pub open spec fn spec_text_width(text: Seq<char>) -> int {
    spec_width_sum(spec_graphemes(text))
}

/// Width sums are never negative.
pub proof fn lemma_width_sum_nonneg(gs: Seq<Seq<char>>)
    ensures
        spec_width_sum(gs) >= 0,
    decreases gs.len(),
{
    if gs.len() > 0 {
        lemma_width_sum_nonneg(gs.drop_last());
    }
}

/// Width sums add over concatenation.
pub proof fn lemma_width_sum_concat(a: Seq<Seq<char>>, b: Seq<Seq<char>>)
    ensures
        spec_width_sum(a + b) == spec_width_sum(a) + spec_width_sum(b),
    decreases b.len(),
{
    if b.len() == 0 {
        assert(a + b =~= a);
    } else {
        assert((a + b).drop_last() =~= a + b.drop_last());
        assert((a + b).last() == b.last());
        lemma_width_sum_concat(a, b.drop_last());
    }
}

/// The width sum of one cluster is its width.
pub proof fn lemma_width_sum_single(g: Seq<char>)
    ensures
        spec_width_sum(seq![g]) == spec_display_width(g) as int,
{
    assert(seq![g].drop_last() =~= Seq::<Seq<char>>::empty());
    assert(seq![g].last() == g);
    assert(spec_width_sum(Seq::<Seq<char>>::empty()) == 0);
}

/// Adding one cluster at the end of a range adds its width.
pub proof fn lemma_width_sum_extend(gs: Seq<Seq<char>>, a: int, b: int)
    requires
        0 <= a <= b < gs.len(),
    ensures
        spec_width_sum(gs.subrange(a, b + 1)) == spec_width_sum(gs.subrange(a, b))
            + spec_display_width(gs[b]) as int,
{
    assert(gs.subrange(a, b + 1).drop_last() =~= gs.subrange(a, b));
}

/// Adding one cluster at the start of a range adds its width.
pub proof fn lemma_width_sum_extend_front(gs: Seq<Seq<char>>, a: int, b: int)
    requires
        0 < a <= b <= gs.len(),
    ensures
        spec_width_sum(gs.subrange(a - 1, b)) == spec_display_width(gs[a - 1]) as int
            + spec_width_sum(gs.subrange(a, b)),
{
    assert(gs.subrange(a - 1, b) =~= seq![gs[a - 1]] + gs.subrange(a, b));
    lemma_width_sum_concat(seq![gs[a - 1]], gs.subrange(a, b));
    lemma_width_sum_single(gs[a - 1]);
}

/// Splitting a range splits its width.
pub proof fn lemma_width_sum_split(gs: Seq<Seq<char>>, a: int, m: int, b: int)
    requires
        0 <= a <= m <= b <= gs.len(),
    ensures
        spec_width_sum(gs.subrange(a, b)) == spec_width_sum(gs.subrange(a, m))
            + spec_width_sum(gs.subrange(m, b)),
{
    assert(gs.subrange(a, b) =~= gs.subrange(a, m) + gs.subrange(m, b));
    lemma_width_sum_concat(gs.subrange(a, m), gs.subrange(m, b));
}

/// Calculates the width of a string according to the Unicode 15.1.0 standard,
/// as the `unicode-display-width` crate does.
///
/// The width must fit in a `usize`.
pub fn unicode_display_width(text: &str) -> (w: usize)
    requires
        spec_display_width(text@) <= usize::MAX,
    ensures
        w == spec_display_width(text@),
{
    let w = display_width(text);
    w as usize
}

/// Calculates the width of a string according to the Unicode 15.1.0 standard,
/// or `None` where it does not fit in a `usize`.
pub fn checked_unicode_display_width(text: &str) -> (w: Option<usize>)
    ensures
        w matches Some(v) ==> v == spec_display_width(text@),
        w is None <==> spec_display_width(text@) > usize::MAX,
{
    let w = display_width(text);
    if w <= usize::MAX as u64 {
        Some(unicode_display_width(text))
    } else {
        None
    }
}

/// The greedy number of leading clusters that fit in `budget` columns: clusters
/// are taken from the front until the next one would overflow the budget.
pub open spec fn spec_fit_prefix(gs: Seq<Seq<char>>, budget: int) -> nat
    decreases gs.len(),
{
    if gs.len() == 0 || spec_display_width(gs[0]) as int > budget {
        0
    } else {
        1 + spec_fit_prefix(gs.drop_first(), budget - spec_display_width(gs[0]) as int)
    }
}

/// The greedy number of trailing clusters that fit in `budget` columns:
/// clusters are taken from the back until the next one would overflow the
/// budget.
pub open spec fn spec_fit_suffix(gs: Seq<Seq<char>>, budget: int) -> nat
    decreases gs.len(),
{
    if gs.len() == 0 || spec_display_width(gs.last()) as int > budget {
        0
    } else {
        1 + spec_fit_suffix(gs.drop_last(), budget - spec_display_width(gs.last()) as int)
    }
}

/// The last phase of centered truncation: while the kept range `s..e` is wider
/// than `cell_width`, one cluster is cut alternately from the left and from the
/// right, starting on the side that `right_next` names.
pub open spec fn spec_center_trim(
    gs: Seq<Seq<char>>,
    s: int,
    e: int,
    cell_width: int,
    right_next: bool,
) -> (int, int)
    decreases e - s,
{
    if s < e && spec_width_sum(gs.subrange(s, e)) > cell_width {
        if right_next {
            spec_center_trim(gs, s, e - 1, cell_width, false)
        } else {
            spec_center_trim(gs, s + 1, e, cell_width, true)
        }
    } else {
        (s, e)
    }
}

/// The range of clusters that truncation keeps, for clusters `gs` of total
/// width `text_width` in a cell of `cell_width` columns.
pub open spec fn spec_truncation_range(
    gs: Seq<Seq<char>>,
    text_width: int,
    cell_width: int,
    align: HorzAlign,
) -> (int, int) {
    let n = gs.len() as int;
    if text_width <= cell_width {
        (0, n)
    } else if cell_width == 0 {
        (0, 0)
    } else {
        match align {
            HorzAlign::Left => (0, spec_fit_prefix(gs, cell_width) as int),
            HorzAlign::Right => (n - spec_fit_suffix(gs, cell_width), n),
            HorzAlign::Center => {
                let overflow = text_width - cell_width;
                let left_budget = overflow / 2;
                let right_budget = overflow - left_budget;
                let l = spec_fit_prefix(gs, left_budget) as int;
                let e = n - spec_fit_suffix(gs.subrange(l, n), right_budget);
                spec_center_trim(gs, l, e, cell_width, false)
            },
        }
    }
}

/// Indicates the manner of truncation performed and the width of the
/// truncated text.
#[derive(Debug, Clone, Copy, PartialEq, Eq, Hash, Structural)]
pub enum TruncateState {
    /// The left side was truncated to the provided width.
    Left(usize),
    /// The right side was truncated to the provided width.
    Right(usize),
    /// The left and right sides were truncated to the provided width.
    Both(usize),
    /// No truncation occurred, to text of the provided width.
    Neither(usize),
}

impl TruncateState {
    /// The width held by the state.
    pub open spec fn spec_width(self) -> usize {
        match self {
            TruncateState::Left(w) => w,
            TruncateState::Right(w) => w,
            TruncateState::Both(w) => w,
            TruncateState::Neither(w) => w,
        }
    }

    /// Whether the left side was cut.
    pub open spec fn spec_left_truncated(self) -> bool {
        self is Left || self is Both
    }

    /// Whether the right side was cut.
    pub open spec fn spec_right_truncated(self) -> bool {
        self is Right || self is Both
    }

    /// The state for a kept range `s..e` of `n` clusters, of the given width.
    pub open spec fn spec_for_range(s: int, e: int, n: int, width: usize) -> TruncateState {
        if s != 0 && e != n {
            TruncateState::Both(width)
        } else if s == 0 && e != n {
            TruncateState::Right(width)
        } else if s != 0 && e == n {
            TruncateState::Left(width)
        } else {
            TruncateState::Neither(width)
        }
    }

    /// Returns the width of the truncated text.
    pub fn width(self) -> (w: usize)
        ensures
            w == self.spec_width(),
    {
        match self {
            TruncateState::Left(w) => w,
            TruncateState::Right(w) => w,
            TruncateState::Both(w) => w,
            TruncateState::Neither(w) => w,
        }
    }

    /// Returns `true` if the left side was truncated.
    pub fn left_truncated(self) -> (b: bool)
        ensures
            b == self.spec_left_truncated(),
    {
        match self {
            TruncateState::Left(_) | TruncateState::Both(_) => true,
            _ => false,
        }
    }

    /// Returns `true` if the right side was truncated.
    pub fn right_truncated(self) -> (b: bool)
        ensures
            b == self.spec_right_truncated(),
    {
        match self {
            TruncateState::Right(_) | TruncateState::Both(_) => true,
            _ => false,
        }
    }
}


/// The widths of the clusters of `gs`, measured one by one.
fn cluster_widths(gs: &Vec<String>) -> (ws: Vec<u64>)
    ensures
        ws@.len() == gs@.len(),
        forall|i: int| 0 <= i < ws@.len() ==> ws@[i] == spec_display_width(gs@[i]@),
{
    let mut ws: Vec<u64> = Vec::new();
    let mut i: usize = 0;
    while i < gs.len()
        invariant
            i <= gs@.len(),
            ws@.len() == i,
            forall|k: int| 0 <= k < i ==> ws@[k] == spec_display_width(gs@[k]@),
        decreases gs@.len() - i,
    {
        let w = display_width(gs[i].as_str());
        ws.push(w);
        i = i + 1;
    }
    ws
}

/// Whether `ws` holds the display widths of the clusters `gs`.
pub open spec fn widths_of(ws: Seq<u64>, gs: Seq<Seq<char>>) -> bool {
    &&& ws.len() == gs.len()
    &&& forall|i: int| 0 <= i < ws.len() ==> ws[i] == spec_display_width(gs[i])
}

/// Walks clusters `lo..hi` from the front, taking each while the total stays
/// within `budget`. Returns the end of the taken range and its width.
fn greedy_prefix(ws: &Vec<u64>, Ghost(gs): Ghost<Seq<Seq<char>>>, lo: usize, hi: usize, budget: u64)
    -> (res: (usize, u64))
    requires
        widths_of(ws@, gs),
        lo <= hi <= gs.len(),
    ensures
        res.0 == lo + spec_fit_prefix(gs.subrange(lo as int, hi as int), budget as int),
        lo <= res.0 <= hi,
        res.1 == spec_width_sum(gs.subrange(lo as int, res.0 as int)),
        res.1 <= budget,
{
    let mut i: usize = lo;
    let mut used: u64 = 0;
    assert(gs.subrange(lo as int, lo as int) =~= Seq::<Seq<char>>::empty());
    while i < hi && ws[i] <= budget - used
        invariant
            widths_of(ws@, gs),
            lo <= i <= hi <= gs.len(),
            used == spec_width_sum(gs.subrange(lo as int, i as int)),
            used <= budget,
            spec_fit_prefix(gs.subrange(lo as int, hi as int), budget as int) == (i - lo)
                + spec_fit_prefix(gs.subrange(i as int, hi as int), budget - used),
        decreases hi - i,
    {
        let w = ws[i];
        let ghost rest = gs.subrange(i as int, hi as int);
        assert(rest[0] == gs[i as int]);
        assert(rest.drop_first() =~= gs.subrange(i + 1, hi as int));
        proof {
            lemma_width_sum_extend(gs, lo as int, i as int);
        }
        used = used + w;
        i = i + 1;
    }
    if i == hi {
        assert(gs.subrange(hi as int, hi as int) =~= Seq::<Seq<char>>::empty());
    } else {
        let ghost rest = gs.subrange(i as int, hi as int);
        assert(rest[0] == gs[i as int]);
        assert(spec_fit_prefix(rest, (budget - used) as int) == 0);
    }
    (i, used)
}

/// Walks clusters `lo..hi` from the back, taking each while the total stays
/// within `budget`. Returns the start of the taken range and its width.
fn greedy_suffix(ws: &Vec<u64>, Ghost(gs): Ghost<Seq<Seq<char>>>, lo: usize, hi: usize, budget: u64)
    -> (res: (usize, u64))
    requires
        widths_of(ws@, gs),
        lo <= hi <= gs.len(),
    ensures
        res.0 == hi - spec_fit_suffix(gs.subrange(lo as int, hi as int), budget as int),
        lo <= res.0 <= hi,
        res.1 == spec_width_sum(gs.subrange(res.0 as int, hi as int)),
        res.1 <= budget,
{
    let mut j: usize = hi;
    let mut used: u64 = 0;
    assert(gs.subrange(hi as int, hi as int) =~= Seq::<Seq<char>>::empty());
    while j > lo && ws[j - 1] <= budget - used
        invariant
            widths_of(ws@, gs),
            lo <= j <= hi <= gs.len(),
            used == spec_width_sum(gs.subrange(j as int, hi as int)),
            used <= budget,
            spec_fit_suffix(gs.subrange(lo as int, hi as int), budget as int) == (hi - j)
                + spec_fit_suffix(gs.subrange(lo as int, j as int), budget - used),
        decreases j - lo,
    {
        let w = ws[j - 1];
        let ghost rest = gs.subrange(lo as int, j as int);
        assert(rest.last() == gs[j - 1]);
        assert(rest.drop_last() =~= gs.subrange(lo as int, j - 1));
        proof {
            lemma_width_sum_extend_front(gs, j as int, hi as int);
        }
        used = used + w;
        j = j - 1;
    }
    if j == lo {
        assert(gs.subrange(lo as int, lo as int) =~= Seq::<Seq<char>>::empty());
    } else {
        let ghost rest = gs.subrange(lo as int, j as int);
        assert(rest.last() == gs[j - 1]);
        assert(spec_fit_suffix(rest, (budget - used) as int) == 0);
    }
    (j, used)
}

/// The text of the clusters `s..e`.
fn join_clusters(gs: &Vec<String>, s: usize, e: usize) -> (res: String)
    requires
        s <= e <= gs@.len(),
    ensures
        res@ == string_views(gs@).subrange(s as int, e as int).flatten(),
{
    let ghost gv = string_views(gs@);
    let mut out = String::new();
    let mut i: usize = s;
    assert(gv.subrange(s as int, s as int) =~= Seq::<Seq<char>>::empty());
    while i < e
        invariant
            s <= i <= e <= gs@.len(),
            gv == string_views(gs@),
            out@ == gv.subrange(s as int, i as int).flatten(),
        decreases e - i,
    {
        assert(gv.subrange(s as int, i + 1) =~= gv.subrange(s as int, i as int).push(gs@[i as int]@));
        proof { gv.subrange(s as int, i as int).lemma_flatten_push(gs@[i as int]@); }
        out.append(gs[i].as_str());
        i = i + 1;
    }
    out
}

/// The cut-alternating phase of centered truncation always ends in a range
/// that fits the cell, or in an empty range.
pub proof fn lemma_center_trim_fits(gs: Seq<Seq<char>>, s: int, e: int, cell_width: int, right_next: bool)
    requires
        0 <= s <= e <= gs.len(),
        cell_width >= 0,
    ensures
        ({
            let (s2, e2) = spec_center_trim(gs, s, e, cell_width, right_next);
            &&& s <= s2 <= e2 <= e
            &&& spec_width_sum(gs.subrange(s2, e2)) <= cell_width
        }),
    decreases e - s,
{
    if s < e && spec_width_sum(gs.subrange(s, e)) > cell_width {
        if right_next {
            lemma_center_trim_fits(gs, s, e - 1, cell_width, false);
        } else {
            lemma_center_trim_fits(gs, s + 1, e, cell_width, true);
        }
    } else if s == e {
        assert(gs.subrange(s, e) =~= Seq::<Seq<char>>::empty());
    }
}

/// The greedy prefix fits its budget and cannot take one more cluster.
pub proof fn lemma_fit_prefix(gs: Seq<Seq<char>>, budget: int)
    requires
        budget >= 0,
    ensures
        spec_fit_prefix(gs, budget) <= gs.len(),
        spec_width_sum(gs.take(spec_fit_prefix(gs, budget) as int)) <= budget,
        spec_fit_prefix(gs, budget) < gs.len() ==> spec_width_sum(
            gs.take(spec_fit_prefix(gs, budget) as int + 1),
        ) > budget,
    decreases gs.len(),
{
    let k = spec_fit_prefix(gs, budget) as int;
    if gs.len() == 0 || spec_display_width(gs[0]) as int > budget {
        assert(gs.take(0) =~= Seq::<Seq<char>>::empty());
        if gs.len() > 0 {
            assert(gs.take(1) =~= seq![gs[0]]);
            lemma_width_sum_single(gs[0]);
        }
    } else {
        let w = spec_display_width(gs[0]) as int;
        let rest = gs.drop_first();
        lemma_fit_prefix(rest, budget - w);
        assert(k == 1 + spec_fit_prefix(rest, budget - w));
        assert(gs.take(k) =~= seq![gs[0]] + rest.take(k - 1));
        lemma_width_sum_concat(seq![gs[0]], rest.take(k - 1));
        lemma_width_sum_single(gs[0]);
        if k < gs.len() {
            assert(gs.take(k + 1) =~= seq![gs[0]] + rest.take(k));
            lemma_width_sum_concat(seq![gs[0]], rest.take(k));
        }
    }
}

/// The greedy suffix fits its budget and cannot take one more cluster.
pub proof fn lemma_fit_suffix(gs: Seq<Seq<char>>, budget: int)
    requires
        budget >= 0,
    ensures
        spec_fit_suffix(gs, budget) <= gs.len(),
        spec_width_sum(gs.skip(gs.len() - spec_fit_suffix(gs, budget))) <= budget,
        spec_fit_suffix(gs, budget) < gs.len() ==> spec_width_sum(
            gs.skip(gs.len() - spec_fit_suffix(gs, budget) - 1),
        ) > budget,
    decreases gs.len(),
{
    let k = spec_fit_suffix(gs, budget) as int;
    let n = gs.len() as int;
    if gs.len() == 0 || spec_display_width(gs.last()) as int > budget {
        assert(gs.skip(n) =~= Seq::<Seq<char>>::empty());
        if gs.len() > 0 {
            assert(gs.skip(n - 1) =~= seq![gs.last()]);
            lemma_width_sum_single(gs.last());
        }
    } else {
        let w = spec_display_width(gs.last()) as int;
        let rest = gs.drop_last();
        lemma_fit_suffix(rest, budget - w);
        assert(k == 1 + spec_fit_suffix(rest, budget - w));
        assert(gs.skip(n - k) =~= rest.skip(n - 1 - (k - 1)).push(gs.last()));
        assert(gs.skip(n - k).drop_last() =~= rest.skip(n - 1 - (k - 1)));
        if k < n {
            assert(gs.skip(n - k - 1) =~= rest.skip(n - 1 - k).push(gs.last()));
            assert(gs.skip(n - k - 1).drop_last() =~= rest.skip(n - 1 - k));
        }
    }
}

/// Cuts clusters alternately from the left and the right of `l..e0` until
/// the kept range fits `cell_width` columns or is empty.
fn center_trim_loop(
    ws: &Vec<u64>,
    Ghost(gs): Ghost<Seq<Seq<char>>>,
    l: usize,
    e0: usize,
    width: usize,
    cell_width: usize,
) -> (res: (usize, usize, usize))
    requires
        widths_of(ws@, gs),
        l <= e0 <= gs.len(),
        width == spec_width_sum(gs.subrange(l as int, e0 as int)),
    ensures
        (res.0 as int, res.1 as int) == spec_center_trim(gs, l as int, e0 as int, cell_width as int, false),
        res.2 == spec_width_sum(gs.subrange(res.0 as int, res.1 as int)),
{
    let mut start: usize = l;
    let mut end: usize = e0;
    let mut curr: usize = width;
    let mut trim_right_next = false;
    while curr > cell_width && end > start
        invariant
            widths_of(ws@, gs),
            l <= start <= end <= e0 <= gs.len(),
            curr == spec_width_sum(gs.subrange(start as int, end as int)),
            spec_center_trim(gs, start as int, end as int, cell_width as int, trim_right_next)
                == spec_center_trim(gs, l as int, e0 as int, cell_width as int, false),
        decreases end - start,
    {
        if trim_right_next {
            proof {
                lemma_width_sum_extend(gs, start as int, end - 1);
                lemma_width_sum_nonneg(gs.subrange(start as int, end - 1));
            }
            curr = curr - (ws[end - 1] as usize);
            end = end - 1;
        } else {
            proof {
                lemma_width_sum_extend_front(gs, start + 1, end as int);
                lemma_width_sum_nonneg(gs.subrange(start + 1, end as int));
            }
            curr = curr - (ws[start] as usize);
            start = start + 1;
        }
        trim_right_next = !trim_right_next;
    }
    (start, end, curr)
}

/// The centered-truncation range of clusters `0..n` of total width
/// `text_width`, and its width.
fn center_range(ws: &Vec<u64>, Ghost(gs): Ghost<Seq<Seq<char>>>, text_width: usize, cell_width: usize)
    -> (res: (usize, usize, usize))
    requires
        widths_of(ws@, gs),
        text_width > cell_width > 0,
        text_width == spec_width_sum(gs),
    ensures
        (res.0 as int, res.1 as int) == spec_truncation_range(gs, text_width as int, cell_width as int, HorzAlign::Center),
        res.0 <= res.1 <= gs.len(),
        res.2 == spec_width_sum(gs.subrange(res.0 as int, res.1 as int)),
        res.2 <= cell_width,
{
    let n = ws.len();
    assert(gs.subrange(0, n as int) =~= gs);
    let overflow: u64 = (text_width - cell_width) as u64;
    let left_budget: u64 = overflow / 2;
    let right_budget: u64 = overflow - left_budget;
    let (l, left_cut) = greedy_prefix(ws, Ghost(gs), 0, n, left_budget);
    let (e0, right_cut) = greedy_suffix(ws, Ghost(gs), l, n, right_budget);
    proof {
        lemma_width_sum_split(gs, 0, l as int, n as int);
        lemma_width_sum_split(gs, l as int, e0 as int, n as int);
        lemma_width_sum_nonneg(gs.subrange(l as int, e0 as int));
        lemma_center_trim_fits(gs, l as int, e0 as int, cell_width as int, false);
    }
    let curr: usize = text_width - (left_cut as usize) - (right_cut as usize);
    center_trim_loop(ws, Ghost(gs), l, e0, curr, cell_width)
}

/// The state that truncation reports for a kept range `s..e` of `n` clusters.
fn state_for_range(s: usize, e: usize, n: usize, width: usize) -> (st: TruncateState)
    ensures
        st == TruncateState::spec_for_range(s as int, e as int, n as int, width),
{
    if s != 0 && e != n {
        TruncateState::Both(width)
    } else if s == 0 && e != n {
        TruncateState::Right(width)
    } else if s != 0 && e == n {
        TruncateState::Left(width)
    } else {
        TruncateState::Neither(width)
    }
}

/// Truncates strings that overflow their cell widths by cutting them between
/// unicode grapheme cluster boundaries such that the text fits within the given
/// cell width.
///
/// Returns the kept text and the `TruncateState` indicating its width and
/// which sides were truncated. Left-aligned text keeps the longest fitting
/// prefix, right-aligned text the longest fitting suffix, and centered text is
/// cut from both sides.
pub fn unicode_grapheme_aware_truncation(
    text: &str,
    text_width: usize,
    cell_width: usize,
    align: HorzAlign,
) -> (res: (String, TruncateState))
    requires
        align == HorzAlign::Center && text_width > cell_width > 0 ==> text_width == spec_text_width(text@),
    ensures
        text_width <= cell_width ==> res.0@ == text@ && res.1 == TruncateState::Neither(text_width),
        text_width > cell_width && cell_width == 0 ==> res.0@ == Seq::<char>::empty() && res.1
            == TruncateState::Neither(0),
        res.0@ == spec_truncate(text@, text_width, cell_width, align).0,
        res.1 == spec_truncate(text@, text_width, cell_width, align).1,
        res.1.spec_width() <= cell_width || text_width <= cell_width,
{
    if text_width <= cell_width {
        return (String::from_str(text), TruncateState::Neither(text_width));
    }
    if cell_width == 0 {
        return (String::new(), TruncateState::Neither(0));
    }
    let gs = grapheme_clusters(text);
    let ghost gv = string_views(gs@);
    let ws = cluster_widths(&gs);
    let n = gs.len();
    assert(widths_of(ws@, gv));
    assert(gv.subrange(0, n as int) =~= gv);
    let cell: u64 = cell_width as u64;
    let (s, e, w) = match align {
        HorzAlign::Left => {
            let (end, used) = greedy_prefix(&ws, Ghost(gv), 0, n, cell);
            (0, end, used as usize)
        },
        HorzAlign::Right => {
            let (start, used) = greedy_suffix(&ws, Ghost(gv), 0, n, cell);
            (start, n, used as usize)
        },
        HorzAlign::Center => center_range(&ws, Ghost(gv), text_width, cell_width),
    };
    let out = join_clusters(&gs, s, e);
    proof {
        lemma_truncation_range_fits(gv, text_width as int, cell_width as int, align);
    }
    (out, state_for_range(s, e, n, w))
}


/// The text and state that truncation produces: text that fits is kept whole;
/// otherwise the clusters of `spec_truncation_range` are kept.
pub open spec fn spec_truncate(text: Seq<char>, text_width: usize, cell_width: usize, align: HorzAlign)
    -> (Seq<char>, TruncateState)
{
    if text_width <= cell_width {
        (text, TruncateState::Neither(text_width))
    } else if cell_width == 0 {
        (Seq::empty(), TruncateState::Neither(0))
    } else {
        let gs = spec_graphemes(text);
        let (s, e) = spec_truncation_range(gs, text_width as int, cell_width as int, align);
        (
            gs.subrange(s, e).flatten(),
            TruncateState::spec_for_range(s, e, gs.len() as int, spec_width_sum(gs.subrange(s, e)) as usize),
        )
    }
}

/// Truncation keeps a range of clusters that fits the cell: a prefix for
/// left-aligned text, a suffix for right-aligned text.
pub proof fn lemma_truncation_range_fits(gs: Seq<Seq<char>>, text_width: int, cell_width: int, align: HorzAlign)
    requires
        text_width > cell_width > 0,
    ensures
        ({
            let (s, e) = spec_truncation_range(gs, text_width, cell_width, align);
            &&& 0 <= s <= e <= gs.len()
            &&& spec_width_sum(gs.subrange(s, e)) <= cell_width
            &&& align == HorzAlign::Left ==> s == 0
            &&& align == HorzAlign::Right ==> e == gs.len()
        }),
{
    let n = gs.len() as int;
    match align {
        HorzAlign::Left => {
            lemma_fit_prefix(gs, cell_width);
        },
        HorzAlign::Right => {
            lemma_fit_suffix(gs, cell_width);
            assert(gs.skip(n - spec_fit_suffix(gs, cell_width)) =~= gs.subrange(
                n - spec_fit_suffix(gs, cell_width),
                n,
            ));
        },
        HorzAlign::Center => {
            let overflow = text_width - cell_width;
            let left_budget = overflow / 2;
            let right_budget = overflow - left_budget;
            lemma_fit_prefix(gs, left_budget);
            let l = spec_fit_prefix(gs, left_budget) as int;
            lemma_fit_suffix(gs.subrange(l, n), right_budget);
            let e = n - spec_fit_suffix(gs.subrange(l, n), right_budget);
            lemma_center_trim_fits(gs, l, e, cell_width, false);
        },
    }
}

/// Truncation never keeps text wider than the cell: the state's width is at
/// most the cell width whenever the text did not fit.
pub proof fn lemma_truncate_fits(text: Seq<char>, text_width: usize, cell_width: usize, align: HorzAlign)
    requires
        text_width > cell_width,
    ensures
        spec_truncate(text, text_width, cell_width, align).1.spec_width() <= cell_width,
        align == HorzAlign::Left ==> !spec_truncate(text, text_width, cell_width, align).1.spec_left_truncated(),
        align == HorzAlign::Right ==> !spec_truncate(text, text_width, cell_width, align).1.spec_right_truncated(),
{
    if cell_width > 0 {
        let gs = spec_graphemes(text);
        lemma_truncation_range_fits(gs, text_width as int, cell_width as int, align);
        let (s, e) = spec_truncation_range(gs, text_width as int, cell_width as int, align);
        lemma_width_sum_nonneg(gs.subrange(s, e));
    }
}

/// Measures a text as the sum of the display widths of its grapheme clusters,
/// or `None` where the sum does not fit in a `usize`.
pub fn cluster_width_sum(text: &str) -> (w: Option<usize>)
    ensures
        w matches Some(v) ==> v == spec_text_width(text@),
        w is None ==> spec_text_width(text@) > usize::MAX,
{
    let gs = grapheme_clusters(text);
    let ghost gv = string_views(gs@);
    let ws = cluster_widths(&gs);
    let mut total: usize = 0;
    let mut i: usize = 0;
    assert(gv.subrange(0, 0) =~= Seq::<Seq<char>>::empty());
    while i < ws.len()
        invariant
            widths_of(ws@, gv),
            gv == string_views(gs@),
            gv == spec_graphemes(text@),
            i <= ws@.len(),
            total == spec_width_sum(gv.subrange(0, i as int)),
        decreases ws@.len() - i,
    {
        proof {
            lemma_width_sum_extend(gv, 0, i as int);
        }
        if ws[i] > (usize::MAX - total) as u64 {
            proof {
                let n = gv.len() as int;
                assert(gv.subrange(0, n) =~= gv);
                lemma_width_sum_split(gv, 0, i + 1, n);
                lemma_width_sum_nonneg(gv.subrange(i + 1, n));
                assert(spec_width_sum(gv) >= total + ws@[i as int]);
            }
            return None;
        }
        total = total + ws[i] as usize;
        i = i + 1;
    }
    assert(gv.subrange(0, ws@.len() as int) =~= gv);
    Some(total)
}

/// Truncates `text` to fit `cell_width` columns as
/// `unicode_grapheme_aware_truncation` does, measuring the text as the sum of
/// its clusters' widths. Returns `None` only where that sum does not fit in a
/// `usize`.
pub fn truncate_text(text: &str, cell_width: usize, align: HorzAlign) -> (res: Option<(String, TruncateState)>)
    ensures
        res is None <==> spec_text_width(text@) > usize::MAX,
        res matches Some(r) ==> ({
            let t = spec_truncate(text@, spec_text_width(text@) as usize, cell_width, align);
            r.0@ == t.0 && r.1 == t.1
        }),
{
    match cluster_width_sum(text) {
        Some(w) => Some(unicode_grapheme_aware_truncation(text, w, cell_width, align)),
        None => None,
    }
}

} // verus!
