//! Trimming trailing whitespace from lines of text as it is written.

use vstd::prelude::*;

use crate::text_buf::push_char;

verus! {

/// Whether a character is whitespace that the trimmer holds back: space, tab,
/// carriage return, vertical tab or form feed.
pub open spec fn spec_is_trimmable(c: char) -> bool {
    c == ' ' || c == '\t' || c == '\r' || c == '\x0B' || c == '\x0C'
}

/// One step of trimming: from the held-back whitespace and the next
/// character, the new held-back whitespace and the text passed on. A line
/// break discards the held-back whitespace (but for a carriage return right
/// before it); other whitespace is held back; anything else releases it.
pub open spec fn spec_trim_step(pending: Seq<char>, c: char) -> (Seq<char>, Seq<char>) {
    if c == '\n' {
        (
            Seq::empty(),
            (if pending.len() > 0 && pending.last() == '\r' { seq!['\r'] } else { Seq::empty() })
                + seq!['\n'],
        )
    } else if spec_is_trimmable(c) {
        (pending.push(c), Seq::empty())
    } else {
        (Seq::empty(), pending.push(c))
    }
}

/// Trimming a whole text: the held-back whitespace after it, and the text
/// passed on.
pub open spec fn spec_trim(pending: Seq<char>, text: Seq<char>) -> (Seq<char>, Seq<char>)
    decreases text.len(),
{
    if text.len() == 0 {
        (pending, Seq::empty())
    } else {
        let (p, o) = spec_trim(pending, text.drop_last());
        let (p2, o2) = spec_trim_step(p, text.last());
        (p2, o + o2)
    }
}

/// A writer that trims trailing whitespace by holding it back until
/// something other than whitespace follows, and dropping it at a line break.
pub struct TrailingWsTrimWriter {
    /// The held-back whitespace.
    pending: Vec<char>,
}

impl TrailingWsTrimWriter {
    /// The held-back whitespace.
    pub closed spec fn spec_pending(&self) -> Seq<char> {
        self.pending@
    }

    /// Constructs a writer with nothing held back.
    pub fn new() -> (w: TrailingWsTrimWriter)
        ensures
            w.spec_pending() == Seq::<char>::empty(),
    {
        TrailingWsTrimWriter { pending: Vec::new() }
    }

    /// Returns `true` if the character is trimmable.
    pub fn is_trimmable(c: char) -> (b: bool)
        ensures
            b == spec_is_trimmable(c),
    {
        c == ' ' || c == '\t' || c == '\r' || c == '\x0B' || c == '\x0C'
    }

    /// Writes `text`, returning what passes on to the output.
    pub fn write(&mut self, text: &str) -> (out: String)
        ensures
            (final(self).spec_pending(), out@) == spec_trim(old(self).spec_pending(), text@),
    {
        let ghost start = self.pending@;
        let mut out = String::new();
        let n = text.unicode_len();
        let mut i: usize = 0;
        assert(text@.take(0) =~= Seq::<char>::empty());
        while i < n
            invariant
                i <= n,
                n == text@.len(),
                (self.pending@, out@) == spec_trim(start, text@.take(i as int)),
            decreases n - i,
        {
            let c = text.get_char(i);
            assert(text@.take(i + 1).drop_last() =~= text@.take(i as int));
            let ghost p = self.pending@;
            let ghost o = out@;
            if c == '\n' {
                let plen = self.pending.len();
                if plen > 0 && self.pending[plen - 1] == '\r' {
                    push_char(&mut out, '\r');
                }
                self.pending.clear();
                push_char(&mut out, '\n');
            } else if Self::is_trimmable(c) {
                self.pending.push(c);
            } else {
                let mut k: usize = 0;
                while k < self.pending.len()
                    invariant
                        k <= self.pending@.len(),
                        self.pending@ == p,
                        out@ == o + p.take(k as int),
                    decreases self.pending@.len() - k,
                {
                    push_char(&mut out, self.pending[k]);
                    k = k + 1;
                    assert(out@ =~= o + p.take(k as int));
                }
                assert(p.take(p.len() as int) =~= p);
                self.pending.clear();
                push_char(&mut out, c);
            }
            i = i + 1;
            assert((self.pending@, out@) == spec_trim(start, text@.take(i as int))) by {
                assert(out@ =~= o + spec_trim_step(p, c).1);
                assert(self.pending@ =~= spec_trim_step(p, c).0);
            }
        }
        assert(text@.take(n as int) =~= text@);
        out
    }

    /// Returns the held-back whitespace and clears it.
    pub fn flush_pending(&mut self) -> (out: String)
        ensures
            out@ == old(self).spec_pending(),
            final(self).spec_pending() == Seq::<char>::empty(),
    {
        let mut out = String::new();
        let mut k: usize = 0;
        while k < self.pending.len()
            invariant
                k <= self.pending@.len(),
                self.pending@ == old(self).spec_pending(),
                out@ == self.pending@.take(k as int),
            decreases self.pending@.len() - k,
        {
            push_char(&mut out, self.pending[k]);
            k = k + 1;
            assert(out@ =~= self.pending@.take(k as int));
        }
        assert(self.pending@.take(self.pending@.len() as int) =~= self.pending@);
        self.pending.clear();
        out
    }

    /// Discards the held-back whitespace.
    pub fn clear_pending(&mut self)
        ensures
            final(self).spec_pending() == Seq::<char>::empty(),
    {
        self.pending.clear();
    }

    /// Consumes the writer, returning the held-back whitespace, which is
    /// written since no line break follows.
    pub fn into_inner(self) -> (out: String)
        ensures
            out@ == self.spec_pending(),
    {
        let mut w = self;
        w.flush_pending()
    }
}

/// Nothing is lost while no line break is written: what passes on, followed
/// by what is held back, is what came in.
pub proof fn lemma_trim_keeps_text_without_breaks(pending: Seq<char>, text: Seq<char>)
    requires
        !text.contains('\n'),
    ensures
        spec_trim(pending, text).1 + spec_trim(pending, text).0 == pending + text,
    decreases text.len(),
{
    if text.len() > 0 {
        let init = text.drop_last();
        assert(!init.contains('\n')) by {
            if init.contains('\n') {
                let j = choose|j: int| 0 <= j < init.len() && init[j] == '\n';
                assert(text[j] == '\n');
            }
        }
        lemma_trim_keeps_text_without_breaks(pending, init);
        assert(text.last() != '\n') by {
            assert(text[text.len() - 1] == text.last());
        }
        assert(pending + text =~= pending + init + seq![text.last()]);
    }
}

/// Only whitespace is ever held back.
pub proof fn lemma_trim_holds_only_whitespace(pending: Seq<char>, text: Seq<char>)
    requires
        forall|i: int| 0 <= i < pending.len() ==> spec_is_trimmable(#[trigger] pending[i]),
    ensures
        forall|i: int| 0 <= i < spec_trim(pending, text).0.len() ==> spec_is_trimmable(
            #[trigger] spec_trim(pending, text).0[i],
        ),
    decreases text.len(),
{
    if text.len() > 0 {
        lemma_trim_holds_only_whitespace(pending, text.drop_last());
        let (p, o) = spec_trim(pending, text.drop_last());
        let c = text.last();
        let p2 = spec_trim_step(p, c).0;
        assert forall|i: int| 0 <= i < p2.len() implies spec_is_trimmable(#[trigger] p2[i]) by {
            if c != '\n' && spec_is_trimmable(c) {
                if i < p.len() {
                    assert(p2[i] == p[i]);
                }
            }
        }
    }
}

/// Text written after a line break never ends in held-back whitespace: the
/// output of a line ending with a break has no trimmable character right
/// before the break but the carriage return of a CRLF.
pub proof fn lemma_trim_line_end(pending: Seq<char>, text: Seq<char>)
    requires
        text.len() > 0,
        text.last() == '\n',
    ensures
        spec_trim(pending, text).0.len() == 0,
        ({
            let out = spec_trim(pending, text).1;
            &&& out.len() >= 1
            &&& out.last() == '\n'
            &&& out.len() >= 2 && spec_is_trimmable(out[out.len() - 2]) ==> out[out.len() - 2] == '\r'
        }),
{
    let (p, o) = spec_trim(pending, text.drop_last());
    let o2 = spec_trim_step(p, '\n').1;
    let out = o + o2;
    if o2.len() == 2 {
        assert(out[out.len() - 2] == o2[0]);
    } else {
        assert(o2 =~= seq!['\n']);
        if out.len() >= 2 {
            assert(out[out.len() - 2] == o[o.len() - 1]);
            lemma_trim_output_tail(pending, text.drop_last());
        }
    }
}

/// Whatever has been passed on so far never ends in trimmable whitespace.
pub proof fn lemma_trim_output_tail(pending: Seq<char>, text: Seq<char>)
    ensures
        spec_trim(pending, text).1.len() > 0 ==> !spec_is_trimmable(spec_trim(pending, text).1.last()),
    decreases text.len(),
{
    if text.len() > 0 {
        lemma_trim_output_tail(pending, text.drop_last());
    }
}

} // verus!
