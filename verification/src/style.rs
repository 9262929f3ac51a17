//! ANSI terminal text styles.

use vstd::prelude::*;

use crate::text_buf::push_char;

verus! {

/// An ANSI terminal text style: a set of effects and optional 256-color
/// foreground and background colors. The plain style renders as nothing.
#[derive(Debug, Clone, Copy, PartialEq, Eq, Hash, Structural)]
pub struct Style {
    /// Bold text (SGR 1).
    pub bold: bool,
    /// Dimmed text (SGR 2).
    pub dimmed: bool,
    /// Italic text (SGR 3).
    pub italic: bool,
    /// Underlined text (SGR 4).
    pub underline: bool,
    /// Foreground color index (SGR 38;5).
    pub fg: Option<u8>,
    /// Background color index (SGR 48;5).
    pub bg: Option<u8>,
}

/// The decimal digits of a byte.
pub open spec fn spec_decimal(n: u8) -> Seq<char> {
    let d0 = (n % 10) as int;
    let d1 = ((n / 10) % 10) as int;
    let d2 = (n / 100) as int;
    if n >= 100 {
        seq![spec_digit(d2), spec_digit(d1), spec_digit(d0)]
    } else if n >= 10 {
        seq![spec_digit(d1), spec_digit(d0)]
    } else {
        seq![spec_digit(d0)]
    }
}

/// The character of a decimal digit.
pub open spec fn spec_digit(d: int) -> char {
    if d == 0 { '0' } else if d == 1 { '1' } else if d == 2 { '2' } else if d == 3 { '3' }
    else if d == 4 { '4' } else if d == 5 { '5' } else if d == 6 { '6' } else if d == 7 { '7' }
    else if d == 8 { '8' } else { '9' }
}

fn digit(d: u8) -> (c: char)
    requires
        d < 10,
    ensures
        c == spec_digit(d as int),
{
    if d == 0 { '0' } else if d == 1 { '1' } else if d == 2 { '2' } else if d == 3 { '3' }
    else if d == 4 { '4' } else if d == 5 { '5' } else if d == 6 { '6' } else if d == 7 { '7' }
    else if d == 8 { '8' } else { '9' }
}

fn push_decimal(s: &mut String, n: u8)
    ensures
        final(s)@ == old(s)@ + spec_decimal(n),
{
    let ghost start = s@;
    if n >= 100 {
        push_char(s, digit(n / 100));
    }
    if n >= 10 {
        push_char(s, digit((n / 10) % 10));
    }
    push_char(s, digit(n % 10));
    assert(s@ =~= start + spec_decimal(n));
}

/// The SGR parameters of a style, in order: effects, then colors.
pub open spec fn spec_sgr_params(st: Style) -> Seq<Seq<char>> {
    (if st.bold { seq![seq!['1']] } else { seq![] })
    + (if st.dimmed { seq![seq!['2']] } else { seq![] })
    + (if st.italic { seq![seq!['3']] } else { seq![] })
    + (if st.underline { seq![seq!['4']] } else { seq![] })
    + (match st.fg { Some(c) => seq![seq!['3', '8', ';', '5', ';'] + spec_decimal(c)], None => seq![] })
    + (match st.bg { Some(c) => seq![seq!['4', '8', ';', '5', ';'] + spec_decimal(c)], None => seq![] })
}

/// Parameters joined by `;`.
pub open spec fn spec_join_params(ps: Seq<Seq<char>>) -> Seq<char>
    decreases ps.len(),
{
    if ps.len() == 0 {
        seq![]
    } else if ps.len() == 1 {
        ps[0]
    } else {
        spec_join_params(ps.drop_last()) + seq![';'] + ps.last()
    }
}

/// The SGR parameters of a style as strings.
fn sgr_params(st: &Style) -> (ps: Vec<String>)
    ensures
        crate::unicode::string_views(ps@) == spec_sgr_params(*st),
{
    let mut ps: Vec<String> = Vec::new();
    let ghost mut expect: Seq<Seq<char>> = seq![];
    if st.bold {
        ps.push(crate::text_buf::char_string('1'));
        proof { expect = expect + seq![seq!['1']]; }
    }
    assert(crate::unicode::string_views(ps@) =~= expect);
    if st.dimmed {
        ps.push(crate::text_buf::char_string('2'));
        proof { expect = expect + seq![seq!['2']]; }
    }
    assert(crate::unicode::string_views(ps@) =~= expect);
    if st.italic {
        ps.push(crate::text_buf::char_string('3'));
        proof { expect = expect + seq![seq!['3']]; }
    }
    assert(crate::unicode::string_views(ps@) =~= expect);
    if st.underline {
        ps.push(crate::text_buf::char_string('4'));
        proof { expect = expect + seq![seq!['4']]; }
    }
    assert(crate::unicode::string_views(ps@) =~= expect);
    if let Some(c) = st.fg {
        let mut p = String::new();
        push_char(&mut p, '3');
        push_char(&mut p, '8');
        push_char(&mut p, ';');
        push_char(&mut p, '5');
        push_char(&mut p, ';');
        push_decimal(&mut p, c);
        assert(p@ =~= seq!['3', '8', ';', '5', ';'] + spec_decimal(c));
        ps.push(p);
        proof { expect = expect + seq![seq!['3', '8', ';', '5', ';'] + spec_decimal(c)]; }
    }
    assert(crate::unicode::string_views(ps@) =~= expect);
    if let Some(c) = st.bg {
        let mut p = String::new();
        push_char(&mut p, '4');
        push_char(&mut p, '8');
        push_char(&mut p, ';');
        push_char(&mut p, '5');
        push_char(&mut p, ';');
        push_decimal(&mut p, c);
        assert(p@ =~= seq!['4', '8', ';', '5', ';'] + spec_decimal(c));
        ps.push(p);
        proof { expect = expect + seq![seq!['4', '8', ';', '5', ';'] + spec_decimal(c)]; }
    }
    assert(crate::unicode::string_views(ps@) =~= expect);
    assert(expect =~= spec_sgr_params(*st));
    ps
}

impl Style {
    /// The style with no effects and no colors.
    pub open spec fn spec_plain() -> Style {
        Style { bold: false, dimmed: false, italic: false, underline: false, fg: None, bg: None }
    }

    /// Whether the style changes nothing.
    pub open spec fn spec_is_plain(self) -> bool {
        spec_sgr_params(self).len() == 0
    }

    /// The escape sequence that starts the style: empty for the plain style,
    /// otherwise `ESC [` followed by the `;`-separated parameters and `m`.
    pub open spec fn spec_render(self) -> Seq<char> {
        if self.spec_is_plain() {
            seq![]
        } else {
            seq!['\x1b', '['] + spec_join_params(spec_sgr_params(self)) + seq!['m']
        }
    }

    /// The escape sequence that resets the style: empty for the plain style,
    /// otherwise `ESC [ 0 m`.
    pub open spec fn spec_render_reset(self) -> Seq<char> {
        if self.spec_is_plain() {
            seq![]
        } else {
            seq!['\x1b', '[', '0', 'm']
        }
    }

    /// The plain style draws no escape sequences.
    pub proof fn lemma_plain_renders_nothing()
        ensures
            Style::spec_plain().spec_is_plain(),
            Style::spec_plain().spec_render() == Seq::<char>::empty(),
            Style::spec_plain().spec_render_reset() == Seq::<char>::empty(),
    {
        assert(spec_sgr_params(Style::spec_plain()) =~= Seq::<Seq<char>>::empty());
    }

    /// Constructs the plain style.
    pub fn new() -> (st: Style)
        ensures
            st == Style::spec_plain(),
    {
        Style { bold: false, dimmed: false, italic: false, underline: false, fg: None, bg: None }
    }

    /// Returns `true` if the style changes nothing.
    pub fn is_plain(&self) -> (b: bool)
        ensures
            b == self.spec_is_plain(),
    {
        !(self.bold || self.dimmed || self.italic || self.underline || self.fg.is_some() || self.bg.is_some())
    }

    /// Renders the escape sequence that starts the style.
    pub fn render(&self) -> (s: String)
        ensures
            s@ == self.spec_render(),
    {
        if self.is_plain() {
            return String::new();
        }
        let ps = sgr_params(self);
        let mut s = String::new();
        push_char(&mut s, '\x1b');
        push_char(&mut s, '[');
        let ghost head = s@;
        let mut i: usize = 0;
        let ghost pv = crate::unicode::string_views(ps@);
        assert(pv.take(0) =~= Seq::<Seq<char>>::empty());
        while i < ps.len()
            invariant
                i <= ps@.len(),
                pv == crate::unicode::string_views(ps@),
                s@ == head + spec_join_params(pv.take(i as int)),
            decreases ps@.len() - i,
        {
            assert(pv.take(i + 1).drop_last() =~= pv.take(i as int));
            if i > 0 {
                push_char(&mut s, ';');
            } else {
                assert(pv.take(1) =~= seq![pv[0]]);
            }
            s.append(ps[i].as_str());
            i = i + 1;
            assert(s@ =~= head + spec_join_params(pv.take(i as int)));
        }
        assert(pv.take(ps@.len() as int) =~= pv);
        push_char(&mut s, 'm');
        assert(s@ =~= self.spec_render());
        s
    }

    /// Renders the escape sequence that resets the style.
    pub fn render_reset(&self) -> (s: String)
        ensures
            s@ == self.spec_render_reset(),
    {
        if self.is_plain() {
            return String::new();
        }
        let mut s = String::new();
        push_char(&mut s, '\x1b');
        push_char(&mut s, '[');
        push_char(&mut s, '0');
        push_char(&mut s, 'm');
        assert(s@ =~= self.spec_render_reset());
        s
    }
}

} // verus!
