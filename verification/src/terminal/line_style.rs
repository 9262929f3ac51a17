//! Box-drawing characters for table borders and separators.

use vstd::prelude::*;

use crate::style::Style;

verus! {

/// The line shape for a box drawn character.
#[derive(Debug, Clone, Copy, PartialEq, Eq, Hash, Structural)]
pub enum LineShape {
    /// Draw empty space.
    Empty,
    /// Draw a light line.
    Light,
    /// Draw a light double-dashed line.
    LightDash2,
    /// Draw a light triple-dashed line.
    LightDash3,
    /// Draw a light quadruple-dashed line.
    LightDash4,
    /// Draw a heavy line.
    Heavy,
    /// Draw a heavy double-dashed line.
    HeavyDash2,
    /// Draw a heavy triple-dashed line.
    HeavyDash3,
    /// Draw a heavy quadruple-dashed line.
    HeavyDash4,
    /// Draw a double line.
    Double,
}

impl LineShape {
    /// The shape's fallback: dashed shapes fall back to their solid weight.
    pub open spec fn spec_fallback(self) -> LineShape {
        match self {
            LineShape::LightDash2 | LineShape::LightDash3 | LineShape::LightDash4 => LineShape::Light,
            LineShape::HeavyDash2 | LineShape::HeavyDash3 | LineShape::HeavyDash4 => LineShape::Heavy,
            other => other,
        }
    }

    /// Whether the shape is one that every junction table covers.
    pub open spec fn is_basic(self) -> bool {
        self is Empty || self is Light || self is Heavy || self is Double
    }

    /// Returns `true` if the `LineShape` is `Empty`.
    pub fn is_empty(self) -> (b: bool)
        ensures
            b == (self is Empty),
    {
        match self {
            LineShape::Empty => true,
            _ => false,
        }
    }

    /// Returns a fallback `LineShape` to use when a requested component is not
    /// available in the given shape.
    pub fn fallback(self) -> (s: LineShape)
        ensures
            s == self.spec_fallback(),
            s.is_basic(),
    {
        match self {
            LineShape::LightDash2 | LineShape::LightDash3 | LineShape::LightDash4 => LineShape::Light,
            LineShape::HeavyDash2 | LineShape::HeavyDash3 | LineShape::HeavyDash4 => LineShape::Heavy,
            other => other,
        }
    }

    /// The character used for drawing horizontal lines.
    pub open spec fn spec_horz(self) -> char {
        match self {
            LineShape::Empty => ' ',
            LineShape::Light => '─',
            LineShape::LightDash2 => '╌',
            LineShape::LightDash3 => '┄',
            LineShape::LightDash4 => '┈',
            LineShape::Heavy => '━',
            LineShape::HeavyDash2 => '╍',
            LineShape::HeavyDash3 => '┅',
            LineShape::HeavyDash4 => '┉',
            LineShape::Double => '═',
        }
    }

    /// Returns the `char` to use for drawing horizontal lines.
    pub fn horz(self) -> (c: char)
        ensures
            c == self.spec_horz(),
    {
        match self {
            LineShape::Empty => ' ',
            LineShape::Light => '─',
            LineShape::LightDash2 => '╌',
            LineShape::LightDash3 => '┄',
            LineShape::LightDash4 => '┈',
            LineShape::Heavy => '━',
            LineShape::HeavyDash2 => '╍',
            LineShape::HeavyDash3 => '┅',
            LineShape::HeavyDash4 => '┉',
            LineShape::Double => '═',
        }
    }

    /// The character used for drawing vertical lines.
    pub open spec fn spec_vert(self) -> char {
        match self {
            LineShape::Empty => ' ',
            LineShape::Light => '│',
            LineShape::LightDash2 => '╎',
            LineShape::LightDash3 => '┆',
            LineShape::LightDash4 => '┊',
            LineShape::Heavy => '┃',
            LineShape::HeavyDash2 => '╏',
            LineShape::HeavyDash3 => '┇',
            LineShape::HeavyDash4 => '┋',
            LineShape::Double => '║',
        }
    }

    /// Returns the `char` to use for drawing vertical lines.
    pub fn vert(self) -> (c: char)
        ensures
            c == self.spec_vert(),
    {
        match self {
            LineShape::Empty => ' ',
            LineShape::Light => '│',
            LineShape::LightDash2 => '╎',
            LineShape::LightDash3 => '┆',
            LineShape::LightDash4 => '┊',
            LineShape::Heavy => '┃',
            LineShape::HeavyDash2 => '╏',
            LineShape::HeavyDash3 => '┇',
            LineShape::HeavyDash4 => '┋',
            LineShape::Double => '║',
        }
    }

    /// The character used for drawing the left part of horizontal line segments.
    pub open spec fn spec_left(self) -> char {
        match self.spec_fallback() {
            LineShape::Empty => ' ',
            LineShape::Light => '╴',
            LineShape::Heavy => '╸',
            _ => '╸',
        }
    }

    /// Returns the `char` to use for drawing the left part of horizontal line segments.
    pub fn left(self) -> (c: char)
        ensures
            c == self.spec_left(),
    {
        match self.fallback() {
            LineShape::Empty => ' ',
            LineShape::Light => '╴',
            LineShape::Heavy => '╸',
            LineShape::Double => '╸',
            _ => {
                assert(false);
                ' '
            },
        }
    }

    /// The character used for drawing the right part of horizontal line segments.
    pub open spec fn spec_right(self) -> char {
        match self.spec_fallback() {
            LineShape::Empty => ' ',
            LineShape::Light => '╶',
            LineShape::Heavy => '╺',
            _ => '╺',
        }
    }

    /// Returns the `char` to use for drawing the right part of horizontal line segments.
    pub fn right(self) -> (c: char)
        ensures
            c == self.spec_right(),
    {
        match self.fallback() {
            LineShape::Empty => ' ',
            LineShape::Light => '╶',
            LineShape::Heavy => '╺',
            LineShape::Double => '╺',
            _ => {
                assert(false);
                ' '
            },
        }
    }

    /// The character used for drawing the top part of vertical line segments.
    pub open spec fn spec_top(self) -> char {
        match self.spec_fallback() {
            LineShape::Empty => ' ',
            LineShape::Light => '╵',
            LineShape::Heavy => '╹',
            _ => '╹',
        }
    }

    /// Returns the `char` to use for drawing the top part of vertical line segments.
    pub fn top(self) -> (c: char)
        ensures
            c == self.spec_top(),
    {
        match self.fallback() {
            LineShape::Empty => ' ',
            LineShape::Light => '╵',
            LineShape::Heavy => '╹',
            LineShape::Double => '╹',
            _ => {
                assert(false);
                ' '
            },
        }
    }

    /// The character used for drawing the bottom part of vertical line segments.
    pub open spec fn spec_bottom(self) -> char {
        match self.spec_fallback() {
            LineShape::Empty => ' ',
            LineShape::Light => '╷',
            LineShape::Heavy => '╻',
            _ => '╻',
        }
    }

    /// Returns the `char` to use for drawing the bottom part of vertical line segments.
    pub fn bottom(self) -> (c: char)
        ensures
            c == self.spec_bottom(),
    {
        match self.fallback() {
            LineShape::Empty => ' ',
            LineShape::Light => '╷',
            LineShape::Heavy => '╻',
            LineShape::Double => '╻',
            _ => {
                assert(false);
                ' '
            },
        }
    }

    /// The character used for drawing horizontal and vertical line crossings.
    pub open spec fn spec_cross(self, vert: LineShape) -> char {
        match (self.spec_fallback(), vert.spec_fallback()) {
            (LineShape::Empty, _) => vert.spec_vert(),
            (_, LineShape::Empty) => self.spec_horz(),
            (LineShape::Light, LineShape::Light) => '┼',
            (LineShape::Light, LineShape::Heavy) => '╂',
            (LineShape::Light, LineShape::Double) => '╫',
            (LineShape::Heavy, LineShape::Light) => '┿',
            (LineShape::Heavy, LineShape::Heavy) => '╋',
            (LineShape::Heavy, LineShape::Double) => '╬',
            (LineShape::Double, LineShape::Light) => '╪',
            (LineShape::Double, LineShape::Heavy) => '╬',
            (LineShape::Double, LineShape::Double) => '╬',
            _ => ' ',
        }
    }

    /// Returns the `char` to use for drawing horizontal and vertical line crossings.
    pub fn cross(self, vert: LineShape) -> (c: char)
        ensures
            c == self.spec_cross(vert),
    {
        match (self.fallback(), vert.fallback()) {
            (LineShape::Empty, _) => vert.vert(),
            (_, LineShape::Empty) => self.horz(),
            (LineShape::Light, LineShape::Light) => '┼',
            (LineShape::Light, LineShape::Heavy) => '╂',
            (LineShape::Light, LineShape::Double) => '╫',
            (LineShape::Heavy, LineShape::Light) => '┿',
            (LineShape::Heavy, LineShape::Heavy) => '╋',
            (LineShape::Heavy, LineShape::Double) => '╬',
            (LineShape::Double, LineShape::Light) => '╪',
            (LineShape::Double, LineShape::Heavy) => '╬',
            (LineShape::Double, LineShape::Double) => '╬',
            _ => {
                assert(false);
                ' '
            },
        }
    }

    /// The character used for drawing vertical lines with left segment intersections.
    pub open spec fn spec_vert_with_left(self, left: LineShape) -> char {
        match (self.spec_fallback(), left.spec_fallback()) {
            (LineShape::Empty, _) => left.spec_left(),
            (_, LineShape::Empty) => self.spec_vert(),
            (LineShape::Light, LineShape::Light) => '┤',
            (LineShape::Light, LineShape::Heavy) => '┥',
            (LineShape::Light, LineShape::Double) => '╡',
            (LineShape::Heavy, LineShape::Light) => '┨',
            (LineShape::Heavy, LineShape::Heavy) => '┫',
            (LineShape::Heavy, LineShape::Double) => '┫',
            (LineShape::Double, LineShape::Light) => '╢',
            (LineShape::Double, LineShape::Heavy) => '╣',
            (LineShape::Double, LineShape::Double) => '╣',
            _ => ' ',
        }
    }

    /// Returns the `char` to use for drawing vertical lines with left segment intersections.
    pub fn vert_with_left(self, left: LineShape) -> (c: char)
        ensures
            c == self.spec_vert_with_left(left),
    {
        match (self.fallback(), left.fallback()) {
            (LineShape::Empty, _) => left.left(),
            (_, LineShape::Empty) => self.vert(),
            (LineShape::Light, LineShape::Light) => '┤',
            (LineShape::Light, LineShape::Heavy) => '┥',
            (LineShape::Light, LineShape::Double) => '╡',
            (LineShape::Heavy, LineShape::Light) => '┨',
            (LineShape::Heavy, LineShape::Heavy) => '┫',
            (LineShape::Heavy, LineShape::Double) => '┫',
            (LineShape::Double, LineShape::Light) => '╢',
            (LineShape::Double, LineShape::Heavy) => '╣',
            (LineShape::Double, LineShape::Double) => '╣',
            _ => {
                assert(false);
                ' '
            },
        }
    }

    /// The character used for drawing vertical lines with right segment intersections.
    pub open spec fn spec_vert_with_right(self, right: LineShape) -> char {
        match (self.spec_fallback(), right.spec_fallback()) {
            (LineShape::Empty, _) => right.spec_right(),
            (_, LineShape::Empty) => self.spec_vert(),
            (LineShape::Light, LineShape::Light) => '├',
            (LineShape::Light, LineShape::Heavy) => '┝',
            (LineShape::Light, LineShape::Double) => '╞',
            (LineShape::Heavy, LineShape::Light) => '┠',
            (LineShape::Heavy, LineShape::Heavy) => '┣',
            (LineShape::Heavy, LineShape::Double) => '┣',
            (LineShape::Double, LineShape::Light) => '╟',
            (LineShape::Double, LineShape::Heavy) => '╠',
            (LineShape::Double, LineShape::Double) => '╠',
            _ => ' ',
        }
    }

    /// Returns the `char` to use for drawing vertical lines with right segment intersections.
    pub fn vert_with_right(self, right: LineShape) -> (c: char)
        ensures
            c == self.spec_vert_with_right(right),
    {
        match (self.fallback(), right.fallback()) {
            (LineShape::Empty, _) => right.right(),
            (_, LineShape::Empty) => self.vert(),
            (LineShape::Light, LineShape::Light) => '├',
            (LineShape::Light, LineShape::Heavy) => '┝',
            (LineShape::Light, LineShape::Double) => '╞',
            (LineShape::Heavy, LineShape::Light) => '┠',
            (LineShape::Heavy, LineShape::Heavy) => '┣',
            (LineShape::Heavy, LineShape::Double) => '┣',
            (LineShape::Double, LineShape::Light) => '╟',
            (LineShape::Double, LineShape::Heavy) => '╠',
            (LineShape::Double, LineShape::Double) => '╠',
            _ => {
                assert(false);
                ' '
            },
        }
    }

    /// The character used for drawing horizontal lines with top segment intersections.
    pub open spec fn spec_horz_with_top(self, top: LineShape) -> char {
        match (self.spec_fallback(), top.spec_fallback()) {
            (LineShape::Empty, _) => top.spec_top(),
            (_, LineShape::Empty) => self.spec_horz(),
            (LineShape::Light, LineShape::Light) => '┴',
            (LineShape::Light, LineShape::Heavy) => '┸',
            (LineShape::Light, LineShape::Double) => '╨',
            (LineShape::Heavy, LineShape::Light) => '┷',
            (LineShape::Heavy, LineShape::Heavy) => '┻',
            (LineShape::Heavy, LineShape::Double) => '┻',
            (LineShape::Double, LineShape::Light) => '╧',
            (LineShape::Double, LineShape::Heavy) => '╩',
            (LineShape::Double, LineShape::Double) => '╩',
            _ => ' ',
        }
    }

    /// Returns the `char` to use for drawing horizontal lines with top segment intersections.
    pub fn horz_with_top(self, top: LineShape) -> (c: char)
        ensures
            c == self.spec_horz_with_top(top),
    {
        match (self.fallback(), top.fallback()) {
            (LineShape::Empty, _) => top.top(),
            (_, LineShape::Empty) => self.horz(),
            (LineShape::Light, LineShape::Light) => '┴',
            (LineShape::Light, LineShape::Heavy) => '┸',
            (LineShape::Light, LineShape::Double) => '╨',
            (LineShape::Heavy, LineShape::Light) => '┷',
            (LineShape::Heavy, LineShape::Heavy) => '┻',
            (LineShape::Heavy, LineShape::Double) => '┻',
            (LineShape::Double, LineShape::Light) => '╧',
            (LineShape::Double, LineShape::Heavy) => '╩',
            (LineShape::Double, LineShape::Double) => '╩',
            _ => {
                assert(false);
                ' '
            },
        }
    }

    /// The character used for drawing horizontal lines with bottom segment intersections.
    pub open spec fn spec_horz_with_bottom(self, bottom: LineShape) -> char {
        match (self.spec_fallback(), bottom.spec_fallback()) {
            (LineShape::Empty, _) => bottom.spec_bottom(),
            (_, LineShape::Empty) => self.spec_horz(),
            (LineShape::Light, LineShape::Light) => '┬',
            (LineShape::Light, LineShape::Heavy) => '┰',
            (LineShape::Light, LineShape::Double) => '╥',
            (LineShape::Heavy, LineShape::Light) => '┯',
            (LineShape::Heavy, LineShape::Heavy) => '┳',
            (LineShape::Heavy, LineShape::Double) => '┳',
            (LineShape::Double, LineShape::Light) => '╤',
            (LineShape::Double, LineShape::Heavy) => '╦',
            (LineShape::Double, LineShape::Double) => '╦',
            _ => ' ',
        }
    }

    /// Returns the `char` to use for drawing horizontal lines with bottom segment intersections.
    pub fn horz_with_bottom(self, bottom: LineShape) -> (c: char)
        ensures
            c == self.spec_horz_with_bottom(bottom),
    {
        match (self.fallback(), bottom.fallback()) {
            (LineShape::Empty, _) => bottom.bottom(),
            (_, LineShape::Empty) => self.horz(),
            (LineShape::Light, LineShape::Light) => '┬',
            (LineShape::Light, LineShape::Heavy) => '┰',
            (LineShape::Light, LineShape::Double) => '╥',
            (LineShape::Heavy, LineShape::Light) => '┯',
            (LineShape::Heavy, LineShape::Heavy) => '┳',
            (LineShape::Heavy, LineShape::Double) => '┳',
            (LineShape::Double, LineShape::Light) => '╤',
            (LineShape::Double, LineShape::Heavy) => '╦',
            (LineShape::Double, LineShape::Double) => '╦',
            _ => {
                assert(false);
                ' '
            },
        }
    }

    /// The character used for drawing top-left corner line intersections.
    pub open spec fn spec_corner_top_left(self, vert: LineShape, round: bool) -> char {
        match (self.spec_fallback(), vert.spec_fallback()) {
            (LineShape::Empty, _) => vert.spec_bottom(),
            (_, LineShape::Empty) => vert.spec_right(),
            (LineShape::Light, LineShape::Light) => if round { '╭' } else { '┌' },
            (LineShape::Light, LineShape::Heavy) => '┎',
            (LineShape::Light, LineShape::Double) => '╓',
            (LineShape::Heavy, LineShape::Light) => '┍',
            (LineShape::Heavy, LineShape::Heavy) => '┏',
            (LineShape::Heavy, LineShape::Double) => '╔',
            (LineShape::Double, LineShape::Light) => '╒',
            (LineShape::Double, LineShape::Heavy) => '┏',
            (LineShape::Double, LineShape::Double) => '╔',
            _ => ' ',
        }
    }

    /// Returns the `char` to use for drawing top-left corner line intersections.
    pub fn corner_top_left(self, vert: LineShape, round: bool) -> (c: char)
        ensures
            c == self.spec_corner_top_left(vert, round),
    {
        match (self.fallback(), vert.fallback()) {
            (LineShape::Empty, _) => vert.bottom(),
            (_, LineShape::Empty) => vert.right(),
            (LineShape::Light, LineShape::Light) => if round { '╭' } else { '┌' },
            (LineShape::Light, LineShape::Heavy) => '┎',
            (LineShape::Light, LineShape::Double) => '╓',
            (LineShape::Heavy, LineShape::Light) => '┍',
            (LineShape::Heavy, LineShape::Heavy) => '┏',
            (LineShape::Heavy, LineShape::Double) => '╔',
            (LineShape::Double, LineShape::Light) => '╒',
            (LineShape::Double, LineShape::Heavy) => '┏',
            (LineShape::Double, LineShape::Double) => '╔',
            _ => {
                assert(false);
                ' '
            },
        }
    }

    /// The character used for drawing top-right corner line intersections.
    pub open spec fn spec_corner_top_right(self, vert: LineShape, round: bool) -> char {
        match (self.spec_fallback(), vert.spec_fallback()) {
            (LineShape::Empty, _) => vert.spec_bottom(),
            (_, LineShape::Empty) => vert.spec_left(),
            (LineShape::Light, LineShape::Light) => if round { '╮' } else { '┐' },
            (LineShape::Light, LineShape::Heavy) => '┒',
            (LineShape::Light, LineShape::Double) => '╖',
            (LineShape::Heavy, LineShape::Light) => '┑',
            (LineShape::Heavy, LineShape::Heavy) => '┓',
            (LineShape::Heavy, LineShape::Double) => '╗',
            (LineShape::Double, LineShape::Light) => '╕',
            (LineShape::Double, LineShape::Heavy) => '┓',
            (LineShape::Double, LineShape::Double) => '╗',
            _ => ' ',
        }
    }

    /// Returns the `char` to use for drawing top-right corner line intersections.
    pub fn corner_top_right(self, vert: LineShape, round: bool) -> (c: char)
        ensures
            c == self.spec_corner_top_right(vert, round),
    {
        match (self.fallback(), vert.fallback()) {
            (LineShape::Empty, _) => vert.bottom(),
            (_, LineShape::Empty) => vert.left(),
            (LineShape::Light, LineShape::Light) => if round { '╮' } else { '┐' },
            (LineShape::Light, LineShape::Heavy) => '┒',
            (LineShape::Light, LineShape::Double) => '╖',
            (LineShape::Heavy, LineShape::Light) => '┑',
            (LineShape::Heavy, LineShape::Heavy) => '┓',
            (LineShape::Heavy, LineShape::Double) => '╗',
            (LineShape::Double, LineShape::Light) => '╕',
            (LineShape::Double, LineShape::Heavy) => '┓',
            (LineShape::Double, LineShape::Double) => '╗',
            _ => {
                assert(false);
                ' '
            },
        }
    }

    /// The character used for drawing bottom-left corner line intersections.
    pub open spec fn spec_corner_bottom_left(self, vert: LineShape, round: bool) -> char {
        match (self.spec_fallback(), vert.spec_fallback()) {
            (LineShape::Empty, _) => vert.spec_top(),
            (_, LineShape::Empty) => vert.spec_right(),
            (LineShape::Light, LineShape::Light) => if round { '╰' } else { '└' },
            (LineShape::Light, LineShape::Heavy) => '┖',
            (LineShape::Light, LineShape::Double) => '╙',
            (LineShape::Heavy, LineShape::Light) => '┕',
            (LineShape::Heavy, LineShape::Heavy) => '┗',
            (LineShape::Heavy, LineShape::Double) => '╚',
            (LineShape::Double, LineShape::Light) => '╘',
            (LineShape::Double, LineShape::Heavy) => '┗',
            (LineShape::Double, LineShape::Double) => '╚',
            _ => ' ',
        }
    }

    /// Returns the `char` to use for drawing bottom-left corner line intersections.
    pub fn corner_bottom_left(self, vert: LineShape, round: bool) -> (c: char)
        ensures
            c == self.spec_corner_bottom_left(vert, round),
    {
        match (self.fallback(), vert.fallback()) {
            (LineShape::Empty, _) => vert.top(),
            (_, LineShape::Empty) => vert.right(),
            (LineShape::Light, LineShape::Light) => if round { '╰' } else { '└' },
            (LineShape::Light, LineShape::Heavy) => '┖',
            (LineShape::Light, LineShape::Double) => '╙',
            (LineShape::Heavy, LineShape::Light) => '┕',
            (LineShape::Heavy, LineShape::Heavy) => '┗',
            (LineShape::Heavy, LineShape::Double) => '╚',
            (LineShape::Double, LineShape::Light) => '╘',
            (LineShape::Double, LineShape::Heavy) => '┗',
            (LineShape::Double, LineShape::Double) => '╚',
            _ => {
                assert(false);
                ' '
            },
        }
    }

    /// The character used for drawing bottom-right corner line intersections.
    pub open spec fn spec_corner_bottom_right(self, vert: LineShape, round: bool) -> char {
        match (self.spec_fallback(), vert.spec_fallback()) {
            (LineShape::Empty, _) => vert.spec_top(),
            (_, LineShape::Empty) => vert.spec_left(),
            (LineShape::Light, LineShape::Light) => if round { '╯' } else { '┘' },
            (LineShape::Light, LineShape::Heavy) => '┚',
            (LineShape::Light, LineShape::Double) => '╜',
            (LineShape::Heavy, LineShape::Light) => '┙',
            (LineShape::Heavy, LineShape::Heavy) => '┛',
            (LineShape::Heavy, LineShape::Double) => '╝',
            (LineShape::Double, LineShape::Light) => '╛',
            (LineShape::Double, LineShape::Heavy) => '┛',
            (LineShape::Double, LineShape::Double) => '╝',
            _ => ' ',
        }
    }

    /// Returns the `char` to use for drawing bottom-right corner line intersections.
    pub fn corner_bottom_right(self, vert: LineShape, round: bool) -> (c: char)
        ensures
            c == self.spec_corner_bottom_right(vert, round),
    {
        match (self.fallback(), vert.fallback()) {
            (LineShape::Empty, _) => vert.top(),
            (_, LineShape::Empty) => vert.left(),
            (LineShape::Light, LineShape::Light) => if round { '╯' } else { '┘' },
            (LineShape::Light, LineShape::Heavy) => '┚',
            (LineShape::Light, LineShape::Double) => '╜',
            (LineShape::Heavy, LineShape::Light) => '┙',
            (LineShape::Heavy, LineShape::Heavy) => '┛',
            (LineShape::Heavy, LineShape::Double) => '╝',
            (LineShape::Double, LineShape::Light) => '╛',
            (LineShape::Double, LineShape::Heavy) => '┛',
            (LineShape::Double, LineShape::Double) => '╝',
            _ => {
                assert(false);
                ' '
            },
        }
    }
}

/// Falling back twice is falling back once, and every fallback is one of the
/// four shapes that the junction tables cover.
pub proof fn lemma_fallback_idempotent(shape: LineShape)
    ensures
        shape.spec_fallback().spec_fallback() == shape.spec_fallback(),
        shape.spec_fallback().is_basic(),
{
}

/// An empty line draws blank space for every straight component.
pub proof fn lemma_empty_draws_space()
    ensures
        LineShape::Empty.spec_horz() == ' ',
        LineShape::Empty.spec_vert() == ' ',
        LineShape::Empty.spec_left() == ' ',
        LineShape::Empty.spec_right() == ' ',
        LineShape::Empty.spec_top() == ' ',
        LineShape::Empty.spec_bottom() == ' ',
{
}

/// A junction with an empty line on one side is drawn as the other line alone.
pub proof fn lemma_junction_with_empty(shape: LineShape)
    ensures
        shape.spec_cross(LineShape::Empty) == shape.spec_horz(),
        LineShape::Empty.spec_cross(shape) == shape.spec_vert(),
        shape.spec_vert_with_left(LineShape::Empty) == if shape.spec_fallback() is Empty {
            ' '
        } else {
            shape.spec_vert()
        },
        shape.spec_horz_with_bottom(LineShape::Empty) == if shape.spec_fallback() is Empty {
            ' '
        } else {
            shape.spec_horz()
        },
{
}

/// The line styling for a box drawn character.
#[derive(Debug, Clone, Copy, PartialEq, Eq, Hash, Structural)]
pub struct LineStyle {
    /// The rendered shape of the line.
    pub shape: LineShape,
    /// The ansi terminal styling to apply to the line.
    pub style: Style,
}

/// A box-drawing character together with the style to draw it in.
#[derive(Debug, Clone, Copy, PartialEq, Eq, Hash, Structural)]
pub struct StyledChar {
    /// The character.
    pub ch: char,
    /// The style it is drawn in.
    pub style: Style,
}

impl StyledChar {
    /// The text that draws the character: the style's opening sequence, the
    /// character, and the style's reset sequence.
    pub open spec fn spec_render(self) -> Seq<char> {
        self.style.spec_render() + seq![self.ch] + self.style.spec_render_reset()
    }

    /// Renders the character with its style.
    pub fn render(&self) -> (s: String)
        ensures
            s@ == self.spec_render(),
    {
        let mut s = self.style.render();
        let ghost pre = s@;
        crate::text_buf::push_char(&mut s, self.ch);
        let reset = self.style.render_reset();
        s.append(reset.as_str());
        assert(s@ =~= self.spec_render());
        s
    }
}

impl LineStyle {
    /// Constructs a new `LineStyle` with the given `LineShape` and no effects
    /// enabled.
    pub fn new(shape: LineShape) -> (ls: LineStyle)
        ensures
            ls.shape == shape,
            ls.style == Style::spec_plain(),
    {
        LineStyle { shape, style: Style::new() }
    }

    /// Sets the given style and returns the `LineStyle`.
    pub fn with_style(self, style: Style) -> (ls: LineStyle)
        ensures
            ls == (LineStyle { style, ..self }),
    {
        LineStyle { style, ..self }
    }

    /// Returns `true` if the style is empty.
    pub fn is_empty(self) -> (b: bool)
        ensures
            b == (self.shape is Empty),
    {
        self.shape.is_empty()
    }

    /// Returns the styled character to use for drawing horizontal lines.
    pub fn horz(self) -> (c: StyledChar)
        ensures
            c == (StyledChar { ch: self.shape.spec_horz(), style: self.style }),
    {
        StyledChar { ch: self.shape.horz(), style: self.style }
    }

    /// Returns the styled character to use for drawing vertical lines.
    pub fn vert(self) -> (c: StyledChar)
        ensures
            c == (StyledChar { ch: self.shape.spec_vert(), style: self.style }),
    {
        StyledChar { ch: self.shape.vert(), style: self.style }
    }

    /// Returns the styled character to use for drawing the left part of horizontal line segments.
    pub fn left(self) -> (c: StyledChar)
        ensures
            c == (StyledChar { ch: self.shape.spec_left(), style: self.style }),
    {
        StyledChar { ch: self.shape.left(), style: self.style }
    }

    /// Returns the styled character to use for drawing the right part of horizontal line segments.
    pub fn right(self) -> (c: StyledChar)
        ensures
            c == (StyledChar { ch: self.shape.spec_right(), style: self.style }),
    {
        StyledChar { ch: self.shape.right(), style: self.style }
    }

    /// Returns the styled character to use for drawing the top part of vertical line segments.
    pub fn top(self) -> (c: StyledChar)
        ensures
            c == (StyledChar { ch: self.shape.spec_top(), style: self.style }),
    {
        StyledChar { ch: self.shape.top(), style: self.style }
    }

    /// Returns the styled character to use for drawing the bottom part of vertical line segments.
    pub fn bottom(self) -> (c: StyledChar)
        ensures
            c == (StyledChar { ch: self.shape.spec_bottom(), style: self.style }),
    {
        StyledChar { ch: self.shape.bottom(), style: self.style }
    }

    /// Returns the styled character to use for drawing horizontal and vertical line crossings.
    pub fn cross(self, vert: LineShape) -> (c: StyledChar)
        ensures
            c == (StyledChar { ch: self.shape.spec_cross(vert), style: self.style }),
    {
        StyledChar { ch: self.shape.cross(vert), style: self.style }
    }

    /// Returns the styled character to use for drawing vertical lines with left segment intersections.
    pub fn vert_with_left(self, left: LineShape) -> (c: StyledChar)
        ensures
            c == (StyledChar { ch: self.shape.spec_vert_with_left(left), style: self.style }),
    {
        StyledChar { ch: self.shape.vert_with_left(left), style: self.style }
    }

    /// Returns the styled character to use for drawing vertical lines with right segment intersections.
    pub fn vert_with_right(self, right: LineShape) -> (c: StyledChar)
        ensures
            c == (StyledChar { ch: self.shape.spec_vert_with_right(right), style: self.style }),
    {
        StyledChar { ch: self.shape.vert_with_right(right), style: self.style }
    }

    /// Returns the styled character to use for drawing horizontal lines with top segment intersections.
    pub fn horz_with_top(self, top: LineShape) -> (c: StyledChar)
        ensures
            c == (StyledChar { ch: self.shape.spec_horz_with_top(top), style: self.style }),
    {
        StyledChar { ch: self.shape.horz_with_top(top), style: self.style }
    }

    /// Returns the styled character to use for drawing horizontal lines with bottom segment intersections.
    pub fn horz_with_bottom(self, bottom: LineShape) -> (c: StyledChar)
        ensures
            c == (StyledChar { ch: self.shape.spec_horz_with_bottom(bottom), style: self.style }),
    {
        StyledChar { ch: self.shape.horz_with_bottom(bottom), style: self.style }
    }

    /// Returns the styled character to use for drawing top-left corner line intersections.
    pub fn corner_top_left(self, vert: LineShape, round: bool) -> (c: StyledChar)
        ensures
            c == (StyledChar { ch: self.shape.spec_corner_top_left(vert, round), style: self.style }),
    {
        StyledChar { ch: self.shape.corner_top_left(vert, round), style: self.style }
    }

    /// Returns the styled character to use for drawing top-right corner line intersections.
    pub fn corner_top_right(self, vert: LineShape, round: bool) -> (c: StyledChar)
        ensures
            c == (StyledChar { ch: self.shape.spec_corner_top_right(vert, round), style: self.style }),
    {
        StyledChar { ch: self.shape.corner_top_right(vert, round), style: self.style }
    }

    /// Returns the styled character to use for drawing bottom-left corner line intersections.
    pub fn corner_bottom_left(self, vert: LineShape, round: bool) -> (c: StyledChar)
        ensures
            c == (StyledChar { ch: self.shape.spec_corner_bottom_left(vert, round), style: self.style }),
    {
        StyledChar { ch: self.shape.corner_bottom_left(vert, round), style: self.style }
    }

    /// Returns the styled character to use for drawing bottom-right corner line intersections.
    pub fn corner_bottom_right(self, vert: LineShape, round: bool) -> (c: StyledChar)
        ensures
            c == (StyledChar { ch: self.shape.spec_corner_bottom_right(vert, round), style: self.style }),
    {
        StyledChar { ch: self.shape.corner_bottom_right(vert, round), style: self.style }
    }
}

impl From<LineShape> for LineStyle {
    fn from(shape: LineShape) -> (ls: LineStyle)
        ensures
            ls == (LineStyle { shape, style: Style::spec_plain() }),
    {
        LineStyle::new(shape)
    }
}

impl vstd::std_specs::convert::FromSpecImpl<LineShape> for LineStyle {
    open spec fn obeys_from_spec() -> bool {
        true
    }

    open spec fn from_spec(shape: LineShape) -> LineStyle {
        LineStyle { shape, style: Style::spec_plain() }
    }
}

impl From<LineStyle> for LineShape {
    fn from(ls: LineStyle) -> (s: LineShape)
        ensures
            s == ls.shape,
    {
        ls.shape
    }
}

impl vstd::std_specs::convert::FromSpecImpl<LineStyle> for LineShape {
    open spec fn obeys_from_spec() -> bool {
        true
    }

    open spec fn from_spec(ls: LineStyle) -> LineShape {
        ls.shape
    }
}

} // verus!
