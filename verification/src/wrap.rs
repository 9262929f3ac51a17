//! Text wrapping parameters, and wrapping through the `textwrap` crate.

use vstd::prelude::*;

verus! {

/// The algorithm used to choose line breaks.
#[derive(Debug, Clone, Copy, PartialEq, Eq, Structural)]
pub enum WrapAlgorithm {
    /// Take words one at a time and accept the first break that fits.
    FirstFit,
    /// Consider a whole paragraph to find optimal line breaks, with the
    /// crate's default penalties.
    OptimalFit,
}

/// The method used to find words.
#[derive(Debug, Clone, Copy, PartialEq, Eq, Structural)]
pub enum WordSeparator {
    /// Split on runs of `' '` characters.
    AsciiSpace,
    /// Split using the Unicode line breaking algorithm.
    UnicodeBreakProperties,
}

/// The method used to split words.
#[derive(Debug, Clone, Copy, PartialEq, Eq, Structural)]
pub enum WordSplitter {
    /// Never hyphenate.
    NoHyphenation,
    /// Split words on existing hyphens.
    HyphenSplitter,
}

/// Options for specifying the text wrapping behavior.
#[derive(Debug, Clone)]
pub struct WrapOptions {
    /// Indentation string for the first line of text.
    pub initial_indent: String,
    /// Indentation string for the non-first lines of text.
    pub subsequent_indent: String,
    /// Flag to allow breaking in the middle of words.
    pub break_words: bool,
    /// The algorithm to use for wrapping.
    pub wrap_algorithm: WrapAlgorithm,
    /// The algorithm to use for line breaking.
    pub word_separator: WordSeparator,
    /// The method to use for word splitting.
    pub word_splitter: WordSplitter,
}

/// The text that `textwrap::fill` produces for `text` at `width` columns with
/// the given indents, word breaking, and with the optimal-fit algorithm, the
/// Unicode word separator and the hyphen splitter or the alternatives.
pub uninterp spec fn spec_fill(
    text: Seq<char>,
    width: usize,
    initial_indent: Seq<char>,
    subsequent_indent: Seq<char>,
    break_words: bool,
    optimal_fit: bool,
    unicode_breaks: bool,
    hyphen_split: bool,
) -> Seq<char>;

impl WrapOptions {
    /// The filled text for these options.
    pub open spec fn spec_fill_with(&self, text: Seq<char>, width: usize) -> Seq<char> {
        spec_fill(
            text,
            width,
            self.initial_indent@,
            self.subsequent_indent@,
            self.break_words,
            self.wrap_algorithm == WrapAlgorithm::OptimalFit,
            self.word_separator == WordSeparator::UnicodeBreakProperties,
            self.word_splitter == WordSplitter::HyphenSplitter,
        )
    }

    /// Constructs a new `WrapOptions`: no indents, words may be broken,
    /// optimal-fit wrapping, Unicode word separation and hyphen splitting.
    pub fn new() -> (o: WrapOptions)
        ensures
            o.initial_indent@ == Seq::<char>::empty(),
            o.subsequent_indent@ == Seq::<char>::empty(),
            o.break_words,
            o.wrap_algorithm == WrapAlgorithm::OptimalFit,
            o.word_separator == WordSeparator::UnicodeBreakProperties,
            o.word_splitter == WordSplitter::HyphenSplitter,
    {
        WrapOptions {
            initial_indent: String::new(),
            subsequent_indent: String::new(),
            break_words: true,
            wrap_algorithm: WrapAlgorithm::OptimalFit,
            word_separator: WordSeparator::UnicodeBreakProperties,
            word_splitter: WordSplitter::HyphenSplitter,
        }
    }

    /// Copies the options.
    pub fn duplicate(&self) -> (o: WrapOptions)
        ensures
            o == *self,
    {
        WrapOptions {
            initial_indent: self.initial_indent.clone(),
            subsequent_indent: self.subsequent_indent.clone(),
            break_words: self.break_words,
            wrap_algorithm: self.wrap_algorithm,
            word_separator: self.word_separator,
            word_splitter: self.word_splitter,
        }
    }

    /// Sets the indentation string for the first line of text and returns the
    /// `WrapOptions`.
    pub fn with_initial_indent(self, initial_indent: String) -> (o: WrapOptions)
        ensures
            o == (WrapOptions { initial_indent, ..self }),
    {
        WrapOptions { initial_indent, ..self }
    }

    /// Sets the indentation string for the non-first lines of text and returns
    /// the `WrapOptions`.
    pub fn with_subsequent_indent(self, subsequent_indent: String) -> (o: WrapOptions)
        ensures
            o == (WrapOptions { subsequent_indent, ..self }),
    {
        WrapOptions { subsequent_indent, ..self }
    }

    /// Sets the flag to allow breaking in the middle of words and returns the
    /// `WrapOptions`.
    pub fn with_break_words(self, break_words: bool) -> (o: WrapOptions)
        ensures
            o == (WrapOptions { break_words, ..self }),
    {
        WrapOptions { break_words, ..self }
    }

    /// Sets the algorithm to use for wrapping and returns the `WrapOptions`.
    pub fn with_wrap_algorithm(self, wrap_algorithm: WrapAlgorithm) -> (o: WrapOptions)
        ensures
            o == (WrapOptions { wrap_algorithm, ..self }),
    {
        WrapOptions { wrap_algorithm, ..self }
    }

    /// Sets the algorithm to use for line breaking and returns the
    /// `WrapOptions`.
    pub fn with_word_separator(self, word_separator: WordSeparator) -> (o: WrapOptions)
        ensures
            o == (WrapOptions { word_separator, ..self }),
    {
        WrapOptions { word_separator, ..self }
    }

    /// Sets the method to use for word splitting and returns the
    /// `WrapOptions`.
    pub fn with_word_splitter(self, word_splitter: WordSplitter) -> (o: WrapOptions)
        ensures
            o == (WrapOptions { word_splitter, ..self }),
    {
        WrapOptions { word_splitter, ..self }
    }
}

/// Calls `textwrap::fill` with `textwrap::Options::new(width)`, LF line
/// endings, and the indents, word breaking, wrapping algorithm, word
/// separator and word splitter of `opts`. The contract names the result; the
/// crate documents it as the text's lines, wrapped at `width`, joined with
/// newlines, which is not restated here.
#[verifier::external_body]
pub(crate) fn fill(text: &str, width: usize, opts: &WrapOptions) -> (s: String)
    ensures
        s@ == spec_fill(
            text@,
            width,
            opts.initial_indent@,
            opts.subsequent_indent@,
            opts.break_words,
            opts.wrap_algorithm == WrapAlgorithm::OptimalFit,
            opts.word_separator == WordSeparator::UnicodeBreakProperties,
            opts.word_splitter == WordSplitter::HyphenSplitter,
        ),
{
    let algorithm = match opts.wrap_algorithm {
        WrapAlgorithm::FirstFit => textwrap::WrapAlgorithm::FirstFit,
        WrapAlgorithm::OptimalFit => textwrap::WrapAlgorithm::new_optimal_fit(),
    };
    let options = textwrap::Options::new(width).line_ending(textwrap::LineEnding::LF)
        .initial_indent(&opts.initial_indent).subsequent_indent(&opts.subsequent_indent)
        .break_words(opts.break_words).wrap_algorithm(algorithm);
    let options = match opts.word_separator {
        WordSeparator::AsciiSpace => options.word_separator(textwrap::WordSeparator::AsciiSpace),
        WordSeparator::UnicodeBreakProperties => options.word_separator(textwrap::WordSeparator::UnicodeBreakProperties),
    };
    match opts.word_splitter {
        WordSplitter::NoHyphenation => textwrap::fill(text, options.word_splitter(textwrap::WordSplitter::NoHyphenation)),
        WordSplitter::HyphenSplitter => textwrap::fill(text, options.word_splitter(textwrap::WordSplitter::HyphenSplitter)),
    }
}

} // verus!
