use vstd::prelude::*;

verus! {

/// The view of a sequence of owned lines as character sequences.
pub open spec fn texts_view(lines: Seq<String>) -> Seq<Seq<char>> {
    lines.map_values(|s: String| s@)
}

/// The lines that word-wrapping a text to `width` columns yields, the first
/// line carrying the `initial` prefix and every later line the `subsequent`
/// prefix, each prefix counted against the width. A pure function of its
/// arguments alone: the hyphenation dictionary the wrapping uses is fixed.
pub uninterp spec fn wrapped_lines(
    text: Seq<char>,
    width: int,
    initial: Seq<char>,
    subsequent: Seq<char>,
) -> Seq<Seq<char>>;

/// Relies on textwrap's `wrap` with a hyphenation word splitter over a
/// fixed, empty US-English pattern set: the produced lines depend on the
/// text, the width and the two indent prefixes alone.
#[verifier::external_body]
fn wrap_text_lines(text: &str, width: usize, initial: &str, subsequent: &str) -> (r: Vec<String>)
    ensures
        texts_view(r@) == wrapped_lines(text@, width as int, initial@, subsequent@),
{
    let dict = hyphenation_commons::dictionary::Builder {
        language: hyphenation_commons::Language::EnglishUS,
        patterns: Default::default(),
        exceptions: Default::default(),
    };
    let options = textwrap::Options::new(width)
        .initial_indent(initial)
        .subsequent_indent(subsequent)
        .word_splitter(textwrap::WordSplitter::Hyphenation(dict.into()));
    textwrap::wrap(text, options).into_iter().map(|line| line.into_owned()).collect()
}

/// Word-wraps `text` into lines of at most `width` columns, prefixing the
/// first line with `initial` and every later line with `subsequent`. Words
/// are kept whole where they fit; a word too long for a line is broken, at a
/// hyphenation point where the dictionary offers one.
pub fn wrap_block(text: &str, width: usize, initial: &str, subsequent: &str) -> (r: Vec<String>)
    ensures
        texts_view(r@) == wrapped_lines(text@, width as int, initial@, subsequent@),
{
    wrap_text_lines(text, width, initial, subsequent)
}

} // verus!
