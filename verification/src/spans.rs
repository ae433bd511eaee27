//! Lines of text in the form in which the terminal widgets take them.

use tui::text::Spans;
use vstd::prelude::*;

verus! {

/// `tui::text::Spans`, one line of text made of spans, each with a style.
/// Nothing of its inside is taken as known.
#[verifier::external_type_specification]
#[verifier::external_body]
pub struct ExSpans<'a>(Spans<'a>);

/// The texts of the spans that make up a line, in order.
pub uninterp spec fn span_texts(line: &Spans<'static>) -> Seq<Seq<char>>;

/// Whether any span of a line carries a style of its own.
pub uninterp spec fn styled(line: &Spans<'static>) -> bool;

/// `Spans::from` a `String`: a line made of one span that holds `text` and
/// carries no style.
#[verifier::external_body]
pub(crate) fn plain_line(text: String) -> (line: Spans<'static>)
    ensures
        span_texts(&line) == seq![text@],
        !styled(&line),
{
    Spans::from(text)
}

} // verus!
