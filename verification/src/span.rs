//! Coloured text fragments. A rendered report is a sequence of spans, each
//! carrying its own foreground and background colour class; the terminal
//! backend that turns spans into escape sequences lives outside the library.

use vstd::prelude::*;

verus! {

/// Colour classes used by the severity colouriser. The renderer passes these
/// through to the terminal backend without interpreting them.
#[derive(Clone, Copy, Debug, PartialEq, Eq, Structural)]
pub enum TextColor {
    Black,
    Red,
    Green,
    Yellow,
    Blue,
    White,
    BrightRed,
    BrightGreen,
    BrightYellow,
    BrightBlue,
    BrightMagenta,
    BrightCyan,
    BrightWhite,
}

/// One fragment of coloured text.
#[derive(Clone, Debug, PartialEq, Eq)]
pub struct Span {
    pub text: String,
    pub fg: Option<TextColor>,
    pub bg: Option<TextColor>,
}

/// Mathematical model of a span: the character sequence plus its colours.
pub struct SpanModel {
    pub text: Seq<char>,
    pub fg: Option<TextColor>,
    pub bg: Option<TextColor>,
}

impl Span {
    pub open spec fn model(self) -> SpanModel {
        SpanModel { text: self.text@, fg: self.fg, bg: self.bg }
    }

    /// Build a span from an owned string.
    pub fn new(text: String, fg: Option<TextColor>, bg: Option<TextColor>) -> (r: Span)
        ensures
            r.model() == (SpanModel { text: text@, fg, bg }),
    {
        Span { text, fg, bg }
    }

    /// Build an uncoloured span from a string slice.
    pub fn plain(text: &str) -> (r: Span)
        ensures
            r.model() == (SpanModel { text: text@, fg: None::<TextColor>, bg: None::<TextColor> }),
    {
        Span { text: text.to_owned(), fg: None, bg: None }
    }
}

/// Model of a span sequence.
pub open spec fn models(spans: Seq<Span>) -> Seq<SpanModel> {
    spans.map_values(|s: Span| s.model())
}

/// Span models distribute over concatenation.
pub proof fn lemma_models_concat(a: Seq<Span>, b: Seq<Span>)
    ensures
        models(a + b) == models(a) + models(b),
{
    assert(models(a + b) =~= models(a) + models(b));
}

} // verus!
