//! Lines of styled text, as plain values that any renderer can draw.

use vstd::prelude::*;

verus! {

/// A colour by its red, green and blue parts.
#[derive(Clone, Copy, Debug, PartialEq, Eq, Structural)]
pub struct Rgb {
    pub r: u8,
    pub g: u8,
    pub b: u8,
}

/// A run of text in one style. A span without a colour is drawn in the
/// terminal's own.
pub struct StyledSpan {
    pub content: String,
    pub color: Option<Rgb>,
    pub bold: bool,
}

/// A `StyledSpan` as plain values.
pub struct SpanView {
    pub content: Seq<char>,
    pub color: Option<Rgb>,
    pub bold: bool,
}

impl DeepView for StyledSpan {
    type V = SpanView;

    open spec fn deep_view(&self) -> SpanView {
        SpanView { content: self.content@, color: self.color, bold: self.bold }
    }
}

/// One line of text: its spans from left to right.
pub struct StyledLine {
    pub spans: Vec<StyledSpan>,
}

impl DeepView for StyledLine {
    type V = Seq<SpanView>;

    open spec fn deep_view(&self) -> Seq<SpanView> {
        self.spans.deep_view()
    }
}

/// A span of unstyled text.
pub open spec fn raw_span(content: Seq<char>) -> SpanView {
    SpanView { content, color: None, bold: false }
}

/// A span of coloured text.
pub open spec fn colored_span(content: Seq<char>, color: Rgb, bold: bool) -> SpanView {
    SpanView { content, color: Some(color), bold }
}

impl StyledSpan {
    /// A span of unstyled text.
    pub fn raw(content: String) -> (span: StyledSpan)
        ensures
            span.deep_view() == raw_span(content@),
    {
        StyledSpan { content, color: None, bold: false }
    }

    /// A span of coloured text.
    pub fn colored(content: String, color: Rgb, bold: bool) -> (span: StyledSpan)
        ensures
            span.deep_view() == colored_span(content@, color, bold),
    {
        StyledSpan { content, color: Some(color), bold }
    }
}

impl Rgb {
    /// The colour of labels.
    #[verifier::allow_in_spec]
    pub fn slate() -> Rgb
        returns
            (Rgb { r: 169, g: 177, b: 214 }),
    {
        Rgb { r: 169, g: 177, b: 214 }
    }

    /// The colour of what is well, and of what comes in.
    #[verifier::allow_in_spec]
    pub fn green() -> Rgb
        returns
            (Rgb { r: 158, g: 206, b: 106 }),
    {
        Rgb { r: 158, g: 206, b: 106 }
    }

    /// The colour of what deserves a look, and of what goes out.
    #[verifier::allow_in_spec]
    pub fn amber() -> Rgb
        returns
            (Rgb { r: 224, g: 175, b: 104 }),
    {
        Rgb { r: 224, g: 175, b: 104 }
    }

    /// The colour of names and of measured values.
    #[verifier::allow_in_spec]
    pub fn violet() -> Rgb
        returns
            (Rgb { r: 187, g: 154, b: 247 }),
    {
        Rgb { r: 187, g: 154, b: 247 }
    }

    /// The colour of the host's name and of what is critical.
    #[verifier::allow_in_spec]
    pub fn rose() -> Rgb
        returns
            (Rgb { r: 247, g: 118, b: 142 }),
    {
        Rgb { r: 247, g: 118, b: 142 }
    }

    /// The colour of the memory line.
    #[verifier::allow_in_spec]
    pub fn coral() -> Rgb
        returns
            (Rgb { r: 239, g: 111, b: 111 }),
    {
        Rgb { r: 239, g: 111, b: 111 }
    }
}

impl StyledSpan {
    /// A span of unstyled text.
    pub fn plain(text: &str) -> (span: StyledSpan)
        ensures
            span.deep_view() == raw_span(text@),
    {
        StyledSpan::raw(text.to_owned())
    }

    /// A span of coloured text in normal weight.
    pub fn tinted(text: &str, color: Rgb) -> (span: StyledSpan)
        ensures
            span.deep_view() == colored_span(text@, color, false),
    {
        StyledSpan::colored(text.to_owned(), color, false)
    }
}

} // verus!
