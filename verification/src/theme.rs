//! The colour palette and the styles built from it.

use vstd::prelude::*;

verus! {

/// A colour by its red, green and blue parts.
#[derive(Debug, Clone, Copy, PartialEq, Eq, Structural)]
pub struct Rgb {
    pub r: u8,
    pub g: u8,
    pub b: u8,
}

/// The complete set of colour tokens.
#[derive(Debug, Clone, Copy, PartialEq, Eq, Structural)]
pub struct Theme {
    /// Near-black background.
    pub bg: Rgb,
    /// Slightly lighter panel background.
    pub panel_bg: Rgb,
    /// Subtle border and divider.
    pub border: Rgb,
    /// Primary text.
    pub text: Rgb,
    /// Secondary text: hints and labels.
    pub text_muted: Rgb,
    /// Tertiary text, the least prominent.
    pub text_dim: Rgb,
    /// Amber for focus, selection and highlights.
    pub accent: Rgb,
    /// Committed, posted, ok.
    pub success: Rgb,
    /// Pending, needs attention.
    pub warning: Rgb,
    /// Rejected, invariant broken.
    pub error: Rgb,
    /// Networking and state transitions.
    pub info: Rgb,
}

/// How a piece of text is drawn: its foreground and background colour, where
/// one is set, and whether it is bold.
#[derive(Debug, Clone, Copy, PartialEq, Eq)]
pub struct Style {
    pub fg: Option<Rgb>,
    pub bg: Option<Rgb>,
    pub bold: bool,
}

impl Style {
    /// The style that sets only the foreground colour.
    pub open spec fn foreground(color: Rgb) -> Style {
        Style { fg: Some(color), bg: None, bold: false }
    }

    /// This style made bold.
    pub open spec fn emboldened(self) -> Style {
        Style { bold: true, ..self }
    }

    /// Builds the style that sets only the foreground colour.
    pub fn fg(color: Rgb) -> (r: Style)
        ensures
            r == Style::foreground(color),
    {
        Style { fg: Some(color), bg: None, bold: false }
    }
}

/// A run of text with its style.
#[derive(Debug)]
pub struct Span {
    pub text: String,
    pub style: Style,
}

/// Mathematical value of a [`Span`].
pub struct SpanView {
    pub text: Seq<char>,
    pub style: Style,
}

impl View for Span {
    type V = SpanView;

    open spec fn view(&self) -> SpanView {
        SpanView { text: self.text@, style: self.style }
    }
}

/// The palette of the application.
pub open spec fn spec_theme() -> Theme {
    Theme {
        bg: Rgb { r: 11, g: 15, b: 20 },
        panel_bg: Rgb { r: 16, g: 24, b: 38 },
        border: Rgb { r: 36, g: 48, b: 65 },
        text: Rgb { r: 230, g: 237, b: 243 },
        text_muted: Rgb { r: 155, g: 167, b: 180 },
        text_dim: Rgb { r: 107, g: 119, b: 133 },
        accent: Rgb { r: 244, g: 185, b: 66 },
        success: Rgb { r: 46, g: 204, b: 113 },
        warning: Rgb { r: 243, g: 156, b: 18 },
        error: Rgb { r: 231, g: 76, b: 60 },
        info: Rgb { r: 34, g: 193, b: 195 },
    }
}

/// Returns the palette of the application.
#[verifier::when_used_as_spec(spec_theme)]
pub fn theme() -> (t: Theme)
    ensures
        t == spec_theme(),
{
    Theme {
        bg: Rgb { r: 11, g: 15, b: 20 },
        panel_bg: Rgb { r: 16, g: 24, b: 38 },
        border: Rgb { r: 36, g: 48, b: 65 },
        text: Rgb { r: 230, g: 237, b: 243 },
        text_muted: Rgb { r: 155, g: 167, b: 180 },
        text_dim: Rgb { r: 107, g: 119, b: 133 },
        accent: Rgb { r: 244, g: 185, b: 66 },
        success: Rgb { r: 46, g: 204, b: 113 },
        warning: Rgb { r: 243, g: 156, b: 18 },
        error: Rgb { r: 231, g: 76, b: 60 },
        info: Rgb { r: 34, g: 193, b: 195 },
    }
}

/// Style of primary text.
pub fn style_text() -> (r: Style)
    ensures
        r == Style::foreground(theme().text),
{
    Style::fg(theme().text)
}

/// Style of secondary text.
pub fn style_muted() -> (r: Style)
    ensures
        r == Style::foreground(theme().text_muted),
{
    Style::fg(theme().text_muted)
}

/// Style of tertiary text.
pub fn style_dim() -> (r: Style)
    ensures
        r == Style::foreground(theme().text_dim),
{
    Style::fg(theme().text_dim)
}

/// Style of highlighted text.
pub fn style_accent() -> (r: Style)
    ensures
        r == Style::foreground(theme().accent),
{
    Style::fg(theme().accent)
}

/// Style of highlighted text in bold.
pub fn style_accent_bold() -> (r: Style)
    ensures
        r == Style::foreground(theme().accent).emboldened(),
{
    Style { fg: Some(theme().accent), bg: None, bold: true }
}

/// Style of a border.
pub fn style_border() -> (r: Style)
    ensures
        r == Style::foreground(theme().border),
{
    Style::fg(theme().border)
}

/// Style of the border of a focused element.
pub fn style_border_focused() -> (r: Style)
    ensures
        r == Style::foreground(theme().accent),
{
    Style::fg(theme().accent)
}

} // verus!
