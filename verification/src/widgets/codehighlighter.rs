//! What a syntax highlighter of code offers.
use vstd::prelude::*;
use crate::widget::RGBA;

verus! {

/// A syntax highlighter: picks a syntax and a theme, and colors lines.
pub trait TheCodeHighlighterTrait {
    fn set_syntax_by_name(&mut self, name: &str);

    fn set_theme(&mut self, theme: &str);

    /// The background color of the theme, if it has one.
    fn background(&self) -> Option<RGBA>;

    /// The background color of a selection, if the theme has one.
    fn selection_background(&self) -> Option<RGBA>;

    /// The colored runs of a line: each color with the number of characters it covers.
    fn highlight_line(&self, line: &str) -> Vec<(RGBA, usize)>;
}

} // verus!
