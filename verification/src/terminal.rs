//! Colours for the terminal: the colour of each style, and the text of a
//! styled line as the terminal takes it.

use vstd::prelude::*;
use colored::Colorize;
use crate::render::{Style, StyledLine};

verus! {

impl Style {
    /// The name of the colour in which a style is shown.
    pub open spec fn spec_color_name(self) -> Seq<char> {
        match self {
            Style::Observational => "cyan"@,
            Style::Hostile => "red"@,
            Style::ItemTransfer => "green"@,
            Style::Social => "magenta"@,
            Style::SelfStatus => "blue"@,
            Style::Movement => "bright green"@,
            Style::InternalState => "bright magenta"@,
            Style::Neutral => "white"@,
            Style::Attribution => "bright blue"@,
            Style::Dimmed => "bright black"@,
            Style::Highlight => "yellow"@,
        }
    }

    /// The name of the colour in which a style is shown.
    pub fn color_name(self) -> (name: &'static str)
        ensures
            name@ == self.spec_color_name(),
    {
        match self {
            Style::Observational => "cyan",
            Style::Hostile => "red",
            Style::ItemTransfer => "green",
            Style::Social => "magenta",
            Style::SelfStatus => "blue",
            Style::Movement => "bright green",
            Style::InternalState => "bright magenta",
            Style::Neutral => "white",
            Style::Attribution => "bright blue",
            Style::Dimmed => "bright black",
            Style::Highlight => "yellow",
        }
    }
}

/// What `colored` writes for a text in a colour when colours are on: the
/// text between the escape sequence of the colour and the reset sequence.
pub uninterp spec fn tinted(text: Seq<char>, color_name: Seq<char>) -> Seq<char>;

/// Whether `color_name` is the colour of one of the styles.
pub open spec fn is_style_color(color_name: Seq<char>) -> bool {
    exists|style: Style| color_name == #[trigger] style.spec_color_name()
}

/// Whether `painted` can be what the terminal takes for `text` in a colour:
/// the text itself where colours are switched off, the tinted text where
/// they are on.
pub open spec fn paints(painted: Seq<char>, text: Seq<char>, color_name: Seq<char>) -> bool {
    painted == text || painted == tinted(text, color_name)
}

/// `colored`'s `Colorize::color` on a string slice, written out by the
/// `Display` of the `ColoredString` it makes.
///
/// Whether colours are on depends on the environment and the terminal, so
/// the contract holds of both outcomes: with colours off the text comes back
/// as it is; with colours on it comes back tinted, which for a named colour
/// depends on the text and the name alone. The colour must be that of a
/// style: `colored` takes other names for hexadecimal colours and does not
/// return on every such name.
#[verifier::external_body]
fn paint(text: &str, color_name: &str) -> (painted: String)
    requires
        is_style_color(color_name@),
    ensures
        painted@ == text@ || painted@ == tinted(text@, color_name@),
{
    text.color(color_name).to_string()
}

/// The text of one styled line as the terminal takes it, in the colour of
/// its style.
pub fn colored_line(line: &StyledLine) -> (painted: String)
    ensures
        paints(painted@, line.text@, line.style.spec_color_name()),
{
    paint(line.text.as_str(), line.style.color_name())
}

/// The text of each styled line as the terminal takes it, in the order of
/// the lines.
pub fn colored_lines(lines: &Vec<StyledLine>) -> (painted: Vec<String>)
    ensures
        painted.len() == lines.len(),
        forall|i: int|
            0 <= i < lines.len() ==> paints(
                #[trigger] painted[i]@,
                lines[i].text@,
                lines[i].style.spec_color_name(),
            ),
{
    let mut painted: Vec<String> = Vec::new();
    let mut i: usize = 0;
    while i < lines.len()
        invariant
            i <= lines.len(),
            painted.len() == i,
            forall|j: int|
                0 <= j < i ==> paints(
                    #[trigger] painted[j]@,
                    lines[j].text@,
                    lines[j].style.spec_color_name(),
                ),
        decreases lines.len() - i,
    {
        painted.push(colored_line(&lines[i]));
        i += 1;
    }
    painted
}

} // verus!
