//! Styling as an opaque capability: anything that can wrap plain text for
//! display, without the renderer ever interpreting the decoration itself.
use vstd::prelude::*;
use vstd::string::*;

verus! {

/// Holds when `styled` is `text` with some decoration written around it:
/// the text itself survives contiguously and unchanged.
pub open spec fn brackets(text: Seq<char>, styled: Seq<char>) -> bool {
    exists|pre: Seq<char>, post: Seq<char>| styled == pre + text + post
}

pub proof fn lemma_brackets_plain(text: Seq<char>)
    ensures
        brackets(text, text),
{
    assert(text =~= Seq::<char>::empty() + text + Seq::<char>::empty());
}

/// A capability that wraps plain text for display. Every backend leaves the
/// text itself intact inside whatever it writes around it; a pass-through
/// backend adds nothing at all.
pub trait Styler {
    /// Whether this backend is known to hand text back unchanged.
    spec fn passes_through(&self) -> bool;

    fn apply(&self, text: &str) -> (styled: String)
        ensures
            brackets(text@, styled@),
            self.passes_through() ==> styled@ == text@,
    ;
}

/// The backend for uncolorized output: text is returned as it came.
pub struct PlainStyler;

impl Styler for PlainStyler {
    open spec fn passes_through(&self) -> bool {
        true
    }

    fn apply(&self, text: &str) -> (styled: String)
        ensures
            brackets(text@, styled@),
            self.passes_through() ==> styled@ == text@,
    {
        let styled = String::from_str(text);
        proof {
            lemma_brackets_plain(text@);
        }
        styled
    }
}

/// A foreground color for colorized output. `Unset` decorates nothing.
pub enum Hue {
    Unset,
    Default,
    Black,
    Red,
    Green,
    Yellow,
    Blue,
    Magenta,
    Cyan,
    White,
}

/// The backend for colorized output: text is wrapped in the escape sequences
/// of its foreground color.
pub struct ColorStyler {
    pub hue: Hue,
}

/// Relies on yansi 0.5's `Style::paint` and the `Display` of `Paint`: a style
/// that only sets a foreground color writes the text between that color's
/// escape prefix and the reset suffix, both empty when the color is unset,
/// and bare when coloring is globally disabled.
#[verifier::external_body]
fn paint_with_hue(hue: &Hue, text: &str) -> (styled: String)
    ensures
        brackets(text@, styled@),
        hue is Unset ==> styled@ == text@,
{
    let color = match hue {
        Hue::Unset => yansi::Color::Unset,
        Hue::Default => yansi::Color::Default,
        Hue::Black => yansi::Color::Black,
        Hue::Red => yansi::Color::Red,
        Hue::Green => yansi::Color::Green,
        Hue::Yellow => yansi::Color::Yellow,
        Hue::Blue => yansi::Color::Blue,
        Hue::Magenta => yansi::Color::Magenta,
        Hue::Cyan => yansi::Color::Cyan,
        Hue::White => yansi::Color::White,
    };
    format!("{}", yansi::Style::new(color).paint(text))
}

impl Styler for ColorStyler {
    open spec fn passes_through(&self) -> bool {
        self.hue is Unset
    }

    fn apply(&self, text: &str) -> (styled: String)
        ensures
            brackets(text@, styled@),
            self.passes_through() ==> styled@ == text@,
    {
        paint_with_hue(&self.hue, text)
    }
}

} // verus!
