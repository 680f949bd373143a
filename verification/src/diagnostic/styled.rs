//! Text in styles: the parts that a rendered diagnostic is made of.
use std::slice::Iter;

use termcolor::{Color, ColorSpec};
use vstd::prelude::*;
use vstd::std_specs::slice::{axiom_spec_slice_iter, into_iter_elts};

use super::Level;

verus! {

/// A piece of text and the style in which it is shown.
#[derive(Debug, Clone)]
pub struct StyledString {
    pub text: String,
    pub style: Style,
}

/// What a `StyledString` holds, with its text as characters.
pub struct StyledText {
    pub text: Seq<char>,
    pub style: Style,
}

impl View for StyledString {
    type V = StyledText;

    open spec fn view(&self) -> StyledText {
        StyledText { text: self.text@, style: self.style }
    }
}

impl StyledString {
    /// Creates a new `StyledString`.
    pub fn new(text: String, style: Style) -> (r: Self)
        ensures
            r.text == text,
            r.style == style,
    {
        Self { text, style }
    }
}

/// A style that a part of a diagnostic can have.
#[derive(Debug, Copy, Clone, PartialEq, Eq, Structural)]
pub enum Style {
    /// The message in the header of a diagnostic.
    MainHeaderMsg,
    /// Plain text.
    NoStyle,
    /// The line number of a code snippet.
    LineNumber,
    /// The rule between the line numbers and the code.
    LineAndColumn,
    /// The style of a diagnostic level.
    Level(Level),
}

/// The colors of the `termcolor` crate.
#[verifier::external_type_specification]
pub struct ExColor(Color);

/// The color specification of the `termcolor` crate: how a piece of text is
/// to be shown on a terminal.
#[verifier::external_type_specification]
#[verifier::external_body]
pub struct ExColorSpec(ColorSpec);

/// What `ColorSpec::fg` returns: the foreground color.
pub uninterp spec fn spec_fg(spec: ColorSpec) -> Option<Color>;

/// What `ColorSpec::bold` returns: whether the text is bold.
pub uninterp spec fn spec_bold(spec: ColorSpec) -> bool;

/// What `ColorSpec::intense` returns: whether the color is intense.
pub uninterp spec fn spec_intense(spec: ColorSpec) -> bool;

/// `ColorSpec::new`: a specification without a color, neither bold nor
/// intense.
#[verifier::external_body]
fn color_spec_new() -> (spec: ColorSpec)
    ensures
        spec_fg(spec).is_none(),
        !spec_bold(spec),
        !spec_intense(spec),
{
    ColorSpec::new()
}

/// `ColorSpec::set_fg`: sets the foreground color and nothing else.
#[verifier::external_body]
fn color_spec_set_fg(spec: &mut ColorSpec, color: Option<Color>)
    ensures
        spec_fg(*final(spec)) == color,
        spec_bold(*final(spec)) == spec_bold(*old(spec)),
        spec_intense(*final(spec)) == spec_intense(*old(spec)),
{
    spec.set_fg(color);
}

/// `ColorSpec::set_bold`: sets whether the text is bold and nothing else.
#[verifier::external_body]
fn color_spec_set_bold(spec: &mut ColorSpec, yes: bool)
    ensures
        spec_fg(*final(spec)) == spec_fg(*old(spec)),
        spec_bold(*final(spec)) == yes,
        spec_intense(*final(spec)) == spec_intense(*old(spec)),
{
    spec.set_bold(yes);
}

/// `ColorSpec::set_intense`: sets whether the color is intense and nothing
/// else.
#[verifier::external_body]
fn color_spec_set_intense(spec: &mut ColorSpec, yes: bool)
    ensures
        spec_fg(*final(spec)) == spec_fg(*old(spec)),
        spec_bold(*final(spec)) == spec_bold(*old(spec)),
        spec_intense(*final(spec)) == yes,
{
    spec.set_intense(yes);
}

/// The color of the prompt: of line numbers and of the rule beside them.
pub const PROMPT_COLOR: Color = Color::Blue;

/// The color of warnings.
pub const WARNING_COLOR: Color = Color::Yellow;

/// The color of errors and of bugs.
pub const ERROR_COLOR: Color = Color::Red;

/// The color of notes.
pub const NOTE_COLOR: Color = Color::Green;

/// The color of help texts.
pub const HELP_COLOR: Color = Color::Cyan;

impl Level {
    /// The color in which a level is shown. A cancelled diagnostic is never
    /// shown and has none.
    pub open spec fn shown_in(self) -> Option<Color> {
        match self {
            Level::Bug | Level::Error => Some(ERROR_COLOR),
            Level::Warning => Some(WARNING_COLOR),
            Level::Note => Some(NOTE_COLOR),
            Level::Help => Some(HELP_COLOR),
            Level::Cancelled => None,
        }
    }

    /// Returns the color specification in which the level is shown: its
    /// color, intense.
    pub fn color(&self) -> (spec: ColorSpec)
        requires
            *self != Level::Cancelled,
        ensures
            spec_fg(spec) == self.shown_in(),
            !spec_bold(spec),
            spec_intense(spec),
    {
        let mut spec = color_spec_new();
        let color = match self {
            Level::Bug | Level::Error => ERROR_COLOR,
            Level::Warning => WARNING_COLOR,
            Level::Note => NOTE_COLOR,
            Level::Help => HELP_COLOR,
            Level::Cancelled => vstd::pervasive::unreached(),
        };
        color_spec_set_fg(&mut spec, Some(color));
        color_spec_set_intense(&mut spec, true);
        spec
    }
}

impl Style {
    /// Converts a style into a color specification for colored output. The
    /// header is bold; plain text is plain; line numbers and the rule beside
    /// them are bold in the intense color of the prompt; a level has the
    /// color of the level.
    pub fn to_spec(&self) -> (spec: ColorSpec)
        requires
            *self != Style::Level(Level::Cancelled),
        ensures
            spec_fg(spec) == match *self {
                Style::MainHeaderMsg | Style::NoStyle => None,
                Style::LineNumber | Style::LineAndColumn => Some(PROMPT_COLOR),
                Style::Level(l) => l.shown_in(),
            },
            spec_bold(spec) == (*self == Style::MainHeaderMsg || *self == Style::LineNumber
                || *self == Style::LineAndColumn),
            spec_intense(spec) == (*self == Style::LineNumber || *self == Style::LineAndColumn
                || *self is Level),
    {
        match self {
            Style::MainHeaderMsg => {
                let mut spec = color_spec_new();
                color_spec_set_bold(&mut spec, true);
                spec
            },
            Style::NoStyle => color_spec_new(),
            Style::LineNumber | Style::LineAndColumn => {
                let mut spec = color_spec_new();
                color_spec_set_fg(&mut spec, Some(PROMPT_COLOR));
                color_spec_set_intense(&mut spec, true);
                color_spec_set_bold(&mut spec, true);
                spec
            },
            Style::Level(l) => l.color(),
        }
    }
}

/// The styled parts of a diagnostic message, in the order in which they are
/// shown.
#[derive(Debug)]
pub struct StyledBuffer {
    parts: Vec<StyledString>,
}

impl View for StyledBuffer {
    type V = Seq<StyledText>;

    /// The texts of the buffer with their styles, in order.
    open spec fn view(&self) -> Seq<StyledText> {
        self.parts().map_values(|part: StyledString| part@)
    }
}

impl StyledBuffer {
    /// The parts of the buffer.
    pub closed spec fn parts(&self) -> Seq<StyledString> {
        self.parts@
    }

    /// Creates a new, empty `StyledBuffer`.
    pub fn new() -> (r: StyledBuffer)
        ensures
            r.parts() == Seq::<StyledString>::empty(),
    {
        Self { parts: Vec::new() }
    }

    /// Puts a part behind the parts of the buffer.
    pub fn puts(&mut self, s: StyledString)
        ensures
            final(self).parts() == old(self).parts().push(s),
            final(self)@ == old(self)@.push(s@),
    {
        self.parts.push(s);
        assert(self@ =~= old(self)@.push(s@));
    }

    /// An iterator over the parts of the buffer, in order.
    pub fn iter(&self) -> (r: Iter<'_, StyledString>)
        ensures
            into_iter_elts(r) == self.parts(),
    {
        broadcast use axiom_spec_slice_iter;

        let r = self.parts.iter();
        assert(into_iter_elts(r) =~= self.parts@);
        r
    }

    /// How many parts the buffer holds.
    pub fn len(&self) -> (n: usize)
        ensures
            n == self.parts().len(),
    {
        self.parts.len()
    }

    /// The part at `index`.
    pub fn get(&self, index: usize) -> (r: &StyledString)
        requires
            index < self.parts().len(),
        ensures
            *r == self.parts()[index as int],
    {
        &self.parts[index]
    }
}

} // verus!
