//! Progress bar styles made by `indicatif` from a template: which templates
//! it accepts, and the style together with the template it was made from.

use indicatif::style::TemplateError;
use indicatif::ProgressStyle;
use vstd::prelude::*;

verus! {

/// `indicatif::ProgressStyle`, handed to the caller as it is.
#[verifier::external_type_specification]
#[verifier::external_body]
pub struct ExProgressStyle(indicatif::ProgressStyle);

/// `indicatif::style::TemplateError`, the error of a template that does not parse.
#[verifier::external_type_specification]
#[verifier::external_body]
pub struct ExTemplateError(indicatif::style::TemplateError);

/// `c` is one of `0`..`9`.
pub open spec fn is_ascii_digit(c: char) -> bool {
    '0' <= c && c <= '9'
}

/// `t` holds no five ASCII digits in a row.
pub open spec fn short_digit_runs(t: Seq<char>) -> bool {
    forall|i: int|
        0 <= i && i + 5 <= t.len() ==> !(is_ascii_digit(#[trigger] t[i]) && is_ascii_digit(t[i + 1])
            && is_ascii_digit(t[i + 2]) && is_ascii_digit(t[i + 3]) && is_ascii_digit(t[i + 4]))
}

/// `t` holds no `!`.
pub open spec fn no_truncation_mark(t: Seq<char>) -> bool {
    forall|i: int| 0 <= i < t.len() ==> #[trigger] t[i] != '!'
}

/// `c` is ASCII white space (`char::is_ascii_whitespace`).
pub open spec fn is_ascii_space(c: char) -> bool {
    c == ' ' || c == '\t' || c == '\n' || c == '\x0C' || c == '\r'
}

/// Where the template parser of `indicatif` stands between two characters.
#[derive(Debug, Clone, Copy, PartialEq, Eq, Structural)]
pub enum TemplateState {
    Literal,
    MaybeOpen,
    Key,
    Align,
    Width,
    FirstStyle,
    AltStyle,
    DoubleClose,
}

/// The parser's state after the character `c` in state `s`; `None` where it
/// rejects the template.
pub open spec fn template_step(s: TemplateState, c: char) -> Option<TemplateState> {
    match s {
        TemplateState::Literal => if c == '{' {
            Some(TemplateState::MaybeOpen)
        } else if c == '}' {
            Some(TemplateState::DoubleClose)
        } else {
            Some(TemplateState::Literal)
        },
        TemplateState::DoubleClose => if c == '}' {
            Some(TemplateState::Literal)
        } else {
            None
        },
        TemplateState::MaybeOpen => if c == '{' || is_ascii_space(c) {
            Some(TemplateState::Literal)
        } else if c != '}' && c != ':' {
            Some(TemplateState::Key)
        } else {
            None
        },
        TemplateState::Key => if is_ascii_space(c) || c == '}' {
            Some(TemplateState::Literal)
        } else if c == ':' {
            Some(TemplateState::Align)
        } else {
            Some(TemplateState::Key)
        },
        TemplateState::Align => if c == '<' || c == '^' || c == '>' || is_ascii_digit(c) || c
            == '!' {
            Some(TemplateState::Width)
        } else if c == '.' {
            Some(TemplateState::FirstStyle)
        } else if c == '}' {
            Some(TemplateState::Literal)
        } else {
            None
        },
        TemplateState::Width => if c == '!' || is_ascii_digit(c) {
            Some(TemplateState::Width)
        } else if c == '.' {
            Some(TemplateState::FirstStyle)
        } else if c == '}' {
            Some(TemplateState::Literal)
        } else {
            None
        },
        TemplateState::FirstStyle => if c == '/' {
            Some(TemplateState::AltStyle)
        } else if c == '}' {
            Some(TemplateState::Literal)
        } else {
            Some(TemplateState::FirstStyle)
        },
        TemplateState::AltStyle => if c == '}' {
            Some(TemplateState::Literal)
        } else {
            Some(TemplateState::AltStyle)
        },
    }
}

/// The parser's state after the first `n` characters of `t`, or `None` once
/// it has rejected the template.
pub open spec fn template_state(t: Seq<char>, n: nat) -> Option<TemplateState>
    decreases n,
{
    if n == 0 {
        Some(TemplateState::Literal)
    } else {
        match template_state(t, (n - 1) as nat) {
            Some(s) => template_step(s, t[n - 1]),
            None => None,
        }
    }
}

/// `indicatif` accepts `t` as a progress bar template: its parser rejects
/// no character of it.
pub open spec fn template_accepted(t: Seq<char>) -> bool {
    template_state(t, t.len()) is Some
}

/// A progress bar style and the template `indicatif` made it from.
pub struct TemplateStyle {
    style: ProgressStyle,
    template: Ghost<Seq<char>>,
}

impl TemplateStyle {
    /// The template this style was made from.
    pub closed spec fn template(&self) -> Seq<char> {
        self.template@
    }

    /// The style, to set on a progress bar.
    pub fn into_style(self) -> ProgressStyle {
        self.style
    }
}

/// `indicatif::ProgressStyle::with_template`: parses a progress bar
/// template into a style. The contract claims that it succeeds exactly on
/// the templates that its parser (`Template::from_str`) does not reject, as
/// [`template_accepted`] writes that parser's transitions down, and that the
/// style it returns is made from `template` (the source builds it from that
/// text alone). A width that does not fit in `u16` makes it panic; without
/// `!` a width is one run of digits, so short runs exclude that.
#[verifier::external_body]
pub(crate) fn with_template(template: &str) -> (r: Result<TemplateStyle, TemplateError>)
    requires
        short_digit_runs(template@),
        no_truncation_mark(template@),
    ensures
        r is Ok <==> template_accepted(template@),
        r matches Ok(s) ==> s.template() == template@,
{
    match ProgressStyle::with_template(template) {
        Ok(style) => Ok(TemplateStyle { style, template: Ghost(template@) }),
        Err(e) => Err(e),
    }
}

} // verus!
