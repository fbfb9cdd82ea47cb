use vstd::prelude::*;

use crate::direction::{DirectionSetting, InlineAlignment};
use crate::semantics::{plain, quiet_state, SemanticRole, Semantics};
use crate::style::SemanticColorToken;
use crate::text_util::owned;

verus! {

/// Whether text wraps at word boundaries or only at explicit line breaks.
#[derive(Clone, Copy, Debug, PartialEq, Eq, Structural, Hash)]
pub enum TextWrap {
    NoWrap,
    Word,
}

impl Default for TextWrap {
    fn default() -> (wrap: Self)
        ensures
            wrap == TextWrap::Word,
    {
        TextWrap::Word
    }
}

/// A run of text with its colour, alignment, direction and wrapping.
#[derive(Clone, Debug, PartialEq)]
pub struct Text {
    content: String,
    pub color: SemanticColorToken,
    pub align: InlineAlignment,
    pub direction: DirectionSetting,
    pub wrap: TextWrap,
    pub max_lines: Option<usize>,
}

/// The state of a text as contracts see it.
pub struct TextView {
    pub content: Seq<char>,
    pub color: SemanticColorToken,
    pub align: InlineAlignment,
    pub direction: DirectionSetting,
    pub wrap: TextWrap,
    pub max_lines: Option<usize>,
}

impl View for Text {
    type V = TextView;

    closed spec fn view(&self) -> TextView {
        TextView {
            content: self.content@,
            color: self.color,
            align: self.align,
            direction: self.direction,
            wrap: self.wrap,
            max_lines: self.max_lines,
        }
    }
}

impl Text {
    /// Text in the text colour, aligned to the inline start, wrapping at words, with no
    /// line limit.
    pub fn new(content: &str) -> (text: Self)
        ensures
            text@ == (TextView {
                content: content@,
                color: SemanticColorToken::Text,
                align: InlineAlignment::Start,
                direction: DirectionSetting::Inherit,
                wrap: TextWrap::Word,
                max_lines: None,
            }),
    {
        Text {
            content: owned(content),
            color: SemanticColorToken::Text,
            align: InlineAlignment::Start,
            direction: DirectionSetting::Inherit,
            wrap: TextWrap::Word,
            max_lines: None,
        }
    }

    pub fn content(&self) -> (content: &str)
        ensures
            content@ == self@.content,
    {
        self.content.as_str()
    }

    pub fn set_content(&mut self, content: &str)
        ensures
            final(self)@ == (TextView { content: content@, ..old(self)@ }),
    {
        self.content = owned(content);
    }

    /// Static text named by its whole content, with no actions.
    pub fn semantics(&self) -> (s: Semantics)
        ensures
            plain(s, SemanticRole::Text, Some(self@.content), None, quiet_state(), seq![]),
    {
        Semantics::new(SemanticRole::Text).with_name(self.content.clone())
    }
}

impl Text {
    /// Sets `color`; nothing else changes.
    pub fn set_color(&mut self, color: SemanticColorToken)
        ensures
            final(self)@ == (TextView { color: color, ..old(self)@ }),
    {
        self.color = color;
    }

    /// Sets `align`; nothing else changes.
    pub fn set_align(&mut self, align: InlineAlignment)
        ensures
            final(self)@ == (TextView { align: align, ..old(self)@ }),
    {
        self.align = align;
    }

    /// Sets `direction`; nothing else changes.
    pub fn set_direction(&mut self, direction: DirectionSetting)
        ensures
            final(self)@ == (TextView { direction: direction, ..old(self)@ }),
    {
        self.direction = direction;
    }

    /// Sets `wrap`; nothing else changes.
    pub fn set_wrap(&mut self, wrap: TextWrap)
        ensures
            final(self)@ == (TextView { wrap: wrap, ..old(self)@ }),
    {
        self.wrap = wrap;
    }

    /// Sets `max_lines`; nothing else changes.
    pub fn set_max_lines(&mut self, max_lines: Option<usize>)
        ensures
            final(self)@ == (TextView { max_lines: max_lines, ..old(self)@ }),
    {
        self.max_lines = max_lines;
    }
}

} // verus!
