use vstd::prelude::*;

use crate::direction::DirectionSetting;
use crate::semantics::{plain, quiet_state, SemanticRole, Semantics};
use crate::style::{style_of, ComponentStyle, VisualVariant};
use crate::text_util::owned;

verus! {

/// A short status label.
#[derive(Clone, Debug, PartialEq)]
pub struct Badge {
    label: String,
    pub style: ComponentStyle,
    pub direction: DirectionSetting,
}

/// The state of a badge as contracts see it.
pub struct BadgeView {
    pub label: Seq<char>,
    pub style: ComponentStyle,
    pub direction: DirectionSetting,
}

impl View for Badge {
    type V = BadgeView;

    closed spec fn view(&self) -> BadgeView {
        BadgeView { label: self.label@, style: self.style, direction: self.direction }
    }
}

impl Badge {
    /// A badge in the soft variant.
    pub fn new(label: &str) -> (display: Self)
        ensures
            display@ == (BadgeView {
                label: label@,
                style: style_of(VisualVariant::Soft),
                direction: DirectionSetting::Inherit,
            }),
    {
        Badge {
            label: owned(label),
            style: ComponentStyle::with_variant(VisualVariant::Soft),
            direction: DirectionSetting::Inherit,
        }
    }

    pub fn label(&self) -> (label: &str)
        ensures
            label@ == self@.label,
    {
        self.label.as_str()
    }

    pub fn set_label(&mut self, label: &str)
        ensures
            final(self)@ == (BadgeView { label: label@, ..old(self)@ }),
    {
        self.label = owned(label);
    }

    /// Static text named by its label.
    pub fn semantics(&self) -> (s: Semantics)
        ensures
            plain(s, SemanticRole::Text, Some(self@.label), None, quiet_state(), seq![]),
    {
        Semantics::new(SemanticRole::Text).with_name(self.label.clone())
    }
}

/// A keyboard key or shortcut shown as a key cap.
#[derive(Clone, Debug, PartialEq)]
pub struct Kbd {
    label: String,
    pub style: ComponentStyle,
    pub direction: DirectionSetting,
}

/// The state of a key cap as contracts see it.
pub struct KbdView {
    pub label: Seq<char>,
    pub style: ComponentStyle,
    pub direction: DirectionSetting,
}

impl View for Kbd {
    type V = KbdView;

    closed spec fn view(&self) -> KbdView {
        KbdView { label: self.label@, style: self.style, direction: self.direction }
    }
}

impl Kbd {
    /// A key cap in the outline variant.
    pub fn new(label: &str) -> (display: Self)
        ensures
            display@ == (KbdView {
                label: label@,
                style: style_of(VisualVariant::Outline),
                direction: DirectionSetting::Inherit,
            }),
    {
        Kbd {
            label: owned(label),
            style: ComponentStyle::with_variant(VisualVariant::Outline),
            direction: DirectionSetting::Inherit,
        }
    }

    pub fn label(&self) -> (label: &str)
        ensures
            label@ == self@.label,
    {
        self.label.as_str()
    }

    pub fn set_label(&mut self, label: &str)
        ensures
            final(self)@ == (KbdView { label: label@, ..old(self)@ }),
    {
        self.label = owned(label);
    }

    /// Static text named by its label.
    pub fn semantics(&self) -> (s: Semantics)
        ensures
            plain(s, SemanticRole::Text, Some(self@.label), None, quiet_state(), seq![]),
    {
        Semantics::new(SemanticRole::Text).with_name(self.label.clone())
    }
}

impl Badge {
    /// Sets `style`; nothing else changes.
    pub fn set_style(&mut self, style: ComponentStyle)
        ensures
            final(self)@ == (BadgeView { style: style, ..old(self)@ }),
    {
        self.style = style;
    }
}

impl Kbd {
    /// Sets `style`; nothing else changes.
    pub fn set_style(&mut self, style: ComponentStyle)
        ensures
            final(self)@ == (KbdView { style: style, ..old(self)@ }),
    {
        self.style = style;
    }
}

impl Badge {
    /// Sets `direction`; nothing else changes.
    pub fn set_direction(&mut self, direction: DirectionSetting)
        ensures
            final(self)@ == (BadgeView { direction: direction, ..old(self)@ }),
    {
        self.direction = direction;
    }
}

impl Kbd {
    /// Sets `direction`; nothing else changes.
    pub fn set_direction(&mut self, direction: DirectionSetting)
        ensures
            final(self)@ == (KbdView { direction: direction, ..old(self)@ }),
    {
        self.direction = direction;
    }
}

} // verus!
