use vstd::prelude::*;

use crate::direction::DirectionSetting;
use crate::semantics::{plain, quiet_state, SemanticRole, SemanticState, Semantics};
use crate::text_util::owned;

verus! {

/// Where an overlay sits relative to its anchor, logically.
#[derive(Clone, Copy, Debug, PartialEq, Eq, Structural, Hash)]
pub enum TooltipPlacement {
    BlockStart,
    BlockEnd,
    InlineStart,
    InlineEnd,
}

impl Default for TooltipPlacement {
    fn default() -> (placement: Self)
        ensures
            placement == TooltipPlacement::BlockStart,
    {
        TooltipPlacement::BlockStart
    }
}

/// A short hint shown next to an anchor.
#[derive(Clone, Debug, PartialEq)]
pub struct Tooltip {
    content: String,
    pub visible: bool,
    pub placement: TooltipPlacement,
    pub direction: DirectionSetting,
}

/// The state of a tooltip as contracts see it.
pub struct TooltipView {
    pub content: Seq<char>,
    pub visible: bool,
    pub placement: TooltipPlacement,
    pub direction: DirectionSetting,
}

impl View for Tooltip {
    type V = TooltipView;

    closed spec fn view(&self) -> TooltipView {
        TooltipView {
            content: self.content@,
            visible: self.visible,
            placement: self.placement,
            direction: self.direction,
        }
    }
}

impl Tooltip {
    /// A hidden tooltip placed at the block start of its anchor.
    pub fn new(content: &str) -> (tooltip: Self)
        ensures
            tooltip@ == (TooltipView {
                content: content@,
                visible: false,
                placement: TooltipPlacement::BlockStart,
                direction: DirectionSetting::Inherit,
            }),
    {
        Tooltip {
            content: owned(content),
            visible: false,
            placement: TooltipPlacement::BlockStart,
            direction: DirectionSetting::Inherit,
        }
    }

    pub fn content(&self) -> (content: &str)
        ensures
            content@ == self@.content,
    {
        self.content.as_str()
    }

    pub fn set_content(&mut self, content: &str)
        ensures
            final(self)@ == (TooltipView { content: content@, ..old(self)@ }),
    {
        self.content = owned(content);
    }

    /// Shows the tooltip; reports whether it was hidden before.
    pub fn show(&mut self) -> (changed: bool)
        ensures
            changed == !old(self)@.visible,
            final(self)@ == (TooltipView { visible: true, ..old(self)@ }),
    {
        let changed = !self.visible;
        self.visible = true;
        changed
    }

    /// Hides the tooltip; reports whether it was visible before.
    pub fn conceal(&mut self) -> (changed: bool)
        ensures
            changed == old(self)@.visible,
            final(self)@ == (TooltipView { visible: false, ..old(self)@ }),
    {
        let changed = self.visible;
        self.visible = false;
        changed
    }

    /// Text named by the content, hidden while the tooltip is.
    pub fn semantics(&self) -> (s: Semantics)
        ensures
            plain(
                s,
                SemanticRole::Text,
                Some(self@.content),
                None,
                SemanticState { hidden: !self@.visible, ..quiet_state() },
                seq![],
            ),
    {
        let mut semantics = Semantics::new(SemanticRole::Text).with_name(self.content.clone());
        semantics.state.hidden = !self.visible;
        semantics
    }
}

impl Tooltip {
    /// Sets `visible`; nothing else changes.
    pub fn set_visible(&mut self, visible: bool)
        ensures
            final(self)@ == (TooltipView { visible: visible, ..old(self)@ }),
    {
        self.visible = visible;
    }

    /// Whether `visible` is set.
    pub fn is_visible(&self) -> (r: bool)
        ensures
            r == self@.visible,
    {
        self.visible
    }

    /// Sets `placement`; nothing else changes.
    pub fn set_placement(&mut self, placement: TooltipPlacement)
        ensures
            final(self)@ == (TooltipView { placement: placement, ..old(self)@ }),
    {
        self.placement = placement;
    }

    /// Sets `direction`; nothing else changes.
    pub fn set_direction(&mut self, direction: DirectionSetting)
        ensures
            final(self)@ == (TooltipView { direction: direction, ..old(self)@ }),
    {
        self.direction = direction;
    }
}

} // verus!
