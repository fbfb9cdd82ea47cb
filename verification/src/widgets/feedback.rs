use vstd::prelude::*;

use crate::direction::DirectionSetting;
use crate::semantics::{plain, quiet_state, SemanticRole, SemanticState, Semantics};
use crate::style::{style_of, ComponentStyle, VisualVariant};
use crate::text_util::owned;

verus! {

/// A message that demands attention.
#[derive(Clone, Debug, PartialEq)]
pub struct Alert {
    message: String,
    pub style: ComponentStyle,
    pub direction: DirectionSetting,
}

/// The state of an alert as contracts see it.
pub struct AlertView {
    pub message: Seq<char>,
    pub style: ComponentStyle,
    pub direction: DirectionSetting,
}

impl View for Alert {
    type V = AlertView;

    closed spec fn view(&self) -> AlertView {
        AlertView { message: self.message@, style: self.style, direction: self.direction }
    }
}

impl Alert {
    /// An alert in the soft variant.
    pub fn new(message: &str) -> (alert: Self)
        ensures
            alert@ == (AlertView {
                message: message@,
                style: style_of(VisualVariant::Soft),
                direction: DirectionSetting::Inherit,
            }),
    {
        Alert {
            message: owned(message),
            style: ComponentStyle::with_variant(VisualVariant::Soft),
            direction: DirectionSetting::Inherit,
        }
    }

    pub fn message(&self) -> (message: &str)
        ensures
            message@ == self@.message,
    {
        self.message.as_str()
    }

    pub fn set_message(&mut self, message: &str)
        ensures
            final(self)@ == (AlertView { message: message@, ..old(self)@ }),
    {
        self.message = owned(message);
    }

    /// An alert named by its message.
    pub fn semantics(&self) -> (s: Semantics)
        ensures
            plain(s, SemanticRole::Alert, Some(self@.message), None, quiet_state(), seq![]),
    {
        Semantics::new(SemanticRole::Alert).with_name(self.message.clone())
    }
}

/// What dismissing a toast did.
#[derive(Clone, Copy, Debug, PartialEq, Eq, Structural, Hash)]
pub enum ToastAction {
    NoChange,
    Dismissed,
}

/// A transient alert that the user may dismiss.
#[derive(Clone, Debug, PartialEq)]
pub struct Toast {
    pub alert: Alert,
    pub open: bool,
    pub dismissible: bool,
}

impl Toast {
    /// An open, dismissible toast.
    pub fn new(message: &str) -> (toast: Self)
        ensures
            toast.alert@ == (AlertView {
                message: message@,
                style: style_of(VisualVariant::Soft),
                direction: DirectionSetting::Inherit,
            }),
            toast.open,
            toast.dismissible,
    {
        Toast { alert: Alert::new(message), open: true, dismissible: true }
    }

    /// Closes an open, dismissible toast; otherwise nothing changes.
    pub fn dismiss(&mut self) -> (action: ToastAction)
        ensures
            if old(self).open && old(self).dismissible {
                action == ToastAction::Dismissed && *final(self) == (Toast { open: false, ..*old(self) })
            } else {
                action == ToastAction::NoChange && *final(self) == *old(self)
            },
    {
        if self.open && self.dismissible {
            self.open = false;
            ToastAction::Dismissed
        } else {
            ToastAction::NoChange
        }
    }

    /// The alert's semantics, hidden once the toast is closed.
    pub fn semantics(&self) -> (s: Semantics)
        ensures
            plain(
                s,
                SemanticRole::Alert,
                Some(self.alert@.message),
                None,
                SemanticState { hidden: !self.open, ..quiet_state() },
                seq![],
            ),
    {
        let mut semantics = self.alert.semantics();
        semantics.state.hidden = !self.open;
        semantics
    }
}


/// A progress value was not a finite fraction between zero and one.
#[derive(Clone, Copy, Debug, PartialEq, Eq, Structural, Hash)]
pub struct ProgressError;

impl ProgressError {
    pub fn message(&self) -> (text: &'static str)
        ensures
            text@ == "progress value must be finite and between zero and one"@,
    {
        "progress value must be finite and between zero and one"
    }
}

impl Alert {
    /// Sets `style`; nothing else changes.
    pub fn set_style(&mut self, style: ComponentStyle)
        ensures
            final(self)@ == (AlertView { style: style, ..old(self)@ }),
    {
        self.style = style;
    }
}

impl Alert {
    /// Sets `direction`; nothing else changes.
    pub fn set_direction(&mut self, direction: DirectionSetting)
        ensures
            final(self)@ == (AlertView { direction: direction, ..old(self)@ }),
    {
        self.direction = direction;
    }
}

} // verus!
