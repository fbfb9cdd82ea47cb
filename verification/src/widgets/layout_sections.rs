use vstd::prelude::*;

use crate::semantics::{plain, quiet_state, SemanticRole, Semantics};
use crate::text_util::owned;

verus! {

/// A marker that decorates a list item or a corner of a widget.
#[derive(Clone, Copy, Debug, Default, PartialEq, Eq, Structural, Hash)]
pub struct Indicator;

impl Indicator {
    /// A group named "Indicator".
    pub fn semantics(&self) -> (s: Semantics)
        ensures
            plain(s, SemanticRole::Group, Some("Indicator"@), None, quiet_state(), seq![]),
    {
        Semantics::new(SemanticRole::Group).with_name(owned("Indicator"))
    }
}

/// A prominent introductory section.
#[derive(Clone, Copy, Debug, Default, PartialEq, Eq, Structural, Hash)]
pub struct Hero;

impl Hero {
    /// A group named "Hero".
    pub fn semantics(&self) -> (s: Semantics)
        ensures
            plain(s, SemanticRole::Group, Some("Hero"@), None, quiet_state(), seq![]),
    {
        Semantics::new(SemanticRole::Group).with_name(owned("Hero"))
    }
}


/// A vertical list of items.
#[derive(Clone, Copy, Debug, Default, PartialEq, Eq, Structural, Hash)]
pub struct List;

impl List {
    /// A list, unnamed.
    pub fn semantics(&self) -> (s: Semantics)
        ensures
            plain(s, SemanticRole::List, None, None, quiet_state(), seq![]),
    {
        Semantics::new(SemanticRole::List)
    }
}

/// The closing section of a page.
#[derive(Clone, Copy, Debug, Default, PartialEq, Eq, Structural, Hash)]
pub struct Footer;

impl Footer {
    /// A group named "Footer".
    pub fn semantics(&self) -> (s: Semantics)
        ensures
            plain(s, SemanticRole::Group, Some("Footer"@), None, quiet_state(), seq![]),
    {
        Semantics::new(SemanticRole::Group).with_name(owned("Footer"))
    }
}

} // verus!
