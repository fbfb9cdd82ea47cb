use vstd::prelude::*;

verus! {

/// The visual treatment of a component.
#[derive(Clone, Copy, Debug, PartialEq, Eq, Structural, Hash)]
pub enum VisualVariant {
    Solid,
    Soft,
    Outline,
    Transparent,
}

/// Where an adornment (such as an icon) sits relative to a label, logically or physically.
#[derive(Clone, Copy, Debug, PartialEq, Eq, Structural, Hash)]
pub enum AdornmentPlacement {
    InlineStart,
    InlineEnd,
    Left,
    Right,
}

/// The interaction state that styles a component.
#[derive(Clone, Copy, Debug, PartialEq, Eq, Structural, Hash)]
pub struct ComponentState {
    pub disabled: bool,
    pub selected: bool,
    pub error: bool,
}

/// The style choices of a component, independent of any theme.
#[derive(Clone, Copy, Debug, PartialEq, Eq, Structural, Hash)]
pub struct ComponentStyle {
    pub variant: VisualVariant,
    pub adornment: AdornmentPlacement,
    pub state: ComponentState,
}

/// Solid, with adornments at the inline start and no state flag set.
pub open spec fn default_style() -> ComponentStyle {
    ComponentStyle {
        variant: VisualVariant::Solid,
        adornment: AdornmentPlacement::InlineStart,
        state: ComponentState { disabled: false, selected: false, error: false },
    }
}

/// The default style with another variant.
pub open spec fn style_of(variant: VisualVariant) -> ComponentStyle {
    ComponentStyle { variant, ..default_style() }
}

impl Default for ComponentStyle {
    fn default() -> (style: Self)
        ensures
            style == default_style(),
    {
        ComponentStyle::with_variant(VisualVariant::Solid)
    }
}

impl ComponentStyle {
    /// The default style with the given variant.
    pub fn with_variant(variant: VisualVariant) -> (style: Self)
        ensures
            style == style_of(variant),
    {
        ComponentStyle {
            variant,
            adornment: AdornmentPlacement::InlineStart,
            state: ComponentState { disabled: false, selected: false, error: false },
        }
    }
}

/// A colour role of the theme.
#[derive(Clone, Copy, Debug, PartialEq, Eq, Structural, Hash)]
pub enum SemanticColorToken {
    Text,
    Primary,
    Surface,
    SurfaceElevated,
    Border,
}

/// The user's choice of colour scheme, or following the system.
#[derive(Clone, Copy, Debug, PartialEq, Eq, Structural, Hash)]
pub enum ThemeMode {
    System,
    Light,
    Dark,
}

/// A concrete colour scheme.
#[derive(Clone, Copy, Debug, PartialEq, Eq, Structural, Hash)]
pub enum ColorScheme {
    Light,
    Dark,
}

} // verus!
