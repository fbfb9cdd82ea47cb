use vstd::prelude::*;

verus! {

/// The base writing direction of a piece of the interface.
#[derive(Clone, Copy, Debug, PartialEq, Eq, Structural, Hash)]
pub enum Direction {
    Ltr,
    Rtl,
}

/// A widget's own direction choice: follow the enclosing direction, or force one.
#[derive(Clone, Copy, Debug, PartialEq, Eq, Structural, Hash)]
pub enum DirectionSetting {
    Inherit,
    Ltr,
    Rtl,
}

/// The direction that a setting yields under an inherited direction.
pub open spec fn resolved_direction(setting: DirectionSetting, inherited: Direction) -> Direction {
    match setting {
        DirectionSetting::Inherit => inherited,
        DirectionSetting::Ltr => Direction::Ltr,
        DirectionSetting::Rtl => Direction::Rtl,
    }
}

impl DirectionSetting {
    /// A local setting wins over the inherited direction; `Inherit` defers to it.
    pub fn resolve(self, inherited: Direction) -> (resolved: Direction)
        ensures
            resolved == resolved_direction(self, inherited),
    {
        match self {
            DirectionSetting::Inherit => inherited,
            DirectionSetting::Ltr => Direction::Ltr,
            DirectionSetting::Rtl => Direction::Rtl,
        }
    }
}

/// Logical alignment along the inline axis, mirrored by the writing direction.
#[derive(Clone, Copy, Debug, PartialEq, Eq, Structural, Hash)]
pub enum InlineAlignment {
    Start,
    Center,
    End,
}

/// Physical alignment along the horizontal axis.
#[derive(Clone, Copy, Debug, PartialEq, Eq, Structural, Hash)]
pub enum HorizontalAlignment {
    Left,
    Center,
    Right,
}

/// Where a logical inline alignment lands in a direction: the start is the left in
/// left-to-right text and the right in right-to-left text; the centre stays.
pub open spec fn resolved_alignment(alignment: InlineAlignment, direction: Direction) -> HorizontalAlignment {
    match (alignment, direction) {
        (InlineAlignment::Center, _) => HorizontalAlignment::Center,
        (InlineAlignment::Start, Direction::Ltr) | (InlineAlignment::End, Direction::Rtl) => HorizontalAlignment::Left,
        _ => HorizontalAlignment::Right,
    }
}

/// The physical alignment on the other side of the axis.
pub open spec fn mirrored_alignment(alignment: HorizontalAlignment) -> HorizontalAlignment {
    match alignment {
        HorizontalAlignment::Left => HorizontalAlignment::Right,
        HorizontalAlignment::Center => HorizontalAlignment::Center,
        HorizontalAlignment::Right => HorizontalAlignment::Left,
    }
}

impl InlineAlignment {
    /// The physical alignment this logical one takes in `direction`.
    pub fn resolve(self, direction: Direction) -> (aligned: HorizontalAlignment)
        ensures
            aligned == resolved_alignment(self, direction),
    {
        match (self, direction) {
            (InlineAlignment::Center, _) => HorizontalAlignment::Center,
            (InlineAlignment::Start, Direction::Ltr) | (InlineAlignment::End, Direction::Rtl) => HorizontalAlignment::Left,
            _ => HorizontalAlignment::Right,
        }
    }
}

/// Turning the direction round mirrors every inline alignment.
pub proof fn lemma_alignment_mirrors_with_direction(alignment: InlineAlignment)
    ensures
        resolved_alignment(alignment, Direction::Rtl) == mirrored_alignment(
            resolved_alignment(alignment, Direction::Ltr),
        ),
{
}

} // verus!
