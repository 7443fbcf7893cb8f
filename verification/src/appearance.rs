//! Which colours of the palette the parts of an item list are drawn in.

use vstd::prelude::*;

verus! {

/// An entry of the colour palette.
#[derive(Clone, Copy, Debug, PartialEq, Eq, Structural)]
pub enum PaletteColor {
    Text,
    TextSpecial,
    TextSecondary,
    Outline,
    OutlineSelected,
    OutlineHover,
    OutlineSecondary,
}

/// How an item list is drawn: the palette entry of each of its parts, and
/// whether its texts are limited to ASCII.
#[derive(Clone, Copy, Debug, PartialEq, Eq, Structural)]
pub struct ListAppearance {
    /// The rows that are not under the cursor.
    pub text: PaletteColor,
    /// The frame around the list and its detail view.
    pub border: PaletteColor,
    /// The box around the row under the cursor.
    pub cursor: PaletteColor,
    /// The row under the cursor.
    pub selected_row: PaletteColor,
    pub ascii_only: bool,
}

impl ListAppearance {
    /// The appearance of a list that is selected or not, and hovered or not.
    /// A selected list has the frame of a selection and a highlighted
    /// cursor; one that is not selected has a subdued cursor, and its frame
    /// shows whether it is hovered.
    pub open spec fn of(selected: bool, hover: bool, allow_unicode: bool) -> ListAppearance {
        ListAppearance {
            text: PaletteColor::Text,
            border: if selected {
                PaletteColor::OutlineSelected
            } else if hover {
                PaletteColor::OutlineHover
            } else {
                PaletteColor::Outline
            },
            cursor: if selected {
                PaletteColor::OutlineHover
            } else {
                PaletteColor::OutlineSecondary
            },
            selected_row: if selected {
                PaletteColor::TextSpecial
            } else {
                PaletteColor::TextSecondary
            },
            ascii_only: !allow_unicode,
        }
    }

    /// Computes the appearance of a list that is selected or not, and hovered
    /// or not.
    pub fn update_appearance(selected: bool, hover: bool, allow_unicode: bool) -> (appearance:
        ListAppearance)
        ensures
            appearance == ListAppearance::of(selected, hover, allow_unicode),
    {
        let mut appearance = ListAppearance {
            text: PaletteColor::Text,
            border: PaletteColor::Outline,
            cursor: PaletteColor::OutlineSecondary,
            selected_row: PaletteColor::TextSecondary,
            ascii_only: !allow_unicode,
        };
        if selected {
            appearance.border = PaletteColor::OutlineSelected;
            appearance.cursor = PaletteColor::OutlineHover;
            appearance.selected_row = PaletteColor::TextSpecial;
        } else if hover {
            appearance.border = PaletteColor::OutlineHover;
        }
        appearance
    }
}

} // verus!
