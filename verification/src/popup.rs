//! Popups over the text.

use vstd::prelude::*;

verus! {

/// What a popup is for. There is at most one of each on the screen.
#[derive(Debug, Clone, Copy, PartialEq, Eq, Structural)]
pub enum PopupId {
    CodeAction,
    Hover,
    SignatureHelp,
}

/// A place on the screen.
#[derive(Debug, Clone, Copy, PartialEq, Eq, Structural)]
pub struct ScreenPosition {
    pub row: usize,
    pub col: usize,
}

/// On which side of the cursor a popup opens.
#[derive(Debug, Clone, Copy, PartialEq, Eq, Structural)]
pub enum Open {
    Above,
    Below,
}

/// A popup, which takes the place of the one with the same purpose.
#[derive(Debug, PartialEq, Eq)]
pub struct Popup<T> {
    pub id: PopupId,
    pub contents: T,
    /// Where the popup is; where this is unset, it is at the cursor.
    pub position: Option<ScreenPosition>,
    /// The side on which the popup opens, where it matters.
    pub position_bias: Option<Open>,
    /// Whether the popup stays when the user presses escape.
    pub ignore_escape_key: bool,
    /// Whether the popup goes when the user does something else.
    pub auto_close: bool,
}

/// A popup at the cursor that goes when the user does something else.
pub open spec fn passing<T>(id: PopupId, contents: T) -> Popup<T> {
    Popup {
        id,
        contents,
        position: None,
        position_bias: None,
        ignore_escape_key: false,
        auto_close: true,
    }
}

/// A popup at the cursor that goes when the user does something else.
pub fn passing_popup<T>(id: PopupId, contents: T) -> (popup: Popup<T>)
    ensures
        popup == passing(id, contents),
{
    Popup {
        id,
        contents,
        position: None,
        position_bias: None,
        ignore_escape_key: false,
        auto_close: true,
    }
}

/// A popup that passes is at the cursor, shows what it is given, and goes at the
/// next thing that the user does.
pub proof fn law_passing_popup<T>(id: PopupId, contents: T)
    ensures
        passing(id, contents).id == id,
        passing(id, contents).contents == contents,
        passing(id, contents).position is None,
        passing(id, contents).position_bias is None,
        !passing(id, contents).ignore_escape_key,
        passing(id, contents).auto_close,
{
}

} // verus!
