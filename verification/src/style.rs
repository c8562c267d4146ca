//! The widget style selectors the application's theme is built from. The
//! colour values themselves live with the GUI; here are the selectors it
//! keys them on.

use vstd::prelude::*;

verus! {

/// Marker for the pick-list styling.
#[derive(Debug, Default, Clone, Copy)]
pub struct PickList;

/// The background a button takes, keyed by what it shows: a plain control,
/// or a result tile in one of the download states.
#[derive(Debug, Clone, Copy, PartialEq, Eq, Structural)]
pub enum Button {
    Primary,
    Downloaded,
    Inactive,
    Downloading,
    Failed,
}

impl Default for Button {
    fn default() -> (r: Self)
        ensures
            r == Button::Primary,
    {
        Button::Primary
    }
}

/// The style of a toggle button: active toggles show the primary style,
/// inactive ones are dimmed.
pub fn inactive_style(active: bool) -> (r: Button)
    ensures
        r == if active {
            Button::Primary
        } else {
            Button::Inactive
        },
{
    if active {
        Button::Primary
    } else {
        Button::Inactive
    }
}

} // verus!

