use vstd::prelude::*;
use crate::button::MouseButton;

verus! {

/// A button was pressed and released again within its click window.
#[derive(Clone, Copy, Debug, PartialEq, Eq, Structural)]
pub struct ClickEvent {
    pub button: MouseButton,
}

/// A button was clicked twice within its double-click window.
#[derive(Clone, Copy, Debug, PartialEq, Eq, Structural)]
pub struct DoubleclickEvent {
    pub button: MouseButton,
}

} // verus!
