use vstd::prelude::*;

verus! {

/// A physical mouse button. `Other` carries the device's own number for
/// buttons beyond the usual three.
#[derive(Clone, Copy, Debug, PartialEq, Eq, Structural, Hash)]
pub enum MouseButton {
    Left,
    Right,
    Middle,
    Other(u16),
}

/// Whether a button went down or came up.
#[derive(Clone, Copy, Debug, PartialEq, Eq, Structural, Hash)]
pub enum ElementState {
    Pressed,
    Released,
}

/// One raw change of a button's state, as the input backend reports it.
#[derive(Clone, Copy, Debug, PartialEq, Eq, Structural, Hash)]
pub struct MouseButtonInput {
    pub button: MouseButton,
    pub state: ElementState,
}

/// The button that a watcher is bound to.
#[derive(Clone, Copy, Debug, PartialEq, Eq, Structural, Hash)]
pub struct Button(MouseButton);

impl View for Button {
    type V = MouseButton;

    closed spec fn view(&self) -> MouseButton {
        self.0
    }
}

impl Button {
    pub fn new(button: MouseButton) -> (r: Button)
        ensures
            r@ == button,
    {
        Button(button)
    }

    pub fn get(&self) -> (r: MouseButton)
        ensures
            r == self@,
    {
        self.0
    }
}

} // verus!
