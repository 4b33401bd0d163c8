use crate::conversion::{Button, Key, Location, Modifiers, Physical};
use crate::redraw::Instant;
use crate::types::{Point, Size};
use vstd::prelude::*;

verus! {

/// An event of a window's lifecycle.
#[derive(Clone, Debug, PartialEq, Eq)]
pub enum WindowEvent {
    Focused,
    Unfocused,
    Resized(Size),
    Closed,
    RedrawRequested(Instant),
}

/// An event of a layer surface.
#[derive(Clone, Debug, PartialEq, Eq)]
pub enum LayerEvent {
    Opened { size: Size },
}

/// A keyboard event.
#[derive(Clone, Debug, PartialEq, Eq)]
pub enum KeyboardEvent {
    KeyPressed {
        key: Key,
        modified_key: Key,
        physical_key: Physical,
        location: Location,
        modifiers: Modifiers,
        text: Option<String>,
    },
    KeyReleased {
        key: Key,
        modified_key: Key,
        physical_key: Physical,
        location: Location,
        modifiers: Modifiers,
    },
    ModifiersChanged(Modifiers),
}

/// A mouse event. Positions and scroll amounts are in the compositor's
/// fixed-point unit.
#[derive(Clone, Debug, PartialEq, Eq)]
pub enum MouseEvent {
    CursorEntered,
    CursorMoved { position: Point },
    CursorLeft,
    ButtonPressed(Button),
    ButtonReleased(Button),
    WheelScrolled { x: i32, y: i32 },
}

/// A touch event; `id` names the contact for as long as it lasts.
#[derive(Clone, Debug, PartialEq, Eq)]
pub enum TouchEvent {
    FingerPressed { id: u64, position: Point },
    FingerMoved { id: u64, position: Point },
    FingerLifted { id: u64, position: Point },
    FingerLost { id: u64, position: Point },
}

/// An input or lifecycle event addressed to one window.
#[derive(Clone, Debug, PartialEq, Eq)]
pub enum Event {
    Window(WindowEvent),
    Layer(LayerEvent),
    Keyboard(KeyboardEvent),
    Mouse(MouseEvent),
    Touch(TouchEvent),
}

} // verus!
