//! The input events that a widget is handed, one at a time.
use vstd::prelude::*;

verus! {

/// The modifier keys that are held down.
#[derive(Clone, Copy, Debug, PartialEq, Eq, Structural)]
pub struct Modifiers {
    /// A shift key.
    pub shift: bool,
    /// The platform's command key.
    pub command: bool,
}

impl Modifiers {
    /// No modifier key is held.
    pub open spec fn none() -> Modifiers {
        Modifiers { shift: false, command: false }
    }
}

impl Default for Modifiers {
    fn default() -> (modifiers: Modifiers)
        ensures
            modifiers == Modifiers::none(),
    {
        Modifiers { shift: false, command: false }
    }
}

/// A button of the mouse.
#[derive(Clone, Copy, Debug, PartialEq, Eq, Structural)]
pub enum Button {
    Left,
    Right,
    Middle,
}

/// What the mouse did.
#[derive(Clone, Copy, Debug, PartialEq, Eq, Structural)]
pub enum MouseEvent {
    ButtonPressed(Button),
    ButtonReleased(Button),
    CursorMoved,
    CursorEntered,
    CursorLeft,
    WheelScrolled,
}

/// What a finger did on a touch screen.
#[derive(Clone, Copy, Debug, PartialEq, Eq, Structural)]
pub enum TouchEvent {
    FingerPressed,
    FingerMoved,
    FingerLifted,
    FingerLost,
}

/// A key of the keyboard, as far as a slider tells keys apart.
#[derive(Clone, Copy, Debug, PartialEq, Eq, Structural)]
pub enum Key {
    ArrowUp,
    ArrowDown,
    Other,
}

/// What the keyboard did.
#[derive(Clone, Copy, Debug, PartialEq, Eq, Structural)]
pub enum KeyboardEvent {
    KeyPressed(Key),
    KeyReleased(Key),
    ModifiersChanged(Modifiers),
}

/// An input event.
#[derive(Clone, Copy, Debug, PartialEq, Eq, Structural)]
pub enum Event {
    Mouse(MouseEvent),
    Touch(TouchEvent),
    Keyboard(KeyboardEvent),
    Window,
}

/// Whether a widget consumed an event.
#[derive(Clone, Copy, Debug, PartialEq, Eq, Structural)]
pub enum EventStatus {
    /// The event was not handled and goes on to other widgets.
    Ignored,
    /// The event was handled and goes no further.
    Captured,
}

/// What an event means to a slider.
#[derive(Clone, Copy, Debug, PartialEq, Eq, Structural)]
pub enum Gesture {
    /// The primary button or a finger went down.
    Press,
    /// The primary button or a finger went up, or the finger was lost.
    Release,
    /// The pointer or a finger moved.
    Move,
    /// A key went down.
    KeyDown(Key),
    /// The set of held modifier keys changed.
    Modifiers(Modifiers),
    /// Nothing that a slider reacts to.
    Nothing,
}

/// The gesture that an event stands for.
pub open spec fn gesture_of(event: Event) -> Gesture {
    match event {
        Event::Mouse(MouseEvent::ButtonPressed(Button::Left)) => Gesture::Press,
        Event::Touch(TouchEvent::FingerPressed) => Gesture::Press,
        Event::Mouse(MouseEvent::ButtonReleased(Button::Left)) => Gesture::Release,
        Event::Touch(TouchEvent::FingerLifted) => Gesture::Release,
        Event::Touch(TouchEvent::FingerLost) => Gesture::Release,
        Event::Mouse(MouseEvent::CursorMoved) => Gesture::Move,
        Event::Touch(TouchEvent::FingerMoved) => Gesture::Move,
        Event::Keyboard(KeyboardEvent::KeyPressed(key)) => Gesture::KeyDown(key),
        Event::Keyboard(KeyboardEvent::ModifiersChanged(modifiers)) => Gesture::Modifiers(
            modifiers,
        ),
        _ => Gesture::Nothing,
    }
}

impl Event {
    /// Sorts the event into the gestures that a slider knows.
    pub fn gesture(self) -> (gesture: Gesture)
        ensures
            gesture == gesture_of(self),
    {
        match self {
            Event::Mouse(MouseEvent::ButtonPressed(Button::Left)) => Gesture::Press,
            Event::Touch(TouchEvent::FingerPressed) => Gesture::Press,
            Event::Mouse(MouseEvent::ButtonReleased(Button::Left)) => Gesture::Release,
            Event::Touch(TouchEvent::FingerLifted) => Gesture::Release,
            Event::Touch(TouchEvent::FingerLost) => Gesture::Release,
            Event::Mouse(MouseEvent::CursorMoved) => Gesture::Move,
            Event::Touch(TouchEvent::FingerMoved) => Gesture::Move,
            Event::Keyboard(KeyboardEvent::KeyPressed(key)) => Gesture::KeyDown(key),
            Event::Keyboard(KeyboardEvent::ModifiersChanged(modifiers)) => Gesture::Modifiers(
                modifiers,
            ),
            _ => Gesture::Nothing,
        }
    }
}

} // verus!
