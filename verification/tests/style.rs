use slider::background::Color;
use slider::event::{
    Button, Event, Gesture, Key, KeyboardEvent, Modifiers, MouseEvent, TouchEvent,
};
use slider::style::{
    Appearance, DefaultStyle, Handle, HandleShape, Palette, Rail, Status, Swatch, Theme,
};

fn theme() -> Theme {
    Theme {
        palette: Palette {
            primary: Swatch {
                base: Color { r: 10, g: 20, b: 30, a: 255 },
                weak: Color { r: 11, g: 21, b: 31, a: 255 },
                strong: Color { r: 12, g: 22, b: 32, a: 255 },
            },
            secondary: Swatch {
                base: Color { r: 40, g: 50, b: 60, a: 255 },
                weak: Color { r: 41, g: 51, b: 61, a: 255 },
                strong: Color { r: 42, g: 52, b: 62, a: 255 },
            },
        },
    }
}

fn look(color: Color) -> Appearance {
    Appearance {
        rail: Rail {
            colors: (color, Color { r: 40, g: 50, b: 60, a: 255 }),
            width: 4,
            border_radius: 2,
        },
        handle: Handle {
            shape: HandleShape::Circle { radius: 7 },
            color,
            border_width: 0,
            border_color: Color { r: 0, g: 0, b: 0, a: 0 },
        },
    }
}

#[test]
fn default_style_is_strong_when_active_or_dragged() {
    let strong = Color { r: 12, g: 22, b: 32, a: 255 };
    assert_eq!(slider::style::default(&theme(), Status::Active), look(strong));
    assert_eq!(slider::style::default(&theme(), Status::Dragged), look(strong));
}

#[test]
fn default_style_is_base_when_hovered() {
    let base = Color { r: 10, g: 20, b: 30, a: 255 };
    assert_eq!(slider::style::default(&theme(), Status::Hovered), look(base));
}

#[test]
fn theme_styles_by_default() {
    assert_eq!(theme().default_style(Status::Hovered), slider::style::default(&theme(), Status::Hovered));
    assert_eq!(theme().default_style(Status::Active), slider::style::default(&theme(), Status::Active));
}

#[test]
fn an_appearance_is_its_own_style() {
    let fixed = look(Color { r: 1, g: 2, b: 3, a: 4 }).with_circular_handle(3);
    assert_eq!(fixed.default_style(Status::Active), fixed);
    assert_eq!(fixed.default_style(Status::Hovered), fixed);
    assert_eq!(fixed.default_style(Status::Dragged), fixed);
}

#[test]
fn with_circular_handle_changes_the_shape_only() {
    let color = Color { r: 1, g: 2, b: 3, a: 4 };
    let mut square = look(color);
    square.handle.shape = HandleShape::Rectangle { width: 12, border_radius: 1 };
    let round = square.with_circular_handle(9);
    assert_eq!(round.handle.shape, HandleShape::Circle { radius: 9 });
    assert_eq!(round.rail, square.rail);
    assert_eq!(round.handle.color, color);
    assert_eq!(round.handle.border_width, 0);
    assert_eq!(round.handle.border_color, Color { r: 0, g: 0, b: 0, a: 0 });
}

#[test]
fn no_modifier_is_held_by_default() {
    assert_eq!(Modifiers::default(), Modifiers { shift: false, command: false });
}

#[test]
fn gestures_of_the_mouse() {
    assert_eq!(Event::Mouse(MouseEvent::ButtonPressed(Button::Left)).gesture(), Gesture::Press);
    assert_eq!(Event::Mouse(MouseEvent::ButtonPressed(Button::Right)).gesture(), Gesture::Nothing);
    assert_eq!(Event::Mouse(MouseEvent::ButtonPressed(Button::Middle)).gesture(), Gesture::Nothing);
    assert_eq!(Event::Mouse(MouseEvent::ButtonReleased(Button::Left)).gesture(), Gesture::Release);
    assert_eq!(Event::Mouse(MouseEvent::ButtonReleased(Button::Right)).gesture(), Gesture::Nothing);
    assert_eq!(Event::Mouse(MouseEvent::CursorMoved).gesture(), Gesture::Move);
    assert_eq!(Event::Mouse(MouseEvent::CursorEntered).gesture(), Gesture::Nothing);
    assert_eq!(Event::Mouse(MouseEvent::CursorLeft).gesture(), Gesture::Nothing);
    assert_eq!(Event::Mouse(MouseEvent::WheelScrolled).gesture(), Gesture::Nothing);
}

#[test]
fn gestures_of_a_finger() {
    assert_eq!(Event::Touch(TouchEvent::FingerPressed).gesture(), Gesture::Press);
    assert_eq!(Event::Touch(TouchEvent::FingerMoved).gesture(), Gesture::Move);
    assert_eq!(Event::Touch(TouchEvent::FingerLifted).gesture(), Gesture::Release);
    assert_eq!(Event::Touch(TouchEvent::FingerLost).gesture(), Gesture::Release);
}

#[test]
fn gestures_of_the_keyboard() {
    let held = Modifiers { shift: true, command: false };
    assert_eq!(
        Event::Keyboard(KeyboardEvent::KeyPressed(Key::ArrowUp)).gesture(),
        Gesture::KeyDown(Key::ArrowUp)
    );
    assert_eq!(
        Event::Keyboard(KeyboardEvent::KeyPressed(Key::Other)).gesture(),
        Gesture::KeyDown(Key::Other)
    );
    assert_eq!(
        Event::Keyboard(KeyboardEvent::KeyReleased(Key::ArrowUp)).gesture(),
        Gesture::Nothing
    );
    assert_eq!(
        Event::Keyboard(KeyboardEvent::ModifiersChanged(held)).gesture(),
        Gesture::Modifiers(held)
    );
    assert_eq!(Event::Window.gesture(), Gesture::Nothing);
}
