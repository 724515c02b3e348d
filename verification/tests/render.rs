use slider::background::{Background, Color};
use slider::geometry::{Rectangle, Region};
use slider::render::{offset, paint, Border, Fill, Quad};
use slider::style::{Appearance, Handle, HandleShape, Rail};

const BEFORE: Color = Color { r: 1, g: 2, b: 3, a: 255 };
const AFTER: Color = Color { r: 4, g: 5, b: 6, a: 255 };
const KNOB: Color = Color { r: 7, g: 8, b: 9, a: 255 };
const EDGE: Color = Color { r: 10, g: 11, b: 12, a: 128 };
const CLEAR: Color = Color { r: 0, g: 0, b: 0, a: 0 };

fn look(shape: HandleShape) -> Appearance {
    Appearance {
        rail: Rail { colors: (BEFORE, AFTER), width: 4, border_radius: 2 },
        handle: Handle { shape, color: KNOB, border_width: 1, border_color: EDGE },
    }
}

#[test]
fn rounded_border_has_no_stroke() {
    assert_eq!(Border::rounded(5), Border { radius: 5, width: 0, color: CLEAR });
}

#[test]
fn offset_is_the_covered_share_of_the_travel() {
    assert_eq!(offset(50i32, 0, 100, 200, 14), 93);
    assert_eq!(offset(0i32, 0, 100, 200, 14), 0);
    assert_eq!(offset(100i32, 0, 100, 200, 14), 186);
    assert_eq!(offset(75i32, 0, 100, 200, 0), 150);
    assert_eq!(offset(-25i32, -50, 50, 100, 0), 25);
}

#[test]
fn offset_is_rounded_down() {
    assert_eq!(offset(1i32, 0, 3, 10, 0), 3);
    assert_eq!(offset(2i32, 0, 3, 10, 0), 6);
    assert_eq!(offset(30i32, 0, 100, 10, 14), -2);
    assert_eq!(offset(25i32, 0, 100, 10, 14), -1);
    assert_eq!(offset(-1i32, 0, 3, 10, 0), -4);
}

#[test]
fn offset_of_a_range_of_one_value_is_zero() {
    assert_eq!(offset(5i32, 5, 5, 200, 14), 0);
    assert_eq!(offset(0i32, 5, 5, 200, 14), 0);
    assert_eq!(offset(1_000i32, 5, 5, 200, 14), 0);
    assert_eq!(offset(i64::MAX, 5, 5, u32::MAX, 0), 0);
}

#[test]
fn offset_of_a_reversed_range_is_zero() {
    assert_eq!(offset(5i32, 10, 0, 200, 14), 0);
}

#[test]
fn offset_of_a_value_outside_the_range() {
    assert_eq!(offset(200i32, 0, 100, 200, 0), 400);
    assert_eq!(offset(-100i32, 0, 100, 200, 0), -200);
    assert_eq!(
        offset(u64::MAX, 0, 1, u32::MAX, 0),
        18_446_744_073_709_551_615i128 * 4_294_967_295i128
    );
}

#[test]
fn paint_with_a_circular_handle() {
    let bounds = Rectangle { x: 10, y: 20, width: 200, height: 16 };
    let fills = paint(&look(HandleShape::Circle { radius: 7 }), 50i32, 0, 100, bounds);
    assert_eq!(
        fills[0],
        Fill {
            quad: Quad {
                bounds: Region { x: 10, y: 26, width: 100, height: 4 },
                border: Border { radius: 2, width: 0, color: CLEAR },
            },
            background: Background::Color(BEFORE),
        }
    );
    assert_eq!(
        fills[1],
        Fill {
            quad: Quad {
                bounds: Region { x: 110, y: 26, width: 100, height: 4 },
                border: Border { radius: 2, width: 0, color: CLEAR },
            },
            background: Background::Color(AFTER),
        }
    );
    assert_eq!(
        fills[2],
        Fill {
            quad: Quad {
                bounds: Region { x: 103, y: 21, width: 14, height: 14 },
                border: Border { radius: 7, width: 1, color: EDGE },
            },
            background: Background::Color(KNOB),
        }
    );
}

#[test]
fn paint_with_a_rectangular_handle() {
    let bounds = Rectangle { x: -5, y: -9, width: 200, height: 17 };
    let shape = HandleShape::Rectangle { width: 11, border_radius: 3 };
    let fills = paint(&look(shape), 50u8, 0, 100, bounds);
    assert_eq!(fills[0].quad.bounds, Region { x: -5, y: -3, width: 99, height: 4 });
    assert_eq!(fills[1].quad.bounds, Region { x: 94, y: -3, width: 101, height: 4 });
    assert_eq!(fills[2].quad.bounds, Region { x: 89, y: -9, width: 11, height: 17 });
    assert_eq!(fills[2].quad.border, Border { radius: 3, width: 1, color: EDGE });
}

#[test]
fn paint_a_range_of_one_value_puts_the_handle_at_the_left() {
    let bounds = Rectangle { x: 0, y: 0, width: 200, height: 16 };
    let fills = paint(&look(HandleShape::Circle { radius: 7 }), 5i32, 5, 5, bounds);
    assert_eq!(fills[0].quad.bounds, Region { x: 0, y: 6, width: 7, height: 4 });
    assert_eq!(fills[1].quad.bounds, Region { x: 7, y: 6, width: 193, height: 4 });
    assert_eq!(fills[2].quad.bounds, Region { x: 0, y: 1, width: 14, height: 14 });
}

#[test]
fn paint_with_a_handle_wider_than_the_slider() {
    let bounds = Rectangle { x: 0, y: 0, width: 10, height: 16 };
    let fills = paint(&look(HandleShape::Circle { radius: 7 }), 100i32, 0, 100, bounds);
    assert_eq!(fills[0].quad.bounds, Region { x: 0, y: 6, width: 3, height: 4 });
    assert_eq!(fills[1].quad.bounds, Region { x: 3, y: 6, width: 7, height: 4 });
    assert_eq!(fills[2].quad.bounds, Region { x: -4, y: 1, width: 14, height: 14 });
}

#[test]
fn paint_with_the_largest_circle() {
    let bounds = Rectangle { x: 0, y: 0, width: 0, height: 0 };
    let fills = paint(&look(HandleShape::Circle { radius: u16::MAX }), 0i32, 0, 100, bounds);
    assert_eq!(
        fills[2].quad.bounds,
        Region { x: 0, y: -65_535, width: 131_070, height: 131_070 }
    );
    assert_eq!(fills[2].quad.border.radius, 65_535);
}
