use mouse_events::decimal::u8_decimal;
use mouse_events::event::{Event, EventCategory, EventType};
use mouse_events::mouse::{
    mouse_moved_description, mouse_scrolled_description, MousePressedEvent, MouseReleasedEvent,
};

#[test]
fn mouse_move_to_string() {
    let x: f32 = 2.2;
    let y: f32 = 3.3;
    let text = mouse_moved_description(&format!("{}", x), &format!("{}", y));
    assert_eq!("MouseMovedEvent x: 2.2, y: 3.3", text);
}

#[test]
fn mouse_scrolled_to_string() {
    let x_offset: f32 = 2.3;
    let y_offset: f32 = 3.2;
    let text = mouse_scrolled_description(&format!("{}", x_offset), &format!("{}", y_offset));
    assert_eq!("MouseScrolledEvent x_offset: 2.3, y_offset: 3.2", text);
}

#[test]
fn mouse_pressed_to_string() {
    let mouse_press = MousePressedEvent::new(5);
    assert_eq!("MousePressedEvent Code: 5", mouse_press.to_string());
}

#[test]
fn mouse_released_to_string() {
    let mouse_release = MouseReleasedEvent::new(5);
    assert_eq!("MouseReleasedEvent Code: 5", mouse_release.to_string());
}

#[test]
fn pressed_code_accessor() {
    let mouse_press = MousePressedEvent::new(42);
    assert_eq!(42u8, *mouse_press.mouse_pressed_code());
    assert!(!mouse_press.handled);
}

#[test]
fn released_code_accessor() {
    let mouse_release = MouseReleasedEvent::new(7);
    assert_eq!(7u8, *mouse_release.mouse_released_code());
    assert!(!mouse_release.handled);
}

#[test]
fn event_types_are_distinct() {
    let press = MousePressedEvent::new(1);
    let release = MouseReleasedEvent::new(1);
    assert_ne!(press.event_type(), release.event_type());
    assert_eq!(EventType::MouseButtonPressed, press.event_type());
    assert_eq!(EventType::MouseButtonReleased, release.event_type());
    assert_ne!(EventType::MouseMoved, EventType::MouseScrolled);
    assert_ne!(EventType::MouseMoved, EventType::MouseButtonPressed);
    assert_ne!(EventType::MouseMoved, EventType::MouseButtonReleased);
    assert_ne!(EventType::MouseScrolled, EventType::MouseButtonPressed);
    assert_ne!(EventType::MouseScrolled, EventType::MouseButtonReleased);
}

#[test]
fn event_category_is_mouse() {
    let press = MousePressedEvent::new(0);
    let release = MouseReleasedEvent::new(0);
    assert_eq!(EventCategory::EventCategoryMouse, press.event_category());
    assert_eq!(EventCategory::EventCategoryMouse, release.event_category());
}

#[test]
fn handled_does_not_change_pressed_observations() {
    let mut mouse_press = MousePressedEvent::new(9);
    let before_type = mouse_press.event_type();
    let before_category = mouse_press.event_category();
    let before_text = mouse_press.to_string();
    mouse_press.handled = true;
    assert_eq!(before_type, mouse_press.event_type());
    assert_eq!(before_category, mouse_press.event_category());
    assert_eq!(before_text, mouse_press.to_string());
    assert_eq!(9u8, *mouse_press.mouse_pressed_code());
}

#[test]
fn handled_does_not_change_released_observations() {
    let mut mouse_release = MouseReleasedEvent::new(200);
    let before_text = mouse_release.to_string();
    mouse_release.handled = true;
    assert_eq!(before_text, mouse_release.to_string());
    assert_eq!(EventType::MouseButtonReleased, mouse_release.event_type());
    assert_eq!(EventCategory::EventCategoryMouse, mouse_release.event_category());
}

#[test]
fn decimal_rendering_matches_std() {
    assert_eq!("0", u8_decimal(0));
    assert_eq!("7", u8_decimal(7));
    assert_eq!("10", u8_decimal(10));
    assert_eq!("100", u8_decimal(100));
    assert_eq!("255", u8_decimal(255));
    for n in 0u8..=255 {
        assert_eq!(n.to_string(), u8_decimal(n));
    }
}

#[test]
fn pressed_code_bounds() {
    assert_eq!("MousePressedEvent Code: 0", MousePressedEvent::new(0).to_string());
    assert_eq!("MousePressedEvent Code: 255", MousePressedEvent::new(255).to_string());
}

#[test]
fn released_code_bounds() {
    assert_eq!("MouseReleasedEvent Code: 0", MouseReleasedEvent::new(0).to_string());
    assert_eq!("MouseReleasedEvent Code: 255", MouseReleasedEvent::new(255).to_string());
}

#[test]
fn descriptions_pass_text_through() {
    assert_eq!(
        "MouseMovedEvent x: a, y: b",
        mouse_moved_description("a", "b")
    );
    assert_eq!(
        "MouseScrolledEvent x_offset: , y_offset: ",
        mouse_scrolled_description("", "")
    );
}
