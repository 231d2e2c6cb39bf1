//! The mouse event types: pressed and released button events with their
//! payloads, tags and descriptions, and the description texts of the
//! cursor-motion events, whose coordinate fields are rendered by the
//! caller.

use vstd::prelude::*;
use vstd::string::StringExecFns;
use crate::decimal::{decimal_digits, u8_decimal};
use crate::event::{Event, EventCategory, EventType};

verus! {

/// The description of a button-press event for a given button code.
pub open spec fn pressed_description(code: u8) -> Seq<char> {
    "MousePressedEvent Code: "@ + decimal_digits(code as nat)
}

/// The description of a button-release event for a given button code.
pub open spec fn released_description(code: u8) -> Seq<char> {
    "MouseReleasedEvent Code: "@ + decimal_digits(code as nat)
}

/// The description of a cursor-motion event whose coordinates render as
/// the given texts.
pub open spec fn moved_description(x_text: Seq<char>, y_text: Seq<char>) -> Seq<char> {
    "MouseMovedEvent x: "@ + x_text + ", y: "@ + y_text
}

/// The description of a scroll event whose offsets render as the given
/// texts.
pub open spec fn scrolled_description(x_text: Seq<char>, y_text: Seq<char>) -> Seq<char> {
    "MouseScrolledEvent x_offset: "@ + x_text + ", y_offset: "@ + y_text
}

/// Builds the description of a cursor-motion event from the rendered
/// coordinate texts.
pub fn mouse_moved_description(x_text: &str, y_text: &str) -> (s: String)
    ensures
        s@ == moved_description(x_text@, y_text@),
{
    let mut s = String::from_str("MouseMovedEvent x: ");
    s.append(x_text);
    s.append(", y: ");
    s.append(y_text);
    s
}

/// Builds the description of a scroll event from the rendered offset
/// texts.
pub fn mouse_scrolled_description(x_text: &str, y_text: &str) -> (s: String)
    ensures
        s@ == scrolled_description(x_text@, y_text@),
{
    let mut s = String::from_str("MouseScrolledEvent x_offset: ");
    s.append(x_text);
    s.append(", y_offset: ");
    s.append(y_text);
    s
}

/// A mouse button was pressed. The button code is set once at
/// construction; only the `handled` flag is mutable.
pub struct MousePressedEvent {
    pub handled: bool,
    mouse_pressed_code: u8,
}

impl MousePressedEvent {
    /// The button code this event was constructed with.
    pub closed spec fn code(&self) -> u8 {
        self.mouse_pressed_code
    }

    /// Whether a listener has marked this event as consumed.
    pub closed spec fn is_handled(&self) -> bool {
        self.handled
    }

    /// Captures a press of the given button, not yet handled.
    pub fn new(mouse_pressed_code: u8) -> (e: Self)
        ensures
            e.code() == mouse_pressed_code,
            !e.is_handled(),
    {
        MousePressedEvent { handled: false, mouse_pressed_code }
    }

    pub fn mouse_pressed_code(&self) -> (c: &u8)
        ensures
            *c == self.code(),
    {
        &self.mouse_pressed_code
    }
}

impl Event for MousePressedEvent {
    open spec fn type_tag(&self) -> EventType {
        EventType::MouseButtonPressed
    }

    open spec fn category_tag(&self) -> EventCategory {
        EventCategory::EventCategoryMouse
    }

    open spec fn description(&self) -> Seq<char> {
        pressed_description(self.code())
    }

    fn event_type(&self) -> (t: EventType) {
        EventType::MouseButtonPressed
    }

    fn event_category(&self) -> (c: EventCategory) {
        EventCategory::EventCategoryMouse
    }

    fn to_string(&self) -> (s: String) {
        let mut s = String::from_str("MousePressedEvent Code: ");
        let digits = u8_decimal(self.mouse_pressed_code);
        s.append(digits.as_str());
        s
    }
}

/// A mouse button was released. The button code is set once at
/// construction; only the `handled` flag is mutable.
pub struct MouseReleasedEvent {
    pub handled: bool,
    mouse_released_code: u8,
}

impl MouseReleasedEvent {
    /// The button code this event was constructed with.
    pub closed spec fn code(&self) -> u8 {
        self.mouse_released_code
    }

    /// Whether a listener has marked this event as consumed.
    pub closed spec fn is_handled(&self) -> bool {
        self.handled
    }

    /// Captures a release of the given button, not yet handled.
    pub fn new(mouse_released_code: u8) -> (e: Self)
        ensures
            e.code() == mouse_released_code,
            !e.is_handled(),
    {
        MouseReleasedEvent { handled: false, mouse_released_code }
    }

    pub fn mouse_released_code(&self) -> (c: &u8)
        ensures
            *c == self.code(),
    {
        &self.mouse_released_code
    }
}

impl Event for MouseReleasedEvent {
    open spec fn type_tag(&self) -> EventType {
        EventType::MouseButtonReleased
    }

    open spec fn category_tag(&self) -> EventCategory {
        EventCategory::EventCategoryMouse
    }

    open spec fn description(&self) -> Seq<char> {
        released_description(self.code())
    }

    fn event_type(&self) -> (t: EventType) {
        EventType::MouseButtonReleased
    }

    fn event_category(&self) -> (c: EventCategory) {
        EventCategory::EventCategoryMouse
    }

    fn to_string(&self) -> (s: String) {
        let mut s = String::from_str("MouseReleasedEvent Code: ");
        let digits = u8_decimal(self.mouse_released_code);
        s.append(digits.as_str());
        s
    }
}

/// No two of the four event kinds share a type tag; in particular the
/// two button event types carry distinct tags.
pub proof fn lemma_event_types_distinct(p: MousePressedEvent, r: MouseReleasedEvent)
    ensures
        p.type_tag() != r.type_tag(),
        EventType::MouseMoved != EventType::MouseScrolled,
        EventType::MouseMoved != EventType::MouseButtonPressed,
        EventType::MouseMoved != EventType::MouseButtonReleased,
        EventType::MouseScrolled != EventType::MouseButtonPressed,
        EventType::MouseScrolled != EventType::MouseButtonReleased,
        EventType::MouseButtonPressed != EventType::MouseButtonReleased,
{
}

/// Every mouse event carries the mouse category tag, whatever its
/// payload or handled flag.
pub proof fn lemma_mouse_category(p: MousePressedEvent, r: MouseReleasedEvent)
    ensures
        p.category_tag() == EventCategory::EventCategoryMouse,
        r.category_tag() == EventCategory::EventCategoryMouse,
{
}

/// The handled flag is independent of the rest of a press event: two
/// press events with the same button code share their type tag,
/// category tag and description, whatever their handled flags.
pub proof fn lemma_pressed_handled_independent(a: MousePressedEvent, b: MousePressedEvent)
    requires
        a.code() == b.code(),
    ensures
        a.type_tag() == b.type_tag(),
        a.category_tag() == b.category_tag(),
        a.description() == b.description(),
{
}

/// The handled flag is independent of the rest of a release event: two
/// release events with the same button code share their type tag,
/// category tag and description, whatever their handled flags.
pub proof fn lemma_released_handled_independent(a: MouseReleasedEvent, b: MouseReleasedEvent)
    requires
        a.code() == b.code(),
    ensures
        a.type_tag() == b.type_tag(),
        a.category_tag() == b.category_tag(),
        a.description() == b.description(),
{
}

} // verus!
