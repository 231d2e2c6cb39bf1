//! The common event capability: type and category tags for dispatch,
//! and a textual description for logs.

use vstd::prelude::*;

verus! {

/// Closed enumeration identifying the exact kind of an event.
#[derive(Clone, Copy, Debug, PartialEq, Eq, Structural)]
pub enum EventType {
    MouseMoved,
    MouseScrolled,
    MouseButtonPressed,
    MouseButtonReleased,
}

/// Coarse classification of events, letting a dispatcher listen to a
/// whole class without matching every concrete kind. All types here
/// belong to the mouse category; other categories are owned elsewhere.
#[derive(Clone, Copy, Debug, PartialEq, Eq, Structural)]
pub enum EventCategory {
    EventCategoryMouse,
}

/// What every event offers a dispatcher: fixed tags for routing and a
/// deterministic human-readable description. The tags and the
/// description of a value are given by spec functions of that value, so
/// each implementation pins down exactly what its methods return.
pub trait Event: Sized {
    /// The fixed kind tag of this event value.
    spec fn type_tag(&self) -> EventType;

    /// The fixed category tag of this event value.
    spec fn category_tag(&self) -> EventCategory;

    /// The exact text of this event's description.
    spec fn description(&self) -> Seq<char>;

    fn event_type(&self) -> (t: EventType)
        ensures
            t == self.type_tag(),
    ;

    fn event_category(&self) -> (c: EventCategory)
        ensures
            c == self.category_tag(),
    ;

    fn to_string(&self) -> (s: String)
        ensures
            s@ == self.description(),
    ;
}

} // verus!
