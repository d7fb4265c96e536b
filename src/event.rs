use vstd::prelude::*;

use crate::keycodes::Key;

verus! {

/// A mouse button.
#[derive(Debug, Clone, Copy, PartialEq, Eq, Structural)]
pub enum Button {
    Left,
    Middle,
    Right,
    Forward,
    Backward,
    /// An extended button with another auxiliary code.
    Unknown(u8),
}

/// What happened. Each kind comes twice: the plain variant for input from the
/// user, and the `Simulated` variant for input that this library injected.
#[derive(Debug, Clone, Copy, PartialEq, Eq, Structural)]
pub enum EventType {
    KeyPress(Key),
    KeyRelease(Key),
    ButtonPress(Button),
    ButtonRelease(Button),
    /// Absolute screen coordinates, in pixels.
    MouseMove { x: i32, y: i32 },
    /// Scroll amounts, in notches.
    Wheel { delta_x: i64, delta_y: i64 },
    SimulatedKeyPress(Key),
    SimulatedKeyRelease(Key),
    SimulatedButtonPress(Button),
    SimulatedButtonRelease(Button),
    SimulatedMouseMove { x: i32, y: i32 },
    SimulatedWheel { delta_x: i64, delta_y: i64 },
}

/// A decoded event: its kind, the native timestamp in milliseconds, and for
/// a key press from the user the text that the key produced, when known.
#[derive(Debug, Clone, PartialEq, Eq)]
pub struct Event {
    pub event_type: EventType,
    pub time: u32,
    pub name: Option<String>,
}

impl EventType {
    /// Whether this is one of the `Simulated` variants.
    pub open spec fn is_simulated(self) -> bool {
        match self {
            EventType::SimulatedKeyPress(_) | EventType::SimulatedKeyRelease(_)
            | EventType::SimulatedButtonPress(_) | EventType::SimulatedButtonRelease(_)
            | EventType::SimulatedMouseMove { .. } | EventType::SimulatedWheel { .. } => true,
            _ => false,
        }
    }

    /// The plain variant with the same contents.
    pub open spec fn plain_variant(self) -> EventType {
        match self {
            EventType::SimulatedKeyPress(k) => EventType::KeyPress(k),
            EventType::SimulatedKeyRelease(k) => EventType::KeyRelease(k),
            EventType::SimulatedButtonPress(b) => EventType::ButtonPress(b),
            EventType::SimulatedButtonRelease(b) => EventType::ButtonRelease(b),
            EventType::SimulatedMouseMove { x, y } => EventType::MouseMove { x, y },
            EventType::SimulatedWheel { delta_x, delta_y } => EventType::Wheel { delta_x, delta_y },
            e => e,
        }
    }

    /// The `Simulated` variant with the same contents.
    pub open spec fn simulated_variant(self) -> EventType {
        match self.plain_variant() {
            EventType::KeyPress(k) => EventType::SimulatedKeyPress(k),
            EventType::KeyRelease(k) => EventType::SimulatedKeyRelease(k),
            EventType::ButtonPress(b) => EventType::SimulatedButtonPress(b),
            EventType::ButtonRelease(b) => EventType::SimulatedButtonRelease(b),
            EventType::MouseMove { x, y } => EventType::SimulatedMouseMove { x, y },
            EventType::Wheel { delta_x, delta_y } => EventType::SimulatedWheel { delta_x, delta_y },
            e => e,
        }
    }

    /// The variant that a payload with or without the injection marker gets.
    pub open spec fn tagged(self, injected: bool) -> EventType {
        if injected {
            self.simulated_variant()
        } else {
            self.plain_variant()
        }
    }

    /// Whether this is one of the `Simulated` variants.
    pub fn is_simulated_event(&self) -> (r: bool)
        ensures
            r == self.is_simulated(),
    {
        match self {
            EventType::SimulatedKeyPress(_) | EventType::SimulatedKeyRelease(_)
            | EventType::SimulatedButtonPress(_) | EventType::SimulatedButtonRelease(_)
            | EventType::SimulatedMouseMove { .. } | EventType::SimulatedWheel { .. } => true,
            _ => false,
        }
    }

    /// The plain variant with the same contents.
    pub fn to_plain(&self) -> (r: EventType)
        ensures
            r == self.plain_variant(),
            !r.is_simulated(),
    {
        match *self {
            EventType::SimulatedKeyPress(k) => EventType::KeyPress(k),
            EventType::SimulatedKeyRelease(k) => EventType::KeyRelease(k),
            EventType::SimulatedButtonPress(b) => EventType::ButtonPress(b),
            EventType::SimulatedButtonRelease(b) => EventType::ButtonRelease(b),
            EventType::SimulatedMouseMove { x, y } => EventType::MouseMove { x, y },
            EventType::SimulatedWheel { delta_x, delta_y } => EventType::Wheel { delta_x, delta_y },
            e => e,
        }
    }

    /// The `Simulated` variant with the same contents.
    pub fn to_simulated(&self) -> (r: EventType)
        ensures
            r == self.simulated_variant(),
            r.is_simulated(),
    {
        match self.to_plain() {
            EventType::KeyPress(k) => EventType::SimulatedKeyPress(k),
            EventType::KeyRelease(k) => EventType::SimulatedKeyRelease(k),
            EventType::ButtonPress(b) => EventType::SimulatedButtonPress(b),
            EventType::ButtonRelease(b) => EventType::SimulatedButtonRelease(b),
            EventType::MouseMove { x, y } => EventType::SimulatedMouseMove { x, y },
            EventType::Wheel { delta_x, delta_y } => EventType::SimulatedWheel { delta_x, delta_y },
            e => e,
        }
    }

    /// The plain variant when `injected` is false, the `Simulated` one when it is true.
    pub fn to_tagged(&self, injected: bool) -> (r: EventType)
        ensures
            r == self.tagged(injected),
            r.is_simulated() == injected,
            r.plain_variant() == self.plain_variant(),
    {
        if injected {
            self.to_simulated()
        } else {
            self.to_plain()
        }
    }
}

/// Only a key press from the user carries the text of the key.
pub open spec fn carries_name(event_type: EventType) -> bool {
    event_type is KeyPress
}

impl Event {
    /// An event of the given kind and time; `name` is kept only for a key
    /// press from the user and dropped otherwise.
    pub fn new(event_type: EventType, time: u32, name: Option<String>) -> (e: Event)
        ensures
            e.event_type == event_type,
            e.time == time,
            e.name == (if carries_name(event_type) { name } else { None::<String> }),
    {
        let name = if Self::wants_name(&event_type) {
            name
        } else {
            None
        };
        Event { event_type, time, name }
    }

    /// Whether an event of this kind carries the text of its key, so that
    /// a caller knows whether to look that text up at all.
    pub fn wants_name(event_type: &EventType) -> (r: bool)
        ensures
            r == carries_name(*event_type),
    {
        match event_type {
            EventType::KeyPress(_) => true,
            _ => false,
        }
    }
}

} // verus!
