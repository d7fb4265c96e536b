//! The decisions that the hook procedures make for listening and grabbing:
//! which event reaches the callback, and what the hook tells the system.
use vstd::prelude::*;

use crate::codec::{convert, decoded};
use crate::event::EventType;
use crate::native::{RawInput, HC_ACTION};

verus! {

/// What a hook procedure tells the system about the message it received.
#[derive(Debug, Clone, Copy, PartialEq, Eq, Structural)]
pub enum HookReply {
    /// Hand the message on to the next hook, so that it reaches its target.
    CallNext,
    /// Swallow the message.
    Block,
}

/// What grabbing does with an event, from what the callback returned.
#[derive(Debug, Clone, Copy, PartialEq, Eq, Structural)]
pub enum GrabDecision {
    /// Let the event through unchanged.
    Pass,
    /// Swallow the event.
    Suppress,
    /// Swallow the event and simulate this one in its place.
    Replace(EventType),
}

/// The event that the hook procedure hands to the callback: none when the
/// hook code is not `HC_ACTION`, else the decoded event, if any.
pub open spec fn dispatched(code: i32, param: usize, input: RawInput) -> Option<EventType> {
    if code == HC_ACTION {
        decoded(param, input)
    } else {
        None
    }
}

/// The decision for an event from the callback's answer: `None` suppresses,
/// the same event passes, another event replaces it.
pub open spec fn decision_of(intercepted: EventType, returned: Option<EventType>) -> GrabDecision {
    match returned {
        None => GrabDecision::Suppress,
        Some(e) => if e == intercepted {
            GrabDecision::Pass
        } else {
            GrabDecision::Replace(e)
        },
    }
}

/// The reply to the system for a decision: only `Pass` lets the intercepted event through.
pub open spec fn reply_of(decision: GrabDecision) -> HookReply {
    match decision {
        GrabDecision::Pass => HookReply::CallNext,
        _ => HookReply::Block,
    }
}

/// The event to simulate for a decision, if any.
pub open spec fn replacement_of(decision: GrabDecision) -> Option<EventType> {
    match decision {
        GrabDecision::Replace(e) => Some(e),
        _ => None,
    }
}

/// The event that a hook procedure hands to the callback, if any.
pub fn hook_event(code: i32, param: usize, input: &RawInput) -> (r: Option<EventType>)
    ensures
        r == dispatched(code, param, *input),
{
    if code == HC_ACTION {
        convert(param, input)
    } else {
        None
    }
}

/// One step of listening: the event for the observer, if any, and the reply,
/// which always lets the message through.
pub fn listen_step(code: i32, param: usize, input: &RawInput) -> (r: (Option<EventType>, HookReply))
    ensures
        r.0 == dispatched(code, param, *input),
        r.1 == HookReply::CallNext,
{
    (hook_event(code, param, input), HookReply::CallNext)
}

/// The decision for an event from what the grab callback returned.
pub fn decide(intercepted: &EventType, returned: Option<EventType>) -> (d: GrabDecision)
    ensures
        d == decision_of(*intercepted, returned),
{
    match returned {
        None => GrabDecision::Suppress,
        Some(e) => if e == *intercepted {
            GrabDecision::Pass
        } else {
            GrabDecision::Replace(e)
        },
    }
}

impl GrabDecision {
    /// The reply to the system: only `Pass` lets the intercepted event through.
    pub fn reply(&self) -> (r: HookReply)
        ensures
            r == reply_of(*self),
    {
        match self {
            GrabDecision::Pass => HookReply::CallNext,
            _ => HookReply::Block,
        }
    }

    /// The event to simulate in place of the intercepted event, if any.
    pub fn replacement(&self) -> (r: Option<EventType>)
        ensures
            r == replacement_of(*self),
    {
        match self {
            GrabDecision::Replace(e) => Some(*e),
            _ => None,
        }
    }
}

/// One step of grabbing, once the callback has answered for `intercepted`:
/// the reply to the system and the event to simulate, if any.
pub fn grab_step(intercepted: &EventType, returned: Option<EventType>) -> (r: (HookReply, Option<EventType>))
    ensures
        r.0 == reply_of(decision_of(*intercepted, returned)),
        r.1 == replacement_of(decision_of(*intercepted, returned)),
{
    let d = decide(intercepted, returned);
    (d.reply(), d.replacement())
}

/// Grabbing lets an event through exactly when the callback hands it back
/// unchanged, and simulates something only when the intercepted event is swallowed.
pub proof fn lemma_grab_outcomes(intercepted: EventType, returned: Option<EventType>)
    ensures
        reply_of(decision_of(intercepted, returned)) == HookReply::CallNext <==> returned == Some(intercepted),
        replacement_of(decision_of(intercepted, returned)) is Some ==> reply_of(decision_of(intercepted, returned)) == HookReply::Block,
        returned is None ==> replacement_of(decision_of(intercepted, returned)) is None,
{
}

} // verus!
