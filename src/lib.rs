//! Conversion between native Windows input hook payloads and a
//! platform-independent event model, with the hook lifecycle and the
//! listen / grab decisions that sit on top of it.
pub mod codec;
pub mod event;
pub mod hook;
pub mod inject;
pub mod keycodes;
pub mod native;
pub mod pipeline;

pub use codec::convert;
pub use event::{Button, Event, EventType};
pub use hook::{set_key_hook, set_mouse_hook, HookError, HookKind, HookManager};
pub use inject::{encode, Injection, ScreenSize, SimulateError};
pub use keycodes::{code_from_key, key_from_code, Key};
pub use pipeline::{GrabDecision, HookReply};
