//! Decision logic of a cross-platform keyboard and mouse capture engine.
//!
//! The platform glue (event taps, hook chains, run loops) lives outside the
//! verified part; everything it decides is computed here from plain values:
//! converting native records, dispatching to the single registered callback,
//! vetoing grabbed events, passing hooked messages on, and the lifecycle of
//! the capture sessions.
pub mod convert;
pub mod dispatch;
pub mod event;
pub mod hook;
pub mod native;
pub mod session;
pub mod slot;

pub use convert::{KeyboardState, NativeRecord};
pub use dispatch::{dispatch, grab_dispatch, kind_after_answer};
pub use event::{Button, Event, EventType, GrabError, HookError, ListenError};
pub use hook::{hook_event_type, hook_steps, HookAction, HookInstall, HookRecord, HookStep};
pub use native::listen_event_mask;
pub use session::{GrabSession, GrabStart, SessionState, TapAction, TapListenInstall};
pub use slot::CallbackSlot;
