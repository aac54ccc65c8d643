//! The normalized event model and the start-up errors.
use vstd::prelude::*;

verus! {

/// A mouse button.
#[derive(Clone, Copy, Debug, PartialEq, Eq, Structural)]
pub enum Button {
    Left,
    Right,
    Middle,
    Unknown(u8),
}

/// What happened, independent of the platform that reported it.
#[derive(Clone, Copy, Debug, PartialEq, Eq, Structural)]
pub enum EventType {
    /// A key went down; the key is given by its platform code.
    KeyPress(u32),
    /// A key went up; the key is given by its platform code.
    KeyRelease(u32),
    ButtonPress(Button),
    ButtonRelease(Button),
    /// The pointer moved; each coordinate is the IEEE-754 bit pattern of an
    /// `f64` in global screen space.
    MouseMove { x_bits: u64, y_bits: u64 },
    Wheel { delta_x: i64, delta_y: i64 },
}

/// One normalized input event, built once per native event.
#[derive(Clone, Debug, PartialEq)]
pub struct Event {
    pub event_type: EventType,
    /// Capture time, in milliseconds since the Unix epoch.
    pub time_ms: u64,
    /// The decoded text of a key press, when translation succeeded.
    pub unicode: Option<String>,
    /// Raw platform key or button identifier.
    pub platform_code: u32,
    /// Raw hardware scan code.
    pub position_code: u32,
    /// Normalized hardware identifier; 0 when unavailable.
    pub usb_hid: u32,
    /// Opaque tag from the event's source, passed through untouched.
    pub extra_data: u64,
}

/// Why a grab session could not start.
#[derive(Clone, Copy, Debug, PartialEq, Eq, Structural)]
pub enum GrabError {
    /// The event tap could not be created.
    EventTapError,
    /// The tap could not be wrapped as a run-loop source.
    LoopSourceError,
}

/// Why a listen session could not start.
#[derive(Clone, Copy, Debug, PartialEq, Eq, Structural)]
pub enum ListenError {
    /// The event tap could not be created.
    EventTapError,
    /// The tap could not be wrapped as a run-loop source.
    LoopSourceError,
    /// The keyboard hook was refused, with the native error code.
    KeyHookError(u32),
    /// The mouse hook was refused, with the native error code.
    MouseHookError(u32),
}

/// A refused hook installation, with the native error code.
#[derive(Clone, Copy, Debug, PartialEq, Eq, Structural)]
pub enum HookError {
    Mouse(u32),
    Key(u32),
}

/// The listen error that reports a refused hook.
pub open spec fn listen_error_of_hook(e: HookError) -> ListenError {
    match e {
        HookError::Mouse(code) => ListenError::MouseHookError(code),
        HookError::Key(code) => ListenError::KeyHookError(code),
    }
}

impl From<HookError> for ListenError {
    fn from(error: HookError) -> (r: ListenError)
        ensures
            r == listen_error_of_hook(error),
    {
        match error {
            HookError::Mouse(code) => ListenError::MouseHookError(code),
            HookError::Key(code) => ListenError::KeyHookError(code),
        }
    }
}

impl vstd::std_specs::convert::FromSpecImpl<HookError> for ListenError {
    open spec fn obeys_from_spec() -> bool {
        true
    }

    open spec fn from_spec(v: HookError) -> ListenError {
        listen_error_of_hook(v)
    }
}

} // verus!
