//! Conversion of a native event-tap record into the normalized event.
use vstd::prelude::*;
use crate::event::{Button, Event, EventType};
use crate::native::{
    is_keyboard_kind, is_recognized, KIND_FLAGS_CHANGED, KIND_KEY_DOWN, KIND_KEY_UP, KIND_LEFT_MOUSE_DOWN,
    KIND_LEFT_MOUSE_DRAGGED, KIND_LEFT_MOUSE_UP, KIND_MOUSE_MOVED, KIND_RIGHT_MOUSE_DOWN,
    KIND_RIGHT_MOUSE_DRAGGED, KIND_RIGHT_MOUSE_UP, KIND_SCROLL_WHEEL,
};

verus! {

/// The fields of a native event-tap record that conversion reads.
#[derive(Clone, Copy, Debug, PartialEq, Eq, Structural)]
pub struct NativeRecord {
    /// The native kind (a `CGEventType` value).
    pub kind: u32,
    /// The keyboard key code field.
    pub keycode: u32,
    /// The modifier flags.
    pub flags: u64,
    /// The pointer location, as IEEE-754 bit patterns of `f64` coordinates.
    pub x_bits: u64,
    pub y_bits: u64,
    /// Scroll deltas: horizontal (second axis) and vertical (first axis).
    pub wheel_delta_x: i64,
    pub wheel_delta_y: i64,
    /// The event source's user data, which tells synthetic from physical input.
    pub user_data: u64,
    /// Capture time, in milliseconds since the Unix epoch.
    pub time_ms: u64,
}

/// The modifier state that conversion tracks across events: the flags of the
/// last modifier change, which tell a modifier press from its release.
#[derive(Clone, Copy, Debug, PartialEq, Eq, Structural)]
pub struct KeyboardState {
    pub last_flags: u64,
}

/// The normalized kind of `rec`, given the flags of the last modifier change.
pub open spec fn event_type_of(rec: NativeRecord, last_flags: u64) -> Option<EventType> {
    let k = rec.kind;
    if k == KIND_LEFT_MOUSE_DOWN {
        Some(EventType::ButtonPress(Button::Left))
    } else if k == KIND_LEFT_MOUSE_UP {
        Some(EventType::ButtonRelease(Button::Left))
    } else if k == KIND_RIGHT_MOUSE_DOWN {
        Some(EventType::ButtonPress(Button::Right))
    } else if k == KIND_RIGHT_MOUSE_UP {
        Some(EventType::ButtonRelease(Button::Right))
    } else if k == KIND_MOUSE_MOVED || k == KIND_LEFT_MOUSE_DRAGGED || k
        == KIND_RIGHT_MOUSE_DRAGGED {
        Some(EventType::MouseMove { x_bits: rec.x_bits, y_bits: rec.y_bits })
    } else if k == KIND_KEY_DOWN {
        Some(EventType::KeyPress(rec.keycode))
    } else if k == KIND_KEY_UP {
        Some(EventType::KeyRelease(rec.keycode))
    } else if k == KIND_FLAGS_CHANGED {
        if rec.flags < last_flags {
            Some(EventType::KeyRelease(rec.keycode))
        } else {
            Some(EventType::KeyPress(rec.keycode))
        }
    } else if k == KIND_SCROLL_WHEEL {
        Some(EventType::Wheel { delta_x: rec.wheel_delta_x, delta_y: rec.wheel_delta_y })
    } else {
        None
    }
}

/// The tracked modifier flags after converting `rec`.
pub open spec fn flags_after(rec: NativeRecord, last_flags: u64) -> u64 {
    if rec.kind == KIND_FLAGS_CHANGED {
        rec.flags
    } else {
        last_flags
    }
}

/// The platform code of an event of kind `t` converted from `rec`: the key
/// code for key events, 0 otherwise.
pub open spec fn platform_code_of(rec: NativeRecord, t: EventType) -> u32 {
    match t {
        EventType::KeyPress(_) | EventType::KeyRelease(_) => rec.keycode,
        _ => 0,
    }
}

/// The event converted from `rec`, with kind `t` and decoded text `unicode`.
pub open spec fn event_of(rec: NativeRecord, t: EventType, unicode: Option<String>) -> Event {
    Event {
        event_type: t,
        time_ms: rec.time_ms,
        unicode,
        platform_code: platform_code_of(rec, t),
        position_code: platform_code_of(rec, t),
        usb_hid: 0,
        extra_data: rec.user_data,
    }
}

/// Whether `u` is the text an event of kind `t` converted from `rec` may
/// carry: for a key press, an answer of `translate` for the record's key
/// code and flags; for any other kind, no text.
pub open spec fn text_fits<T: FnOnce(u32, u64) -> Option<String>>(
    translate: T,
    rec: NativeRecord,
    t: EventType,
    u: Option<String>,
) -> bool {
    if t is KeyPress {
        translate.ensures((rec.keycode, rec.flags), u)
    } else {
        u is None
    }
}

impl KeyboardState {
    /// A state with no modifier held.
    pub fn new() -> (r: KeyboardState)
        ensures
            r.last_flags == 0,
    {
        KeyboardState { last_flags: 0 }
    }

    /// Converts `rec`. A recognized kind gives exactly one event, whose fields
    /// follow from the record and the tracked modifier flags; only a key press
    /// asks `translate` (the keyboard layout service) for its text, with the
    /// key code and the flags. An unrecognized kind gives nothing and leaves
    /// the state as it was.
    pub fn convert<F: FnOnce(u32, u64) -> Option<String>>(
        &mut self,
        rec: &NativeRecord,
        translate: F,
    ) -> (r: Option<Event>)
        requires
            translate.requires((rec.keycode, rec.flags)),
        ensures
            final(self).last_flags == flags_after(*rec, old(self).last_flags),
            match event_type_of(*rec, old(self).last_flags) {
                None => r is None,
                Some(t) => r matches Some(e) && e == event_of(*rec, t, e.unicode) && text_fits(
                    translate,
                    *rec,
                    t,
                    e.unicode,
                ),
            },
    {
        let k = rec.kind;
        let t = if k == KIND_LEFT_MOUSE_DOWN {
            EventType::ButtonPress(Button::Left)
        } else if k == KIND_LEFT_MOUSE_UP {
            EventType::ButtonRelease(Button::Left)
        } else if k == KIND_RIGHT_MOUSE_DOWN {
            EventType::ButtonPress(Button::Right)
        } else if k == KIND_RIGHT_MOUSE_UP {
            EventType::ButtonRelease(Button::Right)
        } else if k == KIND_MOUSE_MOVED || k == KIND_LEFT_MOUSE_DRAGGED || k
            == KIND_RIGHT_MOUSE_DRAGGED {
            EventType::MouseMove { x_bits: rec.x_bits, y_bits: rec.y_bits }
        } else if k == KIND_KEY_DOWN {
            EventType::KeyPress(rec.keycode)
        } else if k == KIND_KEY_UP {
            EventType::KeyRelease(rec.keycode)
        } else if k == KIND_FLAGS_CHANGED {
            let released = rec.flags < self.last_flags;
            self.last_flags = rec.flags;
            if released {
                EventType::KeyRelease(rec.keycode)
            } else {
                EventType::KeyPress(rec.keycode)
            }
        } else if k == KIND_SCROLL_WHEEL {
            EventType::Wheel { delta_x: rec.wheel_delta_x, delta_y: rec.wheel_delta_y }
        } else {
            return None;
        };
        let (unicode, code) = match t {
            EventType::KeyPress(_) => (translate(rec.keycode, rec.flags), rec.keycode),
            EventType::KeyRelease(_) => (None, rec.keycode),
            _ => (None, 0),
        };
        Some(
            Event {
                event_type: t,
                time_ms: rec.time_ms,
                unicode,
                platform_code: code,
                position_code: code,
                usb_hid: 0,
                extra_data: rec.user_data,
            },
        )
    }
}

/// Every recognized kind converts to exactly one event, whose fields other
/// than the decoded text follow from the record and the tracked flags alone.
pub proof fn lemma_recognized_converts(rec: NativeRecord, last_flags: u64, unicode: Option<String>)
    requires
        is_recognized(rec.kind),
    ensures
        event_type_of(rec, last_flags) is Some,
        ({
            let e = event_of(rec, event_type_of(rec, last_flags)->0, unicode);
            &&& e.time_ms == rec.time_ms
            &&& e.extra_data == rec.user_data
            &&& e.usb_hid == 0
            &&& e.unicode == unicode
            &&& e.platform_code == e.position_code
            &&& e.platform_code == if is_keyboard_kind(rec.kind) { rec.keycode } else { 0 }
        }),
{
}

/// An unrecognized kind converts to nothing and leaves the tracked state
/// unchanged.
pub proof fn lemma_unrecognized_ignored(rec: NativeRecord, last_flags: u64)
    requires
        !is_recognized(rec.kind),
    ensures
        event_type_of(rec, last_flags) is None,
        flags_after(rec, last_flags) == last_flags,
{
}

} // verus!
