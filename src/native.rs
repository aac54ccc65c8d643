//! Native event kinds of the event-tap platform and the masks a tap is
//! created with. The kind numbers are the platform's own `CGEventType` values.
use vstd::prelude::*;

verus! {

/// The null kind: an event rewritten to it is dropped by the system.
pub const KIND_NULL: u32 = 0;
pub const KIND_LEFT_MOUSE_DOWN: u32 = 1;
pub const KIND_LEFT_MOUSE_UP: u32 = 2;
pub const KIND_RIGHT_MOUSE_DOWN: u32 = 3;
pub const KIND_RIGHT_MOUSE_UP: u32 = 4;
pub const KIND_MOUSE_MOVED: u32 = 5;
pub const KIND_LEFT_MOUSE_DRAGGED: u32 = 6;
pub const KIND_RIGHT_MOUSE_DRAGGED: u32 = 7;
pub const KIND_KEY_DOWN: u32 = 10;
pub const KIND_KEY_UP: u32 = 11;
pub const KIND_FLAGS_CHANGED: u32 = 12;
pub const KIND_SCROLL_WHEEL: u32 = 22;

/// The mask of every kind that the converter recognizes.
pub const ALL_EVENTS_MASK: u64 = 0x40_1cfe;
/// The mask of key down, key up and modifier-flags changes.
pub const KEYBOARD_EVENTS_MASK: u64 = 0x1c00;

/// The kinds that the converter turns into an event.
pub open spec fn is_recognized(kind: u32) -> bool {
    (KIND_LEFT_MOUSE_DOWN <= kind <= KIND_RIGHT_MOUSE_DRAGGED)
        || is_keyboard_kind(kind)
        || kind == KIND_SCROLL_WHEEL
}

/// The kinds that come from the keyboard.
pub open spec fn is_keyboard_kind(kind: u32) -> bool {
    KIND_KEY_DOWN <= kind <= KIND_FLAGS_CHANGED
}

/// Whether a tap created with `mask` receives events of kind `kind`.
pub open spec fn mask_admits(mask: u64, kind: u32) -> bool {
    kind < 64 && (mask >> (kind as u64)) & 1 == 1
}

/// The mask of a listen tap: keyboard kinds only when capture is restricted
/// to the keyboard, every recognized kind otherwise.
pub open spec fn listen_event_mask_spec(keyboard_only: bool) -> u64 {
    if keyboard_only {
        KEYBOARD_EVENTS_MASK
    } else {
        ALL_EVENTS_MASK
    }
}

/// The mask of a listen tap: keyboard kinds only when capture is restricted
/// to the keyboard, every recognized kind otherwise.
pub fn listen_event_mask(keyboard_only: bool) -> (r: u64)
    ensures
        r == listen_event_mask_spec(keyboard_only),
{
    if keyboard_only {
        KEYBOARD_EVENTS_MASK
    } else {
        ALL_EVENTS_MASK
    }
}

/// A tap restricted to the keyboard receives keyboard kinds and nothing else.
pub proof fn lemma_keyboard_mask_admits_keyboard_only(kind: u32)
    ensures
        mask_admits(KEYBOARD_EVENTS_MASK, kind) <==> is_keyboard_kind(kind),
{
    let k = kind as u64;
    assert(k < 64 ==> (((0x1c00u64 >> k) & 1u64 == 1u64) <==> (10u64 <= k && k <= 12u64)))
        by (bit_vector);
}

/// The mask for all events admits exactly the recognized kinds.
pub proof fn lemma_all_mask_admits_recognized(kind: u32)
    ensures
        mask_admits(ALL_EVENTS_MASK, kind) <==> is_recognized(kind),
{
    let k = kind as u64;
    assert(k < 64 ==> (((0x40_1cfeu64 >> k) & 1u64 == 1u64) <==> ((1u64 <= k && k <= 7u64) || (10u64
        <= k && k <= 12u64) || k == 22u64))) by (bit_vector);
}

} // verus!
