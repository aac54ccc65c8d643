//! What an event-tap trampoline does with one native record: convert it,
//! hand the event to the registered callback, and in grab mode turn the
//! callback's answer into the kind the record is returned with.
use vstd::prelude::*;
use crate::convert::{
    event_of, event_type_of, flags_after, text_fits, KeyboardState, NativeRecord,
};
use crate::event::Event;
use crate::native::{is_recognized, KIND_NULL};
use crate::slot::CallbackSlot;

verus! {

/// Converts `rec` (updating the tracked modifier state exactly once) and,
/// when it gives an event and a callback is registered, hands that event to
/// the callback. Returns the callback's answer, or `None` when it was not
/// called.
pub fn dispatch<R, F: FnMut(Event) -> R, T: FnOnce(u32, u64) -> Option<String>>(
    state: &mut KeyboardState,
    slot: &mut CallbackSlot<F>,
    rec: &NativeRecord,
    translate: T,
) -> (r: Option<R>)
    requires
        translate.requires((rec.keycode, rec.flags)),
        old(slot).callback matches Some(f) ==> forall|e: Event| f.requires((e,)),
    ensures
        final(state).last_flags == flags_after(*rec, old(state).last_flags),
        event_type_of(*rec, old(state).last_flags) is None ==> r is None && *final(slot)
            == *old(slot),
        old(slot).callback is None ==> r is None && *final(slot) == *old(slot),
        final(slot).callback is Some <==> old(slot).callback is Some,
        !is_recognized(rec.kind) ==> r is None && *final(slot) == *old(slot) && *final(state)
            == *old(state),
        event_type_of(*rec, old(state).last_flags) matches Some(t) ==> (old(
        slot).callback matches Some(f) ==> r matches Some(v) && exists|u: Option<String>|
            text_fits(translate, *rec, t, u) && f.ensures((event_of(*rec, t, u),), v)),
{
    match state.convert(rec, translate) {
        Some(event) => slot.invoke(event),
        None => None,
    }
}

/// The kind a grabbed record is handed back to the system with: the null
/// kind, which the system drops, when the callback was called and vetoed the
/// event (answered `None`); the record's own kind otherwise.
pub fn kind_after_answer(native_kind: u32, answer: &Option<Option<Event>>) -> (r: u32)
    ensures
        r == if answer matches Some(None) { KIND_NULL } else { native_kind },
{
    match answer {
        Some(None) => KIND_NULL,
        _ => native_kind,
    }
}

/// The whole grab-mode trampoline on one record: converts it, hands the
/// event to the registered callback, and returns the kind the record must be
/// handed back with. The null kind, which the system drops, comes back
/// exactly when the callback was handed the converted event and vetoed it;
/// otherwise the record keeps its kind.
pub fn grab_dispatch<
    F: FnMut(Event) -> Option<Event>,
    T: FnOnce(u32, u64) -> Option<String>,
>(
    state: &mut KeyboardState,
    slot: &mut CallbackSlot<F>,
    rec: &NativeRecord,
    translate: T,
) -> (r: u32)
    requires
        translate.requires((rec.keycode, rec.flags)),
        old(slot).callback matches Some(f) ==> forall|e: Event| f.requires((e,)),
    ensures
        final(state).last_flags == flags_after(*rec, old(state).last_flags),
        final(slot).callback is Some <==> old(slot).callback is Some,
        event_type_of(*rec, old(state).last_flags) is None ==> r == rec.kind && *final(slot)
            == *old(slot),
        old(slot).callback is None ==> r == rec.kind && *final(slot) == *old(slot),
        event_type_of(*rec, old(state).last_flags) matches Some(t) ==> (old(
        slot).callback matches Some(f) ==> exists|u: Option<String>, v: Option<Event>|
            text_fits(translate, *rec, t, u) && f.ensures((event_of(*rec, t, u),), v) && r == (
            if v is None {
                KIND_NULL
            } else {
                rec.kind
            })),
{
    let answer = dispatch(state, slot, rec, translate);
    kind_after_answer(rec.kind, &answer)
}

} // verus!
