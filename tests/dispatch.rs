use rdev::native::KIND_NULL;
use rdev::{dispatch, grab_dispatch, kind_after_answer, Button, CallbackSlot, Event, EventType, KeyboardState, NativeRecord};
use std::sync::{Arc, Mutex};

fn key_down(keycode: u32) -> NativeRecord {
    NativeRecord {
        kind: 10,
        keycode,
        flags: 0,
        x_bits: 0,
        y_bits: 0,
        wheel_delta_x: 0,
        wheel_delta_y: 0,
        user_data: 0,
        time_ms: 5,
    }
}

fn layout(code: u32, flags: u64) -> Option<String> {
    if code == 0 && flags == 0 {
        Some("a".to_string())
    } else {
        None
    }
}

#[test]
fn listen_callback_receives_key_press_once() {
    let seen: Arc<Mutex<Vec<Event>>> = Arc::new(Mutex::new(Vec::new()));
    let sink = seen.clone();
    let mut slot = CallbackSlot::new();
    slot.register(move |e: Event| sink.lock().unwrap().push(e));
    let mut st = KeyboardState::new();
    let r = dispatch(&mut st, &mut slot, &key_down(0), layout);
    assert_eq!(r, Some(()));
    let seen = seen.lock().unwrap();
    assert_eq!(seen.len(), 1);
    assert_eq!(seen[0].event_type, EventType::KeyPress(0));
    assert_eq!(seen[0].platform_code, 0);
    assert_eq!(seen[0].unicode, Some("a".to_string()));
}

#[test]
fn no_callback_means_no_answer() {
    let mut slot: CallbackSlot<fn(Event) -> Option<Event>> = CallbackSlot::new();
    let mut st = KeyboardState::new();
    let r = dispatch(&mut st, &mut slot, &key_down(1), layout);
    assert_eq!(r, None);
    assert_eq!(kind_after_answer(10, &r), 10);
}

#[test]
fn unconverted_record_skips_callback_but_updates_nothing() {
    let calls = Arc::new(Mutex::new(0u32));
    let c = calls.clone();
    let mut slot = CallbackSlot::new();
    slot.register(move |_: Event| *c.lock().unwrap() += 1);
    let mut st = KeyboardState { last_flags: 9 };
    let mut rec = key_down(1);
    rec.kind = 0xFFFF_FFFE;
    assert_eq!(dispatch(&mut st, &mut slot, &rec, layout), None);
    assert_eq!(*calls.lock().unwrap(), 0);
    assert_eq!(st.last_flags, 9);
}

#[test]
fn veto_rewrites_kind_to_null() {
    let mut slot = CallbackSlot::new();
    slot.register(|_: Event| -> Option<Event> { None });
    let mut st = KeyboardState::new();
    let answer = dispatch(&mut st, &mut slot, &key_down(3), layout);
    assert_eq!(answer, Some(None));
    assert_eq!(kind_after_answer(10, &answer), KIND_NULL);
}

#[test]
fn pass_keeps_kind() {
    let mut slot = CallbackSlot::new();
    slot.register(|e: Event| -> Option<Event> { Some(e) });
    let mut st = KeyboardState::new();
    let answer = dispatch(&mut st, &mut slot, &key_down(3), layout);
    assert!(matches!(answer, Some(Some(_))));
    assert_eq!(kind_after_answer(10, &answer), 10);
}

#[test]
fn register_replaces_previous_callback() {
    let mut slot = CallbackSlot::new();
    slot.register(Box::new(|_: Event| 1u32) as Box<dyn FnMut(Event) -> u32>);
    slot.register(Box::new(|_: Event| 2u32) as Box<dyn FnMut(Event) -> u32>);
    let mut st = KeyboardState::new();
    assert_eq!(dispatch(&mut st, &mut slot, &key_down(0), layout), Some(2));
}

#[test]
fn empty_slot_invoke_is_noop() {
    let mut slot: CallbackSlot<fn(Event) -> u8> = CallbackSlot::new();
    let e = Event {
        event_type: EventType::KeyRelease(4),
        time_ms: 0,
        unicode: None,
        platform_code: 4,
        position_code: 4,
        usb_hid: 0,
        extra_data: 0,
    };
    assert_eq!(slot.invoke(e.clone()), None);
    assert!(slot.callback.is_none());
    fn seven(_: Event) -> u8 {
        7
    }
    slot.register(seven);
    assert_eq!(slot.invoke(e), Some(7));
    assert!(slot.callback.is_some());
}

#[test]
fn callback_gets_exactly_the_converted_mouse_event() {
    let seen: Arc<Mutex<Vec<Event>>> = Arc::new(Mutex::new(Vec::new()));
    let sink = seen.clone();
    let mut slot = CallbackSlot::new();
    slot.register(move |e: Event| sink.lock().unwrap().push(e));
    let mut st = KeyboardState::new();
    let mut rec = key_down(0);
    rec.kind = 1;
    rec.user_data = 55;
    dispatch(&mut st, &mut slot, &rec, |_: u32, _: u64| Some("z".to_string()));
    let seen = seen.lock().unwrap();
    assert_eq!(
        seen[..],
        [Event {
            event_type: EventType::ButtonPress(Button::Left),
            time_ms: 5,
            unicode: None,
            platform_code: 0,
            position_code: 0,
            usb_hid: 0,
            extra_data: 55,
        }]
    );
}

#[test]
fn grab_veto_drops_and_pass_keeps() {
    let seen: Arc<Mutex<Vec<Event>>> = Arc::new(Mutex::new(Vec::new()));
    let sink = seen.clone();
    let mut slot = CallbackSlot::new();
    slot.register(move |e: Event| -> Option<Event> {
        sink.lock().unwrap().push(e.clone());
        if e.platform_code == 3 {
            None
        } else {
            Some(e)
        }
    });
    let mut st = KeyboardState::new();
    assert_eq!(grab_dispatch(&mut st, &mut slot, &key_down(3), layout), KIND_NULL);
    assert_eq!(grab_dispatch(&mut st, &mut slot, &key_down(4), layout), 10);
    let seen = seen.lock().unwrap();
    assert_eq!(seen.len(), 2);
    assert_eq!(seen[0].event_type, EventType::KeyPress(3));
    assert_eq!(seen[1].event_type, EventType::KeyPress(4));
}

#[test]
fn grab_without_callback_or_event_keeps_kind() {
    let mut empty: CallbackSlot<fn(Event) -> Option<Event>> = CallbackSlot::new();
    let mut st = KeyboardState::new();
    assert_eq!(grab_dispatch(&mut st, &mut empty, &key_down(3), layout), 10);
    let mut slot = CallbackSlot::new();
    slot.register(|_: Event| -> Option<Event> { None });
    let mut rec = key_down(3);
    rec.kind = 0xFFFF_FFFF;
    assert_eq!(grab_dispatch(&mut st, &mut slot, &rec, layout), 0xFFFF_FFFF);
}
