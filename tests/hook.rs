use rdev::hook::{HC_ACTION, WM_KEYDOWN, WM_MOUSEWHEEL, WM_XBUTTONUP};
use rdev::{
    hook_event_type, hook_steps, Button, Event, EventType, HookAction, HookError, HookInstall,
    HookRecord, HookStep, ListenError,
};

fn layout(vk: u32, scan: u32) -> Option<String> {
    if vk == 0x41 && scan == 0x1e {
        Some("a".to_string())
    } else {
        None
    }
}

fn rec(message: usize) -> HookRecord {
    HookRecord {
        message,
        vk_code: 0x41,
        scan_code: 0x1e,
        mouse_data_high: 0,
        x_bits: 0,
        y_bits: 0,
        extra_info: 9,
    }
}

#[test]
fn key_down_is_delivered_then_forwarded() {
    let steps = hook_steps(HC_ACTION, &rec(WM_KEYDOWN), 3, layout);
    let expected = Event {
        event_type: EventType::KeyPress(0x41),
        time_ms: 3,
        unicode: Some("a".to_string()),
        platform_code: 0x41,
        position_code: 0x1e,
        usb_hid: 0,
        extra_data: 9,
    };
    assert_eq!(steps, vec![HookStep::Deliver(expected), HookStep::CallNext]);
}

#[test]
fn other_hook_codes_only_forward() {
    assert_eq!(hook_steps(3, &rec(WM_KEYDOWN), 3, layout), vec![HookStep::CallNext]);
    assert_eq!(hook_steps(-1, &rec(0x0201), 3, layout), vec![HookStep::CallNext]);
}

#[test]
fn unknown_message_only_forwards() {
    assert_eq!(hook_steps(HC_ACTION, &rec(0x0400), 3, layout), vec![HookStep::CallNext]);
}

#[test]
fn messages_classify() {
    assert_eq!(hook_event_type(&rec(0x0104)), Some(EventType::KeyPress(0x41)));
    assert_eq!(hook_event_type(&rec(0x0105)), Some(EventType::KeyRelease(0x41)));
    assert_eq!(hook_event_type(&rec(0x0207)), Some(EventType::ButtonPress(Button::Middle)));
    assert_eq!(hook_event_type(&rec(0x0205)), Some(EventType::ButtonRelease(Button::Right)));
    let mut x = rec(WM_XBUTTONUP);
    x.mouse_data_high = 2;
    assert_eq!(hook_event_type(&x), Some(EventType::ButtonRelease(Button::Unknown(2))));
    let mut w = rec(WM_MOUSEWHEEL);
    w.mouse_data_high = (-120i16) as u16;
    assert_eq!(hook_event_type(&w), Some(EventType::Wheel { delta_x: 0, delta_y: -120 }));
    let mut h = rec(0x020E);
    h.mouse_data_high = 240;
    assert_eq!(hook_event_type(&h), Some(EventType::Wheel { delta_x: 240, delta_y: 0 }));
}

#[test]
fn mouse_event_has_no_platform_code() {
    let steps = hook_steps(HC_ACTION, &rec(0x0201), 3, layout);
    match &steps[0] {
        HookStep::Deliver(e) => {
            assert_eq!(e.event_type, EventType::ButtonPress(Button::Left));
            assert_eq!(e.platform_code, 0);
        }
        HookStep::CallNext => panic!("expected a delivery first"),
    }
    assert_eq!(steps.len(), 2);
}

#[test]
fn keyboard_only_never_installs_mouse_hook() {
    let mut h = HookInstall::new(true);
    assert_eq!(h.next, HookAction::SetKeyHook);
    h.hook_installed(Ok(()));
    assert_eq!(h.next, HookAction::PumpMessages);
}

#[test]
fn full_capture_installs_both_hooks() {
    let mut h = HookInstall::new(false);
    h.hook_installed(Ok(()));
    assert_eq!(h.next, HookAction::SetMouseHook);
    h.hook_installed(Ok(()));
    assert_eq!(h.next, HookAction::PumpMessages);
}

#[test]
fn refused_keyboard_hook_fails_at_once() {
    let mut h = HookInstall::new(false);
    h.hook_installed(Err(5));
    assert_eq!(h.next, HookAction::Failed(ListenError::KeyHookError(5)));
}

#[test]
fn refused_mouse_hook_removes_keyboard_hook_first() {
    let mut h = HookInstall::new(false);
    h.hook_installed(Ok(()));
    h.hook_installed(Err(1428));
    assert_eq!(h.next, HookAction::UnhookKeyboard { code: 1428 });
    h.keyboard_unhooked();
    assert_eq!(h.next, HookAction::Failed(ListenError::MouseHookError(1428)));
}

#[test]
fn key_release_and_mouse_carry_no_text() {
    let calls = std::cell::Cell::new(0u32);
    let count = |_: u32, _: u32| {
        calls.set(calls.get() + 1);
        Some("x".to_string())
    };
    let steps = hook_steps(HC_ACTION, &rec(0x0101), 3, count);
    match &steps[0] {
        HookStep::Deliver(e) => assert_eq!(e.unicode, None),
        HookStep::CallNext => panic!("expected a delivery first"),
    }
    let steps = hook_steps(HC_ACTION, &rec(0x0201), 3, count);
    match &steps[0] {
        HookStep::Deliver(e) => assert_eq!(e.unicode, None),
        HookStep::CallNext => panic!("expected a delivery first"),
    }
    assert_eq!(calls.get(), 0);
}

#[test]
fn hook_errors_map_to_listen_errors() {
    assert_eq!(ListenError::from(HookError::Mouse(7)), ListenError::MouseHookError(7));
    assert_eq!(ListenError::from(HookError::Key(8)), ListenError::KeyHookError(8));
}
