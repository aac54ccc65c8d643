//! The hook-chain platform: classifying hooked messages, what one hook
//! invocation does, and the order in which hooks are installed.
use vstd::prelude::*;
use crate::event::{listen_error_of_hook, Button, Event, EventType, HookError, ListenError};

verus! {

/// The hook code under which a hook procedure must look at the message.
pub const HC_ACTION: i32 = 0;

pub const WM_KEYDOWN: usize = 0x0100;
pub const WM_KEYUP: usize = 0x0101;
pub const WM_SYSKEYDOWN: usize = 0x0104;
pub const WM_SYSKEYUP: usize = 0x0105;
pub const WM_MOUSEMOVE: usize = 0x0200;
pub const WM_LBUTTONDOWN: usize = 0x0201;
pub const WM_LBUTTONUP: usize = 0x0202;
pub const WM_RBUTTONDOWN: usize = 0x0204;
pub const WM_RBUTTONUP: usize = 0x0205;
pub const WM_MBUTTONDOWN: usize = 0x0207;
pub const WM_MBUTTONUP: usize = 0x0208;
pub const WM_MOUSEWHEEL: usize = 0x020A;
pub const WM_XBUTTONDOWN: usize = 0x020B;
pub const WM_XBUTTONUP: usize = 0x020C;
pub const WM_MOUSEHWHEEL: usize = 0x020E;

/// The fields of a hooked keyboard or mouse record that conversion reads.
#[derive(Clone, Copy, Debug, PartialEq, Eq, Structural)]
pub struct HookRecord {
    /// The message identifier the hook was called with.
    pub message: usize,
    /// The virtual-key code of a keyboard record.
    pub vk_code: u32,
    /// The hardware scan code of a keyboard record.
    pub scan_code: u32,
    /// The high word of a mouse record's data: the wheel delta (in native
    /// units, 120 per notch) or the extra button number.
    pub mouse_data_high: u16,
    /// The pointer location, as IEEE-754 bit patterns of `f64` coordinates.
    pub x_bits: u64,
    pub y_bits: u64,
    /// The record's extra information, which tells synthetic from physical
    /// input.
    pub extra_info: u64,
}

/// The normalized kind of a hooked record.
pub open spec fn hook_event_type_of(rec: HookRecord) -> Option<EventType> {
    let m = rec.message;
    if m == WM_KEYDOWN || m == WM_SYSKEYDOWN {
        Some(EventType::KeyPress(rec.vk_code))
    } else if m == WM_KEYUP || m == WM_SYSKEYUP {
        Some(EventType::KeyRelease(rec.vk_code))
    } else if m == WM_LBUTTONDOWN {
        Some(EventType::ButtonPress(Button::Left))
    } else if m == WM_LBUTTONUP {
        Some(EventType::ButtonRelease(Button::Left))
    } else if m == WM_RBUTTONDOWN {
        Some(EventType::ButtonPress(Button::Right))
    } else if m == WM_RBUTTONUP {
        Some(EventType::ButtonRelease(Button::Right))
    } else if m == WM_MBUTTONDOWN {
        Some(EventType::ButtonPress(Button::Middle))
    } else if m == WM_MBUTTONUP {
        Some(EventType::ButtonRelease(Button::Middle))
    } else if m == WM_XBUTTONDOWN {
        Some(EventType::ButtonPress(Button::Unknown(rec.mouse_data_high as u8)))
    } else if m == WM_XBUTTONUP {
        Some(EventType::ButtonRelease(Button::Unknown(rec.mouse_data_high as u8)))
    } else if m == WM_MOUSEMOVE {
        Some(EventType::MouseMove { x_bits: rec.x_bits, y_bits: rec.y_bits })
    } else if m == WM_MOUSEWHEEL {
        Some(EventType::Wheel { delta_x: 0, delta_y: rec.mouse_data_high as i16 as i64 })
    } else if m == WM_MOUSEHWHEEL {
        Some(EventType::Wheel { delta_x: rec.mouse_data_high as i16 as i64, delta_y: 0 })
    } else {
        None
    }
}

/// Whether the message comes from the keyboard hook.
pub open spec fn is_keyboard_message(m: usize) -> bool {
    m == WM_KEYDOWN || m == WM_SYSKEYDOWN || m == WM_KEYUP || m == WM_SYSKEYUP
}

/// The platform code of a hooked record of kind `t`: the virtual-key code
/// for key events, 0 otherwise.
pub open spec fn hook_platform_code(rec: HookRecord, t: EventType) -> u32 {
    match t {
        EventType::KeyPress(_) | EventType::KeyRelease(_) => rec.vk_code,
        _ => 0,
    }
}

/// The event built from a hooked record of kind `t`, carrying text `unicode`.
pub open spec fn hook_event_of(
    rec: HookRecord,
    t: EventType,
    time_ms: u64,
    unicode: Option<String>,
) -> Event {
    Event {
        event_type: t,
        time_ms,
        unicode,
        platform_code: hook_platform_code(rec, t),
        position_code: rec.scan_code,
        usb_hid: 0,
        extra_data: rec.extra_info,
    }
}

/// One thing a hook procedure does.
#[derive(Clone, Debug, PartialEq)]
pub enum HookStep {
    /// Hand the event to the registered callback, if any.
    Deliver(Event),
    /// Pass the message on to the next hook in the chain.
    CallNext,
}

/// What a hook procedure does when called with hook code `code` on `rec`:
/// deliver the converted event, carrying text `unicode`, when the code asks
/// for action and the record converts; then always pass the message on.
pub open spec fn hook_plan(code: i32, rec: HookRecord, time_ms: u64, unicode: Option<String>) -> Seq<
    HookStep,
> {
    if code == HC_ACTION && hook_event_type_of(rec) is Some {
        seq![
            HookStep::Deliver(hook_event_of(rec, hook_event_type_of(rec)->0, time_ms, unicode)),
            HookStep::CallNext,
        ]
    } else {
        seq![HookStep::CallNext]
    }
}

/// Whether `u` is the text the event delivered for `rec` may carry: for a
/// key press under hook code `code`, an answer of `translate` for the
/// record's virtual-key and scan codes; otherwise no text.
pub open spec fn hook_text_fits<T: FnOnce(u32, u32) -> Option<String>>(
    translate: T,
    code: i32,
    rec: HookRecord,
    u: Option<String>,
) -> bool {
    if code == HC_ACTION && hook_event_type_of(rec) matches Some(EventType::KeyPress(_)) {
        translate.ensures((rec.vk_code, rec.scan_code), u)
    } else {
        u is None
    }
}

/// The normalized kind of a hooked record.
pub fn hook_event_type(rec: &HookRecord) -> (r: Option<EventType>)
    ensures
        r == hook_event_type_of(*rec),
{
    let m = rec.message;
    if m == WM_KEYDOWN || m == WM_SYSKEYDOWN {
        Some(EventType::KeyPress(rec.vk_code))
    } else if m == WM_KEYUP || m == WM_SYSKEYUP {
        Some(EventType::KeyRelease(rec.vk_code))
    } else if m == WM_LBUTTONDOWN {
        Some(EventType::ButtonPress(Button::Left))
    } else if m == WM_LBUTTONUP {
        Some(EventType::ButtonRelease(Button::Left))
    } else if m == WM_RBUTTONDOWN {
        Some(EventType::ButtonPress(Button::Right))
    } else if m == WM_RBUTTONUP {
        Some(EventType::ButtonRelease(Button::Right))
    } else if m == WM_MBUTTONDOWN {
        Some(EventType::ButtonPress(Button::Middle))
    } else if m == WM_MBUTTONUP {
        Some(EventType::ButtonRelease(Button::Middle))
    } else if m == WM_XBUTTONDOWN {
        Some(EventType::ButtonPress(Button::Unknown(rec.mouse_data_high as u8)))
    } else if m == WM_XBUTTONUP {
        Some(EventType::ButtonRelease(Button::Unknown(rec.mouse_data_high as u8)))
    } else if m == WM_MOUSEMOVE {
        Some(EventType::MouseMove { x_bits: rec.x_bits, y_bits: rec.y_bits })
    } else if m == WM_MOUSEWHEEL {
        Some(EventType::Wheel { delta_x: 0, delta_y: rec.mouse_data_high as i16 as i64 })
    } else if m == WM_MOUSEHWHEEL {
        Some(EventType::Wheel { delta_x: rec.mouse_data_high as i16 as i64, delta_y: 0 })
    } else {
        None
    }
}

/// The steps of one hook invocation, in order. Only a key press asks
/// `translate` (the keyboard layout service) for its text.
pub fn hook_steps<T: FnOnce(u32, u32) -> Option<String>>(
    code: i32,
    rec: &HookRecord,
    time_ms: u64,
    translate: T,
) -> (r: Vec<HookStep>)
    requires
        translate.requires((rec.vk_code, rec.scan_code)),
    ensures
        exists|u: Option<String>|
            hook_text_fits(translate, code, *rec, u) && r@ == hook_plan(code, *rec, time_ms, u),
{
    let mut steps: Vec<HookStep> = Vec::new();
    let mut unicode: Option<String> = None;
    if code == HC_ACTION {
        match hook_event_type(rec) {
            Some(t) => {
                let platform_code = match t {
                    EventType::KeyPress(_) | EventType::KeyRelease(_) => rec.vk_code,
                    _ => 0,
                };
                let text = match t {
                    EventType::KeyPress(_) => translate(rec.vk_code, rec.scan_code),
                    _ => None,
                };
                unicode = text.clone();
                steps.push(
                    HookStep::Deliver(
                        Event {
                            event_type: t,
                            time_ms,
                            unicode: text,
                            platform_code,
                            position_code: rec.scan_code,
                            usb_hid: 0,
                            extra_data: rec.extra_info,
                        },
                    ),
                );
            },
            None => {},
        }
    }
    steps.push(HookStep::CallNext);
    proof {
        assert(steps@ =~= hook_plan(code, *rec, time_ms, unicode));
    }
    steps
}

/// The number of `CallNext` steps in `s`.
pub open spec fn forward_count(s: Seq<HookStep>) -> nat
    decreases s.len(),
{
    if s.len() == 0 {
        0
    } else {
        forward_count(s.drop_last()) + if s.last() is CallNext {
            1nat
        } else {
            0nat
        }
    }
}

/// Every hook invocation passes the message on exactly once, as its last
/// step, whatever the hook code, the text, and whether or not the record
/// converts; at most one event is delivered before that.
pub proof fn lemma_hook_forwards_once(
    code: i32,
    rec: HookRecord,
    time_ms: u64,
    unicode: Option<String>,
)
    ensures
        forward_count(hook_plan(code, rec, time_ms, unicode)) == 1,
        hook_plan(code, rec, time_ms, unicode).last() is CallNext,
        hook_plan(code, rec, time_ms, unicode).len() <= 2,
{
    let p = hook_plan(code, rec, time_ms, unicode);
    if p.len() == 2 {
        let q = p.drop_last();
        assert(q.drop_last() =~= Seq::<HookStep>::empty());
        assert(forward_count(q.drop_last()) == 0);
        assert(!(q.last() is CallNext));
        assert(forward_count(q) == 0);
    } else {
        assert(p.drop_last() =~= Seq::<HookStep>::empty());
        assert(forward_count(p.drop_last()) == 0);
    }
}

/// The next step of a listen installation on the hook-chain platform.
#[derive(Clone, Copy, Debug, PartialEq, Eq, Structural)]
pub enum HookAction {
    /// Install the keyboard hook.
    SetKeyHook,
    /// Install the mouse hook.
    SetMouseHook,
    /// The mouse hook was refused with native error `code`: remove the
    /// keyboard hook, so that nothing stays installed.
    UnhookKeyboard { code: u32 },
    /// Every hook is in place: block retrieving messages.
    PumpMessages,
    /// The installation failed, leaving no hook installed.
    Failed(ListenError),
}

/// A listen installation in progress.
#[derive(Clone, Copy, Debug, PartialEq, Eq, Structural)]
pub struct HookInstall {
    /// Whether capture is restricted to the keyboard.
    pub keyboard_only: bool,
    /// What the installation must do next.
    pub next: HookAction,
}

/// The step after `step` had outcome `outcome` (the native error code of a
/// refusal).
pub open spec fn step_after(
    keyboard_only: bool,
    step: HookAction,
    outcome: Result<(), u32>,
) -> HookAction {
    match outcome {
        Ok(()) => match step {
            HookAction::SetKeyHook => if keyboard_only {
                HookAction::PumpMessages
            } else {
                HookAction::SetMouseHook
            },
            _ => HookAction::PumpMessages,
        },
        Err(code) => match step {
            HookAction::SetMouseHook => HookAction::UnhookKeyboard { code },
            _ => HookAction::Failed(listen_error_of_hook(HookError::Key(code))),
        },
    }
}

impl HookInstall {
    /// A well-formed installation never has the mouse hook, or its removal,
    /// ahead when capture is restricted to the keyboard.
    pub open spec fn wf(&self) -> bool {
        self.keyboard_only ==> self.next != HookAction::SetMouseHook && !(self.next is UnhookKeyboard)
    }

    /// Starts an installation: the keyboard hook always comes first.
    pub fn new(keyboard_only: bool) -> (r: HookInstall)
        ensures
            r.wf(),
            r.keyboard_only == keyboard_only,
            r.next == HookAction::SetKeyHook,
    {
        HookInstall { keyboard_only, next: HookAction::SetKeyHook }
    }

    /// Records the outcome of the pending hook installation: on success the
    /// installation moves on; a refused keyboard hook fails at once, and a
    /// refused mouse hook first has the keyboard hook removed.
    pub fn hook_installed(&mut self, outcome: Result<(), u32>)
        requires
            old(self).wf(),
            old(self).next == HookAction::SetKeyHook || old(self).next == HookAction::SetMouseHook,
        ensures
            final(self).wf(),
            final(self).keyboard_only == old(self).keyboard_only,
            final(self).next == step_after(old(self).keyboard_only, old(self).next, outcome),
    {
        self.next = match outcome {
            Ok(()) => match self.next {
                HookAction::SetKeyHook => if self.keyboard_only {
                    HookAction::PumpMessages
                } else {
                    HookAction::SetMouseHook
                },
                _ => HookAction::PumpMessages,
            },
            Err(code) => match self.next {
                HookAction::SetMouseHook => HookAction::UnhookKeyboard { code },
                _ => HookAction::Failed(ListenError::from(HookError::Key(code))),
            },
        };
    }

    /// Records that the keyboard hook was removed after the mouse hook was
    /// refused; the installation then fails with the mouse hook's error.
    pub fn keyboard_unhooked(&mut self)
        requires
            old(self).next is UnhookKeyboard,
        ensures
            final(self).keyboard_only == old(self).keyboard_only,
            final(self).wf(),
            final(self).next == HookAction::Failed(
                listen_error_of_hook(HookError::Mouse(old(self).next->code)),
            ),
    {
        match self.next {
            HookAction::UnhookKeyboard { code } => {
                self.next = HookAction::Failed(ListenError::from(HookError::Mouse(code)));
            },
            _ => {},
        }
    }
}

/// With capture restricted to the keyboard, the mouse hook is never
/// installed: after the keyboard hook comes the message pump or a failure.
/// Otherwise the mouse hook follows the keyboard hook.
pub proof fn lemma_keyboard_only_skips_mouse_hook(step: HookAction, outcome: Result<(), u32>)
    requires
        step != HookAction::SetMouseHook,
    ensures
        step_after(true, step, outcome) != HookAction::SetMouseHook,
        !(step_after(true, step, outcome) is UnhookKeyboard),
        step_after(true, HookAction::SetKeyHook, Ok(())) == HookAction::PumpMessages,
        step_after(false, HookAction::SetKeyHook, Ok(())) == HookAction::SetMouseHook,
        step_after(false, HookAction::SetMouseHook, Ok(())) == HookAction::PumpMessages,
{
}

/// A refused hook never leaves a partial installation: a refused keyboard
/// hook fails with nothing installed, and a refused mouse hook has the
/// keyboard hook removed before the failure is reported, with its code.
pub proof fn lemma_no_partial_install(keyboard_only: bool, code: u32)
    ensures
        step_after(keyboard_only, HookAction::SetKeyHook, Err(code)) == HookAction::Failed(
            ListenError::KeyHookError(code),
        ),
        step_after(keyboard_only, HookAction::SetMouseHook, Err(code))
            == (HookAction::UnhookKeyboard { code }),
{
}

/// Only keyboard messages convert to key events on the hook-chain platform.
pub proof fn lemma_key_events_from_keyboard_messages(rec: HookRecord)
    ensures
        hook_event_type_of(rec) matches Some(t) ==> ((t is KeyPress || t is KeyRelease)
            <==> is_keyboard_message(rec.message)),
{
}

} // verus!
