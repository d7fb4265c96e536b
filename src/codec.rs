//! Decoding of hook payloads into events, and encoding of events into the
//! inputs that the injection call takes.
use vstd::prelude::*;

use crate::event::{Button, Event, EventType};
use crate::keycodes::{key_from_code, key_of_code};
use crate::native::{
    get_button_code, get_delta, get_point, get_simulated, get_time, high_word, is_injected, time_of,
    KeyboardPayload, MousePayload, RawInput, WHEEL_DELTA, WM_KEYDOWN, WM_KEYUP, WM_LBUTTONDOWN,
    WM_LBUTTONUP, WM_MBUTTONDOWN, WM_MBUTTONUP, WM_MOUSEHWHEEL, WM_MOUSEMOVE, WM_MOUSEWHEEL,
    WM_RBUTTONDOWN, WM_RBUTTONUP, WM_SYSKEYDOWN, WM_SYSKEYUP, WM_XBUTTONDOWN, WM_XBUTTONUP, XBUTTON1,
    XBUTTON2,
};

verus! {

/// The button of an extended-button auxiliary code.
pub open spec fn button_of_code(code: u8) -> Button {
    if code == XBUTTON1 {
        Button::Forward
    } else if code == XBUTTON2 {
        Button::Backward
    } else {
        Button::Unknown(code)
    }
}

/// A 16-bit word read as a two's-complement signed value.
pub open spec fn signed_word(w: u16) -> int {
    if w < 0x8000 {
        w as int
    } else {
        w - 0x10000
    }
}

/// Division that rounds toward zero, for a positive divisor.
pub open spec fn div_toward_zero(a: int, b: int) -> int {
    if a >= 0 {
        a / b
    } else {
        -((-a) / b)
    }
}

/// The whole notches in a raw wheel delta; zero when the notch size is zero.
pub open spec fn notches(raw: u16, notch: u32) -> int {
    if notch == 0 {
        0
    } else {
        div_toward_zero(signed_word(raw), notch as int)
    }
}

/// The auxiliary code of an extended-button payload, in the byte that tells buttons apart.
pub open spec fn aux_code(ms: MousePayload) -> u8 {
    (high_word(ms.mouse_data) % 256) as u8
}

/// The event of a keyboard message, before tagging.
pub open spec fn key_event(message: usize, kb: KeyboardPayload) -> Option<EventType> {
    let key = key_of_code(kb.vk_code as u16);
    if message == WM_KEYDOWN || message == WM_SYSKEYDOWN {
        Some(EventType::KeyPress(key))
    } else if message == WM_KEYUP || message == WM_SYSKEYUP {
        Some(EventType::KeyRelease(key))
    } else {
        None
    }
}

/// The event of a mouse message, before tagging.
pub open spec fn mouse_event(message: usize, ms: MousePayload) -> Option<EventType> {
    if message == WM_LBUTTONDOWN {
        Some(EventType::ButtonPress(Button::Left))
    } else if message == WM_LBUTTONUP {
        Some(EventType::ButtonRelease(Button::Left))
    } else if message == WM_MBUTTONDOWN {
        Some(EventType::ButtonPress(Button::Middle))
    } else if message == WM_MBUTTONUP {
        Some(EventType::ButtonRelease(Button::Middle))
    } else if message == WM_RBUTTONDOWN {
        Some(EventType::ButtonPress(Button::Right))
    } else if message == WM_RBUTTONUP {
        Some(EventType::ButtonRelease(Button::Right))
    } else if message == WM_XBUTTONDOWN {
        Some(EventType::ButtonPress(button_of_code(aux_code(ms))))
    } else if message == WM_XBUTTONUP {
        Some(EventType::ButtonRelease(button_of_code(aux_code(ms))))
    } else if message == WM_MOUSEMOVE {
        Some(EventType::MouseMove { x: ms.x, y: ms.y })
    } else if message == WM_MOUSEWHEEL {
        Some(EventType::Wheel { delta_x: 0, delta_y: notches(high_word(ms.mouse_data), WHEEL_DELTA) as i64 })
    } else if message == WM_MOUSEHWHEEL {
        Some(EventType::Wheel { delta_x: notches(high_word(ms.mouse_data), WHEEL_DELTA) as i64, delta_y: 0 })
    } else {
        None
    }
}

/// The event of a message and its payload, before tagging; `None` for a
/// message that is not input, or whose payload is not in the layout it needs.
pub open spec fn plain_event(message: usize, input: RawInput) -> Option<EventType> {
    match input {
        RawInput::Keyboard(kb) => key_event(message, kb),
        RawInput::Mouse(ms) => mouse_event(message, ms),
    }
}

/// The decoded event: the plain event, in its `Simulated` variant exactly
/// when the payload carries the injection marker.
pub open spec fn decoded(message: usize, input: RawInput) -> Option<EventType> {
    match plain_event(message, input) {
        Some(e) => Some(e.tagged(is_injected(input))),
        None => None,
    }
}

/// The button of an extended-button auxiliary code: `XBUTTON1` is
/// `Forward`, `XBUTTON2` is `Backward`, any other code `n` is `Unknown(n)`.
pub fn button_from_code(code: u8) -> (b: Button)
    ensures
        b == button_of_code(code),
{
    if code as u16 == XBUTTON1 {
        Button::Forward
    } else if code as u16 == XBUTTON2 {
        Button::Backward
    } else {
        Button::Unknown(code)
    }
}

/// The whole notches in a raw wheel delta, read as signed and divided by
/// `notch` toward zero; zero when `notch` is zero.
pub fn wheel_notches(raw: u16, notch: u32) -> (r: i64)
    ensures
        r == notches(raw, notch),
{
    if notch == 0 {
        return 0;
    }
    let d: i64 = if raw < 0x8000 {
        raw as i64
    } else {
        raw as i64 - 0x10000
    };
    if d >= 0 {
        d / (notch as i64)
    } else {
        let m: i64 = -d;
        -(m / (notch as i64))
    }
}

/// Decodes a hook message and its payload. Returns `None` when the message
/// is not one this library decodes, which tells the hook to pass it on.
pub fn convert(param: usize, input: &RawInput) -> (r: Option<EventType>)
    ensures
        r == decoded(param, *input),
{
    let plain = match input {
        RawInput::Keyboard(kb) => {
            let key = key_from_code(kb.vk_code as u16);
            if param == WM_KEYDOWN as usize || param == WM_SYSKEYDOWN as usize {
                Some(EventType::KeyPress(key))
            } else if param == WM_KEYUP as usize || param == WM_SYSKEYUP as usize {
                Some(EventType::KeyRelease(key))
            } else {
                None
            }
        },
        RawInput::Mouse(ms) => convert_mouse(param, ms),
    };
    match plain {
        Some(e) => Some(e.to_tagged(get_simulated(input))),
        None => None,
    }
}

fn convert_mouse(param: usize, ms: &MousePayload) -> (r: Option<EventType>)
    ensures
        r == mouse_event(param, *ms),
{
    if param == WM_LBUTTONDOWN as usize {
        Some(EventType::ButtonPress(Button::Left))
    } else if param == WM_LBUTTONUP as usize {
        Some(EventType::ButtonRelease(Button::Left))
    } else if param == WM_MBUTTONDOWN as usize {
        Some(EventType::ButtonPress(Button::Middle))
    } else if param == WM_MBUTTONUP as usize {
        Some(EventType::ButtonRelease(Button::Middle))
    } else if param == WM_RBUTTONDOWN as usize {
        Some(EventType::ButtonPress(Button::Right))
    } else if param == WM_RBUTTONUP as usize {
        Some(EventType::ButtonRelease(Button::Right))
    } else if param == WM_XBUTTONDOWN as usize || param == WM_XBUTTONUP as usize {
        let button = button_from_code((get_button_code(ms) % 256) as u8);
        if param == WM_XBUTTONDOWN as usize {
            Some(EventType::ButtonPress(button))
        } else {
            Some(EventType::ButtonRelease(button))
        }
    } else if param == WM_MOUSEMOVE as usize {
        let (x, y) = get_point(ms);
        Some(EventType::MouseMove { x, y })
    } else if param == WM_MOUSEWHEEL as usize {
        Some(EventType::Wheel { delta_x: 0, delta_y: wheel_notches(get_delta(ms), WHEEL_DELTA) })
    } else if param == WM_MOUSEHWHEEL as usize {
        Some(EventType::Wheel { delta_x: wheel_notches(get_delta(ms), WHEEL_DELTA), delta_y: 0 })
    } else {
        None
    }
}

/// Decodes a payload into a full event with its time stamp; `name` is the
/// text of the key, kept only for a key press from the user.
pub fn to_event(param: usize, input: &RawInput, name: Option<String>) -> (r: Option<Event>)
    ensures
        decoded(param, *input) is None ==> r is None,
        decoded(param, *input) matches Some(t) ==> r matches Some(e) && e.event_type == t
            && e.time == time_of(*input)
            && e.name == (if t is KeyPress { name } else { None::<String> }),
{
    match convert(param, input) {
        Some(t) => Some(Event::new(t, get_time(input), name)),
        None => None,
    }
}

/// A decoded event is a `Simulated` variant exactly when its payload
/// carries the injection marker, and apart from that tag it is the event
/// that the message and payload describe.
pub proof fn lemma_tagging(param: usize, input: RawInput)
    ensures
        decoded(param, input) is Some <==> plain_event(param, input) is Some,
        decoded(param, input) matches Some(e) ==> {
            &&& e.is_simulated() == is_injected(input)
            &&& e.plain_variant() == plain_event(param, input).unwrap()
        },
{
    if let Some(p) = plain_event(param, input) {
        assert(!p.is_simulated());
        assert(p.plain_variant() == p);
    }
}

/// Wheel decoding: a zero delta and a zero notch size give zero, a delta of
/// one notch gives one, and its negation gives minus one.
pub proof fn lemma_wheel_notches(raw: u16, notch: u32)
    ensures
        notches(0, notch) == 0,
        notches(raw, 0) == 0,
        0 < notch < 0x8000 ==> notches(notch as u16, notch) == 1,
        0 < notch < 0x8000 ==> notches((0x10000 - notch) as u16, notch) == -1,
        -0x8000 <= notches(raw, notch) <= 0x7fff,
{
    if 0 < notch < 0x8000 {
        let w = (0x10000 - notch) as u16;
        assert(w == 0x10000 - notch);
        assert(signed_word(w) == -(notch as int));
        assert((notch as int) / (notch as int) == 1) by (nonlinear_arith)
            requires notch > 0;
    }
    if notch > 0 {
        let d = signed_word(raw);
        let n = notch as int;
        if d >= 0 {
            assert(0 <= d / n <= d) by (nonlinear_arith)
                requires d >= 0, n > 0;
        } else {
            assert(0 <= (-d) / n <= -d) by (nonlinear_arith)
                requires -d > 0, n > 0;
        }
    }
}

/// A vertical wheel message whose delta is one notch decodes to a scroll of
/// one notch down, tagged as its payload says.
pub proof fn lemma_one_notch_wheel(ms: MousePayload)
    requires
        high_word(ms.mouse_data) == WHEEL_DELTA,
    ensures
        decoded(WM_MOUSEWHEEL as usize, RawInput::Mouse(ms))
            == Some(EventType::Wheel { delta_x: 0, delta_y: 1 }.tagged(is_injected(RawInput::Mouse(ms)))),
{
    lemma_wheel_notches(high_word(ms.mouse_data), WHEEL_DELTA);
}

} // verus!
