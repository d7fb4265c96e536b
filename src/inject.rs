//! The encode path: the native inputs that simulate an event. Each of them
//! carries the injection marker, so that the hooks of this library see it
//! as simulated.
use vstd::prelude::*;

use crate::codec::{decoded, div_toward_zero, notches, signed_word};
use crate::event::{Button, EventType};
use crate::keycodes::{code_from_key, code_of_key, key_of_code};
use crate::native::{
    KEYBOARDMANAGER_INJECTED_FLAG, KEYEVENTF_KEYUP, MOUSEEVENTF_ABSOLUTE, MOUSEEVENTF_HWHEEL,
    MOUSEEVENTF_LEFTDOWN, MOUSEEVENTF_LEFTUP, MOUSEEVENTF_MIDDLEDOWN, MOUSEEVENTF_MIDDLEUP,
    MOUSEEVENTF_MOVE, MOUSEEVENTF_RIGHTDOWN, MOUSEEVENTF_RIGHTUP, MOUSEEVENTF_VIRTUALDESK,
    MOUSEEVENTF_WHEEL, MOUSEEVENTF_XDOWN, MOUSEEVENTF_XUP, WHEEL_DELTA, XBUTTON1, XBUTTON2,
    KeyboardPayload, MousePayload, RawInput, WM_KEYDOWN, WM_KEYUP, WM_LBUTTONDOWN, WM_LBUTTONUP,
    WM_MBUTTONDOWN, WM_MBUTTONUP, WM_MOUSEHWHEEL, WM_MOUSEWHEEL, WM_RBUTTONDOWN, WM_RBUTTONUP, WM_XBUTTONDOWN, WM_XBUTTONUP,
};

verus! {

/// One native input for the injection call.
#[derive(Debug, Clone, Copy, PartialEq, Eq, Structural)]
pub enum Injection {
    Keyboard { vk: u16, flags: u32, extra_info: usize },
    Mouse { dx: i32, dy: i32, mouse_data: u32, flags: u32, extra_info: usize },
}

/// The extent of the virtual desktop, in pixels, that absolute pointer
/// positions are scaled against.
#[derive(Debug, Clone, Copy, PartialEq, Eq, Structural)]
pub struct ScreenSize {
    pub width: i32,
    pub height: i32,
}

/// Why an event could not be simulated.
#[derive(Debug, Clone, Copy, PartialEq, Eq, Structural)]
pub enum SimulateError {
    /// The event has no native input on this platform.
    Unsupported,
    /// The injection call refused the input, with the native error code.
    Rejected(u32),
}

/// The largest wheel step, in notches, whose raw delta fits a signed 16-bit word.
pub const MAX_WHEEL_NOTCHES: i64 = 273;

/// The input that presses (`up == false`) or releases a key with native code `vk`.
pub open spec fn key_input(vk: u16, up: bool) -> Injection {
    Injection::Keyboard {
        vk,
        flags: if up { KEYEVENTF_KEYUP } else { 0 },
        extra_info: KEYBOARDMANAGER_INJECTED_FLAG,
    }
}

/// A mouse input with the injection marker.
pub open spec fn mouse_input(flags: u32, mouse_data: u32, dx: i32, dy: i32) -> Injection {
    Injection::Mouse { dx, dy, mouse_data, flags, extra_info: KEYBOARDMANAGER_INJECTED_FLAG }
}

/// The input that presses (`up == false`) or releases a button.
pub open spec fn button_input(button: Button, up: bool) -> Injection {
    match button {
        Button::Left => mouse_input(if up { MOUSEEVENTF_LEFTUP } else { MOUSEEVENTF_LEFTDOWN }, 0, 0, 0),
        Button::Middle => mouse_input(if up { MOUSEEVENTF_MIDDLEUP } else { MOUSEEVENTF_MIDDLEDOWN }, 0, 0, 0),
        Button::Right => mouse_input(if up { MOUSEEVENTF_RIGHTUP } else { MOUSEEVENTF_RIGHTDOWN }, 0, 0, 0),
        Button::Forward => mouse_input(if up { MOUSEEVENTF_XUP } else { MOUSEEVENTF_XDOWN }, XBUTTON1 as u32, 0, 0),
        Button::Backward => mouse_input(if up { MOUSEEVENTF_XUP } else { MOUSEEVENTF_XDOWN }, XBUTTON2 as u32, 0, 0),
        Button::Unknown(n) => mouse_input(if up { MOUSEEVENTF_XUP } else { MOUSEEVENTF_XDOWN }, n as u32, 0, 0),
    }
}

/// The 32-bit two's-complement word of a value in the range of `i32`.
pub open spec fn word_of(v: int) -> u32 {
    if v >= 0 {
        v as u32
    } else {
        (v + 0x1_0000_0000) as u32
    }
}

/// The raw wheel delta of `d` notches, as the native input carries it;
/// `None` past `MAX_WHEEL_NOTCHES` either way.
pub open spec fn wheel_data(d: i64) -> Option<u32> {
    if -MAX_WHEEL_NOTCHES <= d <= MAX_WHEEL_NOTCHES {
        Some(word_of(d * WHEEL_DELTA))
    } else {
        None
    }
}

/// The inputs that scroll by `dx` notches across and `dy` notches down:
/// one for each axis whose amount is not zero, the horizontal one first.
pub open spec fn wheel_inputs(dx: i64, dy: i64) -> Option<Seq<Injection>> {
    if wheel_data(dx) is None || wheel_data(dy) is None {
        None
    } else {
        let h = if dx != 0 {
            seq![mouse_input(MOUSEEVENTF_HWHEEL, wheel_data(dx).unwrap(), 0, 0)]
        } else {
            Seq::empty()
        };
        let v = if dy != 0 {
            seq![mouse_input(MOUSEEVENTF_WHEEL, wheel_data(dy).unwrap(), 0, 0)]
        } else {
            Seq::empty()
        };
        Some(h + v)
    }
}

/// A coordinate scaled to the 0..65535 range of absolute pointer input over
/// an extent of `extent` pixels; `None` when it does not fit an `i32`.
pub open spec fn absolute(c: i32, extent: i32) -> Option<i32> {
    let v = div_toward_zero((c + 1) * 65535, extent as int);
    if i32::MIN <= v <= i32::MAX {
        Some(v as i32)
    } else {
        None
    }
}

/// The inputs that simulate an event, or `None` where it has none: a key
/// without a native code, an empty screen, or an amount past the native range.
/// A `Simulated` variant is encoded as its plain variant.
pub open spec fn encoding(event_type: EventType, screen: ScreenSize) -> Option<Seq<Injection>> {
    match event_type.plain_variant() {
        EventType::KeyPress(k) => match code_of_key(k) {
            Some(vk) => Some(seq![key_input(vk, false)]),
            None => None,
        },
        EventType::KeyRelease(k) => match code_of_key(k) {
            Some(vk) => Some(seq![key_input(vk, true)]),
            None => None,
        },
        EventType::ButtonPress(b) => Some(seq![button_input(b, false)]),
        EventType::ButtonRelease(b) => Some(seq![button_input(b, true)]),
        EventType::MouseMove { x, y } => {
            if screen.width <= 0 || screen.height <= 0 {
                None
            } else if absolute(x, screen.width) is None || absolute(y, screen.height) is None {
                None
            } else {
                Some(seq![mouse_input(
                    MOUSEEVENTF_MOVE | MOUSEEVENTF_ABSOLUTE | MOUSEEVENTF_VIRTUALDESK,
                    0,
                    absolute(x, screen.width).unwrap(),
                    absolute(y, screen.height).unwrap(),
                )])
            }
        },
        EventType::Wheel { delta_x, delta_y } => wheel_inputs(delta_x, delta_y),
        _ => None,
    }
}

fn key_injection(vk: u16, up: bool) -> (r: Injection)
    ensures
        r == key_input(vk, up),
{
    Injection::Keyboard {
        vk,
        flags: if up { KEYEVENTF_KEYUP } else { 0 },
        extra_info: KEYBOARDMANAGER_INJECTED_FLAG,
    }
}

fn mouse_injection(flags: u32, mouse_data: u32, dx: i32, dy: i32) -> (r: Injection)
    ensures
        r == mouse_input(flags, mouse_data, dx, dy),
{
    Injection::Mouse { dx, dy, mouse_data, flags, extra_info: KEYBOARDMANAGER_INJECTED_FLAG }
}

/// The input that presses (`up == false`) or releases a button.
pub fn button_injection(button: Button, up: bool) -> (r: Injection)
    ensures
        r == button_input(button, up),
{
    let (down_flag, up_flag, data): (u32, u32, u32) = match button {
        Button::Left => (MOUSEEVENTF_LEFTDOWN, MOUSEEVENTF_LEFTUP, 0),
        Button::Middle => (MOUSEEVENTF_MIDDLEDOWN, MOUSEEVENTF_MIDDLEUP, 0),
        Button::Right => (MOUSEEVENTF_RIGHTDOWN, MOUSEEVENTF_RIGHTUP, 0),
        Button::Forward => (MOUSEEVENTF_XDOWN, MOUSEEVENTF_XUP, XBUTTON1 as u32),
        Button::Backward => (MOUSEEVENTF_XDOWN, MOUSEEVENTF_XUP, XBUTTON2 as u32),
        Button::Unknown(n) => (MOUSEEVENTF_XDOWN, MOUSEEVENTF_XUP, n as u32),
    };
    mouse_injection(if up { up_flag } else { down_flag }, data, 0, 0)
}

/// The raw wheel delta of `d` notches; `None` past `MAX_WHEEL_NOTCHES` either way.
pub fn wheel_delta_word(d: i64) -> (r: Option<u32>)
    ensures
        r == wheel_data(d),
{
    if d < -MAX_WHEEL_NOTCHES || d > MAX_WHEEL_NOTCHES {
        return None;
    }
    let notch: i64 = WHEEL_DELTA as i64;
    assert(notch == 120);
    let v: i64 = d * notch;
    if v >= 0 {
        Some(v as u32)
    } else {
        Some((v + 0x1_0000_0000) as u32)
    }
}

/// A coordinate scaled to absolute pointer input over `extent` pixels.
pub fn absolute_coordinate(c: i32, extent: i32) -> (r: Option<i32>)
    requires
        extent > 0,
    ensures
        r == absolute(c, extent),
{
    let n: i64 = (c as i64 + 1) * 65535;
    let v: i64 = if n >= 0 {
        n / (extent as i64)
    } else {
        -((-n) / (extent as i64))
    };
    if v < i32::MIN as i64 || v > i32::MAX as i64 {
        None
    } else {
        Some(v as i32)
    }
}

/// The native inputs that simulate `event_type`, in the order they are to
/// be sent. Fails with `Unsupported` exactly where `encoding` has none.
pub fn encode(event_type: &EventType, screen: ScreenSize) -> (r: Result<Vec<Injection>, SimulateError>)
    ensures
        encoding(*event_type, screen) is None ==> r == Err::<Vec<Injection>, SimulateError>(SimulateError::Unsupported),
        encoding(*event_type, screen) matches Some(s) ==> r matches Ok(v) && v@ == s,
{
    let mut out: Vec<Injection> = Vec::new();
    match event_type.to_plain() {
        EventType::KeyPress(k) | EventType::KeyRelease(k) => {
            let up = matches!(event_type.to_plain(), EventType::KeyRelease(_));
            match code_from_key(k) {
                Some(vk) => out.push(key_injection(vk, up)),
                None => return Err(SimulateError::Unsupported),
            }
        },
        EventType::ButtonPress(b) => out.push(button_injection(b, false)),
        EventType::ButtonRelease(b) => out.push(button_injection(b, true)),
        EventType::MouseMove { x, y } => {
            if screen.width <= 0 || screen.height <= 0 {
                return Err(SimulateError::Unsupported);
            }
            match (absolute_coordinate(x, screen.width), absolute_coordinate(y, screen.height)) {
                (Some(dx), Some(dy)) => out.push(mouse_injection(
                    MOUSEEVENTF_MOVE | MOUSEEVENTF_ABSOLUTE | MOUSEEVENTF_VIRTUALDESK,
                    0,
                    dx,
                    dy,
                )),
                _ => return Err(SimulateError::Unsupported),
            }
        },
        EventType::Wheel { delta_x, delta_y } => {
            match (wheel_delta_word(delta_x), wheel_delta_word(delta_y)) {
                (Some(h), Some(v)) => {
                    if delta_x != 0 {
                        out.push(mouse_injection(MOUSEEVENTF_HWHEEL, h, 0, 0));
                    }
                    if delta_y != 0 {
                        out.push(mouse_injection(MOUSEEVENTF_WHEEL, v, 0, 0));
                    }
                },
                _ => return Err(SimulateError::Unsupported),
            }
        },
        _ => return Err(SimulateError::Unsupported),
    }
    proof {
        if let Some(s) = encoding(*event_type, screen) {
            assert(out@ =~= s);
        }
    }
    Ok(out)
}

/// The message of a mouse input's button or wheel flags; zero for other flags.
pub open spec fn button_message(flags: u32) -> u32 {
    if flags == MOUSEEVENTF_LEFTDOWN {
        WM_LBUTTONDOWN
    } else if flags == MOUSEEVENTF_LEFTUP {
        WM_LBUTTONUP
    } else if flags == MOUSEEVENTF_MIDDLEDOWN {
        WM_MBUTTONDOWN
    } else if flags == MOUSEEVENTF_MIDDLEUP {
        WM_MBUTTONUP
    } else if flags == MOUSEEVENTF_RIGHTDOWN {
        WM_RBUTTONDOWN
    } else if flags == MOUSEEVENTF_RIGHTUP {
        WM_RBUTTONUP
    } else if flags == MOUSEEVENTF_XDOWN {
        WM_XBUTTONDOWN
    } else if flags == MOUSEEVENTF_XUP {
        WM_XBUTTONUP
    } else if flags == MOUSEEVENTF_WHEEL {
        WM_MOUSEWHEEL
    } else if flags == MOUSEEVENTF_HWHEEL {
        WM_MOUSEHWHEEL
    } else {
        0
    }
}

/// What a low-level hook receives for an injected key, button or wheel
/// input: the message, and a payload that keeps the input's extra info, with
/// the low word of the input's data (a button code or a wheel delta) in the
/// high word of the mouse data.
pub open spec fn hook_view(inj: Injection, time: u32) -> (usize, RawInput) {
    match inj {
        Injection::Keyboard { vk, flags, extra_info } => (
            (if flags == KEYEVENTF_KEYUP { WM_KEYUP } else { WM_KEYDOWN }) as usize,
            RawInput::Keyboard(KeyboardPayload { vk_code: vk as u32, scan_code: 0, flags: 0, time, extra_info }),
        ),
        Injection::Mouse { dx, dy, mouse_data, flags, extra_info } => (
            button_message(flags) as usize,
            RawInput::Mouse(MousePayload { x: dx, y: dy, mouse_data: ((mouse_data % 0x10000) * 0x10000) as u32, flags: 0, time, extra_info }),
        ),
    }
}

/// A key or button event that survives a trip through its native code: a
/// key that is the key of its own code, a button that is not an `Unknown`
/// standing for one of the extended buttons.
pub open spec fn canonical(t: EventType) -> bool {
    match t.plain_variant() {
        EventType::KeyPress(k) | EventType::KeyRelease(k) => code_of_key(k) matches Some(c) && key_of_code(c) == k,
        EventType::ButtonPress(b) | EventType::ButtonRelease(b) => match b {
            Button::Unknown(n) => n != XBUTTON1 && n != XBUTTON2,
            _ => true,
        },
        EventType::Wheel { delta_x, delta_y } => {
            ||| (delta_x == 0 && delta_y != 0 && -MAX_WHEEL_NOTCHES <= delta_y <= MAX_WHEEL_NOTCHES)
            ||| (delta_y == 0 && delta_x != 0 && -MAX_WHEEL_NOTCHES <= delta_x <= MAX_WHEEL_NOTCHES)
        },
        _ => false,
    }
}

/// The raw delta of `d` notches, as injected, comes back from the hook's
/// high word as `d` notches.
proof fn lemma_wheel_word_round_trip(d: i64)
    requires
        -MAX_WHEEL_NOTCHES <= d <= MAX_WHEEL_NOTCHES,
    ensures
        notches((word_of(d * WHEEL_DELTA) % 0x10000) as u16, WHEEL_DELTA) == d,
{
    let v = d * 120;
    assert(-32760 <= v <= 32760);
    if v >= 0 {
        assert(word_of(v) % 0x10000 == v);
    } else {
        assert((v + 0x1_0000_0000) % 0x10000 == v + 0x10000);
        assert(word_of(v) % 0x10000 == v + 0x10000);
    }
    assert(signed_word((word_of(v) % 0x10000) as u16) == v);
    if d >= 0 {
        assert(v / 120 == d) by (nonlinear_arith)
            requires v == d * 120;
    } else {
        assert((-v) / 120 == -d) by (nonlinear_arith)
            requires v == d * 120;
    }
}

/// What this library injects for a key, button or one-axis wheel event, the
/// hooks see as one input that decodes to the `Simulated` variant of that
/// same event: the marker that keeps grabbing from feeding on its own output.
pub proof fn lemma_injection_seen_as_simulated(t: EventType, screen: ScreenSize, time: u32)
    requires
        canonical(t),
    ensures
        encoding(t, screen) is Some,
        encoding(t, screen).unwrap().len() == 1,
        decoded(hook_view(encoding(t, screen).unwrap()[0], time).0, hook_view(encoding(t, screen).unwrap()[0], time).1)
            == Some(t.simulated_variant()),
{
    match t.plain_variant() {
        EventType::ButtonPress(b) | EventType::ButtonRelease(b) => {
            let data: u32 = match b {
                Button::Forward => XBUTTON1 as u32,
                Button::Backward => XBUTTON2 as u32,
                Button::Unknown(n) => n as u32,
                _ => 0,
            };
            assert(data < 256);
            assert((((data % 0x10000) * 0x10000) as u32) / 0x10000 == data);
        },
        EventType::Wheel { delta_x, delta_y } => {
            let d = if delta_x == 0 { delta_y } else { delta_x };
            let w = word_of(d * WHEEL_DELTA);
            lemma_wheel_word_round_trip(d);
            assert((((w % 0x10000) * 0x10000) as u32) / 0x10000 == w % 0x10000);
        },
        _ => {},
    }
}

} // verus!
