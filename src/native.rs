//! The native side: message identifiers, injection flags and the payload
//! layouts that the low-level keyboard and mouse hooks receive, held as plain
//! values.
use vstd::prelude::*;

verus! {

// Message identifiers that the low-level hooks receive.
pub const WM_KEYDOWN: u32 = 0x0100;
pub const WM_KEYUP: u32 = 0x0101;
pub const WM_SYSKEYDOWN: u32 = 0x0104;
pub const WM_SYSKEYUP: u32 = 0x0105;
pub const WM_MOUSEMOVE: u32 = 0x0200;
pub const WM_LBUTTONDOWN: u32 = 0x0201;
pub const WM_LBUTTONUP: u32 = 0x0202;
pub const WM_RBUTTONDOWN: u32 = 0x0204;
pub const WM_RBUTTONUP: u32 = 0x0205;
pub const WM_MBUTTONDOWN: u32 = 0x0207;
pub const WM_MBUTTONUP: u32 = 0x0208;
pub const WM_MOUSEWHEEL: u32 = 0x020A;
pub const WM_XBUTTONDOWN: u32 = 0x020B;
pub const WM_XBUTTONUP: u32 = 0x020C;
pub const WM_MOUSEHWHEEL: u32 = 0x020E;

/// The hook code under which a hook procedure may look at the message.
pub const HC_ACTION: i32 = 0;
/// The raw wheel delta of one notch.
pub const WHEEL_DELTA: u32 = 120;
/// Auxiliary codes of the extended mouse buttons.
pub const XBUTTON1: u16 = 0x0001;
pub const XBUTTON2: u16 = 0x0002;

// Flags of an injected keyboard or mouse input.
pub const KEYEVENTF_KEYUP: u32 = 0x0002;
pub const MOUSEEVENTF_MOVE: u32 = 0x0001;
pub const MOUSEEVENTF_LEFTDOWN: u32 = 0x0002;
pub const MOUSEEVENTF_LEFTUP: u32 = 0x0004;
pub const MOUSEEVENTF_RIGHTDOWN: u32 = 0x0008;
pub const MOUSEEVENTF_RIGHTUP: u32 = 0x0010;
pub const MOUSEEVENTF_MIDDLEDOWN: u32 = 0x0020;
pub const MOUSEEVENTF_MIDDLEUP: u32 = 0x0040;
pub const MOUSEEVENTF_XDOWN: u32 = 0x0080;
pub const MOUSEEVENTF_XUP: u32 = 0x0100;
pub const MOUSEEVENTF_WHEEL: u32 = 0x0800;
pub const MOUSEEVENTF_HWHEEL: u32 = 0x1000;
pub const MOUSEEVENTF_VIRTUALDESK: u32 = 0x4000;
pub const MOUSEEVENTF_ABSOLUTE: u32 = 0x8000;

/// The extra-info value that marks input injected by this library.
pub const KEYBOARDMANAGER_INJECTED_FLAG: usize = 0x1;

/// What the low-level keyboard hook receives.
#[derive(Debug, Clone, Copy, PartialEq, Eq, Structural)]
pub struct KeyboardPayload {
    pub vk_code: u32,
    pub scan_code: u32,
    pub flags: u32,
    pub time: u32,
    pub extra_info: usize,
}

/// What the low-level mouse hook receives.
#[derive(Debug, Clone, Copy, PartialEq, Eq, Structural)]
pub struct MousePayload {
    pub x: i32,
    pub y: i32,
    pub mouse_data: u32,
    pub flags: u32,
    pub time: u32,
    pub extra_info: usize,
}

/// A hook payload in the layout of the hook that received it.
#[derive(Debug, Clone, Copy, PartialEq, Eq, Structural)]
pub enum RawInput {
    Keyboard(KeyboardPayload),
    Mouse(MousePayload),
}

/// The high 16 bits of a 32-bit word.
pub open spec fn high_word(l: u32) -> u16 {
    (l / 0x10000) as u16
}

/// The extra-info value of a payload, wherever its layout keeps it.
pub open spec fn extra_info_of(input: RawInput) -> usize {
    match input {
        RawInput::Keyboard(kb) => kb.extra_info,
        RawInput::Mouse(ms) => ms.extra_info,
    }
}

/// Whether a payload carries the marker of injection by this library.
pub open spec fn is_injected(input: RawInput) -> bool {
    extra_info_of(input) == KEYBOARDMANAGER_INJECTED_FLAG
}

/// The time stamp of a payload, in milliseconds.
pub open spec fn time_of(input: RawInput) -> u32 {
    match input {
        RawInput::Keyboard(kb) => kb.time,
        RawInput::Mouse(ms) => ms.time,
    }
}

pub fn hiword(l: u32) -> (r: u16)
    ensures
        r == high_word(l),
{
    assert(((l >> 16u32) & 0xffffu32) == l / 0x10000) by (bit_vector);
    ((l >> 16u32) & 0xffffu32) as u16
}

/// The virtual-key code of a keyboard payload.
pub fn get_code(kb: &KeyboardPayload) -> (r: u32)
    ensures
        r == kb.vk_code,
{
    kb.vk_code
}

/// The hardware scan code of a keyboard payload.
pub fn get_scan_code(kb: &KeyboardPayload) -> (r: u32)
    ensures
        r == kb.scan_code,
{
    kb.scan_code
}

/// Whether the input was injected by this library rather than made by the user.
pub fn get_simulated(input: &RawInput) -> (r: bool)
    ensures
        r == is_injected(*input),
{
    let extra = match input {
        RawInput::Keyboard(kb) => kb.extra_info,
        RawInput::Mouse(ms) => ms.extra_info,
    };
    extra == KEYBOARDMANAGER_INJECTED_FLAG
}

/// The time stamp of a payload, in milliseconds.
pub fn get_time(input: &RawInput) -> (r: u32)
    ensures
        r == time_of(*input),
{
    match input {
        RawInput::Keyboard(kb) => kb.time,
        RawInput::Mouse(ms) => ms.time,
    }
}

/// The pointer position of a mouse payload, in screen coordinates.
pub fn get_point(ms: &MousePayload) -> (r: (i32, i32))
    ensures
        r == (ms.x, ms.y),
{
    (ms.x, ms.y)
}

/// The raw wheel delta of a mouse payload: the high word of its mouse data,
/// to be read as a signed 16-bit value.
pub fn get_delta(ms: &MousePayload) -> (r: u16)
    ensures
        r == high_word(ms.mouse_data),
{
    hiword(ms.mouse_data)
}

/// The auxiliary code of an extended-button payload: the high word of its mouse data.
pub fn get_button_code(ms: &MousePayload) -> (r: u16)
    ensures
        r == high_word(ms.mouse_data),
{
    hiword(ms.mouse_data)
}

} // verus!
