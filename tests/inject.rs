use rdev::native::{
    KEYBOARDMANAGER_INJECTED_FLAG, KEYEVENTF_KEYUP, MOUSEEVENTF_ABSOLUTE, MOUSEEVENTF_HWHEEL,
    MOUSEEVENTF_LEFTDOWN, MOUSEEVENTF_LEFTUP, MOUSEEVENTF_MIDDLEDOWN, MOUSEEVENTF_MOVE,
    MOUSEEVENTF_RIGHTUP, MOUSEEVENTF_VIRTUALDESK, MOUSEEVENTF_WHEEL, MOUSEEVENTF_XDOWN,
    MOUSEEVENTF_XUP,
};
use rdev::{encode, Button, EventType, Injection, Key, ScreenSize, SimulateError};

const SCREEN: ScreenSize = ScreenSize { width: 1920, height: 1080 };

fn mouse(flags: u32, data: u32, dx: i32, dy: i32) -> Injection {
    Injection::Mouse { dx, dy, mouse_data: data, flags, extra_info: KEYBOARDMANAGER_INJECTED_FLAG }
}

#[test]
fn keys_encode_with_marker() {
    assert_eq!(
        encode(&EventType::KeyPress(Key::KeyA), SCREEN),
        Ok(vec![Injection::Keyboard { vk: 0x41, flags: 0, extra_info: 1 }])
    );
    assert_eq!(
        encode(&EventType::KeyRelease(Key::KeyA), SCREEN),
        Ok(vec![Injection::Keyboard { vk: 0x41, flags: KEYEVENTF_KEYUP, extra_info: 1 }])
    );
    assert_eq!(
        encode(&EventType::SimulatedKeyPress(Key::Tab), SCREEN),
        Ok(vec![Injection::Keyboard { vk: 0x09, flags: 0, extra_info: 1 }])
    );
    assert_eq!(
        encode(&EventType::KeyPress(Key::Unknown(0x3A)), SCREEN),
        Ok(vec![Injection::Keyboard { vk: 0x3A, flags: 0, extra_info: 1 }])
    );
}

#[test]
fn keys_without_code_are_unsupported() {
    assert_eq!(encode(&EventType::KeyPress(Key::Function), SCREEN), Err(SimulateError::Unsupported));
    assert_eq!(encode(&EventType::KeyRelease(Key::Unknown(0x1_0000)), SCREEN), Err(SimulateError::Unsupported));
}

#[test]
fn buttons_encode() {
    assert_eq!(encode(&EventType::ButtonPress(Button::Left), SCREEN), Ok(vec![mouse(MOUSEEVENTF_LEFTDOWN, 0, 0, 0)]));
    assert_eq!(encode(&EventType::ButtonRelease(Button::Left), SCREEN), Ok(vec![mouse(MOUSEEVENTF_LEFTUP, 0, 0, 0)]));
    assert_eq!(encode(&EventType::ButtonPress(Button::Middle), SCREEN), Ok(vec![mouse(MOUSEEVENTF_MIDDLEDOWN, 0, 0, 0)]));
    assert_eq!(encode(&EventType::ButtonRelease(Button::Right), SCREEN), Ok(vec![mouse(MOUSEEVENTF_RIGHTUP, 0, 0, 0)]));
    assert_eq!(encode(&EventType::ButtonPress(Button::Forward), SCREEN), Ok(vec![mouse(MOUSEEVENTF_XDOWN, 1, 0, 0)]));
    assert_eq!(encode(&EventType::ButtonRelease(Button::Backward), SCREEN), Ok(vec![mouse(MOUSEEVENTF_XUP, 2, 0, 0)]));
    assert_eq!(encode(&EventType::ButtonPress(Button::Unknown(9)), SCREEN), Ok(vec![mouse(MOUSEEVENTF_XDOWN, 9, 0, 0)]));
}

#[test]
fn wheel_encodes_per_axis() {
    assert_eq!(
        encode(&EventType::Wheel { delta_x: 0, delta_y: 1 }, SCREEN),
        Ok(vec![mouse(MOUSEEVENTF_WHEEL, 120, 0, 0)])
    );
    assert_eq!(
        encode(&EventType::Wheel { delta_x: -2, delta_y: 0 }, SCREEN),
        Ok(vec![mouse(MOUSEEVENTF_HWHEEL, (-240i32) as u32, 0, 0)])
    );
    assert_eq!(
        encode(&EventType::Wheel { delta_x: 1, delta_y: -1 }, SCREEN),
        Ok(vec![mouse(MOUSEEVENTF_HWHEEL, 120, 0, 0), mouse(MOUSEEVENTF_WHEEL, (-120i32) as u32, 0, 0)])
    );
    assert_eq!(encode(&EventType::Wheel { delta_x: 0, delta_y: 0 }, SCREEN), Ok(vec![]));
    assert_eq!(
        encode(&EventType::Wheel { delta_x: 0, delta_y: 273 }, SCREEN),
        Ok(vec![mouse(MOUSEEVENTF_WHEEL, 32760, 0, 0)])
    );
}

#[test]
fn wheel_past_native_range_is_unsupported() {
    assert_eq!(encode(&EventType::Wheel { delta_x: 0, delta_y: 274 }, SCREEN), Err(SimulateError::Unsupported));
    assert_eq!(encode(&EventType::Wheel { delta_x: i64::MIN, delta_y: 0 }, SCREEN), Err(SimulateError::Unsupported));
}

#[test]
fn mouse_move_scales_to_absolute_range() {
    let flags = MOUSEEVENTF_MOVE | MOUSEEVENTF_ABSOLUTE | MOUSEEVENTF_VIRTUALDESK;
    assert_eq!(
        encode(&EventType::MouseMove { x: 959, y: 539 }, SCREEN),
        Ok(vec![mouse(flags, 0, 32767, 32767)])
    );
    assert_eq!(encode(&EventType::MouseMove { x: 0, y: 0 }, SCREEN), Ok(vec![mouse(flags, 0, 34, 60)]));
    assert_eq!(encode(&EventType::MouseMove { x: -101, y: -1 }, SCREEN), Ok(vec![mouse(flags, 0, -3413, 0)]));
}

#[test]
fn mouse_move_without_screen_is_unsupported() {
    let empty = ScreenSize { width: 0, height: 1080 };
    assert_eq!(encode(&EventType::MouseMove { x: 1, y: 1 }, empty), Err(SimulateError::Unsupported));
    let tiny = ScreenSize { width: 1, height: 1 };
    assert_eq!(encode(&EventType::MouseMove { x: i32::MAX - 1, y: 0 }, tiny), Err(SimulateError::Unsupported));
}
