use rdev::codec::{to_event, wheel_notches};
use rdev::native::{
    get_button_code, get_code, get_delta, get_point, get_scan_code, get_simulated, hiword,
    KeyboardPayload, MousePayload, RawInput, WM_KEYDOWN, WM_KEYUP, WM_LBUTTONDOWN, WM_LBUTTONUP,
    WM_MBUTTONDOWN, WM_MBUTTONUP, WM_MOUSEHWHEEL, WM_MOUSEMOVE, WM_MOUSEWHEEL, WM_RBUTTONDOWN,
    WM_RBUTTONUP, WM_SYSKEYDOWN, WM_SYSKEYUP, WM_XBUTTONDOWN, WM_XBUTTONUP,
};
use rdev::{convert, Button, EventType, Key};

fn kb(vk: u32, extra: usize) -> RawInput {
    RawInput::Keyboard(KeyboardPayload { vk_code: vk, scan_code: 30, flags: 0, time: 77, extra_info: extra })
}

fn ms(x: i32, y: i32, data: u32, extra: usize) -> RawInput {
    RawInput::Mouse(MousePayload { x, y, mouse_data: data, flags: 0, time: 88, extra_info: extra })
}

fn m(id: u32) -> usize {
    id as usize
}

#[test]
fn hiword_takes_high_half() {
    assert_eq!(hiword(0x1234_5678), 0x1234);
    assert_eq!(hiword(0xFFFF), 0);
    assert_eq!(hiword(120), 0);
    assert_eq!(hiword(0xFF88_0000), 0xFF88);
}

#[test]
fn payload_readers() {
    let k = KeyboardPayload { vk_code: 0x41, scan_code: 30, flags: 0, time: 1, extra_info: 1 };
    assert_eq!(get_code(&k), 0x41);
    assert_eq!(get_scan_code(&k), 30);
    assert!(get_simulated(&RawInput::Keyboard(k)));
    let p = MousePayload { x: -5, y: 7, mouse_data: 0x0078_0000, flags: 0, time: 1, extra_info: 0 };
    assert_eq!(get_point(&p), (-5, 7));
    assert_eq!(get_delta(&p), 120);
    assert_eq!(get_button_code(&p), 120);
    assert!(!get_simulated(&RawInput::Mouse(p)));
}

#[test]
fn key_messages_decode() {
    assert_eq!(convert(m(WM_KEYDOWN), &kb(0x41, 0)), Some(EventType::KeyPress(Key::KeyA)));
    assert_eq!(convert(m(WM_SYSKEYDOWN), &kb(0xA4, 0)), Some(EventType::KeyPress(Key::Alt)));
    assert_eq!(convert(m(WM_KEYUP), &kb(0x41, 0)), Some(EventType::KeyRelease(Key::KeyA)));
    assert_eq!(convert(m(WM_SYSKEYUP), &kb(0x09, 0)), Some(EventType::KeyRelease(Key::Tab)));
    assert_eq!(convert(m(WM_KEYDOWN), &kb(0xFF, 0)), Some(EventType::KeyPress(Key::Unknown(0xFF))));
}

#[test]
fn injected_marker_selects_simulated_variants() {
    let msgs = [
        WM_KEYDOWN, WM_KEYUP, WM_SYSKEYDOWN, WM_SYSKEYUP, WM_MOUSEMOVE, WM_LBUTTONDOWN, WM_LBUTTONUP,
        WM_RBUTTONDOWN, WM_RBUTTONUP, WM_MBUTTONDOWN, WM_MBUTTONUP, WM_MOUSEWHEEL, WM_XBUTTONDOWN,
        WM_XBUTTONUP, WM_MOUSEHWHEEL,
    ];
    for id in msgs {
        for extra in [0usize, 1, 2, 0x1_0000] {
            for input in [kb(0x41, extra), ms(3, 4, 0x0001_0000, extra)] {
                if let Some(e) = convert(m(id), &input) {
                    assert_eq!(e.is_simulated_event(), extra == 1);
                    assert_eq!(e.to_plain(), convert(m(id), &match input {
                        RawInput::Keyboard(k) => RawInput::Keyboard(KeyboardPayload { extra_info: 0, ..k }),
                        RawInput::Mouse(p) => RawInput::Mouse(MousePayload { extra_info: 0, ..p }),
                    }).unwrap());
                }
            }
        }
    }
    assert_eq!(convert(m(WM_KEYDOWN), &kb(0x41, 1)), Some(EventType::SimulatedKeyPress(Key::KeyA)));
    assert_eq!(convert(m(WM_KEYUP), &kb(0x41, 1)), Some(EventType::SimulatedKeyRelease(Key::KeyA)));
    assert_eq!(convert(m(WM_LBUTTONDOWN), &ms(0, 0, 0, 1)), Some(EventType::SimulatedButtonPress(Button::Left)));
    assert_eq!(convert(m(WM_MOUSEMOVE), &ms(10, 20, 0, 1)), Some(EventType::SimulatedMouseMove { x: 10, y: 20 }));
}

#[test]
fn button_messages_decode_in_pairs() {
    let pairs = [
        (WM_LBUTTONDOWN, WM_LBUTTONUP, Button::Left),
        (WM_MBUTTONDOWN, WM_MBUTTONUP, Button::Middle),
        (WM_RBUTTONDOWN, WM_RBUTTONUP, Button::Right),
    ];
    for (down, up, b) in pairs {
        assert_eq!(convert(m(down), &ms(0, 0, 0, 0)), Some(EventType::ButtonPress(b)));
        assert_eq!(convert(m(up), &ms(0, 0, 0, 0)), Some(EventType::ButtonRelease(b)));
        assert_eq!(convert(m(down), &ms(0, 0, 0, 1)), Some(EventType::SimulatedButtonPress(b)));
        assert_eq!(convert(m(up), &ms(0, 0, 0, 1)), Some(EventType::SimulatedButtonRelease(b)));
    }
}

#[test]
fn extended_buttons_decode() {
    assert_eq!(convert(m(WM_XBUTTONDOWN), &ms(0, 0, 0x0001_0000, 0)), Some(EventType::ButtonPress(Button::Forward)));
    assert_eq!(convert(m(WM_XBUTTONDOWN), &ms(0, 0, 0x0002_0000, 0)), Some(EventType::ButtonPress(Button::Backward)));
    assert_eq!(convert(m(WM_XBUTTONDOWN), &ms(0, 0, 0x0005_0000, 0)), Some(EventType::ButtonPress(Button::Unknown(5))));
    assert_eq!(convert(m(WM_XBUTTONUP), &ms(0, 0, 0x0001_0000, 0)), Some(EventType::ButtonRelease(Button::Forward)));
    assert_eq!(convert(m(WM_XBUTTONUP), &ms(0, 0, 0x0002_0000, 1)), Some(EventType::SimulatedButtonRelease(Button::Backward)));
    assert_eq!(convert(m(WM_XBUTTONUP), &ms(0, 0, 0x0007_0000, 0)), Some(EventType::ButtonRelease(Button::Unknown(7))));
}

#[test]
fn mouse_move_decodes() {
    assert_eq!(convert(m(WM_MOUSEMOVE), &ms(-100, 250, 0, 0)), Some(EventType::MouseMove { x: -100, y: 250 }));
}

#[test]
fn wheel_decodes_in_notches() {
    assert_eq!(convert(m(WM_MOUSEWHEEL), &ms(0, 0, 120 << 16, 0)), Some(EventType::Wheel { delta_x: 0, delta_y: 1 }));
    assert_eq!(convert(m(WM_MOUSEWHEEL), &ms(0, 0, 0, 0)), Some(EventType::Wheel { delta_x: 0, delta_y: 0 }));
    assert_eq!(convert(m(WM_MOUSEWHEEL), &ms(0, 0, 0xFF88_0000, 0)), Some(EventType::Wheel { delta_x: 0, delta_y: -1 }));
    assert_eq!(convert(m(WM_MOUSEHWHEEL), &ms(0, 0, 240 << 16, 0)), Some(EventType::Wheel { delta_x: 2, delta_y: 0 }));
    assert_eq!(convert(m(WM_MOUSEHWHEEL), &ms(0, 0, 120 << 16, 1)), Some(EventType::SimulatedWheel { delta_x: 1, delta_y: 0 }));
}

#[test]
fn wheel_notches_truncate_toward_zero() {
    assert_eq!(wheel_notches(120, 120), 1);
    assert_eq!(wheel_notches(0, 120), 0);
    assert_eq!(wheel_notches(119, 120), 0);
    assert_eq!(wheel_notches(360, 120), 3);
    assert_eq!(wheel_notches(0xFF88, 120), -1);
    assert_eq!(wheel_notches(0xFF89, 120), 0);
    assert_eq!(wheel_notches(0x8000, 120), -273);
    assert_eq!(wheel_notches(0x8000, 1), -32768);
}

#[test]
fn zero_notch_size_gives_zero() {
    assert_eq!(wheel_notches(120, 0), 0);
    assert_eq!(wheel_notches(0xFFFF, 0), 0);
    assert_eq!(wheel_notches(0, 0), 0);
}

#[test]
fn unrecognized_messages_pass_through() {
    assert_eq!(convert(0x0203, &ms(0, 0, 0, 0)), None);
    assert_eq!(convert(0, &kb(0x41, 0)), None);
    assert_eq!(convert(m(WM_KEYDOWN) + (1usize << 32), &kb(0x41, 0)), None);
    assert_eq!(convert(m(WM_KEYDOWN), &ms(0, 0, 0, 0)), None);
    assert_eq!(convert(m(WM_LBUTTONDOWN), &kb(0x41, 0)), None);
}

#[test]
fn events_carry_time_and_key_press_names() {
    let e = to_event(m(WM_KEYDOWN), &kb(0x41, 0), Some("a".to_string())).unwrap();
    assert_eq!(e.event_type, EventType::KeyPress(Key::KeyA));
    assert_eq!(e.time, 77);
    assert_eq!(e.name, Some("a".to_string()));
    let r = to_event(m(WM_KEYUP), &kb(0x41, 0), Some("a".to_string())).unwrap();
    assert_eq!(r.name, None);
    let s = to_event(m(WM_KEYDOWN), &kb(0x41, 1), Some("a".to_string())).unwrap();
    assert_eq!(s.name, None);
    let b = to_event(m(WM_LBUTTONDOWN), &ms(0, 0, 0, 0), None).unwrap();
    assert_eq!(b.time, 88);
    assert!(to_event(0, &kb(0x41, 0), None).is_none());
}
