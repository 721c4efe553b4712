use bracket_grid::keycode::KEY_COUNT;
use bracket_grid::VirtualKeyCode;
use winit::keyboard::KeyCode;

#[test]
fn scancodes_follow_the_listing() {
    assert_eq!(VirtualKeyCode::Key1.to_scancode(), 0);
    assert_eq!(VirtualKeyCode::Key0.to_scancode(), 9);
    assert_eq!(VirtualKeyCode::A.to_scancode(), 10);
    assert_eq!(VirtualKeyCode::Z.to_scancode(), 35);
    assert_eq!(VirtualKeyCode::Escape.to_scancode(), 36);
    assert_eq!(VirtualKeyCode::F1.to_scancode(), 37);
    assert_eq!(VirtualKeyCode::F24.to_scancode(), 60);
    assert_eq!(VirtualKeyCode::Cut.to_scancode(), 162);
    assert_eq!(KEY_COUNT, 163);
}

#[test]
fn scancodes_keep_the_order_of_the_keys() {
    let keys = [
        VirtualKeyCode::Key1,
        VirtualKeyCode::A,
        VirtualKeyCode::Escape,
        VirtualKeyCode::Snapshot,
        VirtualKeyCode::Left,
        VirtualKeyCode::Back,
        VirtualKeyCode::Numpad0,
        VirtualKeyCode::AbntC1,
        VirtualKeyCode::Yen,
        VirtualKeyCode::Cut,
    ];
    for pair in keys.windows(2) {
        assert!(pair[0] < pair[1]);
        assert!(pair[0].to_scancode() < pair[1].to_scancode());
    }
    assert_ne!(VirtualKeyCode::Left.to_scancode(), VirtualKeyCode::Right.to_scancode());
}

#[test]
fn winit_key_codes_map_to_keys() {
    let pairs = [
        (KeyCode::Digit1, VirtualKeyCode::Key1),
        (KeyCode::Digit0, VirtualKeyCode::Key0),
        (KeyCode::KeyA, VirtualKeyCode::A),
        (KeyCode::KeyZ, VirtualKeyCode::Z),
        (KeyCode::Escape, VirtualKeyCode::Escape),
        (KeyCode::F24, VirtualKeyCode::F24),
        (KeyCode::PrintScreen, VirtualKeyCode::Snapshot),
        (KeyCode::ScrollLock, VirtualKeyCode::Scroll),
        (KeyCode::ArrowLeft, VirtualKeyCode::Left),
        (KeyCode::Backspace, VirtualKeyCode::Back),
        (KeyCode::Enter, VirtualKeyCode::Return),
        (KeyCode::NumpadEqual, VirtualKeyCode::NumpadEquals),
        (KeyCode::Quote, VirtualKeyCode::Apostrophe),
        (KeyCode::Backquote, VirtualKeyCode::Grave),
        (KeyCode::SuperLeft, VirtualKeyCode::LWin),
        (KeyCode::ContextMenu, VirtualKeyCode::Apps),
        (KeyCode::CapsLock, VirtualKeyCode::Capital),
        (KeyCode::AudioVolumeMute, VirtualKeyCode::Mute),
        (KeyCode::MediaTrackPrevious, VirtualKeyCode::PrevTrack),
        (KeyCode::Cut, VirtualKeyCode::Cut),
    ];
    for (code, key) in pairs {
        assert_eq!(VirtualKeyCode::from_winit_keycode(code), Some(key));
    }
}

#[test]
fn winit_key_codes_without_a_counterpart_give_none() {
    for code in [
        KeyCode::F25,
        KeyCode::F35,
        KeyCode::IntlBackslash,
        KeyCode::Fn,
        KeyCode::Help,
        KeyCode::NumpadComma,
        KeyCode::BrowserBack,
        KeyCode::Power,
        KeyCode::Sleep,
        KeyCode::Convert,
    ] {
        assert_eq!(VirtualKeyCode::from_winit_keycode(code), None);
    }
}

#[test]
fn no_two_winit_key_codes_give_the_same_key() {
    let codes = [
        KeyCode::Digit1, KeyCode::Digit2, KeyCode::KeyA, KeyCode::KeyB, KeyCode::F1,
        KeyCode::F2, KeyCode::ArrowLeft, KeyCode::ArrowRight, KeyCode::AltLeft,
        KeyCode::AltRight, KeyCode::ShiftLeft, KeyCode::ShiftRight, KeyCode::Numpad0,
        KeyCode::Digit0, KeyCode::NumpadEnter, KeyCode::Enter, KeyCode::Minus,
        KeyCode::NumpadSubtract, KeyCode::MediaStop, KeyCode::Copy, KeyCode::Paste,
    ];
    for (i, a) in codes.iter().enumerate() {
        for b in codes.iter().skip(i + 1) {
            let (ka, kb) = (
                VirtualKeyCode::from_winit_keycode(*a),
                VirtualKeyCode::from_winit_keycode(*b),
            );
            assert!(ka.is_some() && kb.is_some());
            assert_ne!(ka, kb);
        }
    }
}
