//! Key codes that stay the same whatever windowing back end delivers the
//! key events.

use vstd::prelude::*;
use winit::keyboard::KeyCode;

verus! {

/// winit's `KeyCode`, the place of a key on the keyboard, declared with its
/// variants as winit defines them, so that a `match` on one is verified
/// against the real enum.  Nothing is claimed of it beyond that definition.
#[verifier::external_type_specification]
pub struct ExKeyCode(winit::keyboard::KeyCode);

/// winit's `NativeKeyCode`, which `KeyCode::Unidentified` carries: what the
/// platform reported for a key that winit has no code for.  It is opaque
/// here: nothing looks inside it and nothing is claimed of it.
#[verifier::external_type_specification]
#[verifier::external_body]
pub struct ExNativeKeyCode(winit::keyboard::NativeKeyCode);

/// The number of keys.
pub const KEY_COUNT: u32 = 163;

/// A key of the keyboard.  Keys are ordered as they are listed here.
#[derive(Debug, Hash, Ord, PartialOrd, PartialEq, Eq, Clone, Copy)]
pub enum VirtualKeyCode {
    /// The '1' key over the letters.
    Key1,
    /// The '2' key over the letters.
    Key2,
    /// The '3' key over the letters.
    Key3,
    /// The '4' key over the letters.
    Key4,
    /// The '5' key over the letters.
    Key5,
    /// The '6' key over the letters.
    Key6,
    /// The '7' key over the letters.
    Key7,
    /// The '8' key over the letters.
    Key8,
    /// The '9' key over the letters.
    Key9,
    /// The '0' key over the 'O' and 'P' keys.
    Key0,

    A,
    B,
    C,
    D,
    E,
    F,
    G,
    H,
    I,
    J,
    K,
    L,
    M,
    N,
    O,
    P,
    Q,
    R,
    S,
    T,
    U,
    V,
    W,
    X,
    Y,
    Z,

    /// The Escape key, next to F1.
    Escape,

    F1,
    F2,
    F3,
    F4,
    F5,
    F6,
    F7,
    F8,
    F9,
    F10,
    F11,
    F12,
    F13,
    F14,
    F15,
    F16,
    F17,
    F18,
    F19,
    F20,
    F21,
    F22,
    F23,
    F24,

    /// Print Screen/SysRq.
    Snapshot,
    /// Scroll Lock.
    Scroll,
    /// Pause/Break key, next to Scroll lock.
    Pause,

    /// `Insert`, next to Backspace.
    Insert,
    Home,
    Delete,
    End,
    PageDown,
    PageUp,

    Left,
    Up,
    Right,
    Down,

    /// The Backspace key, right over Enter.
    Back,
    /// The Enter key.
    Return,
    /// The space bar.
    Space,

    /// The "Compose" key on Linux.
    Compose,

    Caret,

    Numlock,
    Numpad0,
    Numpad1,
    Numpad2,
    Numpad3,
    Numpad4,
    Numpad5,
    Numpad6,
    Numpad7,
    Numpad8,
    Numpad9,

    AbntC1,
    AbntC2,
    NumpadAdd,
    Apostrophe,
    Apps,
    Asterisk,
    Plus,
    At,
    Ax,
    Backslash,
    Calculator,
    Capital,
    Colon,
    Comma,
    Convert,
    NumpadDecimal,
    NumpadDivide,
    Equals,
    Grave,
    Kana,
    Kanji,
    LAlt,
    LBracket,
    LControl,
    LShift,
    LWin,
    Mail,
    MediaSelect,
    MediaStop,
    Minus,
    NumpadMultiply,
    Mute,
    MyComputer,
    /// Also called "Prior".
    NavigateForward,
    /// Also called "Next".
    NavigateBackward,
    NextTrack,
    NoConvert,
    NumpadComma,
    NumpadEnter,
    NumpadEquals,
    OEM102,
    Period,
    PlayPause,
    Power,
    PrevTrack,
    RAlt,
    RBracket,
    RControl,
    RShift,
    RWin,
    Semicolon,
    Slash,
    Sleep,
    Stop,
    NumpadSubtract,
    Sysrq,
    Tab,
    Underline,
    Unlabeled,
    VolumeDown,
    VolumeUp,
    Wake,
    WebBack,
    WebFavorites,
    WebForward,
    WebHome,
    WebRefresh,
    WebSearch,
    WebStop,
    Yen,
    Copy,
    Paste,
    Cut,
}

impl VirtualKeyCode {
    /// Every key, in the order of the listing.
    pub open spec fn spec_keys() -> Seq<VirtualKeyCode> {
        seq![
            VirtualKeyCode::Key1,
            VirtualKeyCode::Key2,
            VirtualKeyCode::Key3,
            VirtualKeyCode::Key4,
            VirtualKeyCode::Key5,
            VirtualKeyCode::Key6,
            VirtualKeyCode::Key7,
            VirtualKeyCode::Key8,
            VirtualKeyCode::Key9,
            VirtualKeyCode::Key0,
            VirtualKeyCode::A,
            VirtualKeyCode::B,
            VirtualKeyCode::C,
            VirtualKeyCode::D,
            VirtualKeyCode::E,
            VirtualKeyCode::F,
            VirtualKeyCode::G,
            VirtualKeyCode::H,
            VirtualKeyCode::I,
            VirtualKeyCode::J,
            VirtualKeyCode::K,
            VirtualKeyCode::L,
            VirtualKeyCode::M,
            VirtualKeyCode::N,
            VirtualKeyCode::O,
            VirtualKeyCode::P,
            VirtualKeyCode::Q,
            VirtualKeyCode::R,
            VirtualKeyCode::S,
            VirtualKeyCode::T,
            VirtualKeyCode::U,
            VirtualKeyCode::V,
            VirtualKeyCode::W,
            VirtualKeyCode::X,
            VirtualKeyCode::Y,
            VirtualKeyCode::Z,
            VirtualKeyCode::Escape,
            VirtualKeyCode::F1,
            VirtualKeyCode::F2,
            VirtualKeyCode::F3,
            VirtualKeyCode::F4,
            VirtualKeyCode::F5,
            VirtualKeyCode::F6,
            VirtualKeyCode::F7,
            VirtualKeyCode::F8,
            VirtualKeyCode::F9,
            VirtualKeyCode::F10,
            VirtualKeyCode::F11,
            VirtualKeyCode::F12,
            VirtualKeyCode::F13,
            VirtualKeyCode::F14,
            VirtualKeyCode::F15,
            VirtualKeyCode::F16,
            VirtualKeyCode::F17,
            VirtualKeyCode::F18,
            VirtualKeyCode::F19,
            VirtualKeyCode::F20,
            VirtualKeyCode::F21,
            VirtualKeyCode::F22,
            VirtualKeyCode::F23,
            VirtualKeyCode::F24,
            VirtualKeyCode::Snapshot,
            VirtualKeyCode::Scroll,
            VirtualKeyCode::Pause,
            VirtualKeyCode::Insert,
            VirtualKeyCode::Home,
            VirtualKeyCode::Delete,
            VirtualKeyCode::End,
            VirtualKeyCode::PageDown,
            VirtualKeyCode::PageUp,
            VirtualKeyCode::Left,
            VirtualKeyCode::Up,
            VirtualKeyCode::Right,
            VirtualKeyCode::Down,
            VirtualKeyCode::Back,
            VirtualKeyCode::Return,
            VirtualKeyCode::Space,
            VirtualKeyCode::Compose,
            VirtualKeyCode::Caret,
            VirtualKeyCode::Numlock,
            VirtualKeyCode::Numpad0,
            VirtualKeyCode::Numpad1,
            VirtualKeyCode::Numpad2,
            VirtualKeyCode::Numpad3,
            VirtualKeyCode::Numpad4,
            VirtualKeyCode::Numpad5,
            VirtualKeyCode::Numpad6,
            VirtualKeyCode::Numpad7,
            VirtualKeyCode::Numpad8,
            VirtualKeyCode::Numpad9,
            VirtualKeyCode::AbntC1,
            VirtualKeyCode::AbntC2,
            VirtualKeyCode::NumpadAdd,
            VirtualKeyCode::Apostrophe,
            VirtualKeyCode::Apps,
            VirtualKeyCode::Asterisk,
            VirtualKeyCode::Plus,
            VirtualKeyCode::At,
            VirtualKeyCode::Ax,
            VirtualKeyCode::Backslash,
            VirtualKeyCode::Calculator,
            VirtualKeyCode::Capital,
            VirtualKeyCode::Colon,
            VirtualKeyCode::Comma,
            VirtualKeyCode::Convert,
            VirtualKeyCode::NumpadDecimal,
            VirtualKeyCode::NumpadDivide,
            VirtualKeyCode::Equals,
            VirtualKeyCode::Grave,
            VirtualKeyCode::Kana,
            VirtualKeyCode::Kanji,
            VirtualKeyCode::LAlt,
            VirtualKeyCode::LBracket,
            VirtualKeyCode::LControl,
            VirtualKeyCode::LShift,
            VirtualKeyCode::LWin,
            VirtualKeyCode::Mail,
            VirtualKeyCode::MediaSelect,
            VirtualKeyCode::MediaStop,
            VirtualKeyCode::Minus,
            VirtualKeyCode::NumpadMultiply,
            VirtualKeyCode::Mute,
            VirtualKeyCode::MyComputer,
            VirtualKeyCode::NavigateForward,
            VirtualKeyCode::NavigateBackward,
            VirtualKeyCode::NextTrack,
            VirtualKeyCode::NoConvert,
            VirtualKeyCode::NumpadComma,
            VirtualKeyCode::NumpadEnter,
            VirtualKeyCode::NumpadEquals,
            VirtualKeyCode::OEM102,
            VirtualKeyCode::Period,
            VirtualKeyCode::PlayPause,
            VirtualKeyCode::Power,
            VirtualKeyCode::PrevTrack,
            VirtualKeyCode::RAlt,
            VirtualKeyCode::RBracket,
            VirtualKeyCode::RControl,
            VirtualKeyCode::RShift,
            VirtualKeyCode::RWin,
            VirtualKeyCode::Semicolon,
            VirtualKeyCode::Slash,
            VirtualKeyCode::Sleep,
            VirtualKeyCode::Stop,
            VirtualKeyCode::NumpadSubtract,
            VirtualKeyCode::Sysrq,
            VirtualKeyCode::Tab,
            VirtualKeyCode::Underline,
            VirtualKeyCode::Unlabeled,
            VirtualKeyCode::VolumeDown,
            VirtualKeyCode::VolumeUp,
            VirtualKeyCode::Wake,
            VirtualKeyCode::WebBack,
            VirtualKeyCode::WebFavorites,
            VirtualKeyCode::WebForward,
            VirtualKeyCode::WebHome,
            VirtualKeyCode::WebRefresh,
            VirtualKeyCode::WebSearch,
            VirtualKeyCode::WebStop,
            VirtualKeyCode::Yen,
            VirtualKeyCode::Copy,
            VirtualKeyCode::Paste,
            VirtualKeyCode::Cut,
        ]
    }

    /// The key that stands for a key code of winit, where there is one.
    /// winit names keys by their place on the keyboard; its codes without a
    /// counterpart among the keys give none.
    pub open spec fn spec_from_winit_keycode(keycode: KeyCode) -> Option<VirtualKeyCode> {
        match keycode {
            KeyCode::Digit1 => Some(VirtualKeyCode::Key1),
            KeyCode::Digit2 => Some(VirtualKeyCode::Key2),
            KeyCode::Digit3 => Some(VirtualKeyCode::Key3),
            KeyCode::Digit4 => Some(VirtualKeyCode::Key4),
            KeyCode::Digit5 => Some(VirtualKeyCode::Key5),
            KeyCode::Digit6 => Some(VirtualKeyCode::Key6),
            KeyCode::Digit7 => Some(VirtualKeyCode::Key7),
            KeyCode::Digit8 => Some(VirtualKeyCode::Key8),
            KeyCode::Digit9 => Some(VirtualKeyCode::Key9),
            KeyCode::Digit0 => Some(VirtualKeyCode::Key0),
            KeyCode::KeyA => Some(VirtualKeyCode::A),
            KeyCode::KeyB => Some(VirtualKeyCode::B),
            KeyCode::KeyC => Some(VirtualKeyCode::C),
            KeyCode::KeyD => Some(VirtualKeyCode::D),
            KeyCode::KeyE => Some(VirtualKeyCode::E),
            KeyCode::KeyF => Some(VirtualKeyCode::F),
            KeyCode::KeyG => Some(VirtualKeyCode::G),
            KeyCode::KeyH => Some(VirtualKeyCode::H),
            KeyCode::KeyI => Some(VirtualKeyCode::I),
            KeyCode::KeyJ => Some(VirtualKeyCode::J),
            KeyCode::KeyK => Some(VirtualKeyCode::K),
            KeyCode::KeyL => Some(VirtualKeyCode::L),
            KeyCode::KeyM => Some(VirtualKeyCode::M),
            KeyCode::KeyN => Some(VirtualKeyCode::N),
            KeyCode::KeyO => Some(VirtualKeyCode::O),
            KeyCode::KeyP => Some(VirtualKeyCode::P),
            KeyCode::KeyQ => Some(VirtualKeyCode::Q),
            KeyCode::KeyR => Some(VirtualKeyCode::R),
            KeyCode::KeyS => Some(VirtualKeyCode::S),
            KeyCode::KeyT => Some(VirtualKeyCode::T),
            KeyCode::KeyU => Some(VirtualKeyCode::U),
            KeyCode::KeyV => Some(VirtualKeyCode::V),
            KeyCode::KeyW => Some(VirtualKeyCode::W),
            KeyCode::KeyX => Some(VirtualKeyCode::X),
            KeyCode::KeyY => Some(VirtualKeyCode::Y),
            KeyCode::KeyZ => Some(VirtualKeyCode::Z),
            KeyCode::Escape => Some(VirtualKeyCode::Escape),
            KeyCode::F1 => Some(VirtualKeyCode::F1),
            KeyCode::F2 => Some(VirtualKeyCode::F2),
            KeyCode::F3 => Some(VirtualKeyCode::F3),
            KeyCode::F4 => Some(VirtualKeyCode::F4),
            KeyCode::F5 => Some(VirtualKeyCode::F5),
            KeyCode::F6 => Some(VirtualKeyCode::F6),
            KeyCode::F7 => Some(VirtualKeyCode::F7),
            KeyCode::F8 => Some(VirtualKeyCode::F8),
            KeyCode::F9 => Some(VirtualKeyCode::F9),
            KeyCode::F10 => Some(VirtualKeyCode::F10),
            KeyCode::F11 => Some(VirtualKeyCode::F11),
            KeyCode::F12 => Some(VirtualKeyCode::F12),
            KeyCode::F13 => Some(VirtualKeyCode::F13),
            KeyCode::F14 => Some(VirtualKeyCode::F14),
            KeyCode::F15 => Some(VirtualKeyCode::F15),
            KeyCode::F16 => Some(VirtualKeyCode::F16),
            KeyCode::F17 => Some(VirtualKeyCode::F17),
            KeyCode::F18 => Some(VirtualKeyCode::F18),
            KeyCode::F19 => Some(VirtualKeyCode::F19),
            KeyCode::F20 => Some(VirtualKeyCode::F20),
            KeyCode::F21 => Some(VirtualKeyCode::F21),
            KeyCode::F22 => Some(VirtualKeyCode::F22),
            KeyCode::F23 => Some(VirtualKeyCode::F23),
            KeyCode::F24 => Some(VirtualKeyCode::F24),
            KeyCode::PrintScreen => Some(VirtualKeyCode::Snapshot),
            KeyCode::ScrollLock => Some(VirtualKeyCode::Scroll),
            KeyCode::Pause => Some(VirtualKeyCode::Pause),
            KeyCode::Insert => Some(VirtualKeyCode::Insert),
            KeyCode::Home => Some(VirtualKeyCode::Home),
            KeyCode::Delete => Some(VirtualKeyCode::Delete),
            KeyCode::End => Some(VirtualKeyCode::End),
            KeyCode::PageDown => Some(VirtualKeyCode::PageDown),
            KeyCode::PageUp => Some(VirtualKeyCode::PageUp),
            KeyCode::ArrowLeft => Some(VirtualKeyCode::Left),
            KeyCode::ArrowUp => Some(VirtualKeyCode::Up),
            KeyCode::ArrowRight => Some(VirtualKeyCode::Right),
            KeyCode::ArrowDown => Some(VirtualKeyCode::Down),
            KeyCode::Backspace => Some(VirtualKeyCode::Back),
            KeyCode::Enter => Some(VirtualKeyCode::Return),
            KeyCode::Space => Some(VirtualKeyCode::Space),
            KeyCode::NumLock => Some(VirtualKeyCode::Numlock),
            KeyCode::Numpad0 => Some(VirtualKeyCode::Numpad0),
            KeyCode::Numpad1 => Some(VirtualKeyCode::Numpad1),
            KeyCode::Numpad2 => Some(VirtualKeyCode::Numpad2),
            KeyCode::Numpad3 => Some(VirtualKeyCode::Numpad3),
            KeyCode::Numpad4 => Some(VirtualKeyCode::Numpad4),
            KeyCode::Numpad5 => Some(VirtualKeyCode::Numpad5),
            KeyCode::Numpad6 => Some(VirtualKeyCode::Numpad6),
            KeyCode::Numpad7 => Some(VirtualKeyCode::Numpad7),
            KeyCode::Numpad8 => Some(VirtualKeyCode::Numpad8),
            KeyCode::Numpad9 => Some(VirtualKeyCode::Numpad9),
            KeyCode::NumpadAdd => Some(VirtualKeyCode::NumpadAdd),
            KeyCode::NumpadDecimal => Some(VirtualKeyCode::NumpadDecimal),
            KeyCode::NumpadDivide => Some(VirtualKeyCode::NumpadDivide),
            KeyCode::NumpadMultiply => Some(VirtualKeyCode::NumpadMultiply),
            KeyCode::NumpadSubtract => Some(VirtualKeyCode::NumpadSubtract),
            KeyCode::NumpadEnter => Some(VirtualKeyCode::NumpadEnter),
            KeyCode::NumpadEqual => Some(VirtualKeyCode::NumpadEquals),
            KeyCode::Quote => Some(VirtualKeyCode::Apostrophe),
            KeyCode::Backslash => Some(VirtualKeyCode::Backslash),
            KeyCode::BracketLeft => Some(VirtualKeyCode::LBracket),
            KeyCode::BracketRight => Some(VirtualKeyCode::RBracket),
            KeyCode::Comma => Some(VirtualKeyCode::Comma),
            KeyCode::Equal => Some(VirtualKeyCode::Equals),
            KeyCode::Backquote => Some(VirtualKeyCode::Grave),
            KeyCode::Minus => Some(VirtualKeyCode::Minus),
            KeyCode::Period => Some(VirtualKeyCode::Period),
            KeyCode::Semicolon => Some(VirtualKeyCode::Semicolon),
            KeyCode::Slash => Some(VirtualKeyCode::Slash),
            KeyCode::Tab => Some(VirtualKeyCode::Tab),
            KeyCode::AltLeft => Some(VirtualKeyCode::LAlt),
            KeyCode::AltRight => Some(VirtualKeyCode::RAlt),
            KeyCode::ControlLeft => Some(VirtualKeyCode::LControl),
            KeyCode::ControlRight => Some(VirtualKeyCode::RControl),
            KeyCode::ShiftLeft => Some(VirtualKeyCode::LShift),
            KeyCode::ShiftRight => Some(VirtualKeyCode::RShift),
            KeyCode::SuperLeft => Some(VirtualKeyCode::LWin),
            KeyCode::SuperRight => Some(VirtualKeyCode::RWin),
            KeyCode::ContextMenu => Some(VirtualKeyCode::Apps),
            KeyCode::CapsLock => Some(VirtualKeyCode::Capital),
            KeyCode::AudioVolumeDown => Some(VirtualKeyCode::VolumeDown),
            KeyCode::AudioVolumeUp => Some(VirtualKeyCode::VolumeUp),
            KeyCode::AudioVolumeMute => Some(VirtualKeyCode::Mute),
            KeyCode::MediaPlayPause => Some(VirtualKeyCode::PlayPause),
            KeyCode::MediaStop => Some(VirtualKeyCode::MediaStop),
            KeyCode::MediaTrackNext => Some(VirtualKeyCode::NextTrack),
            KeyCode::MediaTrackPrevious => Some(VirtualKeyCode::PrevTrack),
            KeyCode::Copy => Some(VirtualKeyCode::Copy),
            KeyCode::Paste => Some(VirtualKeyCode::Paste),
            KeyCode::Cut => Some(VirtualKeyCode::Cut),
            _ => None,
        }
    }

    /// The key for a key code of winit, or none where the code has no
    /// counterpart.  No two codes give the same key.
    pub fn from_winit_keycode(keycode: KeyCode) -> (r: Option<Self>)
        ensures
            r == Self::spec_from_winit_keycode(keycode),
    {
        match keycode {
            KeyCode::Digit1 => Some(VirtualKeyCode::Key1),
            KeyCode::Digit2 => Some(VirtualKeyCode::Key2),
            KeyCode::Digit3 => Some(VirtualKeyCode::Key3),
            KeyCode::Digit4 => Some(VirtualKeyCode::Key4),
            KeyCode::Digit5 => Some(VirtualKeyCode::Key5),
            KeyCode::Digit6 => Some(VirtualKeyCode::Key6),
            KeyCode::Digit7 => Some(VirtualKeyCode::Key7),
            KeyCode::Digit8 => Some(VirtualKeyCode::Key8),
            KeyCode::Digit9 => Some(VirtualKeyCode::Key9),
            KeyCode::Digit0 => Some(VirtualKeyCode::Key0),
            KeyCode::KeyA => Some(VirtualKeyCode::A),
            KeyCode::KeyB => Some(VirtualKeyCode::B),
            KeyCode::KeyC => Some(VirtualKeyCode::C),
            KeyCode::KeyD => Some(VirtualKeyCode::D),
            KeyCode::KeyE => Some(VirtualKeyCode::E),
            KeyCode::KeyF => Some(VirtualKeyCode::F),
            KeyCode::KeyG => Some(VirtualKeyCode::G),
            KeyCode::KeyH => Some(VirtualKeyCode::H),
            KeyCode::KeyI => Some(VirtualKeyCode::I),
            KeyCode::KeyJ => Some(VirtualKeyCode::J),
            KeyCode::KeyK => Some(VirtualKeyCode::K),
            KeyCode::KeyL => Some(VirtualKeyCode::L),
            KeyCode::KeyM => Some(VirtualKeyCode::M),
            KeyCode::KeyN => Some(VirtualKeyCode::N),
            KeyCode::KeyO => Some(VirtualKeyCode::O),
            KeyCode::KeyP => Some(VirtualKeyCode::P),
            KeyCode::KeyQ => Some(VirtualKeyCode::Q),
            KeyCode::KeyR => Some(VirtualKeyCode::R),
            KeyCode::KeyS => Some(VirtualKeyCode::S),
            KeyCode::KeyT => Some(VirtualKeyCode::T),
            KeyCode::KeyU => Some(VirtualKeyCode::U),
            KeyCode::KeyV => Some(VirtualKeyCode::V),
            KeyCode::KeyW => Some(VirtualKeyCode::W),
            KeyCode::KeyX => Some(VirtualKeyCode::X),
            KeyCode::KeyY => Some(VirtualKeyCode::Y),
            KeyCode::KeyZ => Some(VirtualKeyCode::Z),
            KeyCode::Escape => Some(VirtualKeyCode::Escape),
            KeyCode::F1 => Some(VirtualKeyCode::F1),
            KeyCode::F2 => Some(VirtualKeyCode::F2),
            KeyCode::F3 => Some(VirtualKeyCode::F3),
            KeyCode::F4 => Some(VirtualKeyCode::F4),
            KeyCode::F5 => Some(VirtualKeyCode::F5),
            KeyCode::F6 => Some(VirtualKeyCode::F6),
            KeyCode::F7 => Some(VirtualKeyCode::F7),
            KeyCode::F8 => Some(VirtualKeyCode::F8),
            KeyCode::F9 => Some(VirtualKeyCode::F9),
            KeyCode::F10 => Some(VirtualKeyCode::F10),
            KeyCode::F11 => Some(VirtualKeyCode::F11),
            KeyCode::F12 => Some(VirtualKeyCode::F12),
            KeyCode::F13 => Some(VirtualKeyCode::F13),
            KeyCode::F14 => Some(VirtualKeyCode::F14),
            KeyCode::F15 => Some(VirtualKeyCode::F15),
            KeyCode::F16 => Some(VirtualKeyCode::F16),
            KeyCode::F17 => Some(VirtualKeyCode::F17),
            KeyCode::F18 => Some(VirtualKeyCode::F18),
            KeyCode::F19 => Some(VirtualKeyCode::F19),
            KeyCode::F20 => Some(VirtualKeyCode::F20),
            KeyCode::F21 => Some(VirtualKeyCode::F21),
            KeyCode::F22 => Some(VirtualKeyCode::F22),
            KeyCode::F23 => Some(VirtualKeyCode::F23),
            KeyCode::F24 => Some(VirtualKeyCode::F24),
            KeyCode::PrintScreen => Some(VirtualKeyCode::Snapshot),
            KeyCode::ScrollLock => Some(VirtualKeyCode::Scroll),
            KeyCode::Pause => Some(VirtualKeyCode::Pause),
            KeyCode::Insert => Some(VirtualKeyCode::Insert),
            KeyCode::Home => Some(VirtualKeyCode::Home),
            KeyCode::Delete => Some(VirtualKeyCode::Delete),
            KeyCode::End => Some(VirtualKeyCode::End),
            KeyCode::PageDown => Some(VirtualKeyCode::PageDown),
            KeyCode::PageUp => Some(VirtualKeyCode::PageUp),
            KeyCode::ArrowLeft => Some(VirtualKeyCode::Left),
            KeyCode::ArrowUp => Some(VirtualKeyCode::Up),
            KeyCode::ArrowRight => Some(VirtualKeyCode::Right),
            KeyCode::ArrowDown => Some(VirtualKeyCode::Down),
            KeyCode::Backspace => Some(VirtualKeyCode::Back),
            KeyCode::Enter => Some(VirtualKeyCode::Return),
            KeyCode::Space => Some(VirtualKeyCode::Space),
            KeyCode::NumLock => Some(VirtualKeyCode::Numlock),
            KeyCode::Numpad0 => Some(VirtualKeyCode::Numpad0),
            KeyCode::Numpad1 => Some(VirtualKeyCode::Numpad1),
            KeyCode::Numpad2 => Some(VirtualKeyCode::Numpad2),
            KeyCode::Numpad3 => Some(VirtualKeyCode::Numpad3),
            KeyCode::Numpad4 => Some(VirtualKeyCode::Numpad4),
            KeyCode::Numpad5 => Some(VirtualKeyCode::Numpad5),
            KeyCode::Numpad6 => Some(VirtualKeyCode::Numpad6),
            KeyCode::Numpad7 => Some(VirtualKeyCode::Numpad7),
            KeyCode::Numpad8 => Some(VirtualKeyCode::Numpad8),
            KeyCode::Numpad9 => Some(VirtualKeyCode::Numpad9),
            KeyCode::NumpadAdd => Some(VirtualKeyCode::NumpadAdd),
            KeyCode::NumpadDecimal => Some(VirtualKeyCode::NumpadDecimal),
            KeyCode::NumpadDivide => Some(VirtualKeyCode::NumpadDivide),
            KeyCode::NumpadMultiply => Some(VirtualKeyCode::NumpadMultiply),
            KeyCode::NumpadSubtract => Some(VirtualKeyCode::NumpadSubtract),
            KeyCode::NumpadEnter => Some(VirtualKeyCode::NumpadEnter),
            KeyCode::NumpadEqual => Some(VirtualKeyCode::NumpadEquals),
            KeyCode::Quote => Some(VirtualKeyCode::Apostrophe),
            KeyCode::Backslash => Some(VirtualKeyCode::Backslash),
            KeyCode::BracketLeft => Some(VirtualKeyCode::LBracket),
            KeyCode::BracketRight => Some(VirtualKeyCode::RBracket),
            KeyCode::Comma => Some(VirtualKeyCode::Comma),
            KeyCode::Equal => Some(VirtualKeyCode::Equals),
            KeyCode::Backquote => Some(VirtualKeyCode::Grave),
            KeyCode::Minus => Some(VirtualKeyCode::Minus),
            KeyCode::Period => Some(VirtualKeyCode::Period),
            KeyCode::Semicolon => Some(VirtualKeyCode::Semicolon),
            KeyCode::Slash => Some(VirtualKeyCode::Slash),
            KeyCode::Tab => Some(VirtualKeyCode::Tab),
            KeyCode::AltLeft => Some(VirtualKeyCode::LAlt),
            KeyCode::AltRight => Some(VirtualKeyCode::RAlt),
            KeyCode::ControlLeft => Some(VirtualKeyCode::LControl),
            KeyCode::ControlRight => Some(VirtualKeyCode::RControl),
            KeyCode::ShiftLeft => Some(VirtualKeyCode::LShift),
            KeyCode::ShiftRight => Some(VirtualKeyCode::RShift),
            KeyCode::SuperLeft => Some(VirtualKeyCode::LWin),
            KeyCode::SuperRight => Some(VirtualKeyCode::RWin),
            KeyCode::ContextMenu => Some(VirtualKeyCode::Apps),
            KeyCode::CapsLock => Some(VirtualKeyCode::Capital),
            KeyCode::AudioVolumeDown => Some(VirtualKeyCode::VolumeDown),
            KeyCode::AudioVolumeUp => Some(VirtualKeyCode::VolumeUp),
            KeyCode::AudioVolumeMute => Some(VirtualKeyCode::Mute),
            KeyCode::MediaPlayPause => Some(VirtualKeyCode::PlayPause),
            KeyCode::MediaStop => Some(VirtualKeyCode::MediaStop),
            KeyCode::MediaTrackNext => Some(VirtualKeyCode::NextTrack),
            KeyCode::MediaTrackPrevious => Some(VirtualKeyCode::PrevTrack),
            KeyCode::Copy => Some(VirtualKeyCode::Copy),
            KeyCode::Paste => Some(VirtualKeyCode::Paste),
            KeyCode::Cut => Some(VirtualKeyCode::Cut),
            _ => None,
        }
    }

    /// The scan code of the key, for programming interfaces that take a
    /// number: the place of the key in the listing, counted from zero.  Two
    /// keys never share a scan code.
    pub fn to_scancode(self) -> (code: u32)
        ensures
            code < KEY_COUNT,
            Self::spec_keys().len() == KEY_COUNT,
            Self::spec_keys()[code as int] == self,
    {
        match self {
            VirtualKeyCode::Key1 => 0,
            VirtualKeyCode::Key2 => 1,
            VirtualKeyCode::Key3 => 2,
            VirtualKeyCode::Key4 => 3,
            VirtualKeyCode::Key5 => 4,
            VirtualKeyCode::Key6 => 5,
            VirtualKeyCode::Key7 => 6,
            VirtualKeyCode::Key8 => 7,
            VirtualKeyCode::Key9 => 8,
            VirtualKeyCode::Key0 => 9,
            VirtualKeyCode::A => 10,
            VirtualKeyCode::B => 11,
            VirtualKeyCode::C => 12,
            VirtualKeyCode::D => 13,
            VirtualKeyCode::E => 14,
            VirtualKeyCode::F => 15,
            VirtualKeyCode::G => 16,
            VirtualKeyCode::H => 17,
            VirtualKeyCode::I => 18,
            VirtualKeyCode::J => 19,
            VirtualKeyCode::K => 20,
            VirtualKeyCode::L => 21,
            VirtualKeyCode::M => 22,
            VirtualKeyCode::N => 23,
            VirtualKeyCode::O => 24,
            VirtualKeyCode::P => 25,
            VirtualKeyCode::Q => 26,
            VirtualKeyCode::R => 27,
            VirtualKeyCode::S => 28,
            VirtualKeyCode::T => 29,
            VirtualKeyCode::U => 30,
            VirtualKeyCode::V => 31,
            VirtualKeyCode::W => 32,
            VirtualKeyCode::X => 33,
            VirtualKeyCode::Y => 34,
            VirtualKeyCode::Z => 35,
            VirtualKeyCode::Escape => 36,
            VirtualKeyCode::F1 => 37,
            VirtualKeyCode::F2 => 38,
            VirtualKeyCode::F3 => 39,
            VirtualKeyCode::F4 => 40,
            VirtualKeyCode::F5 => 41,
            VirtualKeyCode::F6 => 42,
            VirtualKeyCode::F7 => 43,
            VirtualKeyCode::F8 => 44,
            VirtualKeyCode::F9 => 45,
            VirtualKeyCode::F10 => 46,
            VirtualKeyCode::F11 => 47,
            VirtualKeyCode::F12 => 48,
            VirtualKeyCode::F13 => 49,
            VirtualKeyCode::F14 => 50,
            VirtualKeyCode::F15 => 51,
            VirtualKeyCode::F16 => 52,
            VirtualKeyCode::F17 => 53,
            VirtualKeyCode::F18 => 54,
            VirtualKeyCode::F19 => 55,
            VirtualKeyCode::F20 => 56,
            VirtualKeyCode::F21 => 57,
            VirtualKeyCode::F22 => 58,
            VirtualKeyCode::F23 => 59,
            VirtualKeyCode::F24 => 60,
            VirtualKeyCode::Snapshot => 61,
            VirtualKeyCode::Scroll => 62,
            VirtualKeyCode::Pause => 63,
            VirtualKeyCode::Insert => 64,
            VirtualKeyCode::Home => 65,
            VirtualKeyCode::Delete => 66,
            VirtualKeyCode::End => 67,
            VirtualKeyCode::PageDown => 68,
            VirtualKeyCode::PageUp => 69,
            VirtualKeyCode::Left => 70,
            VirtualKeyCode::Up => 71,
            VirtualKeyCode::Right => 72,
            VirtualKeyCode::Down => 73,
            VirtualKeyCode::Back => 74,
            VirtualKeyCode::Return => 75,
            VirtualKeyCode::Space => 76,
            VirtualKeyCode::Compose => 77,
            VirtualKeyCode::Caret => 78,
            VirtualKeyCode::Numlock => 79,
            VirtualKeyCode::Numpad0 => 80,
            VirtualKeyCode::Numpad1 => 81,
            VirtualKeyCode::Numpad2 => 82,
            VirtualKeyCode::Numpad3 => 83,
            VirtualKeyCode::Numpad4 => 84,
            VirtualKeyCode::Numpad5 => 85,
            VirtualKeyCode::Numpad6 => 86,
            VirtualKeyCode::Numpad7 => 87,
            VirtualKeyCode::Numpad8 => 88,
            VirtualKeyCode::Numpad9 => 89,
            VirtualKeyCode::AbntC1 => 90,
            VirtualKeyCode::AbntC2 => 91,
            VirtualKeyCode::NumpadAdd => 92,
            VirtualKeyCode::Apostrophe => 93,
            VirtualKeyCode::Apps => 94,
            VirtualKeyCode::Asterisk => 95,
            VirtualKeyCode::Plus => 96,
            VirtualKeyCode::At => 97,
            VirtualKeyCode::Ax => 98,
            VirtualKeyCode::Backslash => 99,
            VirtualKeyCode::Calculator => 100,
            VirtualKeyCode::Capital => 101,
            VirtualKeyCode::Colon => 102,
            VirtualKeyCode::Comma => 103,
            VirtualKeyCode::Convert => 104,
            VirtualKeyCode::NumpadDecimal => 105,
            VirtualKeyCode::NumpadDivide => 106,
            VirtualKeyCode::Equals => 107,
            VirtualKeyCode::Grave => 108,
            VirtualKeyCode::Kana => 109,
            VirtualKeyCode::Kanji => 110,
            VirtualKeyCode::LAlt => 111,
            VirtualKeyCode::LBracket => 112,
            VirtualKeyCode::LControl => 113,
            VirtualKeyCode::LShift => 114,
            VirtualKeyCode::LWin => 115,
            VirtualKeyCode::Mail => 116,
            VirtualKeyCode::MediaSelect => 117,
            VirtualKeyCode::MediaStop => 118,
            VirtualKeyCode::Minus => 119,
            VirtualKeyCode::NumpadMultiply => 120,
            VirtualKeyCode::Mute => 121,
            VirtualKeyCode::MyComputer => 122,
            VirtualKeyCode::NavigateForward => 123,
            VirtualKeyCode::NavigateBackward => 124,
            VirtualKeyCode::NextTrack => 125,
            VirtualKeyCode::NoConvert => 126,
            VirtualKeyCode::NumpadComma => 127,
            VirtualKeyCode::NumpadEnter => 128,
            VirtualKeyCode::NumpadEquals => 129,
            VirtualKeyCode::OEM102 => 130,
            VirtualKeyCode::Period => 131,
            VirtualKeyCode::PlayPause => 132,
            VirtualKeyCode::Power => 133,
            VirtualKeyCode::PrevTrack => 134,
            VirtualKeyCode::RAlt => 135,
            VirtualKeyCode::RBracket => 136,
            VirtualKeyCode::RControl => 137,
            VirtualKeyCode::RShift => 138,
            VirtualKeyCode::RWin => 139,
            VirtualKeyCode::Semicolon => 140,
            VirtualKeyCode::Slash => 141,
            VirtualKeyCode::Sleep => 142,
            VirtualKeyCode::Stop => 143,
            VirtualKeyCode::NumpadSubtract => 144,
            VirtualKeyCode::Sysrq => 145,
            VirtualKeyCode::Tab => 146,
            VirtualKeyCode::Underline => 147,
            VirtualKeyCode::Unlabeled => 148,
            VirtualKeyCode::VolumeDown => 149,
            VirtualKeyCode::VolumeUp => 150,
            VirtualKeyCode::Wake => 151,
            VirtualKeyCode::WebBack => 152,
            VirtualKeyCode::WebFavorites => 153,
            VirtualKeyCode::WebForward => 154,
            VirtualKeyCode::WebHome => 155,
            VirtualKeyCode::WebRefresh => 156,
            VirtualKeyCode::WebSearch => 157,
            VirtualKeyCode::WebStop => 158,
            VirtualKeyCode::Yen => 159,
            VirtualKeyCode::Copy => 160,
            VirtualKeyCode::Paste => 161,
            VirtualKeyCode::Cut => 162,
        }
    }
}

/// Two key codes of winit that stand for the same key are the same code.
pub proof fn lemma_from_winit_keycode_injective(a: KeyCode, b: KeyCode)
    requires
        VirtualKeyCode::spec_from_winit_keycode(a).is_some(),
        VirtualKeyCode::spec_from_winit_keycode(a) == VirtualKeyCode::spec_from_winit_keycode(b),
    ensures
        a == b,
{
}

} // verus!
