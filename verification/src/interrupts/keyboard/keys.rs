//! The keys of a keyboard and their codes in scancode set 1.

use crate::interrupts::keyboard::ps2::Set1Code;
use vstd::prelude::*;

verus! {

/// A key of a keyboard, by its place on it.
#[derive(Debug, Clone, Copy, PartialEq, Eq, Structural)]
pub enum KeyCode {
    Escape,
    F1,
    F2,
    F3,
    F4,
    F5,
    F6,
    F7,
    F8,
    F9,
    F10,
    F11,
    F12,
    PrintScreen,
    SysRq,
    ScrollLock,
    PauseBreak,
    Oem8,
    Key1,
    Key2,
    Key3,
    Key4,
    Key5,
    Key6,
    Key7,
    Key8,
    Key9,
    Key0,
    OemMinus,
    OemPlus,
    Backspace,
    Insert,
    Home,
    PageUp,
    NumpadLock,
    NumpadDivide,
    NumpadMultiply,
    NumpadSubtract,
    Tab,
    Q,
    W,
    E,
    R,
    T,
    Y,
    U,
    I,
    O,
    P,
    Oem4,
    Oem6,
    Oem5,
    Oem7,
    Delete,
    End,
    PageDown,
    Numpad7,
    Numpad8,
    Numpad9,
    NumpadAdd,
    CapsLock,
    A,
    S,
    D,
    F,
    G,
    H,
    J,
    K,
    L,
    Oem1,
    Oem3,
    Return,
    Numpad4,
    Numpad5,
    Numpad6,
    LShift,
    Z,
    X,
    C,
    V,
    B,
    N,
    M,
    OemComma,
    OemPeriod,
    Oem2,
    RShift,
    ArrowUp,
    Numpad1,
    Numpad2,
    Numpad3,
    NumpadEnter,
    LControl,
    LWin,
    LAlt,
    Spacebar,
    RAltGr,
    RWin,
    Apps,
    RControl,
    ArrowLeft,
    ArrowDown,
    ArrowRight,
    Numpad0,
    NumpadPeriod,
    Oem9,
    Oem10,
    Oem11,
    Oem12,
    Oem13,
    PrevTrack,
    NextTrack,
    Mute,
    Calculator,
    Play,
    Stop,
    VolumeDown,
    VolumeUp,
    WWWHome,
    PowerOnTestOk,
    TooManyKeys,
    RControl2,
    RAlt2,
    Unknown,
}

/// The code of a key in scancode set 1. Most keys are one byte, extended keys
/// have the prefix `0xE0`, and a key that sends a longer sequence (the pause
/// and print-screen keys) or that set 1 does not know has none.
pub open spec fn spec_keycode_to_set1(code: KeyCode) -> Option<Set1Code> {
    match code {
        KeyCode::Escape => Some(Set1Code::Single(0x01)),
        KeyCode::F1 => Some(Set1Code::Single(0x3B)),
        KeyCode::F2 => Some(Set1Code::Single(0x3C)),
        KeyCode::F3 => Some(Set1Code::Single(0x3D)),
        KeyCode::F4 => Some(Set1Code::Single(0x3E)),
        KeyCode::F5 => Some(Set1Code::Single(0x3F)),
        KeyCode::F6 => Some(Set1Code::Single(0x40)),
        KeyCode::F7 => Some(Set1Code::Single(0x41)),
        KeyCode::F8 => Some(Set1Code::Single(0x42)),
        KeyCode::F9 => Some(Set1Code::Single(0x43)),
        KeyCode::F10 => Some(Set1Code::Single(0x44)),
        KeyCode::F11 => Some(Set1Code::Single(0x57)),
        KeyCode::F12 => Some(Set1Code::Single(0x58)),
        KeyCode::ScrollLock => Some(Set1Code::Single(0x46)),
        KeyCode::Oem8 => Some(Set1Code::Single(0x29)),
        KeyCode::Key1 => Some(Set1Code::Single(0x02)),
        KeyCode::Key2 => Some(Set1Code::Single(0x03)),
        KeyCode::Key3 => Some(Set1Code::Single(0x04)),
        KeyCode::Key4 => Some(Set1Code::Single(0x05)),
        KeyCode::Key5 => Some(Set1Code::Single(0x06)),
        KeyCode::Key6 => Some(Set1Code::Single(0x07)),
        KeyCode::Key7 => Some(Set1Code::Single(0x08)),
        KeyCode::Key8 => Some(Set1Code::Single(0x09)),
        KeyCode::Key9 => Some(Set1Code::Single(0x0A)),
        KeyCode::Key0 => Some(Set1Code::Single(0x0B)),
        KeyCode::OemMinus => Some(Set1Code::Single(0x0C)),
        KeyCode::OemPlus => Some(Set1Code::Single(0x0D)),
        KeyCode::Backspace => Some(Set1Code::Single(0x0E)),
        KeyCode::Insert => Some(Set1Code::Extended(0x52)),
        KeyCode::Home => Some(Set1Code::Extended(0x47)),
        KeyCode::PageUp => Some(Set1Code::Extended(0x49)),
        KeyCode::NumpadLock => Some(Set1Code::Single(0x45)),
        KeyCode::NumpadDivide => Some(Set1Code::Extended(0x35)),
        KeyCode::NumpadMultiply => Some(Set1Code::Single(0x37)),
        KeyCode::NumpadSubtract => Some(Set1Code::Single(0x4A)),
        KeyCode::Tab => Some(Set1Code::Single(0x0F)),
        KeyCode::Q => Some(Set1Code::Single(0x10)),
        KeyCode::W => Some(Set1Code::Single(0x11)),
        KeyCode::E => Some(Set1Code::Single(0x12)),
        KeyCode::R => Some(Set1Code::Single(0x13)),
        KeyCode::T => Some(Set1Code::Single(0x14)),
        KeyCode::Y => Some(Set1Code::Single(0x15)),
        KeyCode::U => Some(Set1Code::Single(0x16)),
        KeyCode::I => Some(Set1Code::Single(0x17)),
        KeyCode::O => Some(Set1Code::Single(0x18)),
        KeyCode::P => Some(Set1Code::Single(0x19)),
        KeyCode::Oem4 => Some(Set1Code::Single(0x1A)),
        KeyCode::Oem6 => Some(Set1Code::Single(0x1B)),
        KeyCode::Oem5 => Some(Set1Code::Single(0x2B)),
        KeyCode::Delete => Some(Set1Code::Extended(0x53)),
        KeyCode::End => Some(Set1Code::Extended(0x4F)),
        KeyCode::PageDown => Some(Set1Code::Extended(0x51)),
        KeyCode::Numpad7 => Some(Set1Code::Single(0x47)),
        KeyCode::Numpad8 => Some(Set1Code::Single(0x48)),
        KeyCode::Numpad9 => Some(Set1Code::Single(0x49)),
        KeyCode::NumpadAdd => Some(Set1Code::Single(0x4E)),
        KeyCode::CapsLock => Some(Set1Code::Single(0x1D)),
        KeyCode::A => Some(Set1Code::Single(0x1E)),
        KeyCode::S => Some(Set1Code::Single(0x1F)),
        KeyCode::D => Some(Set1Code::Single(0x20)),
        KeyCode::F => Some(Set1Code::Single(0x21)),
        KeyCode::G => Some(Set1Code::Single(0x22)),
        KeyCode::H => Some(Set1Code::Single(0x23)),
        KeyCode::J => Some(Set1Code::Single(0x24)),
        KeyCode::K => Some(Set1Code::Single(0x25)),
        KeyCode::L => Some(Set1Code::Single(0x26)),
        KeyCode::Oem1 => Some(Set1Code::Single(0x27)),
        KeyCode::Oem3 => Some(Set1Code::Single(0x28)),
        KeyCode::Return => Some(Set1Code::Single(0x1C)),
        KeyCode::Numpad4 => Some(Set1Code::Single(0x4B)),
        KeyCode::Numpad5 => Some(Set1Code::Single(0x4C)),
        KeyCode::Numpad6 => Some(Set1Code::Single(0x4D)),
        KeyCode::LShift => Some(Set1Code::Single(0x2A)),
        KeyCode::Z => Some(Set1Code::Single(0x2C)),
        KeyCode::X => Some(Set1Code::Single(0x2D)),
        KeyCode::C => Some(Set1Code::Single(0x2E)),
        KeyCode::V => Some(Set1Code::Single(0x2F)),
        KeyCode::B => Some(Set1Code::Single(0x30)),
        KeyCode::N => Some(Set1Code::Single(0x31)),
        KeyCode::M => Some(Set1Code::Single(0x32)),
        KeyCode::OemComma => Some(Set1Code::Single(0x33)),
        KeyCode::OemPeriod => Some(Set1Code::Single(0x34)),
        KeyCode::Oem2 => Some(Set1Code::Single(0x35)),
        KeyCode::RShift => Some(Set1Code::Single(0x36)),
        KeyCode::ArrowUp => Some(Set1Code::Extended(0x48)),
        KeyCode::Numpad1 => Some(Set1Code::Single(0x4F)),
        KeyCode::Numpad2 => Some(Set1Code::Single(0x50)),
        KeyCode::Numpad3 => Some(Set1Code::Single(0x51)),
        KeyCode::NumpadEnter => Some(Set1Code::Extended(0x1C)),
        KeyCode::LAlt => Some(Set1Code::Single(0x38)),
        KeyCode::Spacebar => Some(Set1Code::Single(0x39)),
        KeyCode::RWin => Some(Set1Code::Extended(0x5C)),
        KeyCode::Apps => Some(Set1Code::Extended(0x5B)),
        KeyCode::RControl => Some(Set1Code::Extended(0x1D)),
        KeyCode::ArrowLeft => Some(Set1Code::Extended(0x4B)),
        KeyCode::ArrowDown => Some(Set1Code::Extended(0x50)),
        KeyCode::ArrowRight => Some(Set1Code::Extended(0x4D)),
        KeyCode::Numpad0 => Some(Set1Code::Single(0x52)),
        KeyCode::NumpadPeriod => Some(Set1Code::Single(0x53)),
        KeyCode::RAlt2 => Some(Set1Code::Extended(0x38)),
        _ => None,
    }
}

/// No two keys have the same code in scancode set 1.
pub proof fn lemma_set1_codes_differ(a: KeyCode, b: KeyCode)
    requires
        spec_keycode_to_set1(a) is Some,
        spec_keycode_to_set1(a) == spec_keycode_to_set1(b),
    ensures
        a == b,
{
}

/// The code of a key in scancode set 1, if it has one.
pub fn keycode_to_set1(code: KeyCode) -> (set1: Option<Set1Code>)
    ensures
        set1 == spec_keycode_to_set1(code),
{
    match code {
        KeyCode::Escape => Some(Set1Code::Single(0x01)),
        KeyCode::F1 => Some(Set1Code::Single(0x3B)),
        KeyCode::F2 => Some(Set1Code::Single(0x3C)),
        KeyCode::F3 => Some(Set1Code::Single(0x3D)),
        KeyCode::F4 => Some(Set1Code::Single(0x3E)),
        KeyCode::F5 => Some(Set1Code::Single(0x3F)),
        KeyCode::F6 => Some(Set1Code::Single(0x40)),
        KeyCode::F7 => Some(Set1Code::Single(0x41)),
        KeyCode::F8 => Some(Set1Code::Single(0x42)),
        KeyCode::F9 => Some(Set1Code::Single(0x43)),
        KeyCode::F10 => Some(Set1Code::Single(0x44)),
        KeyCode::F11 => Some(Set1Code::Single(0x57)),
        KeyCode::F12 => Some(Set1Code::Single(0x58)),
        KeyCode::ScrollLock => Some(Set1Code::Single(0x46)),
        KeyCode::Oem8 => Some(Set1Code::Single(0x29)),
        KeyCode::Key1 => Some(Set1Code::Single(0x02)),
        KeyCode::Key2 => Some(Set1Code::Single(0x03)),
        KeyCode::Key3 => Some(Set1Code::Single(0x04)),
        KeyCode::Key4 => Some(Set1Code::Single(0x05)),
        KeyCode::Key5 => Some(Set1Code::Single(0x06)),
        KeyCode::Key6 => Some(Set1Code::Single(0x07)),
        KeyCode::Key7 => Some(Set1Code::Single(0x08)),
        KeyCode::Key8 => Some(Set1Code::Single(0x09)),
        KeyCode::Key9 => Some(Set1Code::Single(0x0A)),
        KeyCode::Key0 => Some(Set1Code::Single(0x0B)),
        KeyCode::OemMinus => Some(Set1Code::Single(0x0C)),
        KeyCode::OemPlus => Some(Set1Code::Single(0x0D)),
        KeyCode::Backspace => Some(Set1Code::Single(0x0E)),
        KeyCode::Insert => Some(Set1Code::Extended(0x52)),
        KeyCode::Home => Some(Set1Code::Extended(0x47)),
        KeyCode::PageUp => Some(Set1Code::Extended(0x49)),
        KeyCode::NumpadLock => Some(Set1Code::Single(0x45)),
        KeyCode::NumpadDivide => Some(Set1Code::Extended(0x35)),
        KeyCode::NumpadMultiply => Some(Set1Code::Single(0x37)),
        KeyCode::NumpadSubtract => Some(Set1Code::Single(0x4A)),
        KeyCode::Tab => Some(Set1Code::Single(0x0F)),
        KeyCode::Q => Some(Set1Code::Single(0x10)),
        KeyCode::W => Some(Set1Code::Single(0x11)),
        KeyCode::E => Some(Set1Code::Single(0x12)),
        KeyCode::R => Some(Set1Code::Single(0x13)),
        KeyCode::T => Some(Set1Code::Single(0x14)),
        KeyCode::Y => Some(Set1Code::Single(0x15)),
        KeyCode::U => Some(Set1Code::Single(0x16)),
        KeyCode::I => Some(Set1Code::Single(0x17)),
        KeyCode::O => Some(Set1Code::Single(0x18)),
        KeyCode::P => Some(Set1Code::Single(0x19)),
        KeyCode::Oem4 => Some(Set1Code::Single(0x1A)),
        KeyCode::Oem6 => Some(Set1Code::Single(0x1B)),
        KeyCode::Oem5 => Some(Set1Code::Single(0x2B)),
        KeyCode::Delete => Some(Set1Code::Extended(0x53)),
        KeyCode::End => Some(Set1Code::Extended(0x4F)),
        KeyCode::PageDown => Some(Set1Code::Extended(0x51)),
        KeyCode::Numpad7 => Some(Set1Code::Single(0x47)),
        KeyCode::Numpad8 => Some(Set1Code::Single(0x48)),
        KeyCode::Numpad9 => Some(Set1Code::Single(0x49)),
        KeyCode::NumpadAdd => Some(Set1Code::Single(0x4E)),
        KeyCode::CapsLock => Some(Set1Code::Single(0x1D)),
        KeyCode::A => Some(Set1Code::Single(0x1E)),
        KeyCode::S => Some(Set1Code::Single(0x1F)),
        KeyCode::D => Some(Set1Code::Single(0x20)),
        KeyCode::F => Some(Set1Code::Single(0x21)),
        KeyCode::G => Some(Set1Code::Single(0x22)),
        KeyCode::H => Some(Set1Code::Single(0x23)),
        KeyCode::J => Some(Set1Code::Single(0x24)),
        KeyCode::K => Some(Set1Code::Single(0x25)),
        KeyCode::L => Some(Set1Code::Single(0x26)),
        KeyCode::Oem1 => Some(Set1Code::Single(0x27)),
        KeyCode::Oem3 => Some(Set1Code::Single(0x28)),
        KeyCode::Return => Some(Set1Code::Single(0x1C)),
        KeyCode::Numpad4 => Some(Set1Code::Single(0x4B)),
        KeyCode::Numpad5 => Some(Set1Code::Single(0x4C)),
        KeyCode::Numpad6 => Some(Set1Code::Single(0x4D)),
        KeyCode::LShift => Some(Set1Code::Single(0x2A)),
        KeyCode::Z => Some(Set1Code::Single(0x2C)),
        KeyCode::X => Some(Set1Code::Single(0x2D)),
        KeyCode::C => Some(Set1Code::Single(0x2E)),
        KeyCode::V => Some(Set1Code::Single(0x2F)),
        KeyCode::B => Some(Set1Code::Single(0x30)),
        KeyCode::N => Some(Set1Code::Single(0x31)),
        KeyCode::M => Some(Set1Code::Single(0x32)),
        KeyCode::OemComma => Some(Set1Code::Single(0x33)),
        KeyCode::OemPeriod => Some(Set1Code::Single(0x34)),
        KeyCode::Oem2 => Some(Set1Code::Single(0x35)),
        KeyCode::RShift => Some(Set1Code::Single(0x36)),
        KeyCode::ArrowUp => Some(Set1Code::Extended(0x48)),
        KeyCode::Numpad1 => Some(Set1Code::Single(0x4F)),
        KeyCode::Numpad2 => Some(Set1Code::Single(0x50)),
        KeyCode::Numpad3 => Some(Set1Code::Single(0x51)),
        KeyCode::NumpadEnter => Some(Set1Code::Extended(0x1C)),
        KeyCode::LAlt => Some(Set1Code::Single(0x38)),
        KeyCode::Spacebar => Some(Set1Code::Single(0x39)),
        KeyCode::RWin => Some(Set1Code::Extended(0x5C)),
        KeyCode::Apps => Some(Set1Code::Extended(0x5B)),
        KeyCode::RControl => Some(Set1Code::Extended(0x1D)),
        KeyCode::ArrowLeft => Some(Set1Code::Extended(0x4B)),
        KeyCode::ArrowDown => Some(Set1Code::Extended(0x50)),
        KeyCode::ArrowRight => Some(Set1Code::Extended(0x4D)),
        KeyCode::Numpad0 => Some(Set1Code::Single(0x52)),
        KeyCode::NumpadPeriod => Some(Set1Code::Single(0x53)),
        KeyCode::RAlt2 => Some(Set1Code::Extended(0x38)),
        _ => None,
    }
}

} // verus!
