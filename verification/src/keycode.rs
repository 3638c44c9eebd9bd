//! Keycodes: what a key means once resolved through the keymap.
//!
//! A resolved key is either a plain USB HID usage (`Hid`), a code the system
//! itself interprets (`System`), a layer-control action (`Layer`), or an
//! application-defined code (`User`).

use vstd::prelude::*;

pub mod qmk;

verus! {

/// The two transitions a key can make between scans.
#[derive(Clone, Copy, PartialEq, Eq, Structural, Debug)]
pub enum KeyAction {
    Pressed,
    Released,
}

impl KeyAction {
    /// Whether this is the press half of a key transition.
    pub fn is_pressed(&self) -> (r: bool)
        ensures
            r == (*self is Pressed),
    {
        *self == Self::Pressed
    }

    /// Whether this is the release half of a key transition.
    pub fn is_released(&self) -> (r: bool)
        ensures
            r == (*self is Released),
    {
        *self == Self::Released
    }
}

/// The meaning of one key position on one layer.
#[derive(Clone, Copy, PartialEq, Eq, Structural, Debug, Hash)]
pub enum Keycode {
    Hid(HidKeycode),
    System(SystemKeycode),
    Layer(LayerKeycode),
    User(u8),
}

impl From<SystemKeycode> for Keycode {
    fn from(v: SystemKeycode) -> (r: Self) {
        Self::System(v)
    }
}

impl vstd::std_specs::convert::FromSpecImpl<SystemKeycode> for Keycode {
    open spec fn obeys_from_spec() -> bool {
        true
    }

    open spec fn from_spec(v: SystemKeycode) -> Self {
        Keycode::System(v)
    }
}

impl From<HidKeycode> for Keycode {
    fn from(v: HidKeycode) -> (r: Self) {
        Self::Hid(v)
    }
}

impl vstd::std_specs::convert::FromSpecImpl<HidKeycode> for Keycode {
    open spec fn obeys_from_spec() -> bool {
        true
    }

    open spec fn from_spec(v: HidKeycode) -> Self {
        Keycode::Hid(v)
    }
}

impl From<LayerKeycode> for Keycode {
    fn from(v: LayerKeycode) -> (r: Self) {
        Self::Layer(v)
    }
}

impl vstd::std_specs::convert::FromSpecImpl<LayerKeycode> for Keycode {
    open spec fn obeys_from_spec() -> bool {
        true
    }

    open spec fn from_spec(v: LayerKeycode) -> Self {
        Keycode::Layer(v)
    }
}

/// Keycodes the system itself reacts to rather than reporting to the host.
#[derive(Clone, Copy, PartialEq, Eq, Structural, Debug, Hash)]
pub enum SystemKeycode {
    /// No meaning at all; resolution returns this when nothing else applies.
    NoOp,
    /// Falls through to the next enabled layer below during resolution.
    Transparent,
    Reset,
    BacklightDown,
    BacklightUp,
    BacklightStep,
}

/// The layer index of a layer keycode occupies the low five bits of its code.
pub const LAYER_MASK: u8 = 0x1f;

/// The layer action of a layer keycode occupies the high three bits of its code.
pub const ACTION_MASK: u8 = 0xe0;

const MOMENTARY_CODE: u8 = 0x20;

const ONESHOT_CODE: u8 = 0x40;

const TOGGLE_CODE: u8 = 0x60;

const TO_CODE: u8 = 0x80;

/// A layer action packed with the layer it acts on: the action in the high
/// three bits, the layer index (0 to 31) in the low five.
#[derive(Clone, Copy, PartialEq, Eq, Structural, Debug, Hash)]
pub struct LayerKeycode(u8);

impl LayerKeycode {
    /// Every constructed code carries one of the four actions in its high bits.
    #[verifier::type_invariant]
    spec fn inv(self) -> bool {
        self.0 & ACTION_MASK == MOMENTARY_CODE || self.0 & ACTION_MASK == ONESHOT_CODE
            || self.0 & ACTION_MASK == TOGGLE_CODE || self.0 & ACTION_MASK == TO_CODE
    }

    /// The action packed into this code.
    pub closed spec fn spec_action(self) -> LayerAction {
        if self.0 & ACTION_MASK == MOMENTARY_CODE {
            LayerAction::Momentary
        } else if self.0 & ACTION_MASK == ONESHOT_CODE {
            LayerAction::Oneshot
        } else if self.0 & ACTION_MASK == TOGGLE_CODE {
            LayerAction::Toggle
        } else {
            LayerAction::To
        }
    }

    /// The layer index packed into this code; always below 32.
    pub closed spec fn spec_layer(self) -> u8 {
        self.0 & LAYER_MASK
    }

    /// Packs an action and a layer index into one code.
    ///
    /// The layer index must fit in five bits; a larger index is a mistake in
    /// the keymap itself, not a runtime condition.
    pub fn new(action: LayerAction, layer: u8) -> (r: Self)
        requires
            layer < 32,
        ensures
            r.spec_action() == action,
            r.spec_layer() == layer,
    {
        let code = action.code();
        proof {
            lemma_layer_pack(code, layer);
        }
        Self(code | layer)
    }

    /// The action packed into this code.
    pub fn action(&self) -> (r: LayerAction)
        ensures
            r == self.spec_action(),
    {
        proof {
            use_type_invariant(self);
        }
        LayerAction::from_code(self.0)
    }

    /// The layer index packed into this code.
    pub fn layer(&self) -> (r: u8)
        ensures
            r == self.spec_layer(),
            r < 32,
    {
        proof {
            lemma_layer_bound(self.0);
        }
        self.0 & LAYER_MASK
    }
}

/// Packing an action code with a small layer index keeps both readable.
proof fn lemma_layer_pack(code: u8, layer: u8)
    by (bit_vector)
    requires
        layer < 32,
        code == 0x20 || code == 0x40 || code == 0x60 || code == 0x80,
    ensures
        (code | layer) & 0xe0 == code,
        (code | layer) & 0x1f == layer,
{
}

/// The low five bits of any byte stay below 32.
proof fn lemma_layer_bound(code: u8)
    by (bit_vector)
    ensures
        code & 0x1f < 32,
{
}

/// Law: the layer index packed into any layer keycode fits in five bits.
pub proof fn layer_index_bounded(lk: LayerKeycode)
    ensures
        lk.spec_layer() < 32,
{
    lemma_layer_bound(lk.0);
}

/// How long a layer keycode keeps its layer enabled, relative to the
/// triggering key's press and release.
#[derive(Clone, Copy, PartialEq, Eq, Structural, Debug, Hash)]
pub enum LayerAction {
    Momentary,
    Oneshot,
    Toggle,
    To,
}

impl LayerAction {
    /// The bit pattern standing for this action in a packed layer keycode.
    pub closed spec fn spec_code(self) -> u8 {
        match self {
            Self::Momentary => MOMENTARY_CODE,
            Self::Oneshot => ONESHOT_CODE,
            Self::Toggle => TOGGLE_CODE,
            Self::To => TO_CODE,
        }
    }

    fn code(&self) -> (r: u8)
        ensures
            r == self.spec_code(),
            r == 0x20 || r == 0x40 || r == 0x60 || r == 0x80,
    {
        match self {
            Self::Momentary => MOMENTARY_CODE,
            Self::Oneshot => ONESHOT_CODE,
            Self::Toggle => TOGGLE_CODE,
            Self::To => TO_CODE,
        }
    }

    fn from_code(code: u8) -> (r: Self)
        requires
            code & ACTION_MASK == MOMENTARY_CODE || code & ACTION_MASK == ONESHOT_CODE || code
                & ACTION_MASK == TOGGLE_CODE || code & ACTION_MASK == TO_CODE,
        ensures
            r.spec_code() == code & ACTION_MASK,
    {
        let action = code & ACTION_MASK;
        if action == MOMENTARY_CODE {
            Self::Momentary
        } else if action == ONESHOT_CODE {
            Self::Oneshot
        } else if action == TOGGLE_CODE {
            Self::Toggle
        } else {
            Self::To
        }
    }
}

/// Keycodes from the USB HID Usage Tables, Keyboard/Keypad Page (0x07).
#[derive(Clone, Copy, PartialEq, Eq, Structural, Debug, Hash)]
pub enum HidKeycode {
    ErrorRollOver,
    PostFail,
    ErrorUndefined,
    A,
    B,
    C,
    D,
    E,
    F,
    G,
    H,
    I,
    J,
    K,
    L,
    M,
    N,
    O,
    P,
    Q,
    R,
    S,
    T,
    U,
    V,
    W,
    X,
    Y,
    Z,
    Num1,
    Num2,
    Num3,
    Num4,
    Num5,
    Num6,
    Num7,
    Num8,
    Num9,
    Num0,
    Enter,
    Escape,
    Backspace,
    Tab,
    Space,
    Minus,
    Equal,
    LeftBracket,
    RightBracket,
    Backslash,
    NonUsHash,
    Semicolon,
    Quote,
    Grave,
    Comma,
    Dot,
    Slash,
    CapsLock,
    F1,
    F2,
    F3,
    F4,
    F5,
    F6,
    F7,
    F8,
    F9,
    F10,
    F11,
    F12,
    PrintScreen,
    ScrollLock,
    Pause,
    Insert,
    Home,
    PageUp,
    Delete,
    End,
    PageDown,
    Right,
    Left,
    Down,
    Up,
    NumLock,
    KeypadSlash,
    KeypadAsterisk,
    KeypadMinus,
    KeypadPlus,
    KeypadEnter,
    Keypad1,
    Keypad2,
    Keypad3,
    Keypad4,
    Keypad5,
    Keypad6,
    Keypad7,
    Keypad8,
    Keypad9,
    Keypad0,
    KeypadDot,
    NonUsBackslash,
    Application,
    Power,
    KeypadEqual,
    F13,
    F14,
    F15,
    F16,
    F17,
    F18,
    F19,
    F20,
    F21,
    F22,
    F23,
    F24,
    Execute,
    Help,
    Menu,
    Select,
    Stop,
    Again,
    Undo,
    Cut,
    Copy,
    Paste,
    Find,
    Mute,
    VolumeUp,
    VolumeDown,
    LockingCaps,
    LockingNum,
    LockingScroll,
    KeypadComma,
    KeypadEqualAS400,
    Int1,
    Int2,
    Int3,
    Int4,
    Int5,
    Int6,
    Int7,
    Int8,
    Int9,
    Lang1,
    Lang2,
    Lang3,
    Lang4,
    Lang5,
    Lang6,
    Lang7,
    Lang8,
    Lang9,
    AltErase,
    SysReq,
    Cancel,
    Clear,
    Prior,
    Return,
    Separator,
    Out,
    Oper,
    ClearAgain,
    CrSel,
    ExSel,
    Keypad00,
    Keypad000,
    ThousandsSep,
    DecimalSep,
    CurrencyUnit,
    CurrencySubUnit,
    KeypadLeftParen,
    KeypadRightParen,
    KeypadLeftCBracket,
    KeypadRightCBracket,
    KeypadTab,
    KeypadBackspace,
    KeypadA,
    KeypadB,
    KeypadC,
    KeypadD,
    KeypadE,
    KeypadF,
    KeypadXor,
    KeypadHat,
    KeypadPercent,
    KeypadLess,
    KeypadGreater,
    KeypadAnd,
    KeypadLazyAnd,
    KeypadOr,
    KeypadLazyOr,
    KeypadColon,
    KeypadHash,
    KeypadSpace,
    KeypadAt,
    KeypadExclamation,
    KeypadMemStore,
    KeypadMemRecall,
    KeypadMemClear,
    KeypadMemAdd,
    KeypadMemSub,
    KeypadMemMul,
    KeypadMemDiv,
    KeypadPlusMinus,
    KeypadClear,
    KeypadClearEntry,
    KeypadBinary,
    KeypadOctal,
    KeypadDecimal,
    KeypadHexadecimal,
    LeftControl,
    LeftShift,
    LeftAlt,
    LeftGui,
    RightControl,
    RightShift,
    RightAlt,
    RightGui,
}

impl HidKeycode {
    /// The usage code of this key on the Keyboard/Keypad page of the USB HID
    /// Usage Tables.
    pub open spec fn spec_code(self) -> u8 {
        match self {
            Self::ErrorRollOver => 0x01,
            Self::PostFail => 0x02,
            Self::ErrorUndefined => 0x03,
            Self::A => 0x04,
            Self::B => 0x05,
            Self::C => 0x06,
            Self::D => 0x07,
            Self::E => 0x08,
            Self::F => 0x09,
            Self::G => 0x0a,
            Self::H => 0x0b,
            Self::I => 0x0c,
            Self::J => 0x0d,
            Self::K => 0x0e,
            Self::L => 0x0f,
            Self::M => 0x10,
            Self::N => 0x11,
            Self::O => 0x12,
            Self::P => 0x13,
            Self::Q => 0x14,
            Self::R => 0x15,
            Self::S => 0x16,
            Self::T => 0x17,
            Self::U => 0x18,
            Self::V => 0x19,
            Self::W => 0x1a,
            Self::X => 0x1b,
            Self::Y => 0x1c,
            Self::Z => 0x1d,
            Self::Num1 => 0x1e,
            Self::Num2 => 0x1f,
            Self::Num3 => 0x20,
            Self::Num4 => 0x21,
            Self::Num5 => 0x22,
            Self::Num6 => 0x23,
            Self::Num7 => 0x24,
            Self::Num8 => 0x25,
            Self::Num9 => 0x26,
            Self::Num0 => 0x27,
            Self::Enter => 0x28,
            Self::Escape => 0x29,
            Self::Backspace => 0x2a,
            Self::Tab => 0x2b,
            Self::Space => 0x2c,
            Self::Minus => 0x2d,
            Self::Equal => 0x2e,
            Self::LeftBracket => 0x2f,
            Self::RightBracket => 0x30,
            Self::Backslash => 0x31,
            Self::NonUsHash => 0x32,
            Self::Semicolon => 0x33,
            Self::Quote => 0x34,
            Self::Grave => 0x35,
            Self::Comma => 0x36,
            Self::Dot => 0x37,
            Self::Slash => 0x38,
            Self::CapsLock => 0x39,
            Self::F1 => 0x3a,
            Self::F2 => 0x3b,
            Self::F3 => 0x3c,
            Self::F4 => 0x3d,
            Self::F5 => 0x3e,
            Self::F6 => 0x3f,
            Self::F7 => 0x40,
            Self::F8 => 0x41,
            Self::F9 => 0x42,
            Self::F10 => 0x43,
            Self::F11 => 0x44,
            Self::F12 => 0x45,
            Self::PrintScreen => 0x46,
            Self::ScrollLock => 0x47,
            Self::Pause => 0x48,
            Self::Insert => 0x49,
            Self::Home => 0x4a,
            Self::PageUp => 0x4b,
            Self::Delete => 0x4c,
            Self::End => 0x4d,
            Self::PageDown => 0x4e,
            Self::Right => 0x4f,
            Self::Left => 0x50,
            Self::Down => 0x51,
            Self::Up => 0x52,
            Self::NumLock => 0x53,
            Self::KeypadSlash => 0x54,
            Self::KeypadAsterisk => 0x55,
            Self::KeypadMinus => 0x56,
            Self::KeypadPlus => 0x57,
            Self::KeypadEnter => 0x58,
            Self::Keypad1 => 0x59,
            Self::Keypad2 => 0x5a,
            Self::Keypad3 => 0x5b,
            Self::Keypad4 => 0x5c,
            Self::Keypad5 => 0x5d,
            Self::Keypad6 => 0x5e,
            Self::Keypad7 => 0x5f,
            Self::Keypad8 => 0x60,
            Self::Keypad9 => 0x61,
            Self::Keypad0 => 0x62,
            Self::KeypadDot => 0x63,
            Self::NonUsBackslash => 0x64,
            Self::Application => 0x65,
            Self::Power => 0x66,
            Self::KeypadEqual => 0x67,
            Self::F13 => 0x68,
            Self::F14 => 0x69,
            Self::F15 => 0x6a,
            Self::F16 => 0x6b,
            Self::F17 => 0x6c,
            Self::F18 => 0x6d,
            Self::F19 => 0x6e,
            Self::F20 => 0x6f,
            Self::F21 => 0x70,
            Self::F22 => 0x71,
            Self::F23 => 0x72,
            Self::F24 => 0x73,
            Self::Execute => 0x74,
            Self::Help => 0x75,
            Self::Menu => 0x76,
            Self::Select => 0x77,
            Self::Stop => 0x78,
            Self::Again => 0x79,
            Self::Undo => 0x7a,
            Self::Cut => 0x7b,
            Self::Copy => 0x7c,
            Self::Paste => 0x7d,
            Self::Find => 0x7e,
            Self::Mute => 0x7f,
            Self::VolumeUp => 0x80,
            Self::VolumeDown => 0x81,
            Self::LockingCaps => 0x82,
            Self::LockingNum => 0x83,
            Self::LockingScroll => 0x84,
            Self::KeypadComma => 0x85,
            Self::KeypadEqualAS400 => 0x86,
            Self::Int1 => 0x87,
            Self::Int2 => 0x88,
            Self::Int3 => 0x89,
            Self::Int4 => 0x8a,
            Self::Int5 => 0x8b,
            Self::Int6 => 0x8c,
            Self::Int7 => 0x8d,
            Self::Int8 => 0x8e,
            Self::Int9 => 0x8f,
            Self::Lang1 => 0x90,
            Self::Lang2 => 0x91,
            Self::Lang3 => 0x92,
            Self::Lang4 => 0x93,
            Self::Lang5 => 0x94,
            Self::Lang6 => 0x95,
            Self::Lang7 => 0x96,
            Self::Lang8 => 0x97,
            Self::Lang9 => 0x98,
            Self::AltErase => 0x99,
            Self::SysReq => 0x9a,
            Self::Cancel => 0x9b,
            Self::Clear => 0x9c,
            Self::Prior => 0x9d,
            Self::Return => 0x9e,
            Self::Separator => 0x9f,
            Self::Out => 0xa0,
            Self::Oper => 0xa1,
            Self::ClearAgain => 0xa2,
            Self::CrSel => 0xa3,
            Self::ExSel => 0xa4,
            Self::Keypad00 => 0xb0,
            Self::Keypad000 => 0xb1,
            Self::ThousandsSep => 0xb2,
            Self::DecimalSep => 0xb3,
            Self::CurrencyUnit => 0xb4,
            Self::CurrencySubUnit => 0xb5,
            Self::KeypadLeftParen => 0xb6,
            Self::KeypadRightParen => 0xb7,
            Self::KeypadLeftCBracket => 0xb8,
            Self::KeypadRightCBracket => 0xb9,
            Self::KeypadTab => 0xba,
            Self::KeypadBackspace => 0xbb,
            Self::KeypadA => 0xbc,
            Self::KeypadB => 0xbd,
            Self::KeypadC => 0xbe,
            Self::KeypadD => 0xbf,
            Self::KeypadE => 0xc0,
            Self::KeypadF => 0xc1,
            Self::KeypadXor => 0xc2,
            Self::KeypadHat => 0xc3,
            Self::KeypadPercent => 0xc4,
            Self::KeypadLess => 0xc5,
            Self::KeypadGreater => 0xc6,
            Self::KeypadAnd => 0xc7,
            Self::KeypadLazyAnd => 0xc8,
            Self::KeypadOr => 0xc9,
            Self::KeypadLazyOr => 0xca,
            Self::KeypadColon => 0xcb,
            Self::KeypadHash => 0xcc,
            Self::KeypadSpace => 0xcd,
            Self::KeypadAt => 0xce,
            Self::KeypadExclamation => 0xcf,
            Self::KeypadMemStore => 0xd0,
            Self::KeypadMemRecall => 0xd1,
            Self::KeypadMemClear => 0xd2,
            Self::KeypadMemAdd => 0xd3,
            Self::KeypadMemSub => 0xd4,
            Self::KeypadMemMul => 0xd5,
            Self::KeypadMemDiv => 0xd6,
            Self::KeypadPlusMinus => 0xd7,
            Self::KeypadClear => 0xd8,
            Self::KeypadClearEntry => 0xd9,
            Self::KeypadBinary => 0xda,
            Self::KeypadOctal => 0xdb,
            Self::KeypadDecimal => 0xdc,
            Self::KeypadHexadecimal => 0xdd,
            Self::LeftControl => 0xe0,
            Self::LeftShift => 0xe1,
            Self::LeftAlt => 0xe2,
            Self::LeftGui => 0xe3,
            Self::RightControl => 0xe4,
            Self::RightShift => 0xe5,
            Self::RightAlt => 0xe6,
            Self::RightGui => 0xe7,
        }
    }

    /// The usage code of this key on the Keyboard/Keypad page of the USB HID
    /// Usage Tables.
    pub fn code(self) -> (r: u8)
        ensures
            r == self.spec_code(),
    {
        match self {
            Self::ErrorRollOver => 0x01,
            Self::PostFail => 0x02,
            Self::ErrorUndefined => 0x03,
            Self::A => 0x04,
            Self::B => 0x05,
            Self::C => 0x06,
            Self::D => 0x07,
            Self::E => 0x08,
            Self::F => 0x09,
            Self::G => 0x0a,
            Self::H => 0x0b,
            Self::I => 0x0c,
            Self::J => 0x0d,
            Self::K => 0x0e,
            Self::L => 0x0f,
            Self::M => 0x10,
            Self::N => 0x11,
            Self::O => 0x12,
            Self::P => 0x13,
            Self::Q => 0x14,
            Self::R => 0x15,
            Self::S => 0x16,
            Self::T => 0x17,
            Self::U => 0x18,
            Self::V => 0x19,
            Self::W => 0x1a,
            Self::X => 0x1b,
            Self::Y => 0x1c,
            Self::Z => 0x1d,
            Self::Num1 => 0x1e,
            Self::Num2 => 0x1f,
            Self::Num3 => 0x20,
            Self::Num4 => 0x21,
            Self::Num5 => 0x22,
            Self::Num6 => 0x23,
            Self::Num7 => 0x24,
            Self::Num8 => 0x25,
            Self::Num9 => 0x26,
            Self::Num0 => 0x27,
            Self::Enter => 0x28,
            Self::Escape => 0x29,
            Self::Backspace => 0x2a,
            Self::Tab => 0x2b,
            Self::Space => 0x2c,
            Self::Minus => 0x2d,
            Self::Equal => 0x2e,
            Self::LeftBracket => 0x2f,
            Self::RightBracket => 0x30,
            Self::Backslash => 0x31,
            Self::NonUsHash => 0x32,
            Self::Semicolon => 0x33,
            Self::Quote => 0x34,
            Self::Grave => 0x35,
            Self::Comma => 0x36,
            Self::Dot => 0x37,
            Self::Slash => 0x38,
            Self::CapsLock => 0x39,
            Self::F1 => 0x3a,
            Self::F2 => 0x3b,
            Self::F3 => 0x3c,
            Self::F4 => 0x3d,
            Self::F5 => 0x3e,
            Self::F6 => 0x3f,
            Self::F7 => 0x40,
            Self::F8 => 0x41,
            Self::F9 => 0x42,
            Self::F10 => 0x43,
            Self::F11 => 0x44,
            Self::F12 => 0x45,
            Self::PrintScreen => 0x46,
            Self::ScrollLock => 0x47,
            Self::Pause => 0x48,
            Self::Insert => 0x49,
            Self::Home => 0x4a,
            Self::PageUp => 0x4b,
            Self::Delete => 0x4c,
            Self::End => 0x4d,
            Self::PageDown => 0x4e,
            Self::Right => 0x4f,
            Self::Left => 0x50,
            Self::Down => 0x51,
            Self::Up => 0x52,
            Self::NumLock => 0x53,
            Self::KeypadSlash => 0x54,
            Self::KeypadAsterisk => 0x55,
            Self::KeypadMinus => 0x56,
            Self::KeypadPlus => 0x57,
            Self::KeypadEnter => 0x58,
            Self::Keypad1 => 0x59,
            Self::Keypad2 => 0x5a,
            Self::Keypad3 => 0x5b,
            Self::Keypad4 => 0x5c,
            Self::Keypad5 => 0x5d,
            Self::Keypad6 => 0x5e,
            Self::Keypad7 => 0x5f,
            Self::Keypad8 => 0x60,
            Self::Keypad9 => 0x61,
            Self::Keypad0 => 0x62,
            Self::KeypadDot => 0x63,
            Self::NonUsBackslash => 0x64,
            Self::Application => 0x65,
            Self::Power => 0x66,
            Self::KeypadEqual => 0x67,
            Self::F13 => 0x68,
            Self::F14 => 0x69,
            Self::F15 => 0x6a,
            Self::F16 => 0x6b,
            Self::F17 => 0x6c,
            Self::F18 => 0x6d,
            Self::F19 => 0x6e,
            Self::F20 => 0x6f,
            Self::F21 => 0x70,
            Self::F22 => 0x71,
            Self::F23 => 0x72,
            Self::F24 => 0x73,
            Self::Execute => 0x74,
            Self::Help => 0x75,
            Self::Menu => 0x76,
            Self::Select => 0x77,
            Self::Stop => 0x78,
            Self::Again => 0x79,
            Self::Undo => 0x7a,
            Self::Cut => 0x7b,
            Self::Copy => 0x7c,
            Self::Paste => 0x7d,
            Self::Find => 0x7e,
            Self::Mute => 0x7f,
            Self::VolumeUp => 0x80,
            Self::VolumeDown => 0x81,
            Self::LockingCaps => 0x82,
            Self::LockingNum => 0x83,
            Self::LockingScroll => 0x84,
            Self::KeypadComma => 0x85,
            Self::KeypadEqualAS400 => 0x86,
            Self::Int1 => 0x87,
            Self::Int2 => 0x88,
            Self::Int3 => 0x89,
            Self::Int4 => 0x8a,
            Self::Int5 => 0x8b,
            Self::Int6 => 0x8c,
            Self::Int7 => 0x8d,
            Self::Int8 => 0x8e,
            Self::Int9 => 0x8f,
            Self::Lang1 => 0x90,
            Self::Lang2 => 0x91,
            Self::Lang3 => 0x92,
            Self::Lang4 => 0x93,
            Self::Lang5 => 0x94,
            Self::Lang6 => 0x95,
            Self::Lang7 => 0x96,
            Self::Lang8 => 0x97,
            Self::Lang9 => 0x98,
            Self::AltErase => 0x99,
            Self::SysReq => 0x9a,
            Self::Cancel => 0x9b,
            Self::Clear => 0x9c,
            Self::Prior => 0x9d,
            Self::Return => 0x9e,
            Self::Separator => 0x9f,
            Self::Out => 0xa0,
            Self::Oper => 0xa1,
            Self::ClearAgain => 0xa2,
            Self::CrSel => 0xa3,
            Self::ExSel => 0xa4,
            Self::Keypad00 => 0xb0,
            Self::Keypad000 => 0xb1,
            Self::ThousandsSep => 0xb2,
            Self::DecimalSep => 0xb3,
            Self::CurrencyUnit => 0xb4,
            Self::CurrencySubUnit => 0xb5,
            Self::KeypadLeftParen => 0xb6,
            Self::KeypadRightParen => 0xb7,
            Self::KeypadLeftCBracket => 0xb8,
            Self::KeypadRightCBracket => 0xb9,
            Self::KeypadTab => 0xba,
            Self::KeypadBackspace => 0xbb,
            Self::KeypadA => 0xbc,
            Self::KeypadB => 0xbd,
            Self::KeypadC => 0xbe,
            Self::KeypadD => 0xbf,
            Self::KeypadE => 0xc0,
            Self::KeypadF => 0xc1,
            Self::KeypadXor => 0xc2,
            Self::KeypadHat => 0xc3,
            Self::KeypadPercent => 0xc4,
            Self::KeypadLess => 0xc5,
            Self::KeypadGreater => 0xc6,
            Self::KeypadAnd => 0xc7,
            Self::KeypadLazyAnd => 0xc8,
            Self::KeypadOr => 0xc9,
            Self::KeypadLazyOr => 0xca,
            Self::KeypadColon => 0xcb,
            Self::KeypadHash => 0xcc,
            Self::KeypadSpace => 0xcd,
            Self::KeypadAt => 0xce,
            Self::KeypadExclamation => 0xcf,
            Self::KeypadMemStore => 0xd0,
            Self::KeypadMemRecall => 0xd1,
            Self::KeypadMemClear => 0xd2,
            Self::KeypadMemAdd => 0xd3,
            Self::KeypadMemSub => 0xd4,
            Self::KeypadMemMul => 0xd5,
            Self::KeypadMemDiv => 0xd6,
            Self::KeypadPlusMinus => 0xd7,
            Self::KeypadClear => 0xd8,
            Self::KeypadClearEntry => 0xd9,
            Self::KeypadBinary => 0xda,
            Self::KeypadOctal => 0xdb,
            Self::KeypadDecimal => 0xdc,
            Self::KeypadHexadecimal => 0xdd,
            Self::LeftControl => 0xe0,
            Self::LeftShift => 0xe1,
            Self::LeftAlt => 0xe2,
            Self::LeftGui => 0xe3,
            Self::RightControl => 0xe4,
            Self::RightShift => 0xe5,
            Self::RightAlt => 0xe6,
            Self::RightGui => 0xe7,
        }
    }
}

} // verus!
