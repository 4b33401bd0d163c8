use vstd::prelude::*;
use xkeysym::Keysym;

verus! {

/// A mouse button.
#[derive(Clone, Copy, Debug, PartialEq, Eq, Structural)]
pub enum Button {
    Left,
    Right,
    Middle,
    Back,
    Forward,
    Other(u16),
}

/// The linux input codes of the buttons that have a name.
pub const BTN_LEFT: u32 = 0x110;
pub const BTN_RIGHT: u32 = 0x111;
pub const BTN_MIDDLE: u32 = 0x112;
pub const BTN_FORWARD: u32 = 0x115;
pub const BTN_BACK: u32 = 0x116;

pub open spec fn button_of(code: u32) -> Button {
    if code == BTN_LEFT {
        Button::Left
    } else if code == BTN_RIGHT {
        Button::Right
    } else if code == BTN_MIDDLE {
        Button::Middle
    } else if code == BTN_BACK {
        Button::Back
    } else if code == BTN_FORWARD {
        Button::Forward
    } else {
        Button::Other(code as u16)
    }
}

/// Maps a linux input button code to a mouse button; an unnamed code keeps
/// its low 16 bits.
pub fn button(code: u32) -> (r: Button)
    ensures
        r == button_of(code),
{
    if code == BTN_LEFT {
        Button::Left
    } else if code == BTN_RIGHT {
        Button::Right
    } else if code == BTN_MIDDLE {
        Button::Middle
    } else if code == BTN_BACK {
        Button::Back
    } else if code == BTN_FORWARD {
        Button::Forward
    } else {
        Button::Other(code as u16)
    }
}

/// The state of the modifier keys as the seat reports it.
#[derive(Clone, Copy, Debug, PartialEq, Eq, Structural)]
pub struct SeatModifiers {
    pub ctrl: bool,
    pub alt: bool,
    pub shift: bool,
    pub caps_lock: bool,
    pub logo: bool,
    pub num_lock: bool,
}

impl SeatModifiers {
    /// No modifier held.
    pub fn none() -> (r: SeatModifiers)
        ensures
            !r.ctrl && !r.alt && !r.shift && !r.caps_lock && !r.logo && !r.num_lock,
    {
        SeatModifiers { ctrl: false, alt: false, shift: false, caps_lock: false, logo: false, num_lock: false }
    }
}

/// The modifier keys that the application sees, as a set of bits.
#[derive(Clone, Copy, Debug, PartialEq, Eq, Structural)]
pub struct Modifiers {
    pub bits: u32,
}

pub const SHIFT: u32 = 0b100;
pub const CTRL: u32 = 0b100000;
pub const ALT: u32 = 0b100000000;
pub const LOGO: u32 = 0b100000000000;

impl Modifiers {
    pub open spec fn shift(self) -> bool {
        self.bits & SHIFT != 0
    }

    pub open spec fn control(self) -> bool {
        self.bits & CTRL != 0
    }

    pub open spec fn alt(self) -> bool {
        self.bits & ALT != 0
    }

    pub open spec fn logo(self) -> bool {
        self.bits & LOGO != 0
    }

    /// No modifier set.
    pub fn empty() -> (r: Modifiers)
        ensures
            r.bits == 0,
    {
        Modifiers { bits: 0 }
    }
}

/// The bits of `m`: one for each of shift, control, alt and logo that is held.
pub open spec fn modifiers_bits(m: SeatModifiers) -> u32 {
    (if m.shift { SHIFT } else { 0 }) | (if m.ctrl { CTRL } else { 0 }) | (if m.alt { ALT } else { 0 })
        | (if m.logo { LOGO } else { 0 })
}

/// Maps the seat's modifier state to the application's; caps lock and num
/// lock have no bit.
pub fn modifiers(m: SeatModifiers) -> (r: Modifiers)
    ensures
        r.bits == modifiers_bits(m),
        r.shift() == m.shift,
        r.control() == m.ctrl,
        r.alt() == m.alt,
        r.logo() == m.logo,
{
    let s: u32 = if m.shift { SHIFT } else { 0 };
    let c: u32 = if m.ctrl { CTRL } else { 0 };
    let a: u32 = if m.alt { ALT } else { 0 };
    let l: u32 = if m.logo { LOGO } else { 0 };
    let bits: u32 = s | c | a | l;
    assert((bits & SHIFT != 0) == (s != 0) && (bits & CTRL != 0) == (c != 0) && (bits & ALT != 0) == (a != 0)
        && (bits & LOGO != 0) == (l != 0)) by (bit_vector)
        requires
            s == 0 || s == 0b100u32,
            c == 0 || c == 0b100000u32,
            a == 0 || a == 0b100000000u32,
            l == 0 || l == 0b100000000000u32,
            bits == s | c | a | l,
    ;
    Modifiers { bits }
}


/// The keysym values of the keys that the conversions below name.
pub const ALT_L: u32 = 0xffe9;
pub const ALT_R: u32 = 0xffea;
pub const CAPS_LOCK: u32 = 0xffe5;
pub const CONTROL_L: u32 = 0xffe3;
pub const CONTROL_R: u32 = 0xffe4;
pub const XF86_FN: u32 = 0x100811d0;
pub const NUM_LOCK: u32 = 0xff7f;
pub const SCROLL_LOCK: u32 = 0xff14;
pub const SHIFT_L: u32 = 0xffe1;
pub const SHIFT_R: u32 = 0xffe2;
pub const META_L: u32 = 0xffe7;
pub const META_R: u32 = 0xffe8;
pub const HYPER_L: u32 = 0xffed;
pub const HYPER_R: u32 = 0xffee;
pub const SUPER_L: u32 = 0xffeb;
pub const SUPER_R: u32 = 0xffec;
pub const KP_ENTER: u32 = 0xff8d;
pub const ISO_ENTER: u32 = 0xfe34;
pub const TAB: u32 = 0xff09;
pub const KP_SPACE: u32 = 0xff80;
pub const KP_EQUAL: u32 = 0xffbd;
pub const DOWN: u32 = 0xff54;
pub const LEFT: u32 = 0xff51;
pub const RIGHT: u32 = 0xff53;
pub const UP: u32 = 0xff52;
pub const END: u32 = 0xff57;
pub const HOME: u32 = 0xff50;
pub const PAGE_DOWN: u32 = 0xff56;
pub const PAGE_UP: u32 = 0xff55;
pub const BACKSPACE: u32 = 0xff08;
pub const CLEAR: u32 = 0xff0b;
pub const DELETE: u32 = 0xffff;
pub const INSERT: u32 = 0xff63;
pub const ESCAPE: u32 = 0xff1b;

/// A key that has a name.
#[derive(Clone, Copy, Debug, PartialEq, Eq, Structural)]
pub enum Named {
    Alt,
    CapsLock,
    Control,
    Fn,
    NumLock,
    ScrollLock,
    Shift,
    Meta,
    Hyper,
    Super,
    Enter,
    Tab,
    Space,
    ArrowDown,
    ArrowLeft,
    ArrowRight,
    ArrowUp,
    End,
    Home,
    PageDown,
    PageUp,
    Backspace,
    Clear,
    Delete,
    Insert,
    Escape,
}

/// The physical code of a key that has a name.
#[derive(Clone, Copy, Debug, PartialEq, Eq, Structural)]
pub enum Code {
    CapsLock,
    Fn,
    NumLock,
    ScrollLock,
    Meta,
    Hyper,
    Enter,
    Tab,
    Space,
    ArrowDown,
    ArrowLeft,
    ArrowRight,
    ArrowUp,
    End,
    Home,
    PageDown,
    PageUp,
    Backspace,
    Delete,
    Insert,
    Escape,
}

/// A logical key.
#[derive(Clone, Copy, Debug, PartialEq, Eq, Structural)]
pub enum Key {
    Named(Named),
    Character(char),
    Unidentified,
}

/// A physical key: a known code, or the raw code that the seat reported.
#[derive(Clone, Copy, Debug, PartialEq, Eq, Structural)]
pub enum Physical {
    Code(Code),
    Unidentified(u32),
}

/// Where on the keyboard a key is.
#[derive(Clone, Copy, Debug, PartialEq, Eq, Structural)]
pub enum Location {
    Standard,
    Left,
    Right,
    Numpad,
}

/// The character that xkeysym assigns to a keysym, if any.
pub uninterp spec fn keysym_char(k: u32) -> Option<char>;

/// Relies on xkeysym's `Keysym::key_char`: the character of a keysym, a
/// function of the keysym alone.
#[verifier::external_body]
fn key_char(k: u32) -> (r: Option<char>)
    ensures
        r == keysym_char(k),
{
    Keysym::new(k).key_char()
}

/// Relies on xkeysym's `Keysym::is_keypad_key`: the keypad range of keysyms.
#[verifier::external_body]
fn is_keypad_key(k: u32) -> (r: bool)
    ensures
        r == (KP_SPACE <= k <= KP_EQUAL),
{
    Keysym::new(k).is_keypad_key()
}

/// Relies on xkeysym's `Keysym::is_private_keypad_key`: the private keypad
/// range of keysyms.
#[verifier::external_body]
fn is_private_keypad_key(k: u32) -> (r: bool)
    ensures
        r == (0x11000000 <= k <= 0x1100ffff),
{
    Keysym::new(k).is_private_keypad_key()
}

/// The named key of keysym `k`, if it has one.
pub open spec fn named_key_of(k: u32) -> Option<Named> {
    if k == ALT_L || k == ALT_R {
        Some(Named::Alt)
    } else if k == CAPS_LOCK {
        Some(Named::CapsLock)
    } else if k == CONTROL_L || k == CONTROL_R {
        Some(Named::Control)
    } else if k == XF86_FN {
        Some(Named::Fn)
    } else if k == NUM_LOCK {
        Some(Named::NumLock)
    } else if k == SCROLL_LOCK {
        Some(Named::ScrollLock)
    } else if k == SHIFT_L || k == SHIFT_R {
        Some(Named::Shift)
    } else if k == META_L || k == META_R {
        Some(Named::Meta)
    } else if k == HYPER_L || k == HYPER_R {
        Some(Named::Hyper)
    } else if k == SUPER_L || k == SUPER_R {
        Some(Named::Super)
    } else if k == KP_ENTER || k == ISO_ENTER {
        Some(Named::Enter)
    } else if k == TAB {
        Some(Named::Tab)
    } else if k == KP_SPACE {
        Some(Named::Space)
    } else if k == DOWN {
        Some(Named::ArrowDown)
    } else if k == LEFT {
        Some(Named::ArrowLeft)
    } else if k == RIGHT {
        Some(Named::ArrowRight)
    } else if k == UP {
        Some(Named::ArrowUp)
    } else if k == END {
        Some(Named::End)
    } else if k == HOME {
        Some(Named::Home)
    } else if k == PAGE_DOWN {
        Some(Named::PageDown)
    } else if k == PAGE_UP {
        Some(Named::PageUp)
    } else if k == BACKSPACE {
        Some(Named::Backspace)
    } else if k == CLEAR {
        Some(Named::Clear)
    } else if k == DELETE {
        Some(Named::Delete)
    } else if k == INSERT {
        Some(Named::Insert)
    } else if k == ESCAPE {
        Some(Named::Escape)
    } else {
        None
    }
}

fn named_key(k: u32) -> (r: Option<Named>)
    ensures
        r == named_key_of(k),
{
    if k == ALT_L || k == ALT_R {
        Some(Named::Alt)
    } else if k == CAPS_LOCK {
        Some(Named::CapsLock)
    } else if k == CONTROL_L || k == CONTROL_R {
        Some(Named::Control)
    } else if k == XF86_FN {
        Some(Named::Fn)
    } else if k == NUM_LOCK {
        Some(Named::NumLock)
    } else if k == SCROLL_LOCK {
        Some(Named::ScrollLock)
    } else if k == SHIFT_L || k == SHIFT_R {
        Some(Named::Shift)
    } else if k == META_L || k == META_R {
        Some(Named::Meta)
    } else if k == HYPER_L || k == HYPER_R {
        Some(Named::Hyper)
    } else if k == SUPER_L || k == SUPER_R {
        Some(Named::Super)
    } else if k == KP_ENTER || k == ISO_ENTER {
        Some(Named::Enter)
    } else if k == TAB {
        Some(Named::Tab)
    } else if k == KP_SPACE {
        Some(Named::Space)
    } else if k == DOWN {
        Some(Named::ArrowDown)
    } else if k == LEFT {
        Some(Named::ArrowLeft)
    } else if k == RIGHT {
        Some(Named::ArrowRight)
    } else if k == UP {
        Some(Named::ArrowUp)
    } else if k == END {
        Some(Named::End)
    } else if k == HOME {
        Some(Named::Home)
    } else if k == PAGE_DOWN {
        Some(Named::PageDown)
    } else if k == PAGE_UP {
        Some(Named::PageUp)
    } else if k == BACKSPACE {
        Some(Named::Backspace)
    } else if k == CLEAR {
        Some(Named::Clear)
    } else if k == DELETE {
        Some(Named::Delete)
    } else if k == INSERT {
        Some(Named::Insert)
    } else if k == ESCAPE {
        Some(Named::Escape)
    } else {
        None
    }
}

/// The logical key of keysym `k` whose character is `ch`: its name, else
/// its character.
pub open spec fn key_with(k: u32, ch: Option<char>) -> Key {
    match named_key_of(k) {
        Some(n) => Key::Named(n),
        None => match ch {
            Some(c) => Key::Character(c),
            None => Key::Unidentified,
        },
    }
}

/// The logical key of keysym `k`.
pub open spec fn key_of(k: u32) -> Key {
    key_with(k, keysym_char(k))
}

/// Maps keysym `keysym`, whose character is `ch`, to a logical key.
pub fn key_with_char(keysym: u32, ch: Option<char>) -> (r: Key)
    ensures
        r == key_with(keysym, ch),
{
    match named_key(keysym) {
        Some(n) => Key::Named(n),
        None => match ch {
            Some(c) => Key::Character(c),
            None => Key::Unidentified,
        },
    }
}

/// Maps a keysym to a logical key.
pub fn key(keysym: u32) -> (r: Key)
    ensures
        r == key_of(keysym),
{
    key_with_char(keysym, key_char(keysym))
}

/// The physical code of keysym `k`, if it has a known one.
pub open spec fn code_of(k: u32) -> Option<Code> {
    if k == CAPS_LOCK {
        Some(Code::CapsLock)
    } else if k == XF86_FN {
        Some(Code::Fn)
    } else if k == NUM_LOCK {
        Some(Code::NumLock)
    } else if k == SCROLL_LOCK {
        Some(Code::ScrollLock)
    } else if k == META_L || k == META_R {
        Some(Code::Meta)
    } else if k == HYPER_L || k == HYPER_R {
        Some(Code::Hyper)
    } else if k == KP_ENTER || k == ISO_ENTER {
        Some(Code::Enter)
    } else if k == TAB {
        Some(Code::Tab)
    } else if k == KP_SPACE {
        Some(Code::Space)
    } else if k == DOWN {
        Some(Code::ArrowDown)
    } else if k == LEFT {
        Some(Code::ArrowLeft)
    } else if k == RIGHT {
        Some(Code::ArrowRight)
    } else if k == UP {
        Some(Code::ArrowUp)
    } else if k == END {
        Some(Code::End)
    } else if k == HOME {
        Some(Code::Home)
    } else if k == PAGE_DOWN {
        Some(Code::PageDown)
    } else if k == PAGE_UP {
        Some(Code::PageUp)
    } else if k == BACKSPACE {
        Some(Code::Backspace)
    } else if k == DELETE {
        Some(Code::Delete)
    } else if k == INSERT {
        Some(Code::Insert)
    } else if k == ESCAPE {
        Some(Code::Escape)
    } else {
        None
    }
}

/// Maps a keysym to a physical key; an unknown one keeps the raw code.
pub fn code(keysym: u32, raw_code: u32) -> (r: Physical)
    ensures
        r == (match code_of(keysym) {
            Some(c) => Physical::Code(c),
            None => Physical::Unidentified(raw_code),
        }),
{
    let k = keysym;
    if k == CAPS_LOCK {
        Physical::Code(Code::CapsLock)
    } else if k == XF86_FN {
        Physical::Code(Code::Fn)
    } else if k == NUM_LOCK {
        Physical::Code(Code::NumLock)
    } else if k == SCROLL_LOCK {
        Physical::Code(Code::ScrollLock)
    } else if k == META_L || k == META_R {
        Physical::Code(Code::Meta)
    } else if k == HYPER_L || k == HYPER_R {
        Physical::Code(Code::Hyper)
    } else if k == KP_ENTER || k == ISO_ENTER {
        Physical::Code(Code::Enter)
    } else if k == TAB {
        Physical::Code(Code::Tab)
    } else if k == KP_SPACE {
        Physical::Code(Code::Space)
    } else if k == DOWN {
        Physical::Code(Code::ArrowDown)
    } else if k == LEFT {
        Physical::Code(Code::ArrowLeft)
    } else if k == RIGHT {
        Physical::Code(Code::ArrowRight)
    } else if k == UP {
        Physical::Code(Code::ArrowUp)
    } else if k == END {
        Physical::Code(Code::End)
    } else if k == HOME {
        Physical::Code(Code::Home)
    } else if k == PAGE_DOWN {
        Physical::Code(Code::PageDown)
    } else if k == PAGE_UP {
        Physical::Code(Code::PageUp)
    } else if k == BACKSPACE {
        Physical::Code(Code::Backspace)
    } else if k == DELETE {
        Physical::Code(Code::Delete)
    } else if k == INSERT {
        Physical::Code(Code::Insert)
    } else if k == ESCAPE {
        Physical::Code(Code::Escape)
    } else {
        Physical::Unidentified(raw_code)
    }
}

/// Whether keysym `k` lies in one of the keypad ranges.
pub open spec fn on_keypad(k: u32) -> bool {
    (KP_SPACE <= k <= KP_EQUAL) || (0x11000000 <= k <= 0x1100ffff)
}

/// The location of keysym `k`.
pub open spec fn location_of(k: u32) -> Location {
    if on_keypad(k) {
        Location::Numpad
    } else if k == ALT_L || k == CONTROL_L || k == SHIFT_L || k == META_L || k == HYPER_L || k == SUPER_L {
        Location::Left
    } else if k == ALT_R || k == SHIFT_R || k == CONTROL_R || k == META_R || k == HYPER_R || k == SUPER_R {
        Location::Right
    } else {
        Location::Standard
    }
}

/// Maps a keysym to where its key is on the keyboard.
pub fn location(keysym: u32) -> (r: Location)
    ensures
        r == location_of(keysym),
{
    let k = keysym;
    if is_keypad_key(k) || is_private_keypad_key(k) {
        Location::Numpad
    } else if k == ALT_L || k == CONTROL_L || k == SHIFT_L || k == META_L || k == HYPER_L || k == SUPER_L {
        Location::Left
    } else if k == ALT_R || k == SHIFT_R || k == CONTROL_R || k == META_R || k == HYPER_R || k == SUPER_R {
        Location::Right
    } else {
        Location::Standard
    }
}

} // verus!
