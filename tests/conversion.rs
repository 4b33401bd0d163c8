use iced_sctk::{button, code, key, key_with_char, location, modifiers, Button, Code, Key, Location, Named, Physical, SeatModifiers};
use iced_sctk::{ALT, CTRL, LOGO, SHIFT};

#[test]
fn named_buttons() {
    assert_eq!(button(0x110), Button::Left);
    assert_eq!(button(0x111), Button::Right);
    assert_eq!(button(0x112), Button::Middle);
    assert_eq!(button(0x116), Button::Back);
    assert_eq!(button(0x115), Button::Forward);
    assert_eq!(button(0x113), Button::Other(0x113));
    assert_eq!(button(0x1_0007), Button::Other(7));
}

#[test]
fn modifier_bits() {
    let mut m = SeatModifiers::none();
    assert_eq!(modifiers(m).bits, 0);
    m.shift = true;
    m.logo = true;
    m.caps_lock = true;
    assert_eq!(modifiers(m).bits, SHIFT | LOGO);
    m.ctrl = true;
    m.alt = true;
    assert_eq!(modifiers(m).bits, SHIFT | CTRL | ALT | LOGO);
    assert_eq!(SHIFT | CTRL | ALT | LOGO, 0b100_100_100_100);
}

#[test]
fn keys_by_name_and_character() {
    assert_eq!(key(0xff09), Key::Named(Named::Tab));
    assert_eq!(key(0xffe1), Key::Named(Named::Shift));
    assert_eq!(key(0xff8d), Key::Named(Named::Enter));
    assert_eq!(key(0x61), Key::Character('a'));
    assert_eq!(key(0x41), Key::Character('A'));
    assert_eq!(key(0xe9), Key::Character('é'));
    assert_eq!(key(0x0), Key::Unidentified);
}

#[test]
fn physical_codes() {
    assert_eq!(code(0xff1b, 9), Physical::Code(Code::Escape));
    assert_eq!(code(0xffe5, 66), Physical::Code(Code::CapsLock));
    assert_eq!(code(0x61, 38), Physical::Unidentified(38));
    // Shift has a name as a key but no physical code here.
    assert_eq!(code(0xffe1, 50), Physical::Unidentified(50));
}

#[test]
fn key_locations() {
    assert_eq!(location(0xffb1), Location::Numpad);
    assert_eq!(location(0xff80), Location::Numpad);
    assert_eq!(location(0x1100_0001), Location::Numpad);
    assert_eq!(location(0xffe1), Location::Left);
    assert_eq!(location(0xffe2), Location::Right);
    assert_eq!(location(0xffe4), Location::Right);
    assert_eq!(location(0xffe3), Location::Left);
    assert_eq!(location(0x61), Location::Standard);
}

#[test]
fn key_from_character() {
    assert_eq!(key_with_char(0x61, Some('a')), Key::Character('a'));
    assert_eq!(key_with_char(0x61, None), Key::Unidentified);
    assert_eq!(key_with_char(0xff09, Some('x')), Key::Named(Named::Tab));
}
