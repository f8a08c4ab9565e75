use window::event::Key;

#[test]
fn named_key_codes() {
    assert_eq!(Key::Enter.vk_code(), 0x0D);
    assert_eq!(Key::Space.vk_code(), 0x20);
    assert_eq!(Key::Alt.vk_code(), 0x12);
    assert_eq!(Key::ScrollLock.vk_code(), 0x91);
    assert_eq!(Key::PageDown.vk_code(), 0x22);
}

#[test]
fn letter_codes_ignore_case() {
    assert_eq!(Key::Char('a').vk_code(), 0x41);
    assert_eq!(Key::Char('A').vk_code(), 0x41);
    assert_eq!(Key::Char('z').vk_code(), 0x5A);
    assert_eq!(Key::Char('5').vk_code(), 0x35);
}

#[test]
fn punctuation_codes_cover_both_shift_states() {
    assert_eq!(Key::Char('=').vk_code(), 0xBB);
    assert_eq!(Key::Char('+').vk_code(), 0xBB);
    assert_eq!(Key::Char('"').vk_code(), 0xDE);
    assert_eq!(Key::Char('\\').vk_code(), 0xDC);
    assert_eq!(Key::Char('>').vk_code(), 0xBE);
}

#[test]
fn unmapped_characters_have_code_zero() {
    assert_eq!(Key::Char('!').vk_code(), 0);
    assert_eq!(Key::Char(' ').vk_code(), 0);
    assert_eq!(Key::Char('é').vk_code(), 0);
}

#[test]
fn function_key_codes() {
    assert_eq!(Key::Function(1).vk_code(), 0x70);
    assert_eq!(Key::Function(24).vk_code(), 0x87);
    assert_eq!(Key::Function(0).vk_code(), 0);
    assert_eq!(Key::Function(25).vk_code(), 0);
    assert_eq!(Key::Unknown(0x1234).vk_code(), 0x1234);
}

#[test]
fn decoded_characters_map_back_to_their_key() {
    for vk in [0x41, 0x5A, 0x30, 0x39, 0xBA, 0xBB, 0xDE] {
        for shift in [false, true] {
            if shift && (0x30..=0x39).contains(&vk) {
                continue;
            }
            match window::message::decode_key(vk, shift) {
                window::types::Key::Char(c) => assert_eq!(Key::Char(c).vk_code(), vk as usize),
                other => panic!("unexpected key {:?}", other),
            }
        }
    }
}
