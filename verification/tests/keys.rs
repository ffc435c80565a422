use hid_keystrokes::keyboard::{Key, LEFT_SHIFT};

/// Every key with the character it types alone and the one it types under shift.
fn layout() -> Vec<(Key, u8, Option<char>, Option<char>)> {
    vec![
        (Key::ErrorRollOver, 0x01, None, None),
        (Key::POSTFail, 0x02, None, None),
        (Key::ErrorUndefined, 0x03, None, None),
        (Key::KeyA, 0x04, Some('a'), Some('A')),
        (Key::KeyB, 0x05, Some('b'), Some('B')),
        (Key::KeyC, 0x06, Some('c'), Some('C')),
        (Key::KeyD, 0x07, Some('d'), Some('D')),
        (Key::KeyE, 0x08, Some('e'), Some('E')),
        (Key::KeyF, 0x09, Some('f'), Some('F')),
        (Key::KeyG, 0x0A, Some('g'), Some('G')),
        (Key::KeyH, 0x0B, Some('h'), Some('H')),
        (Key::KeyI, 0x0C, Some('i'), Some('I')),
        (Key::KeyJ, 0x0D, Some('j'), Some('J')),
        (Key::KeyK, 0x0E, Some('k'), Some('K')),
        (Key::KeyL, 0x0F, Some('l'), Some('L')),
        (Key::KeyM, 0x10, Some('m'), Some('M')),
        (Key::KeyN, 0x11, Some('n'), Some('N')),
        (Key::KeyO, 0x12, Some('o'), Some('O')),
        (Key::KeyP, 0x13, Some('p'), Some('P')),
        (Key::KeyQ, 0x14, Some('q'), Some('Q')),
        (Key::KeyR, 0x15, Some('r'), Some('R')),
        (Key::KeyS, 0x16, Some('s'), Some('S')),
        (Key::KeyT, 0x17, Some('t'), Some('T')),
        (Key::KeyU, 0x18, Some('u'), Some('U')),
        (Key::KeyV, 0x19, Some('v'), Some('V')),
        (Key::KeyW, 0x1A, Some('w'), Some('W')),
        (Key::KeyX, 0x1B, Some('x'), Some('X')),
        (Key::KeyY, 0x1C, Some('y'), Some('Y')),
        (Key::KeyZ, 0x1D, Some('z'), Some('Z')),
        (Key::Key1, 0x1E, Some('1'), Some('!')),
        (Key::Key2, 0x1F, Some('2'), Some('"')),
        (Key::Key3, 0x20, Some('3'), Some('£')),
        (Key::Key4, 0x21, Some('4'), Some('$')),
        (Key::Key5, 0x22, Some('5'), Some('%')),
        (Key::Key6, 0x23, Some('6'), Some('^')),
        (Key::Key7, 0x24, Some('7'), Some('&')),
        (Key::Key8, 0x25, Some('8'), Some('*')),
        (Key::Key9, 0x26, Some('9'), Some('(')),
        (Key::Key0, 0x27, Some('0'), Some(')')),
        (Key::Return, 0x28, Some('\n'), None),
        (Key::Esc, 0x29, None, None),
        (Key::Del, 0x2A, None, None),
        (Key::Tab, 0x2B, Some('\t'), None),
        (Key::Spacebar, 0x2C, Some(' '), None),
        (Key::Minus, 0x2D, Some('-'), Some('_')),
        (Key::Equals, 0x2E, Some('='), Some('+')),
        (Key::LeftSquare, 0x2F, Some('['), Some('{')),
        (Key::RightSquare, 0x30, Some(']'), Some('}')),
        (Key::Backslash, 0x31, Some('\\'), Some('|')),
        (Key::Hash, 0x32, Some('#'), Some('~')),
        (Key::SemiColon, 0x33, Some(';'), Some(':')),
        (Key::Quote, 0x34, Some('\''), Some('@')),
        (Key::Comma, 0x36, Some(','), Some('<')),
        (Key::Dot, 0x37, Some('.'), Some('>')),
    ]
}

#[test]
fn usage_ids_follow_the_hid_keyboard_page() {
    for (key, id, _, _) in layout() {
        assert_eq!(key.code(), id, "{:?}", key);
    }
}

#[test]
fn usage_ids_are_distinct_and_never_zero() {
    let ids: Vec<u8> = layout().iter().map(|entry| entry.0.code()).collect();
    for (i, id) in ids.iter().enumerate() {
        assert_ne!(*id, 0);
        assert!(!ids[..i].contains(id));
    }
}

#[test]
fn plain_characters_find_their_key_without_shift() {
    for (key, _, plain, _) in layout() {
        if let Some(c) = plain {
            assert_eq!(Key::try_from_char(c), Some(key), "{:?}", c);
            assert_eq!(Key::get_modifier(c), None, "{:?}", c);
        }
    }
}

#[test]
fn shifted_characters_find_their_key_with_shift() {
    for (key, _, _, shifted) in layout() {
        if let Some(c) = shifted {
            assert_eq!(Key::try_from_char(c), Some(key), "{:?}", c);
            assert_eq!(Key::get_modifier(c), Some(0x02), "{:?}", c);
        }
    }
}

#[test]
fn left_shift_is_bit_one() {
    assert_eq!(LEFT_SHIFT, 0x02);
}

#[test]
fn upper_case_letter_folds_onto_the_key_of_its_lower_case() {
    assert_eq!(Key::try_from_char('A'), Some(Key::KeyA));
    assert_eq!(Key::try_from_char('a'), Some(Key::KeyA));
    assert_eq!(Key::try_from_char('Z'), Some(Key::KeyZ));
    assert_eq!(Key::try_from_char('z'), Some(Key::KeyZ));
    assert_eq!(Key::try_from_char('M').map(Key::code), Some(0x10));
}

#[test]
fn letters_differ_from_their_upper_case_in_shift_alone() {
    for c in 'a'..='z' {
        let upper = c.to_ascii_uppercase();
        assert_ne!(c, upper);
        assert!(Key::try_from_char(c).is_some());
        assert_eq!(Key::try_from_char(c), Key::try_from_char(upper));
        assert_eq!(Key::get_modifier(c), None);
        assert_eq!(Key::get_modifier(upper), Some(LEFT_SHIFT));
    }
}

#[test]
fn characters_without_case_are_their_own_upper_case() {
    for (_, _, plain, shifted) in layout() {
        for c in plain.into_iter().chain(shifted) {
            if !c.is_ascii_lowercase() {
                let upper: Vec<char> = c.to_uppercase().collect();
                assert_eq!(upper, vec![c]);
                assert_eq!(c.to_ascii_uppercase(), c);
            }
        }
    }
}

#[test]
fn digits_take_no_shift_and_their_symbols_do() {
    let pairs = [
        ('1', '!'),
        ('2', '"'),
        ('3', '£'),
        ('4', '$'),
        ('5', '%'),
        ('6', '^'),
        ('7', '&'),
        ('8', '*'),
        ('9', '('),
        ('0', ')'),
    ];
    for (digit, symbol) in pairs {
        assert_eq!(Key::get_modifier(digit), None);
        assert_eq!(Key::get_modifier(symbol), Some(0x02));
        assert_eq!(Key::try_from_char(digit), Key::try_from_char(symbol));
    }
    assert_eq!(Key::try_from_char('1'), Some(Key::Key1));
    assert_eq!(Key::try_from_char('0'), Some(Key::Key0));
    assert_eq!(Key::try_from_char('0').map(Key::code), Some(0x27));
}

#[test]
fn punctuation_pairs_share_a_key() {
    let pairs = [
        ('-', '_', Key::Minus),
        ('=', '+', Key::Equals),
        ('[', '{', Key::LeftSquare),
        (']', '}', Key::RightSquare),
        ('\\', '|', Key::Backslash),
        ('#', '~', Key::Hash),
        (';', ':', Key::SemiColon),
        ('\'', '@', Key::Quote),
        (',', '<', Key::Comma),
        ('.', '>', Key::Dot),
    ];
    for (lower, upper, key) in pairs {
        assert_eq!(Key::try_from_char(lower), Some(key));
        assert_eq!(Key::try_from_char(upper), Some(key));
        assert_eq!(Key::get_modifier(lower), None);
        assert_eq!(Key::get_modifier(upper), Some(LEFT_SHIFT));
    }
}

#[test]
fn newline_tab_and_space_have_keys() {
    assert_eq!(Key::try_from_char('\n'), Some(Key::Return));
    assert_eq!(Key::try_from_char('\t'), Some(Key::Tab));
    assert_eq!(Key::try_from_char(' '), Some(Key::Spacebar));
    assert_eq!(Key::get_modifier('\n'), None);
    assert_eq!(Key::get_modifier('\t'), None);
    assert_eq!(Key::get_modifier(' '), None);
}

#[test]
fn characters_off_the_keyboard_have_no_key() {
    let strangers =
        ['/', '?', '`', '\r', '\0', '\u{7f}', '\u{1b}', 'é', 'É', 'ß', '€', '😀', '\u{10FFFF}'];
    for c in strangers {
        assert_eq!(Key::try_from_char(c), None, "{:?}", c);
        assert_eq!(Key::get_modifier(c), None, "{:?}", c);
    }
}

#[test]
fn exactly_the_printed_characters_have_a_key() {
    let mut printed: Vec<char> = Vec::new();
    for (_, _, plain, shifted) in layout() {
        printed.extend(plain);
        printed.extend(shifted);
    }
    assert_eq!(printed.len(), 95);
    for code in 0..=0x2FFu32 {
        let c = char::from_u32(code).unwrap();
        assert_eq!(Key::try_from_char(c).is_some(), printed.contains(&c), "{:?}", c);
    }
}

#[test]
fn shift_is_taken_by_exactly_the_upper_characters() {
    let upper: Vec<char> = layout().iter().filter_map(|entry| entry.3).collect();
    assert_eq!(upper.len(), 46);
    for code in 0..=0x2FFu32 {
        let c = char::from_u32(code).unwrap();
        let expected = if upper.contains(&c) { Some(0x02) } else { None };
        assert_eq!(Key::get_modifier(c), expected, "{:?}", c);
    }
}

#[test]
fn keys_without_a_character_are_never_found() {
    let silent = [Key::ErrorRollOver, Key::POSTFail, Key::ErrorUndefined, Key::Esc, Key::Del];
    for code in 0..=0x2FFu32 {
        let c = char::from_u32(code).unwrap();
        if let Some(key) = Key::try_from_char(c) {
            assert!(!silent.contains(&key), "{:?}", c);
        }
    }
}

#[test]
fn case_folding_agrees_with_the_standard_library() {
    for code in 0..=0x2FFu32 {
        let c = char::from_u32(code).unwrap();
        assert_eq!(Key::try_from_char(c), Key::try_from_char(c.to_ascii_lowercase()), "{:?}", c);
        assert_eq!(Key::try_from_char(c), Key::try_from_char(c.to_ascii_uppercase()), "{:?}", c);
        if c.is_ascii_uppercase() {
            assert_eq!(Key::get_modifier(c), Some(LEFT_SHIFT), "{:?}", c);
        }
    }
}
