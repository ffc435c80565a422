//! The keys of the keyboard, their usage ids and the characters printed on them.

use vstd::prelude::*;

verus! {

/// Modifier bit that reports the left shift key as held.
pub const LEFT_SHIFT: u8 = 0x02;

/// The lower-case form of an ASCII letter; any other character is left as it is.
pub open spec fn ascii_lowercase(c: char) -> char {
    if 'A' <= c && c <= 'Z' {
        ((c as u32) + 32) as char
    } else {
        c
    }
}

/// The upper-case form of an ASCII letter; any other character is left as it is.
pub open spec fn ascii_uppercase(c: char) -> char {
    if 'a' <= c && c <= 'z' {
        ((c as u32) - 32) as char
    } else {
        c
    }
}

/// Whether typing `c` takes the shift key: `c` is an upper-case ASCII letter or
/// the upper one of the two characters printed on a key.
pub open spec fn needs_shift(c: char) -> bool {
    ||| 'A' <= c && c <= 'Z'
    ||| match c {
        '!' | '"' | '\u{A3}' | '$' | '%' | '^' | '&' | '*' | '(' | ')' => true,
        '_' | '+' | '{' | '}' | '|' | '~' | ':' | '@' | '<' | '>' => true,
        _ => false,
    }
}

/// Folds an upper-case ASCII letter onto its lower case and leaves every other
/// character as it is.
fn fold_case(c: char) -> (folded: char)
    ensures
        folded == ascii_lowercase(c),
{
    if 'A' <= c && c <= 'Z' {
        (c as u8 + 32) as char
    } else {
        c
    }
}

/// A key, named after what is printed on it. Each key stands for one usage id of
/// the keyboard page of the USB HID usage tables.
#[derive(Copy, Clone, Debug, PartialEq, Eq, Structural)]
pub enum Key {
    /// Sent in every slot while more keys are down than a report can hold
    ErrorRollOver,
    /// Sent by a keyboard that failed its self-test
    POSTFail,
    /// Sent on any other error of the keyboard
    ErrorUndefined,
    /// Key a/A
    KeyA,
    /// Key b/B
    KeyB,
    /// Key c/C
    KeyC,
    /// Key d/D
    KeyD,
    /// Key e/E
    KeyE,
    /// Key f/F
    KeyF,
    /// Key g/G
    KeyG,
    /// Key h/H
    KeyH,
    /// Key i/I
    KeyI,
    /// Key j/J
    KeyJ,
    /// Key k/K
    KeyK,
    /// Key l/L
    KeyL,
    /// Key m/M
    KeyM,
    /// Key n/N
    KeyN,
    /// Key o/O
    KeyO,
    /// Key p/P
    KeyP,
    /// Key q/Q
    KeyQ,
    /// Key r/R
    KeyR,
    /// Key s/S
    KeyS,
    /// Key t/T
    KeyT,
    /// Key u/U
    KeyU,
    /// Key v/V
    KeyV,
    /// Key w/W
    KeyW,
    /// Key x/X
    KeyX,
    /// Key y/Y
    KeyY,
    /// Key z/Z
    KeyZ,
    /// Key 1/!
    Key1,
    /// Key 2/"
    Key2,
    /// Key 3/£
    Key3,
    /// Key 4/$
    Key4,
    /// Key 5/%
    Key5,
    /// Key 6/^
    Key6,
    /// Key 7/&
    Key7,
    /// Key 8/*
    Key8,
    /// Key 9/(
    Key9,
    /// Key 0/)
    Key0,
    /// Return key
    Return,
    /// Escape key
    Esc,
    /// Delete key
    Del,
    /// Tab key
    Tab,
    /// Spacebar
    Spacebar,
    /// Key -/_
    Minus,
    /// Key =/+
    Equals,
    /// Key [/{
    LeftSquare,
    /// Key ]/}
    RightSquare,
    /// Key \/|
    Backslash,
    /// Key #/~
    Hash,
    /// Key ;/:
    SemiColon,
    /// Key '/@
    Quote,
    /// Key ,/<
    Comma,
    /// Key ./>
    Dot,
}

impl Key {
    /// The usage id that a report carries for this key.
    pub open spec fn usage_id(self) -> u8 {
        match self {
            Key::ErrorRollOver => 0x01,
            Key::POSTFail => 0x02,
            Key::ErrorUndefined => 0x03,
            Key::KeyA => 0x04,
            Key::KeyB => 0x05,
            Key::KeyC => 0x06,
            Key::KeyD => 0x07,
            Key::KeyE => 0x08,
            Key::KeyF => 0x09,
            Key::KeyG => 0x0A,
            Key::KeyH => 0x0B,
            Key::KeyI => 0x0C,
            Key::KeyJ => 0x0D,
            Key::KeyK => 0x0E,
            Key::KeyL => 0x0F,
            Key::KeyM => 0x10,
            Key::KeyN => 0x11,
            Key::KeyO => 0x12,
            Key::KeyP => 0x13,
            Key::KeyQ => 0x14,
            Key::KeyR => 0x15,
            Key::KeyS => 0x16,
            Key::KeyT => 0x17,
            Key::KeyU => 0x18,
            Key::KeyV => 0x19,
            Key::KeyW => 0x1A,
            Key::KeyX => 0x1B,
            Key::KeyY => 0x1C,
            Key::KeyZ => 0x1D,
            Key::Key1 => 0x1E,
            Key::Key2 => 0x1F,
            Key::Key3 => 0x20,
            Key::Key4 => 0x21,
            Key::Key5 => 0x22,
            Key::Key6 => 0x23,
            Key::Key7 => 0x24,
            Key::Key8 => 0x25,
            Key::Key9 => 0x26,
            Key::Key0 => 0x27,
            Key::Return => 0x28,
            Key::Esc => 0x29,
            Key::Del => 0x2A,
            Key::Tab => 0x2B,
            Key::Spacebar => 0x2C,
            Key::Minus => 0x2D,
            Key::Equals => 0x2E,
            Key::LeftSquare => 0x2F,
            Key::RightSquare => 0x30,
            Key::Backslash => 0x31,
            Key::Hash => 0x32,
            Key::SemiColon => 0x33,
            Key::Quote => 0x34,
            Key::Comma => 0x36,
            Key::Dot => 0x37,
        }
    }

    /// The key on which `c` is printed, whether alone or above another character.
    /// An ASCII letter is found in either case. `None` where the keyboard has no
    /// such character.
    pub open spec fn of_char(c: char) -> Option<Key> {
        match ascii_lowercase(c) {
            'a' => Some(Key::KeyA),
            'b' => Some(Key::KeyB),
            'c' => Some(Key::KeyC),
            'd' => Some(Key::KeyD),
            'e' => Some(Key::KeyE),
            'f' => Some(Key::KeyF),
            'g' => Some(Key::KeyG),
            'h' => Some(Key::KeyH),
            'i' => Some(Key::KeyI),
            'j' => Some(Key::KeyJ),
            'k' => Some(Key::KeyK),
            'l' => Some(Key::KeyL),
            'm' => Some(Key::KeyM),
            'n' => Some(Key::KeyN),
            'o' => Some(Key::KeyO),
            'p' => Some(Key::KeyP),
            'q' => Some(Key::KeyQ),
            'r' => Some(Key::KeyR),
            's' => Some(Key::KeyS),
            't' => Some(Key::KeyT),
            'u' => Some(Key::KeyU),
            'v' => Some(Key::KeyV),
            'w' => Some(Key::KeyW),
            'x' => Some(Key::KeyX),
            'y' => Some(Key::KeyY),
            'z' => Some(Key::KeyZ),
            '1' | '!' => Some(Key::Key1),
            '2' | '"' => Some(Key::Key2),
            '3' | '\u{A3}' => Some(Key::Key3),
            '4' | '$' => Some(Key::Key4),
            '5' | '%' => Some(Key::Key5),
            '6' | '^' => Some(Key::Key6),
            '7' | '&' => Some(Key::Key7),
            '8' | '*' => Some(Key::Key8),
            '9' | '(' => Some(Key::Key9),
            '0' | ')' => Some(Key::Key0),
            '\n' => Some(Key::Return),
            '\t' => Some(Key::Tab),
            ' ' => Some(Key::Spacebar),
            '-' | '_' => Some(Key::Minus),
            '=' | '+' => Some(Key::Equals),
            '[' | '{' => Some(Key::LeftSquare),
            ']' | '}' => Some(Key::RightSquare),
            '\\' | '|' => Some(Key::Backslash),
            '#' | '~' => Some(Key::Hash),
            ';' | ':' => Some(Key::SemiColon),
            '\'' | '@' => Some(Key::Quote),
            ',' | '<' => Some(Key::Comma),
            '.' | '>' => Some(Key::Dot),
            _ => None,
        }
    }

    /// The character that the key types when pressed alone, if it types any.
    pub open spec fn plain(self) -> Option<char> {
        match self {
            Key::KeyA => Some('a'),
            Key::KeyB => Some('b'),
            Key::KeyC => Some('c'),
            Key::KeyD => Some('d'),
            Key::KeyE => Some('e'),
            Key::KeyF => Some('f'),
            Key::KeyG => Some('g'),
            Key::KeyH => Some('h'),
            Key::KeyI => Some('i'),
            Key::KeyJ => Some('j'),
            Key::KeyK => Some('k'),
            Key::KeyL => Some('l'),
            Key::KeyM => Some('m'),
            Key::KeyN => Some('n'),
            Key::KeyO => Some('o'),
            Key::KeyP => Some('p'),
            Key::KeyQ => Some('q'),
            Key::KeyR => Some('r'),
            Key::KeyS => Some('s'),
            Key::KeyT => Some('t'),
            Key::KeyU => Some('u'),
            Key::KeyV => Some('v'),
            Key::KeyW => Some('w'),
            Key::KeyX => Some('x'),
            Key::KeyY => Some('y'),
            Key::KeyZ => Some('z'),
            Key::Key1 => Some('1'),
            Key::Key2 => Some('2'),
            Key::Key3 => Some('3'),
            Key::Key4 => Some('4'),
            Key::Key5 => Some('5'),
            Key::Key6 => Some('6'),
            Key::Key7 => Some('7'),
            Key::Key8 => Some('8'),
            Key::Key9 => Some('9'),
            Key::Key0 => Some('0'),
            Key::Return => Some('\n'),
            Key::Tab => Some('\t'),
            Key::Spacebar => Some(' '),
            Key::Minus => Some('-'),
            Key::Equals => Some('='),
            Key::LeftSquare => Some('['),
            Key::RightSquare => Some(']'),
            Key::Backslash => Some('\\'),
            Key::Hash => Some('#'),
            Key::SemiColon => Some(';'),
            Key::Quote => Some('\''),
            Key::Comma => Some(','),
            Key::Dot => Some('.'),
            _ => None,
        }
    }

    /// The character that the key types while shift is held, if it types any.
    pub open spec fn shifted(self) -> Option<char> {
        match self {
            Key::KeyA => Some('A'),
            Key::KeyB => Some('B'),
            Key::KeyC => Some('C'),
            Key::KeyD => Some('D'),
            Key::KeyE => Some('E'),
            Key::KeyF => Some('F'),
            Key::KeyG => Some('G'),
            Key::KeyH => Some('H'),
            Key::KeyI => Some('I'),
            Key::KeyJ => Some('J'),
            Key::KeyK => Some('K'),
            Key::KeyL => Some('L'),
            Key::KeyM => Some('M'),
            Key::KeyN => Some('N'),
            Key::KeyO => Some('O'),
            Key::KeyP => Some('P'),
            Key::KeyQ => Some('Q'),
            Key::KeyR => Some('R'),
            Key::KeyS => Some('S'),
            Key::KeyT => Some('T'),
            Key::KeyU => Some('U'),
            Key::KeyV => Some('V'),
            Key::KeyW => Some('W'),
            Key::KeyX => Some('X'),
            Key::KeyY => Some('Y'),
            Key::KeyZ => Some('Z'),
            Key::Key1 => Some('!'),
            Key::Key2 => Some('"'),
            Key::Key3 => Some('\u{A3}'),
            Key::Key4 => Some('$'),
            Key::Key5 => Some('%'),
            Key::Key6 => Some('^'),
            Key::Key7 => Some('&'),
            Key::Key8 => Some('*'),
            Key::Key9 => Some('('),
            Key::Key0 => Some(')'),
            Key::Minus => Some('_'),
            Key::Equals => Some('+'),
            Key::LeftSquare => Some('{'),
            Key::RightSquare => Some('}'),
            Key::Backslash => Some('|'),
            Key::Hash => Some('~'),
            Key::SemiColon => Some(':'),
            Key::Quote => Some('@'),
            Key::Comma => Some('<'),
            Key::Dot => Some('>'),
            _ => None,
        }
    }

    /// The usage id of this key.
    pub fn code(self) -> (id: u8)
        ensures
            id == self.usage_id(),
    {
        match self {
            Key::ErrorRollOver => 0x01,
            Key::POSTFail => 0x02,
            Key::ErrorUndefined => 0x03,
            Key::KeyA => 0x04,
            Key::KeyB => 0x05,
            Key::KeyC => 0x06,
            Key::KeyD => 0x07,
            Key::KeyE => 0x08,
            Key::KeyF => 0x09,
            Key::KeyG => 0x0A,
            Key::KeyH => 0x0B,
            Key::KeyI => 0x0C,
            Key::KeyJ => 0x0D,
            Key::KeyK => 0x0E,
            Key::KeyL => 0x0F,
            Key::KeyM => 0x10,
            Key::KeyN => 0x11,
            Key::KeyO => 0x12,
            Key::KeyP => 0x13,
            Key::KeyQ => 0x14,
            Key::KeyR => 0x15,
            Key::KeyS => 0x16,
            Key::KeyT => 0x17,
            Key::KeyU => 0x18,
            Key::KeyV => 0x19,
            Key::KeyW => 0x1A,
            Key::KeyX => 0x1B,
            Key::KeyY => 0x1C,
            Key::KeyZ => 0x1D,
            Key::Key1 => 0x1E,
            Key::Key2 => 0x1F,
            Key::Key3 => 0x20,
            Key::Key4 => 0x21,
            Key::Key5 => 0x22,
            Key::Key6 => 0x23,
            Key::Key7 => 0x24,
            Key::Key8 => 0x25,
            Key::Key9 => 0x26,
            Key::Key0 => 0x27,
            Key::Return => 0x28,
            Key::Esc => 0x29,
            Key::Del => 0x2A,
            Key::Tab => 0x2B,
            Key::Spacebar => 0x2C,
            Key::Minus => 0x2D,
            Key::Equals => 0x2E,
            Key::LeftSquare => 0x2F,
            Key::RightSquare => 0x30,
            Key::Backslash => 0x31,
            Key::Hash => 0x32,
            Key::SemiColon => 0x33,
            Key::Quote => 0x34,
            Key::Comma => 0x36,
            Key::Dot => 0x37,
        }
    }

    /// Finds the key that types `c`, in either case of a letter. `None` where the
    /// keyboard has no such character.
    pub fn try_from_char(c: char) -> (key: Option<Key>)
        ensures
            key == Key::of_char(c),
    {
        Some(
            match fold_case(c) {
                'a' => Key::KeyA,
                'b' => Key::KeyB,
                'c' => Key::KeyC,
                'd' => Key::KeyD,
                'e' => Key::KeyE,
                'f' => Key::KeyF,
                'g' => Key::KeyG,
                'h' => Key::KeyH,
                'i' => Key::KeyI,
                'j' => Key::KeyJ,
                'k' => Key::KeyK,
                'l' => Key::KeyL,
                'm' => Key::KeyM,
                'n' => Key::KeyN,
                'o' => Key::KeyO,
                'p' => Key::KeyP,
                'q' => Key::KeyQ,
                'r' => Key::KeyR,
                's' => Key::KeyS,
                't' => Key::KeyT,
                'u' => Key::KeyU,
                'v' => Key::KeyV,
                'w' => Key::KeyW,
                'x' => Key::KeyX,
                'y' => Key::KeyY,
                'z' => Key::KeyZ,
                '1' | '!' => Key::Key1,
                '2' | '"' => Key::Key2,
                '3' | '\u{A3}' => Key::Key3,
                '4' | '$' => Key::Key4,
                '5' | '%' => Key::Key5,
                '6' | '^' => Key::Key6,
                '7' | '&' => Key::Key7,
                '8' | '*' => Key::Key8,
                '9' | '(' => Key::Key9,
                '0' | ')' => Key::Key0,
                '\n' => Key::Return,
                '\t' => Key::Tab,
                ' ' => Key::Spacebar,
                '-' | '_' => Key::Minus,
                '=' | '+' => Key::Equals,
                '[' | '{' => Key::LeftSquare,
                ']' | '}' => Key::RightSquare,
                '\\' | '|' => Key::Backslash,
                '#' | '~' => Key::Hash,
                ';' | ':' => Key::SemiColon,
                '\'' | '@' => Key::Quote,
                ',' | '<' => Key::Comma,
                '.' | '>' => Key::Dot,
                _ => return None,
            },
        )
    }

    /// The modifier bits that typing `c` takes: left shift for an upper-case ASCII
    /// letter and for the upper character of a key, none otherwise.
    pub fn get_modifier(c: char) -> (modifier: Option<u8>)
        ensures
            modifier == (if needs_shift(c) {
                Some(LEFT_SHIFT)
            } else {
                None
            }),
    {
        if 'A' <= c && c <= 'Z' {
            return Some(LEFT_SHIFT);
        }
        match c {
            '!' | '"' | '\u{A3}' | '$' | '%' | '^' | '&' | '*' | '(' | ')' | '_' | '+' | '{' | '}'
            | '|' | '~' | ':' | '@' | '<' | '>' => Some(LEFT_SHIFT),
            _ => None,
        }
    }
}

/// A usage id names one key, is never zero, which marks an empty slot, and lies
/// within the keyboard page.
pub proof fn lemma_usage_id_names_one_key(first: Key, second: Key)
    ensures
        0 < first.usage_id() <= 0x65,
        first.usage_id() == second.usage_id() ==> first == second,
{
}

/// A key is found again from the character that it types alone, and typing that
/// character takes no shift.
pub proof fn lemma_plain_character(key: Key)
    requires
        key.plain() is Some,
    ensures
        Key::of_char(key.plain()->0) == Some(key),
        !needs_shift(key.plain()->0),
{
}

/// A key is found again from the character that it types under shift, and typing
/// that character takes shift.
pub proof fn lemma_shifted_character(key: Key)
    requires
        key.shifted() is Some,
    ensures
        Key::of_char(key.shifted()->0) == Some(key),
        needs_shift(key.shifted()->0),
{
}

/// A character is found on a key only where it is one of the two that the key
/// types: the upper one where it takes shift, the lower one where it takes none.
pub proof fn lemma_found_character(c: char)
    requires
        Key::of_char(c) is Some,
    ensures
        ({
            let key = Key::of_char(c)->0;
            if needs_shift(c) {
                key.shifted() == Some(c)
            } else {
                key.plain() == Some(c)
            }
        }),
{
}

/// A character that takes shift is on the keyboard.
pub proof fn lemma_shift_is_for_typed_characters(c: char)
    requires
        needs_shift(c),
    ensures
        Key::of_char(c) is Some,
{
}

/// A character and its ASCII upper case are typed with the same key. A lower-case
/// ASCII letter takes no shift and its upper case takes it; every other character
/// is its own upper case.
pub proof fn lemma_case_shares_key(c: char)
    ensures
        Key::of_char(ascii_uppercase(c)) == Key::of_char(c),
        'a' <= c && c <= 'z' ==> !needs_shift(c) && needs_shift(ascii_uppercase(c)),
        !('a' <= c && c <= 'z') ==> ascii_uppercase(c) == c,
{
}

} // verus!
