//! The keys of the console: which byte and which name stands for which key.

use vstd::prelude::*;
use vstd::string::*;

use crate::fault::Fault;

verus! {

/// A key of the console.
#[derive(Debug, Copy, Clone, PartialEq, Eq, Structural)]
pub enum Key {
    Q,
    W,
    E,
    A,
    S,
    D,
    Z,
    X,
    C,
    Up,
    Dwn,
    Lft,
    Rght,
    Spc,
}

/// The upper case of a text, as Unicode defines it, character by
/// character and without regard to any locale.
pub uninterp spec fn uppercase(text: Seq<char>) -> Seq<char>;

/// `str::to_uppercase` of the standard library. It is trusted to return
/// the upper case of its argument, which depends on the argument alone.
#[verifier::external_body]
fn to_uppercase(text: &str) -> (upper: String)
    ensures
        upper@ == uppercase(text@),
{
    text.to_uppercase()
}

impl Key {
    /// The key that a byte of a program stands for, if any.
    pub open spec fn decode(hex: u8) -> Option<Key> {
        if hex == 0x00 {
            Some(Key::Q)
        } else if hex == 0x01 {
            Some(Key::W)
        } else if hex == 0x02 {
            Some(Key::E)
        } else if hex == 0x03 {
            Some(Key::A)
        } else if hex == 0x04 {
            Some(Key::S)
        } else if hex == 0x05 {
            Some(Key::D)
        } else if hex == 0x06 {
            Some(Key::Z)
        } else if hex == 0x07 {
            Some(Key::X)
        } else if hex == 0x08 {
            Some(Key::C)
        } else if hex == 0xd1 {
            Some(Key::Up)
        } else if hex == 0xd2 {
            Some(Key::Dwn)
        } else if hex == 0xd3 {
            Some(Key::Lft)
        } else if hex == 0xd4 {
            Some(Key::Rght)
        } else if hex == 0xf0 {
            Some(Key::Spc)
        } else {
            None
        }
    }

    /// The key that a name in upper case stands for, if any. The space
    /// bar has two names: `SPC` and a single space.
    pub open spec fn named(name: Seq<char>) -> Option<Key> {
        if name == seq!['Q'] {
            Some(Key::Q)
        } else if name == seq!['W'] {
            Some(Key::W)
        } else if name == seq!['E'] {
            Some(Key::E)
        } else if name == seq!['A'] {
            Some(Key::A)
        } else if name == seq!['S'] {
            Some(Key::S)
        } else if name == seq!['D'] {
            Some(Key::D)
        } else if name == seq!['Z'] {
            Some(Key::Z)
        } else if name == seq!['X'] {
            Some(Key::X)
        } else if name == seq!['C'] {
            Some(Key::C)
        } else if name == seq!['U', 'P'] {
            Some(Key::Up)
        } else if name == seq!['D', 'W', 'N'] {
            Some(Key::Dwn)
        } else if name == seq!['L', 'F', 'T'] {
            Some(Key::Lft)
        } else if name == seq!['R', 'G', 'H', 'T'] {
            Some(Key::Rght)
        } else if name == seq!['S', 'P', 'C'] || name == seq![' '] {
            Some(Key::Spc)
        } else {
            None
        }
    }

    /// Looks a key up by its name, in whatever case the name is written.
    pub fn from_str(string: &str) -> (key: Option<Key>)
        ensures
            key == Key::named(uppercase(string@)),
    {
        let upper = to_uppercase(string);
        Key::from_name(upper.as_str())
    }

    /// Looks a key up by its name in upper case.
    pub fn from_name(name: &str) -> (key: Option<Key>)
        ensures
            key == Key::named(name@),
    {
        let n = name.unicode_len();
        if n == 0 || n > 4 {
            return None;
        }
        let c0 = name.get_char(0);
        if n == 1 {
            assert(name@ =~= seq![c0]);
            return match c0 {
                'Q' => Some(Key::Q),
                'W' => Some(Key::W),
                'E' => Some(Key::E),
                'A' => Some(Key::A),
                'S' => Some(Key::S),
                'D' => Some(Key::D),
                'Z' => Some(Key::Z),
                'X' => Some(Key::X),
                'C' => Some(Key::C),
                ' ' => Some(Key::Spc),
                _ => None,
            };
        }
        let c1 = name.get_char(1);
        if n == 2 {
            assert(name@ =~= seq![c0, c1]);
            return if c0 == 'U' && c1 == 'P' {
                Some(Key::Up)
            } else {
                None
            };
        }
        let c2 = name.get_char(2);
        if n == 3 {
            assert(name@ =~= seq![c0, c1, c2]);
            return if c0 == 'D' && c1 == 'W' && c2 == 'N' {
                Some(Key::Dwn)
            } else if c0 == 'L' && c1 == 'F' && c2 == 'T' {
                Some(Key::Lft)
            } else if c0 == 'S' && c1 == 'P' && c2 == 'C' {
                Some(Key::Spc)
            } else {
                None
            };
        }
        let c3 = name.get_char(3);
        assert(name@ =~= seq![c0, c1, c2, c3]);
        if c0 == 'R' && c1 == 'G' && c2 == 'H' && c3 == 'T' {
            Some(Key::Rght)
        } else {
            None
        }
    }

    /// Decodes a key byte of a program. A byte that stands for no key is
    /// a fault.
    pub fn from_hex(hex: u8) -> (key: Result<Key, Fault>)
        ensures
            key == match Key::decode(hex) {
                Some(k) => Ok::<Key, Fault>(k),
                None => Err(Fault::UnknownKeyCode(hex)),
            },
    {
        match hex {
            0x00 => Ok(Key::Q),
            0x01 => Ok(Key::W),
            0x02 => Ok(Key::E),
            0x03 => Ok(Key::A),
            0x04 => Ok(Key::S),
            0x05 => Ok(Key::D),
            0x06 => Ok(Key::Z),
            0x07 => Ok(Key::X),
            0x08 => Ok(Key::C),
            0xd1 => Ok(Key::Up),
            0xd2 => Ok(Key::Dwn),
            0xd3 => Ok(Key::Lft),
            0xd4 => Ok(Key::Rght),
            0xf0 => Ok(Key::Spc),
            any => Err(Fault::UnknownKeyCode(any)),
        }
    }
}

} // verus!
