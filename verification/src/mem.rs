//! The typed memory cell.

use vstd::prelude::*;

use crate::binary64;
use crate::bytecode::{signed, spec_signed, spec_word, word};
use crate::fault::Fault;

verus! {

/// One cell of the memory bank. Exactly one tag is active at a time.
///
/// A `Float` holds the bits of an IEEE 754 binary64 number.
#[derive(Debug, Clone, Copy, PartialEq)]
pub enum Mem {
    Str([char; 8]),
    ByteArr([u8; 8]),
    Int(i64),
    Float(u64),
    Nil,
}

/// Type tag of an integer literal.
pub const TAG_INT: u8 = 0xe0;

/// Type tag of a float literal.
pub const TAG_FLOAT: u8 = 0xf0;

/// Type tag of a string literal.
pub const TAG_STR: u8 = 0xab;

/// Type tag of a byte array literal.
pub const TAG_BYTES: u8 = 0x8a;

/// Eight bytes as eight characters, each the one that its byte numbers.
pub open spec fn spec_text(data: [u8; 8]) -> [char; 8] {
    [
        data[0] as char,
        data[1] as char,
        data[2] as char,
        data[3] as char,
        data[4] as char,
        data[5] as char,
        data[6] as char,
        data[7] as char,
    ]
}

/// The bytes `array` with `value` in slot `index`.
pub open spec fn spec_put(array: [u8; 8], index: int, value: u8) -> [u8; 8] {
    [
        if index == 0 { value } else { array[0] },
        if index == 1 { value } else { array[1] },
        if index == 2 { value } else { array[2] },
        if index == 3 { value } else { array[3] },
        if index == 4 { value } else { array[4] },
        if index == 5 { value } else { array[5] },
        if index == 6 { value } else { array[6] },
        if index == 7 { value } else { array[7] },
    ]
}

/// The characters `array` with `value` in slot `index`.
pub open spec fn spec_put_char(array: [char; 8], index: int, value: char) -> [char; 8] {
    [
        if index == 0 { value } else { array[0] },
        if index == 1 { value } else { array[1] },
        if index == 2 { value } else { array[2] },
        if index == 3 { value } else { array[3] },
        if index == 4 { value } else { array[4] },
        if index == 5 { value } else { array[5] },
        if index == 6 { value } else { array[6] },
        if index == 7 { value } else { array[7] },
    ]
}

impl Mem {
    /// The cell read as a number: the bits of the binary64 number that an
    /// integer converts to or that a float is. Other cells are no number.
    pub open spec fn numeric(self) -> Option<u64> {
        match self {
            Mem::Int(i) => Some(binary64::spec_from_i64(i)),
            Mem::Float(bits) => Some(bits),
            _ => None,
        }
    }

    /// The value that a literal of a program denotes, if its tag is one.
    pub open spec fn spec_literal(tag: u8, data: [u8; 8]) -> Option<Mem> {
        if tag == TAG_INT {
            Some(Mem::Int(spec_signed(spec_word(data))))
        } else if tag == TAG_FLOAT {
            Some(Mem::Float(spec_word(data)))
        } else if tag == TAG_STR {
            Some(Mem::Str(spec_text(data)))
        } else if tag == TAG_BYTES {
            Some(Mem::ByteArr(data))
        } else {
            None
        }
    }

    /// The cell after a write of `value` to slot `index`, if the cell
    /// holds an array.
    pub open spec fn spec_with_slot(self, index: int, value: u8) -> Option<Mem> {
        match self {
            Mem::ByteArr(array) => Some(Mem::ByteArr(spec_put(array, index, value))),
            Mem::Str(array) => Some(Mem::Str(spec_put_char(array, index, value as char))),
            _ => None,
        }
    }

    /// Reads the cell as a number, as the bits of a binary64 number. A
    /// cell that holds no number is handed back as it is; it is never
    /// read as some default.
    pub fn to_num(&self) -> (number: Result<u64, Mem>)
        ensures
            number == match self.numeric() {
                Some(bits) => Ok::<u64, Mem>(bits),
                None => Err(*self),
            },
    {
        match self {
            Mem::Int(i) => Ok(binary64::from_i64(*i)),
            Mem::Float(bits) => Ok(*bits),
            any => Err(*any),
        }
    }

    /// Decodes a literal of a program: a type tag and eight bytes of data.
    pub fn literal(tag: u8, data: [u8; 8]) -> (value: Result<Mem, Fault>)
        ensures
            value == match Mem::spec_literal(tag, data) {
                Some(v) => Ok::<Mem, Fault>(v),
                None => Err(Fault::UnknownTypeTag(tag)),
            },
    {
        if tag == TAG_INT {
            Ok(Mem::Int(signed(word(&data))))
        } else if tag == TAG_FLOAT {
            Ok(Mem::Float(word(&data)))
        } else if tag == TAG_STR {
            Ok(
                Mem::Str(
                    [
                        data[0] as char,
                        data[1] as char,
                        data[2] as char,
                        data[3] as char,
                        data[4] as char,
                        data[5] as char,
                        data[6] as char,
                        data[7] as char,
                    ],
                ),
            )
        } else if tag == TAG_BYTES {
            Ok(Mem::ByteArr(data))
        } else {
            Err(Fault::UnknownTypeTag(tag))
        }
    }

    /// Writes `value` to slot `index` of the array that the cell holds. A
    /// cell that holds no array is a type mismatch.
    pub fn with_slot(self, index: usize, value: u8) -> (cell: Result<Mem, Fault>)
        requires
            index < 8,
        ensures
            cell == match self.spec_with_slot(index as int, value) {
                Some(c) => Ok::<Mem, Fault>(c),
                None => Err(Fault::TypeMismatch(self)),
            },
    {
        match self {
            Mem::ByteArr(array) => {
                let mut array = array;
                array[index] = value;
                assert(array =~= spec_put(self->ByteArr_0, index as int, value));
                Ok(Mem::ByteArr(array))
            },
            Mem::Str(array) => {
                let mut array = array;
                array[index] = value as char;
                assert(array =~= spec_put_char(self->Str_0, index as int, value as char));
                Ok(Mem::Str(array))
            },
            any => Err(Fault::TypeMismatch(any)),
        }
    }
}

} // verus!
