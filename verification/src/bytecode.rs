//! The cursor over the bytes of a program, and the numbers that a program
//! spells out in eight bytes.

use vstd::prelude::*;

use crate::fault::Fault;

verus! {

/// The bytes of a program and the offset of the byte that is read next.
/// The offset may stand anywhere: at or past the end there is simply no
/// byte to read.
pub struct ByteCode(pub Vec<u8>, pub usize);

/// What a read at the cursor gave: a byte, or the cursor that had none left.
pub enum ByteOption<'a> {
    Byte(u8),
    End(&'a ByteCode),
}

impl ByteOption<'_> {
    /// The byte that was read.
    pub fn unwrap(self) -> (byte: u8)
        requires
            self is Byte,
        ensures
            self == ByteOption::Byte(byte),
    {
        match self {
            ByteOption::Byte(num) => num,
            ByteOption::End(_) => 0,
        }
    }

    /// The byte that was read. `panic_str` names what the caller was
    /// reading; nothing is done with it, as the byte is there.
    pub fn expect(self, panic_str: &str) -> (byte: u8)
        requires
            self is Byte,
        ensures
            self == ByteOption::Byte(byte),
    {
        match self {
            ByteOption::Byte(num) => num,
            ByteOption::End(_) => 0,
        }
    }

    /// The byte that was read, or the fault of a program that ends where
    /// it owes a byte.
    pub fn ok(self) -> (byte: Result<u8, Fault>)
        ensures
            byte == match self {
                ByteOption::Byte(num) => Ok::<u8, Fault>(num),
                ByteOption::End(_) => Err(Fault::UnexpectedEndOfProgram),
            },
    {
        match self {
            ByteOption::Byte(num) => Ok(num),
            ByteOption::End(_) => Err(Fault::UnexpectedEndOfProgram),
        }
    }
}

impl ByteCode {
    /// The bytes that the cursor runs over.
    pub open spec fn bytes(&self) -> Seq<u8> {
        self.0@
    }

    /// The offset of the byte that is read next.
    pub open spec fn offset(&self) -> int {
        self.1 as int
    }

    /// Whether a byte is left to read.
    pub open spec fn has_next(&self) -> bool {
        self.offset() < self.bytes().len()
    }

    /// A cursor at the first of the given bytes.
    pub fn new(bytecode: Vec<u8>) -> (code: Self)
        ensures
            code.0 == bytecode,
            code.offset() == 0,
    {
        Self(bytecode, 0)
    }

    /// Reads the byte at the cursor and moves past it. Where no byte is
    /// left the cursor stays and is handed back.
    pub fn next(&mut self) -> (byte: ByteOption<'_>)
        ensures
            final(self).bytes() == old(self).bytes(),
            old(self).has_next() ==> byte == ByteOption::Byte(old(self).bytes()[old(self).offset()])
                && final(self).offset() == old(self).offset() + 1,
            !old(self).has_next() ==> byte == ByteOption::End(final(self)) && final(self).offset()
                == old(self).offset(),
    {
        if self.1 < self.0.len() {
            let out = self.0[self.1];
            self.1 += 1;
            ByteOption::Byte(out)
        } else {
            ByteOption::End(self)
        }
    }

    /// Takes the first byte off the program, wherever the cursor stands.
    /// Where the program is empty it stays so and is handed back.
    pub fn shift(&mut self) -> (byte: ByteOption<'_>)
        ensures
            final(self).offset() == old(self).offset(),
            old(self).bytes().len() > 0 ==> byte == ByteOption::Byte(old(self).bytes()[0])
                && final(self).bytes() == old(self).bytes().drop_first(),
            old(self).bytes().len() == 0 ==> byte == ByteOption::End(final(self))
                && final(self).bytes() == old(self).bytes(),
    {
        if self.0.len() > 0 {
            let out = self.0.remove(0);
            assert(self.0@ =~= old(self).0@.drop_first());
            ByteOption::Byte(out)
        } else {
            ByteOption::End(self)
        }
    }

    /// Moves the cursor to an offset. Nothing is checked: an offset at or
    /// past the end leaves nothing to read.
    pub fn jmp(&mut self, byte: usize)
        ensures
            final(self).bytes() == old(self).bytes(),
            final(self).offset() == byte,
    {
        self.1 = byte
    }
}

/// The number that eight bytes spell, least significant byte first.
pub open spec fn spec_word(data: [u8; 8]) -> u64 {
    (data[0] + data[1] * 0x100 + data[2] * 0x1_0000 + data[3] * 0x100_0000 + data[4]
        * 0x1_0000_0000 + data[5] * 0x100_0000_0000 + data[6] * 0x1_0000_0000_0000 + data[7]
        * 0x100_0000_0000_0000) as u64
}

/// The signed integer whose two's complement is `word`.
pub open spec fn spec_signed(word: u64) -> i64 {
    if word >= 0x8000_0000_0000_0000 {
        (word - 0x1_0000_0000_0000_0000) as i64
    } else {
        word as i64
    }
}

/// The two's complement of a signed integer.
pub open spec fn spec_unsigned(value: i64) -> u64 {
    if value < 0 {
        (value + 0x1_0000_0000_0000_0000) as u64
    } else {
        value as u64
    }
}

/// The offset that a jump to `target` moves the cursor to: the target,
/// or the largest offset there is where the target is beyond it.
pub open spec fn spec_landing(target: u64) -> usize {
    if target <= usize::MAX {
        target as usize
    } else {
        usize::MAX
    }
}

/// Reads eight bytes as a little-endian number.
pub fn word(data: &[u8; 8]) -> (value: u64)
    ensures
        value == spec_word(*data),
{
    data[0] as u64 + data[1] as u64 * 0x100 + data[2] as u64 * 0x1_0000 + data[3] as u64
        * 0x100_0000 + data[4] as u64 * 0x1_0000_0000 + data[5] as u64 * 0x100_0000_0000
        + data[6] as u64 * 0x1_0000_0000_0000 + data[7] as u64 * 0x100_0000_0000_0000
}

/// Reads a number as the two's complement of a signed integer.
pub fn signed(word: u64) -> (value: i64)
    ensures
        value == spec_signed(word),
{
    if word >= 0x8000_0000_0000_0000 {
        (word - 0x8000_0000_0000_0000) as i64 + i64::MIN
    } else {
        word as i64
    }
}

/// Gives the two's complement of a signed integer.
pub fn unsigned(value: i64) -> (word: u64)
    ensures
        word == spec_unsigned(value),
{
    if value < 0 {
        u64::MAX - ((-(value + 1)) as u64)
    } else {
        value as u64
    }
}

/// Gives the offset that a jump to `target` moves the cursor to.
pub fn landing(target: u64) -> (offset: usize)
    ensures
        offset == spec_landing(target),
{
    if target <= usize::MAX as u64 {
        target as usize
    } else {
        usize::MAX
    }
}

} // verus!
