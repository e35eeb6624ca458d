//! The instruction set: the opcodes, their operands, and how an
//! instruction is read off the body of a program.

use vstd::prelude::*;

use crate::bytecode::{spec_word, word, ByteCode};
use crate::fault::Fault;

verus! {

pub const NOP: u8 = 0x00;

pub const PIXEL_LIT: u8 = 0x01;

pub const PIXEL_MEM: u8 = 0x02;

pub const SPRITE_BLIT: u8 = 0x03;

pub const VAR_SET: u8 = 0xa1;

pub const LET: u8 = 0xa2;

pub const ARRAY_WRITE: u8 = 0xa3;

pub const NOT: u8 = 0xb0;

pub const GT: u8 = 0xb1;

pub const LT: u8 = 0xb2;

pub const KEY: u8 = 0xd0;

pub const TJMP: u8 = 0xe1;

pub const FJMP: u8 = 0xe2;

pub const JMP: u8 = 0xe3;

pub const VJMP: u8 = 0xe4;

pub const FDIV: u8 = 0xf0;

pub const FSUB: u8 = 0xf1;

pub const FADD: u8 = 0xf2;

pub const FMUL: u8 = 0xf3;

pub const DIV: u8 = 0xf4;

pub const SUB: u8 = 0xf5;

pub const ADD: u8 = 0xf6;

pub const MUL: u8 = 0xf7;

pub const RENDER: u8 = 0xfb;

pub const CLEAR: u8 = 0xfc;

/// One of the four operations of arithmetic.
#[derive(Debug, Clone, Copy, PartialEq, Eq, Structural)]
pub enum Arith {
    Div,
    Sub,
    Add,
    Mul,
}

/// An instruction with its operands, as they stand in the program: an
/// address, a colour, a key or a type tag is still the byte that was read.
#[derive(Debug, Clone, Copy, PartialEq)]
pub enum Instr {
    /// Does nothing.
    Nop,
    /// Draws a pixel at the column and row given.
    PixelLit { x: u8, y: u8, colour: u8 },
    /// Draws a pixel at the column and row that two cells hold.
    PixelMem { x: u8, y: u8, colour: u8 },
    /// Draws the eight rows of eight pixels that eight cells hold, with
    /// the top left corner at the column and row that two cells hold.
    SpriteBlit { rows: [u8; 8], x: u8, y: u8 },
    /// Computes with two numbers as floats and stores a float.
    Float { op: Arith, lhs: u8, rhs: u8, dest: u8 },
    /// Computes with two numbers as integers and stores an integer.
    Int { op: Arith, lhs: u8, rhs: u8, dest: u8 },
    /// Stores 1 where a cell holds the integer 0, and 0 where it holds
    /// anything else.
    Not { src: u8, dest: u8 },
    /// Stores 1 where the first number is the greater one, else 0.
    Gt { lhs: u8, rhs: u8, dest: u8 },
    /// Stores 1 where the first number is the smaller one, else 0.
    Lt { lhs: u8, rhs: u8, dest: u8 },
    /// Stores a literal.
    VarSet { tag: u8, data: [u8; 8], dest: u8 },
    /// Stores a literal where the cell is empty.
    Let { tag: u8, data: [u8; 8], dest: u8 },
    /// Writes a byte to a slot of an array.
    ArrayWrite { array: u8, index: u8, value: u8 },
    /// Jumps where a cell holds the integer 1.
    Tjmp { cond: u8, target: u64 },
    /// Jumps where a cell holds anything but the integer 1.
    Fjmp { cond: u8, target: u64 },
    /// Jumps.
    Jmp { target: u64 },
    /// Jumps to the offset that a cell holds.
    Vjmp { addr: u8 },
    /// Stores 1 where a key is down, else 0.
    Key { code: u8, dest: u8 },
    /// Shows the framebuffer.
    Render,
    /// Fills the framebuffer with one colour.
    Clear { colour: u8 },
}

/// The number of operand bytes that follow an opcode; `None` for a byte
/// that is no opcode.
pub open spec fn spec_arity(opcode: u8) -> Option<nat> {
    if opcode == NOP || opcode == RENDER {
        Some(0)
    } else if opcode == CLEAR || opcode == VJMP {
        Some(1)
    } else if opcode == NOT || opcode == KEY {
        Some(2)
    } else if opcode == PIXEL_LIT || opcode == PIXEL_MEM || opcode == GT || opcode == LT
        || opcode == ARRAY_WRITE || (FDIV <= opcode && opcode <= MUL) {
        Some(3)
    } else if opcode == JMP {
        Some(8)
    } else if opcode == TJMP || opcode == FJMP {
        Some(9)
    } else if opcode == SPRITE_BLIT || opcode == VAR_SET || opcode == LET {
        Some(10)
    } else {
        None
    }
}

/// The eight bytes of `operands` from `from` on.
pub open spec fn eight(operands: Seq<u8>, from: int) -> [u8; 8] {
    [
        operands[from],
        operands[from + 1],
        operands[from + 2],
        operands[from + 3],
        operands[from + 4],
        operands[from + 5],
        operands[from + 6],
        operands[from + 7],
    ]
}

/// The operation of an arithmetic opcode.
pub open spec fn spec_arith(opcode: u8) -> Arith {
    if opcode == FDIV || opcode == DIV {
        Arith::Div
    } else if opcode == FSUB || opcode == SUB {
        Arith::Sub
    } else if opcode == FADD || opcode == ADD {
        Arith::Add
    } else {
        Arith::Mul
    }
}

/// The instruction that an opcode and its operand bytes make.
pub open spec fn assemble(opcode: u8, operands: Seq<u8>) -> Instr {
    if opcode == PIXEL_LIT {
        Instr::PixelLit { x: operands[0], y: operands[1], colour: operands[2] }
    } else if opcode == PIXEL_MEM {
        Instr::PixelMem { x: operands[0], y: operands[1], colour: operands[2] }
    } else if opcode == SPRITE_BLIT {
        Instr::SpriteBlit { rows: eight(operands, 0), x: operands[8], y: operands[9] }
    } else if FDIV <= opcode && opcode <= FMUL {
        Instr::Float {
            op: spec_arith(opcode),
            lhs: operands[0],
            rhs: operands[1],
            dest: operands[2],
        }
    } else if DIV <= opcode && opcode <= MUL {
        Instr::Int { op: spec_arith(opcode), lhs: operands[0], rhs: operands[1], dest: operands[2] }
    } else if opcode == NOT {
        Instr::Not { src: operands[0], dest: operands[1] }
    } else if opcode == GT {
        Instr::Gt { lhs: operands[0], rhs: operands[1], dest: operands[2] }
    } else if opcode == LT {
        Instr::Lt { lhs: operands[0], rhs: operands[1], dest: operands[2] }
    } else if opcode == VAR_SET {
        Instr::VarSet { tag: operands[0], data: eight(operands, 1), dest: operands[9] }
    } else if opcode == LET {
        Instr::Let { tag: operands[0], data: eight(operands, 1), dest: operands[9] }
    } else if opcode == ARRAY_WRITE {
        Instr::ArrayWrite { array: operands[0], index: operands[1], value: operands[2] }
    } else if opcode == TJMP {
        Instr::Tjmp { cond: operands[0], target: spec_word(eight(operands, 1)) }
    } else if opcode == FJMP {
        Instr::Fjmp { cond: operands[0], target: spec_word(eight(operands, 1)) }
    } else if opcode == JMP {
        Instr::Jmp { target: spec_word(eight(operands, 0)) }
    } else if opcode == VJMP {
        Instr::Vjmp { addr: operands[0] }
    } else if opcode == KEY {
        Instr::Key { code: operands[0], dest: operands[1] }
    } else if opcode == RENDER {
        Instr::Render
    } else if opcode == CLEAR {
        Instr::Clear { colour: operands[0] }
    } else {
        Instr::Nop
    }
}

/// The `count` bytes of `code` from offset `at` on, if the code has them.
pub open spec fn operands_at(code: Seq<u8>, at: int, count: nat) -> Option<Seq<u8>> {
    if count == 0 {
        Some(Seq::empty())
    } else if at + count <= code.len() {
        Some(code.subrange(at, at + count))
    } else {
        None
    }
}

/// Reads the operands of `opcode` from offset `at` of `code`: gives the
/// instruction, or the fault of a byte that is no opcode or of a program
/// that ends among the operands, and the offset at which the cursor then
/// stands.
pub open spec fn spec_decode(code: Seq<u8>, at: int, opcode: u8) -> (Result<Instr, Fault>, int) {
    match spec_arity(opcode) {
        None => (Err(Fault::UnknownOpcode(opcode)), at),
        Some(count) => match operands_at(code, at, count) {
            Some(operands) => (Ok(assemble(opcode, operands)), at + count),
            None => (
                Err(Fault::UnexpectedEndOfProgram),
                if at < code.len() {
                    code.len() as int
                } else {
                    at
                },
            ),
        },
    }
}

/// Gives the number of operand bytes that follow an opcode.
pub fn arity(opcode: u8) -> (count: Option<usize>)
    ensures
        match spec_arity(opcode) {
            Some(n) => count == Some(n as usize) && n <= 10,
            None => count.is_none(),
        },
{
    if opcode == NOP || opcode == RENDER {
        Some(0)
    } else if opcode == CLEAR || opcode == VJMP {
        Some(1)
    } else if opcode == NOT || opcode == KEY {
        Some(2)
    } else if opcode == PIXEL_LIT || opcode == PIXEL_MEM || opcode == GT || opcode == LT
        || opcode == ARRAY_WRITE || (FDIV <= opcode && opcode <= MUL) {
        Some(3)
    } else if opcode == JMP {
        Some(8)
    } else if opcode == TJMP || opcode == FJMP {
        Some(9)
    } else if opcode == SPRITE_BLIT || opcode == VAR_SET || opcode == LET {
        Some(10)
    } else {
        None
    }
}

fn arith(opcode: u8) -> (op: Arith)
    ensures
        op == spec_arith(opcode),
{
    if opcode == FDIV || opcode == DIV {
        Arith::Div
    } else if opcode == FSUB || opcode == SUB {
        Arith::Sub
    } else if opcode == FADD || opcode == ADD {
        Arith::Add
    } else {
        Arith::Mul
    }
}

fn take_eight(operands: &[u8; 10], from: usize) -> (bytes: [u8; 8])
    requires
        from <= 2,
    ensures
        bytes == eight(operands@, from as int),
{
    [
        operands[from],
        operands[from + 1],
        operands[from + 2],
        operands[from + 3],
        operands[from + 4],
        operands[from + 5],
        operands[from + 6],
        operands[from + 7],
    ]
}

impl Instr {
    /// Reads the operands of an opcode at the cursor and moves the cursor
    /// past them. A byte that is no opcode leaves the cursor where it
    /// stands; a program that ends among the operands leaves it at the end.
    pub fn decode(code: &mut ByteCode, opcode: u8) -> (instr: Result<Instr, Fault>)
        ensures
            final(code).bytes() == old(code).bytes(),
            (instr, final(code).offset()) == spec_decode(
                old(code).bytes(),
                old(code).offset(),
                opcode,
            ),
    {
        let count = match arity(opcode) {
            Some(count) => count,
            None => {
                return Err(Fault::UnknownOpcode(opcode));
            },
        };
        let ghost at = code.offset();
        let ghost bytes = code.bytes();
        let mut operands = [0u8;10];
        let mut read: usize = 0;
        while read < count
            invariant
                read <= count <= 10,
                spec_arity(opcode) == Some(count as nat),
                bytes == old(code).bytes(),
                at == old(code).offset(),
                code.bytes() == bytes,
                code.offset() == at + read,
                at + read <= bytes.len() || read == 0,
                forall|j: int| 0 <= j < read ==> operands[j] == bytes[at + j],
            decreases count - read,
        {
            match code.next() {
                crate::bytecode::ByteOption::Byte(byte) => {
                    operands[read] = byte;
                },
                crate::bytecode::ByteOption::End(_) => {
                    return Err(Fault::UnexpectedEndOfProgram);
                },
            }
            read = read + 1;
        }
        let ghost taken = operands_at(bytes, at, count as nat).unwrap();
        assert(forall|j: int| 0 <= j < count ==> taken[j] == operands[j]);
        let instr = if opcode == PIXEL_LIT {
            Instr::PixelLit { x: operands[0], y: operands[1], colour: operands[2] }
        } else if opcode == PIXEL_MEM {
            Instr::PixelMem { x: operands[0], y: operands[1], colour: operands[2] }
        } else if opcode == SPRITE_BLIT {
            let rows = take_eight(&operands, 0);
            assert(rows =~= eight(taken, 0));
            Instr::SpriteBlit { rows, x: operands[8], y: operands[9] }
        } else if FDIV <= opcode && opcode <= FMUL {
            Instr::Float {
                op: arith(opcode),
                lhs: operands[0],
                rhs: operands[1],
                dest: operands[2],
            }
        } else if DIV <= opcode && opcode <= MUL {
            Instr::Int { op: arith(opcode), lhs: operands[0], rhs: operands[1], dest: operands[2] }
        } else if opcode == NOT {
            Instr::Not { src: operands[0], dest: operands[1] }
        } else if opcode == GT {
            Instr::Gt { lhs: operands[0], rhs: operands[1], dest: operands[2] }
        } else if opcode == LT {
            Instr::Lt { lhs: operands[0], rhs: operands[1], dest: operands[2] }
        } else if opcode == VAR_SET {
            let data = take_eight(&operands, 1);
            assert(data =~= eight(taken, 1));
            Instr::VarSet { tag: operands[0], data, dest: operands[9] }
        } else if opcode == LET {
            let data = take_eight(&operands, 1);
            assert(data =~= eight(taken, 1));
            Instr::Let { tag: operands[0], data, dest: operands[9] }
        } else if opcode == ARRAY_WRITE {
            Instr::ArrayWrite { array: operands[0], index: operands[1], value: operands[2] }
        } else if opcode == TJMP {
            let data = take_eight(&operands, 1);
            assert(data =~= eight(taken, 1));
            Instr::Tjmp { cond: operands[0], target: word(&data) }
        } else if opcode == FJMP {
            let data = take_eight(&operands, 1);
            assert(data =~= eight(taken, 1));
            Instr::Fjmp { cond: operands[0], target: word(&data) }
        } else if opcode == JMP {
            let data = take_eight(&operands, 0);
            assert(data =~= eight(taken, 0));
            Instr::Jmp { target: word(&data) }
        } else if opcode == VJMP {
            Instr::Vjmp { addr: operands[0] }
        } else if opcode == KEY {
            Instr::Key { code: operands[0], dest: operands[1] }
        } else if opcode == RENDER {
            Instr::Render
        } else if opcode == CLEAR {
            Instr::Clear { colour: operands[0] }
        } else {
            Instr::Nop
        };
        Ok(instr)
    }
}

} // verus!
