//! What the machine is and does, stated over plain values.
//!
//! [`Machine`] is the console as a mathematical value, and the functions
//! on it say what every instruction and every step does to it. The
//! executable machine is held to these.

use vstd::prelude::*;

use crate::binary64;
use crate::bytecode::{spec_landing, spec_unsigned};
use crate::color::Colour;
use crate::fault::Fault;
use crate::header::HeaderView;
use crate::instr::{spec_decode, Arith, Instr};
use crate::key::Key;
use crate::mem::Mem;
use crate::{CELLS, HEIGHT, RES, WIDTH};

verus! {

/// Where the machine stands between two steps.
#[derive(Debug, Clone, Copy, PartialEq, Eq, Structural)]
pub enum Phase {
    /// About to fetch the next opcode.
    Fetch,
    /// An opcode is fetched; the machine waits to hear whether the window
    /// is still open before it goes on.
    Gate,
    /// The program has run off its end and the window is kept open; the
    /// machine waits to hear that it was closed.
    Idle,
    /// The machine waits to hear whether a key is down; the answer goes to
    /// the cell with this address.
    AwaitKey(u8),
    /// The machine waits for the float that the host computes; it goes to
    /// the cell with this address.
    AwaitFloat(u8),
    /// The run is over.
    Halted,
}

/// What the host reports to the machine.
#[derive(Debug, Clone, Copy, PartialEq, Eq, Structural)]
pub enum Event {
    /// Nothing: the host has done what it was asked and the machine may go on.
    Resume,
    /// Whether the window is open.
    Open(bool),
    /// Whether the key that was asked for is down.
    Key(bool),
    /// The bits of the float that was asked for.
    Float(u64),
}

/// What the machine asks of the host.
#[derive(Debug, Clone, Copy, PartialEq, Eq, Structural)]
pub enum Action {
    /// Nothing; report `Resume`.
    Continue,
    /// Report whether the window is open.
    Poll,
    /// Let the window handle its events, then report `Resume`.
    Pump,
    /// Show the framebuffer, let the window handle its events, then report
    /// `Resume`.
    Present,
    /// Report whether the key is down.
    Key(Key),
    /// Compute with the two binary64 numbers, the first on the left, and
    /// report the bits of the result.
    Float(Arith, u64, u64),
    /// Nothing more: the run is over.
    Halt,
}

/// The console as a value: memory, framebuffer, program and cursor.
#[verifier::ext_equal]
pub struct Machine {
    /// The cells of the memory bank.
    pub memory: Seq<Mem>,
    /// The pixels of the framebuffer, row by row.
    pub buf: Seq<Colour>,
    /// What the header of the program said.
    pub header: HeaderView,
    /// The body of the program.
    pub code: Seq<u8>,
    /// The offset in the body of the byte that is read next.
    pub at: int,
    /// Where the machine stands.
    pub phase: Phase,
    /// The opcode that was fetched last.
    pub opcode: u8,
}

/// The cell that holds 1 for true and 0 for false.
pub open spec fn flag(answer: bool) -> Mem {
    Mem::Int(if answer { 1 } else { 0 })
}

/// The quotient of two integers, rounded towards zero.
pub open spec fn quotient(x: int, d: int) -> int {
    if x >= 0 && d > 0 {
        x / d
    } else if x < 0 && d < 0 {
        (-x) / (-d)
    } else if x < 0 {
        -((-x) / d)
    } else {
        -(x / (-d))
    }
}

/// What integer arithmetic gives: sums, differences and products wrap
/// round the ends of the range; a division by zero is a fault, and so is
/// the one division whose quotient does not fit, that of the least
/// integer by -1.
pub open spec fn spec_compute(op: Arith, lhs: i64, rhs: i64) -> Result<i64, Fault> {
    match op {
        Arith::Add => Ok(lhs.wrapping_add(rhs)),
        Arith::Sub => Ok(lhs.wrapping_sub(rhs)),
        Arith::Mul => Ok(lhs.wrapping_mul(rhs)),
        Arith::Div => if rhs == 0 {
            Err(Fault::DivisionByZero)
        } else if quotient(lhs as int, rhs as int) > i64::MAX {
            Err(Fault::DivisionOverflow)
        } else {
            Ok(quotient(lhs as int, rhs as int) as i64)
        },
    }
}

/// The place in the framebuffer of pixel `k` of a sprite whose top left
/// corner is at column `x` and row `y`, if the pixel is inside. The
/// pixels of a sprite are numbered row by row, eight to a row.
pub open spec fn sprite_index(x: i64, y: i64, k: int) -> Option<int> {
    let index = x + k % 8 + (y + k / 8) * WIDTH;
    if 0 <= x && 0 <= y && index < RES {
        Some(index)
    } else {
        None
    }
}

impl Machine {
    /// The cell at an address.
    pub open spec fn cell(self, addr: u8) -> Result<Mem, Fault> {
        if addr < CELLS {
            Ok(self.memory[addr as int])
        } else {
            Err(Fault::AddressOutOfRange(addr))
        }
    }

    /// The cell at an address, read as a number; a cell that holds no
    /// number is a type mismatch.
    pub open spec fn number(self, addr: u8) -> Result<u64, Fault> {
        match self.cell(addr) {
            Err(fault) => Err(fault),
            Ok(cell) => match cell.numeric() {
                Some(bits) => Ok(bits),
                None => Err(Fault::TypeMismatch(cell)),
            },
        }
    }

    /// The cell at an address, which has to hold an integer.
    pub open spec fn integer(self, addr: u8) -> Result<i64, Fault> {
        match self.cell(addr) {
            Err(fault) => Err(fault),
            Ok(Mem::Int(value)) => Ok(value),
            Ok(cell) => Err(Fault::TypeMismatch(cell)),
        }
    }

    /// The cell at an address, which has to hold a byte array.
    pub open spec fn row(self, addr: u8) -> Result<[u8; 8], Fault> {
        match self.cell(addr) {
            Err(fault) => Err(fault),
            Ok(Mem::ByteArr(bytes)) => Ok(bytes),
            Ok(cell) => Err(Fault::TypeMismatch(cell)),
        }
    }

    /// The machine with a value written to a cell.
    pub open spec fn store(self, addr: u8, value: Mem) -> Result<Machine, Fault> {
        if addr < CELLS {
            Ok(Machine { memory: self.memory.update(addr as int, value), ..self })
        } else {
            Err(Fault::AddressOutOfRange(addr))
        }
    }

    /// The machine with a colour drawn at a place of the framebuffer.
    /// Drawing `Transparent` changes nothing, wherever it is drawn;
    /// drawing anything else outside the framebuffer is a fault.
    pub open spec fn plot(self, place: Option<int>, colour: Colour) -> Result<Machine, Fault> {
        if colour == Colour::Transparent {
            Ok(self)
        } else {
            match place {
                Some(index) => Ok(Machine { buf: self.buf.update(index, colour), ..self }),
                None => Err(Fault::PixelOutOfRange),
            }
        }
    }

    /// The machine with its cursor moved to a target.
    pub open spec fn jump(self, target: u64) -> Machine {
        Machine { at: spec_landing(target) as int, ..self }
    }

    /// `PIXEL_LIT`: the colour is decoded and drawn at column `x`, row `y`.
    pub open spec fn pixel_lit(self, x: u8, y: u8, colour: u8) -> Result<Machine, Fault> {
        match Colour::decode(colour) {
            None => Err(Fault::UnknownColorCode(colour)),
            Some(c) => self.plot(
                if x + y * WIDTH < RES {
                    Some(x + y * WIDTH)
                } else {
                    None
                },
                c,
            ),
        }
    }

    /// `PIXEL_MEM`: column and row are read from two cells as numbers, cut
    /// off to unsigned integers and wrapped round the width and the height.
    pub open spec fn pixel_mem(self, x: u8, y: u8, colour: u8) -> Result<Machine, Fault> {
        let column = self.number(x);
        let line = self.number(y);
        if column is Err {
            Err(column->Err_0)
        } else if line is Err {
            Err(line->Err_0)
        } else {
            match Colour::decode(colour) {
                None => Err(Fault::UnknownColorCode(colour)),
                Some(c) => self.plot(
                    Some(
                        binary64::spec_to_u64(column->Ok_0) % (WIDTH as u64) + (
                        binary64::spec_to_u64(line->Ok_0) % (HEIGHT as u64)) * WIDTH,
                    ),
                    c,
                ),
            }
        }
    }

    /// The first fault among the cells that are to hold rows `from` to 7
    /// of a sprite.
    pub open spec fn bad_row(self, rows: [u8; 8], from: int) -> Option<Fault>
        decreases 8 - from,
    {
        if from < 0 || from >= 8 {
            None
        } else {
            match self.row(rows[from]) {
                Err(fault) => Some(fault),
                Ok(_) => self.bad_row(rows, from + 1),
            }
        }
    }

    /// The colour byte of pixel `k` of the sprite that the cells hold.
    pub open spec fn sprite_byte(self, rows: [u8; 8], k: int) -> u8 {
        self.row(rows[k / 8])->Ok_0[k % 8]
    }

    /// Draws pixels `from` to 63 of a sprite, one after the other, and
    /// stops at the first that faults; what was drawn before it stays.
    pub open spec fn blit(self, rows: [u8; 8], x: i64, y: i64, from: int) -> (Machine, Option<Fault>)
        decreases 64 - from,
    {
        if from < 0 || from >= 64 {
            (self, None)
        } else {
            let byte = self.sprite_byte(rows, from);
            match Colour::decode(byte) {
                None => (self, Some(Fault::UnknownColorCode(byte))),
                Some(c) => match self.plot(sprite_index(x, y, from), c) {
                    Err(fault) => (self, Some(fault)),
                    Ok(next) => next.blit(rows, x, y, from + 1),
                },
            }
        }
    }

    /// `SPRITE_BLIT`: eight cells have to hold byte arrays and two cells
    /// integers; then the sixty-four pixels are drawn.
    pub open spec fn sprite_blit(self, rows: [u8; 8], x: u8, y: u8) -> (Machine, Option<Fault>) {
        let bad = self.bad_row(rows, 0);
        let column = self.integer(x);
        let line = self.integer(y);
        if bad is Some {
            (self, bad)
        } else if column is Err {
            (self, Some(column->Err_0))
        } else if line is Err {
            (self, Some(line->Err_0))
        } else {
            self.blit(rows, column->Ok_0, line->Ok_0, 0)
        }
    }

    /// The two numbers that an instruction of arithmetic or a comparison
    /// works on.
    pub open spec fn numbers(self, lhs: u8, rhs: u8) -> Result<(u64, u64), Fault> {
        let left = self.number(lhs);
        let right = self.number(rhs);
        if left is Err {
            Err(left->Err_0)
        } else if right is Err {
            Err(right->Err_0)
        } else {
            Ok((left->Ok_0, right->Ok_0))
        }
    }

    /// `DIV`, `SUB`, `ADD`, `MUL`: both numbers are cut off to integers,
    /// and the result is stored as an integer.
    pub open spec fn int_arith(self, op: Arith, lhs: u8, rhs: u8, dest: u8) -> Result<
        Machine,
        Fault,
    > {
        match self.numbers(lhs, rhs) {
            Err(fault) => Err(fault),
            Ok((left, right)) => match spec_compute(
                op,
                binary64::spec_to_i64(left),
                binary64::spec_to_i64(right),
            ) {
                Err(fault) => Err(fault),
                Ok(value) => self.store(dest, Mem::Int(value)),
            },
        }
    }

    /// `NOT`: only the integer 0 counts as false. Every other value, of
    /// whatever type, counts as true.
    pub open spec fn not(self, src: u8, dest: u8) -> Result<Machine, Fault> {
        match self.cell(src) {
            Err(fault) => Err(fault),
            Ok(cell) => self.store(dest, flag(cell == Mem::Int(0))),
        }
    }

    /// `GT` and `LT`: the two numbers are compared as binary64 numbers.
    pub open spec fn compare(self, greater: bool, lhs: u8, rhs: u8, dest: u8) -> Result<
        Machine,
        Fault,
    > {
        match self.numbers(lhs, rhs) {
            Err(fault) => Err(fault),
            Ok((left, right)) => self.store(
                dest,
                flag(
                    if greater {
                        binary64::spec_less(right, left)
                    } else {
                        binary64::spec_less(left, right)
                    },
                ),
            ),
        }
    }

    /// `VAR_SET`: the literal is stored, whatever the cell held.
    pub open spec fn var_set(self, tag: u8, data: [u8; 8], dest: u8) -> Result<Machine, Fault> {
        match Mem::spec_literal(tag, data) {
            None => Err(Fault::UnknownTypeTag(tag)),
            Some(value) => self.store(dest, value),
        }
    }

    /// `LET`: the literal is stored where the cell is empty. A cell that
    /// holds anything is left alone, and the literal is not even decoded.
    pub open spec fn let_(self, tag: u8, data: [u8; 8], dest: u8) -> Result<Machine, Fault> {
        match self.cell(dest) {
            Err(fault) => Err(fault),
            Ok(Mem::Nil) => self.var_set(tag, data, dest),
            Ok(_) => Ok(self),
        }
    }

    /// `ARRAY_WRITE`: the index has to be one of the eight slots, and the
    /// cell has to hold an array.
    pub open spec fn array_write(self, array: u8, index: u8, value: u8) -> Result<Machine, Fault> {
        if index > 7 {
            Err(Fault::IndexOutOfRange(index))
        } else {
            match self.cell(array) {
                Err(fault) => Err(fault),
                Ok(cell) => match cell.spec_with_slot(index as int, value) {
                    None => Err(Fault::TypeMismatch(cell)),
                    Some(changed) => self.store(array, changed),
                },
            }
        }
    }

    /// `TJMP` and `FJMP`: the jump is taken where the cell holds the
    /// integer 1 (`wanted`), or where it holds anything else (`!wanted`).
    pub open spec fn branch(self, wanted: bool, cond: u8, target: u64) -> Result<Machine, Fault> {
        match self.cell(cond) {
            Err(fault) => Err(fault),
            Ok(cell) => if (cell == Mem::Int(1)) == wanted {
                Ok(self.jump(target))
            } else {
                Ok(self)
            },
        }
    }

    /// `VJMP`: the cell has to hold an integer, and the cursor moves to
    /// the offset that its two's complement names.
    pub open spec fn computed_jump(self, addr: u8) -> Result<Machine, Fault> {
        match self.integer(addr) {
            Err(fault) => Err(fault),
            Ok(value) => Ok(self.jump(spec_unsigned(value))),
        }
    }

    /// `CLEAR`: every pixel takes the colour.
    pub open spec fn clear(self, colour: u8) -> Result<Machine, Fault> {
        match Colour::decode(colour) {
            None => Err(Fault::UnknownColorCode(colour)),
            Some(c) => Ok(Machine { buf: Seq::new(RES as nat, |i: int| c), ..self }),
        }
    }

    /// What an instruction that needs nothing of the host does to the
    /// machine. On a fault the machine is as it was.
    pub open spec fn change(self, instr: Instr) -> Result<Machine, Fault> {
        match instr {
            Instr::PixelLit { x, y, colour } => self.pixel_lit(x, y, colour),
            Instr::PixelMem { x, y, colour } => self.pixel_mem(x, y, colour),
            Instr::Int { op, lhs, rhs, dest } => self.int_arith(op, lhs, rhs, dest),
            Instr::Not { src, dest } => self.not(src, dest),
            Instr::Gt { lhs, rhs, dest } => self.compare(true, lhs, rhs, dest),
            Instr::Lt { lhs, rhs, dest } => self.compare(false, lhs, rhs, dest),
            Instr::VarSet { tag, data, dest } => self.var_set(tag, data, dest),
            Instr::Let { tag, data, dest } => self.let_(tag, data, dest),
            Instr::ArrayWrite { array, index, value } => self.array_write(array, index, value),
            Instr::Tjmp { cond, target } => self.branch(true, cond, target),
            Instr::Fjmp { cond, target } => self.branch(false, cond, target),
            Instr::Jmp { target } => Ok(self.jump(target)),
            Instr::Vjmp { addr } => self.computed_jump(addr),
            Instr::Clear { colour } => self.clear(colour),
            _ => Ok(self),
        }
    }

    /// The machine in another phase.
    pub open spec fn enter(self, phase: Phase) -> Machine {
        Machine { phase, ..self }
    }

    /// What an instruction does to the machine, and what the machine
    /// then asks of the host.
    pub open spec fn execute(self, instr: Instr) -> (Machine, Result<Action, Fault>) {
        match instr {
            Instr::SpriteBlit { rows, x, y } => {
                let (drawn, fault) = self.sprite_blit(rows, x, y);
                match fault {
                    Some(f) => (drawn, Err(f)),
                    None => (drawn.enter(Phase::Fetch), Ok(Action::Pump)),
                }
            },
            Instr::Float { op, lhs, rhs, dest } => match self.numbers(lhs, rhs) {
                Err(fault) => (self, Err(fault)),
                Ok((left, right)) => (
                    self.enter(Phase::AwaitFloat(dest)),
                    Ok(Action::Float(op, left, right)),
                ),
            },
            Instr::Key { code, dest } => match Key::decode(code) {
                None => (self, Err(Fault::UnknownKeyCode(code))),
                Some(key) => (self.enter(Phase::AwaitKey(dest)), Ok(Action::Key(key))),
            },
            Instr::Render => (self.enter(Phase::Fetch), Ok(Action::Present)),
            _ => match self.change(instr) {
                Err(fault) => (self, Err(fault)),
                Ok(changed) => (changed.enter(Phase::Fetch), Ok(Action::Pump)),
            },
        }
    }

    /// What the machine does when the program has run off its end: it
    /// starts over, or waits for the window to be closed, or halts. Memory
    /// and framebuffer are not touched.
    pub open spec fn end_of_pass(self) -> (Machine, Result<Action, Fault>) {
        if self.header.repeat {
            (Machine { at: 0, ..self }, Ok(Action::Continue))
        } else if self.header.keep_open {
            (self.enter(Phase::Idle), Ok(Action::Poll))
        } else {
            (self.enter(Phase::Halted), Ok(Action::Halt))
        }
    }

    /// Fetches the next opcode, if there is one, and asks whether the
    /// window is still open.
    pub open spec fn fetch(self) -> (Machine, Result<Action, Fault>) {
        if 0 <= self.at < self.code.len() {
            (
                Machine {
                    at: self.at + 1,
                    opcode: self.code[self.at],
                    phase: Phase::Gate,
                    ..self
                },
                Ok(Action::Poll),
            )
        } else {
            self.end_of_pass()
        }
    }

    /// Reads the operands of the opcode that was fetched and executes the
    /// instruction.
    pub open spec fn dispatch(self) -> (Machine, Result<Action, Fault>) {
        let (decoded, at) = spec_decode(self.code, self.at, self.opcode);
        let ready = Machine { at, ..self };
        match decoded {
            Err(fault) => (ready, Err(fault)),
            Ok(instr) => ready.execute(instr),
        }
    }

    /// What an event makes of the machine, before a fault halts it.
    pub open spec fn react(self, event: Event) -> (Machine, Result<Action, Fault>) {
        match (self.phase, event) {
            (Phase::Halted, _) => (self, Ok(Action::Halt)),
            (Phase::Fetch, Event::Resume) => self.fetch(),
            (Phase::Gate, Event::Open(true)) => self.dispatch(),
            (Phase::Gate, Event::Open(false)) => (self.enter(Phase::Halted), Ok(Action::Halt)),
            (Phase::Idle, Event::Open(true)) => (self, Ok(Action::Poll)),
            (Phase::Idle, Event::Open(false)) => (self.enter(Phase::Halted), Ok(Action::Halt)),
            (Phase::AwaitKey(dest), Event::Key(down)) => match self.store(dest, flag(down)) {
                Err(fault) => (self, Err(fault)),
                Ok(stored) => (stored.enter(Phase::Fetch), Ok(Action::Pump)),
            },
            (Phase::AwaitFloat(dest), Event::Float(bits)) => match self.store(
                dest,
                Mem::Float(bits),
            ) {
                Err(fault) => (self, Err(fault)),
                Ok(stored) => (stored.enter(Phase::Fetch), Ok(Action::Pump)),
            },
            _ => (self, Err(Fault::UnexpectedEvent)),
        }
    }

    /// One step of the machine: what an event makes of it, and what it
    /// then asks of the host. A fault halts the machine where it stands.
    pub open spec fn step(self, event: Event) -> (Machine, Result<Action, Fault>) {
        let (next, outcome) = self.react(event);
        if outcome is Err {
            (next.enter(Phase::Halted), outcome)
        } else {
            (next, outcome)
        }
    }
}

} // verus!
