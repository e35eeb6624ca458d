//! The machine itself: it owns memory, framebuffer and program, and moves
//! one step for every event that its host reports.

use vstd::prelude::*;

use crate::binary64;
use crate::bytecode::{landing, unsigned, ByteCode, ByteOption};
use crate::color::Colour;
use crate::fault::Fault;
use crate::header::{split_program, HeaderData};
use crate::instr::{Arith, Instr};
use crate::key::Key;
use crate::machine::{spec_compute, sprite_index, Action, Event, Machine, Phase};
use crate::mem::Mem;
use crate::{CELLS, HEIGHT, RES, WIDTH};

verus! {

/// The console. Memory and framebuffer are made once and live as long as
/// the machine does: nothing but an instruction ever changes them.
pub struct Cpu {
    /// The memory bank.
    pub memory: [Mem; CELLS],
    /// The framebuffer, row by row.
    pub buf: [Colour; RES],
    /// What the header of the program said.
    pub header: HeaderData,
    /// The body of the program, and the cursor in it.
    pub code: ByteCode,
    /// Where the machine stands.
    pub phase: Phase,
    /// The opcode that was fetched last.
    pub opcode: u8,
}

impl View for Cpu {
    type V = Machine;

    open spec fn view(&self) -> Machine {
        Machine {
            memory: self.memory@,
            buf: self.buf@,
            header: self.header@,
            code: self.code.bytes(),
            at: self.code.offset(),
            phase: self.phase,
            opcode: self.opcode,
        }
    }
}

/// Whether a machine went from `before` to `after`, with `outcome`, as
/// `expected` says: to the machine expected, or nowhere on a fault.
pub open spec fn went(
    before: Machine,
    after: Machine,
    outcome: Result<(), Fault>,
    expected: Result<Machine, Fault>,
) -> bool {
    match expected {
        Ok(machine) => outcome is Ok && after == machine,
        Err(fault) => outcome == Err::<(), Fault>(fault) && after == before,
    }
}

/// Computes with two integers. Sums, differences and products wrap round
/// the ends of the range; a division by zero is a fault, and so is the
/// division of the least integer by -1.
pub fn compute(op: Arith, lhs: i64, rhs: i64) -> (value: Result<i64, Fault>)
    ensures
        value == spec_compute(op, lhs, rhs),
{
    match op {
        Arith::Add => Ok(lhs.wrapping_add(rhs)),
        Arith::Sub => Ok(lhs.wrapping_sub(rhs)),
        Arith::Mul => Ok(lhs.wrapping_mul(rhs)),
        Arith::Div => {
            if rhs == 0 {
                Err(Fault::DivisionByZero)
            } else {
                match lhs.checked_div(rhs) {
                    Some(value) => Ok(value),
                    None => Err(Fault::DivisionOverflow),
                }
            }
        },
    }
}

impl Cpu {
    /// A machine with empty memory, a green screen and no program.
    pub fn new() -> (cpu: Cpu)
        ensures
            cpu@ == (Machine {
                memory: Seq::new(CELLS as nat, |i: int| Mem::Nil),
                buf: Seq::new(RES as nat, |i: int| Colour::Green),
                header: crate::header::default_header(),
                code: Seq::empty(),
                at: 0,
                phase: Phase::Fetch,
                opcode: 0,
            }),
    {
        let cpu = Cpu {
            memory: [Mem::Nil;CELLS],
            buf: [Colour::Green;RES],
            header: HeaderData::new(),
            code: ByteCode::new(Vec::new()),
            phase: Phase::Fetch,
            opcode: 0,
        };
        assert(cpu.memory@ =~= Seq::new(CELLS as nat, |i: int| Mem::Nil));
        assert(cpu.buf@ =~= Seq::new(RES as nat, |i: int| Colour::Green));
        cpu
    }

    /// Loads a program: reads its header and puts the cursor at the first
    /// byte of its body. Memory and framebuffer stay as they are. A
    /// program whose header is at fault is not loaded, and halts the
    /// machine.
    pub fn load(&mut self, bytecode: Vec<u8>) -> (outcome: Result<(), Fault>)
        ensures
            match split_program(bytecode@) {
                Ok((header, body)) => outcome is Ok && final(self)@ == (Machine {
                    header,
                    code: body,
                    at: 0,
                    phase: Phase::Fetch,
                    ..old(self)@
                }),
                Err(fault) => outcome == Err::<(), Fault>(fault) && final(self)@ == old(
                    self,
                )@.enter(Phase::Halted),
            },
    {
        match HeaderData::parse(bytecode) {
            Ok((header, code)) => {
                self.header = header;
                self.code = code;
                self.phase = Phase::Fetch;
                Ok(())
            },
            Err(fault) => {
                self.phase = Phase::Halted;
                Err(fault)
            },
        }
    }

    fn cell(&self, addr: u8) -> (cell: Result<Mem, Fault>)
        ensures
            cell == self@.cell(addr),
    {
        if (addr as usize) < CELLS {
            Ok(self.memory[addr as usize])
        } else {
            Err(Fault::AddressOutOfRange(addr))
        }
    }

    fn number(&self, addr: u8) -> (bits: Result<u64, Fault>)
        ensures
            bits == self@.number(addr),
    {
        let cell = self.cell(addr)?;
        match cell.to_num() {
            Ok(bits) => Ok(bits),
            Err(cell) => Err(Fault::TypeMismatch(cell)),
        }
    }

    fn numbers(&self, lhs: u8, rhs: u8) -> (pair: Result<(u64, u64), Fault>)
        ensures
            pair == self@.numbers(lhs, rhs),
    {
        let left = self.number(lhs)?;
        let right = self.number(rhs)?;
        Ok((left, right))
    }

    fn integer(&self, addr: u8) -> (value: Result<i64, Fault>)
        ensures
            value == self@.integer(addr),
    {
        match self.cell(addr)? {
            Mem::Int(value) => Ok(value),
            cell => Err(Fault::TypeMismatch(cell)),
        }
    }

    fn row(&self, addr: u8) -> (bytes: Result<[u8; 8], Fault>)
        ensures
            bytes == self@.row(addr),
    {
        match self.cell(addr)? {
            Mem::ByteArr(bytes) => Ok(bytes),
            cell => Err(Fault::TypeMismatch(cell)),
        }
    }

    fn store(&mut self, addr: u8, value: Mem) -> (outcome: Result<(), Fault>)
        ensures
            went(old(self)@, final(self)@, outcome, old(self)@.store(addr, value)),
    {
        if (addr as usize) < CELLS {
            self.memory[addr as usize] = value;
            Ok(())
        } else {
            Err(Fault::AddressOutOfRange(addr))
        }
    }

    fn plot(&mut self, place: Option<usize>, colour: Colour) -> (outcome: Result<(), Fault>)
        requires
            place matches Some(index) ==> index < RES,
        ensures
            went(
                old(self)@,
                final(self)@,
                outcome,
                old(self)@.plot(
                    match place {
                        Some(index) => Some(index as int),
                        None => None,
                    },
                    colour,
                ),
            ),
    {
        match colour {
            Colour::Transparent => Ok(()),
            _ => match place {
                Some(index) => {
                    self.buf[index] = colour;
                    Ok(())
                },
                None => Err(Fault::PixelOutOfRange),
            },
        }
    }

    fn jump(&mut self, target: u64)
        ensures
            final(self)@ == old(self)@.jump(target),
    {
        self.code.jmp(landing(target));
    }

    fn pixel_lit(&mut self, x: u8, y: u8, colour: u8) -> (outcome: Result<(), Fault>)
        ensures
            went(old(self)@, final(self)@, outcome, old(self)@.pixel_lit(x, y, colour)),
    {
        let colour = Colour::from_hex(colour)?;
        let index = x as usize + y as usize * WIDTH;
        self.plot(
            if index < RES {
                Some(index)
            } else {
                None
            },
            colour,
        )
    }

    fn pixel_mem(&mut self, x: u8, y: u8, colour: u8) -> (outcome: Result<(), Fault>)
        ensures
            went(old(self)@, final(self)@, outcome, old(self)@.pixel_mem(x, y, colour)),
    {
        let column = binary64::to_u64(self.number(x)?) % (WIDTH as u64);
        let line = binary64::to_u64(self.number(y)?) % (HEIGHT as u64);
        let colour = Colour::from_hex(colour)?;
        self.plot(Some(column as usize + line as usize * WIDTH), colour)
    }

    fn sprite_blit(&mut self, rows: [u8; 8], x: u8, y: u8) -> (outcome: Result<(), Fault>)
        ensures
            final(self)@ == old(self)@.sprite_blit(rows, x, y).0,
            outcome == match old(self)@.sprite_blit(rows, x, y).1 {
                Some(fault) => Err::<(), Fault>(fault),
                None => Ok(()),
            },
    {
        let mut checked: usize = 0;
        while checked < 8
            invariant
                checked <= 8,
                *self == *old(self),
                self@.bad_row(rows, 0) == self@.bad_row(rows, checked as int),
                forall|j: int| 0 <= j < checked ==> self@.row(#[trigger] rows[j]) is Ok,
            decreases 8 - checked,
        {
            self.row(rows[checked])?;
            checked = checked + 1;
        }
        let column = self.integer(x)?;
        let line = self.integer(y)?;
        let inside = 0 <= column && column < RES as i64 && 0 <= line && line < HEIGHT as i64;
        let mut k: usize = 0;
        while k < 64
            invariant
                k <= 64,
                inside == (0 <= column && column < RES as i64 && 0 <= line && line < HEIGHT as i64),
                old(self)@.bad_row(rows, 0) is None,
                old(self)@.integer(x) == Ok::<i64, Fault>(column),
                old(self)@.integer(y) == Ok::<i64, Fault>(line),
                self@.memory == old(self)@.memory,
                forall|j: int| 0 <= j < 8 ==> self@.row(#[trigger] rows[j]) is Ok,
                old(self)@.blit(rows, column, line, 0) == self@.blit(rows, column, line, k as int),
            decreases 64 - k,
        {
            let bytes = self.row(rows[k / 8])?;
            let colour = Colour::from_hex(bytes[k % 8])?;
            let place = if inside {
                let index = column as usize + k % 8 + (line as usize + k / 8) * WIDTH;
                if index < RES {
                    Some(index)
                } else {
                    None
                }
            } else {
                None
            };
            assert(sprite_index(column, line, k as int) == match place {
                Some(index) => Some(index as int),
                None => None,
            }) by {
                if !inside && 0 <= column && 0 <= line {
                    assert((line + (k as int) / 8) * WIDTH >= line * WIDTH) by (nonlinear_arith)
                        requires
                            0 <= line,
                            0 <= (k as int) / 8,
                    ;
                }
            }
            self.plot(place, colour)?;
            k = k + 1;
        }
        Ok(())
    }

    fn int_arith(&mut self, op: Arith, lhs: u8, rhs: u8, dest: u8) -> (outcome: Result<(), Fault>)
        ensures
            went(old(self)@, final(self)@, outcome, old(self)@.int_arith(op, lhs, rhs, dest)),
    {
        let (left, right) = self.numbers(lhs, rhs)?;
        let value = compute(op, binary64::to_i64(left), binary64::to_i64(right))?;
        self.store(dest, Mem::Int(value))
    }

    fn not(&mut self, src: u8, dest: u8) -> (outcome: Result<(), Fault>)
        ensures
            went(old(self)@, final(self)@, outcome, old(self)@.not(src, dest)),
    {
        let answer = match self.cell(src)? {
            Mem::Int(0) => Mem::Int(1),
            _ => Mem::Int(0),
        };
        self.store(dest, answer)
    }

    fn compare(&mut self, greater: bool, lhs: u8, rhs: u8, dest: u8) -> (outcome: Result<
        (),
        Fault,
    >)
        ensures
            went(old(self)@, final(self)@, outcome, old(self)@.compare(greater, lhs, rhs, dest)),
    {
        let (left, right) = self.numbers(lhs, rhs)?;
        let answer = if greater {
            binary64::less(right, left)
        } else {
            binary64::less(left, right)
        };
        self.store(
            dest,
            if answer {
                Mem::Int(1)
            } else {
                Mem::Int(0)
            },
        )
    }

    fn var_set(&mut self, tag: u8, data: [u8; 8], dest: u8) -> (outcome: Result<(), Fault>)
        ensures
            went(old(self)@, final(self)@, outcome, old(self)@.var_set(tag, data, dest)),
    {
        let value = Mem::literal(tag, data)?;
        self.store(dest, value)
    }

    fn let_(&mut self, tag: u8, data: [u8; 8], dest: u8) -> (outcome: Result<(), Fault>)
        ensures
            went(old(self)@, final(self)@, outcome, old(self)@.let_(tag, data, dest)),
    {
        match self.cell(dest)? {
            Mem::Nil => self.var_set(tag, data, dest),
            _ => Ok(()),
        }
    }

    fn array_write(&mut self, array: u8, index: u8, value: u8) -> (outcome: Result<(), Fault>)
        ensures
            went(old(self)@, final(self)@, outcome, old(self)@.array_write(array, index, value)),
    {
        if index > 7 {
            return Err(Fault::IndexOutOfRange(index));
        }
        let changed = self.cell(array)?.with_slot(index as usize, value)?;
        self.store(array, changed)
    }

    fn branch(&mut self, wanted: bool, cond: u8, target: u64) -> (outcome: Result<(), Fault>)
        ensures
            went(old(self)@, final(self)@, outcome, old(self)@.branch(wanted, cond, target)),
    {
        let one = match self.cell(cond)? {
            Mem::Int(1) => true,
            _ => false,
        };
        if one == wanted {
            self.jump(target);
        }
        Ok(())
    }

    fn computed_jump(&mut self, addr: u8) -> (outcome: Result<(), Fault>)
        ensures
            went(old(self)@, final(self)@, outcome, old(self)@.computed_jump(addr)),
    {
        let value = self.integer(addr)?;
        self.jump(unsigned(value));
        Ok(())
    }

    fn clear(&mut self, colour: u8) -> (outcome: Result<(), Fault>)
        ensures
            went(old(self)@, final(self)@, outcome, old(self)@.clear(colour)),
    {
        let colour = Colour::from_hex(colour)?;
        self.buf = [colour;RES];
        assert(self.buf@ =~= Seq::new(RES as nat, |i: int| colour));
        Ok(())
    }

    fn change(&mut self, instr: Instr) -> (outcome: Result<(), Fault>)
        ensures
            went(old(self)@, final(self)@, outcome, old(self)@.change(instr)),
    {
        match instr {
            Instr::PixelLit { x, y, colour } => self.pixel_lit(x, y, colour),
            Instr::PixelMem { x, y, colour } => self.pixel_mem(x, y, colour),
            Instr::Int { op, lhs, rhs, dest } => self.int_arith(op, lhs, rhs, dest),
            Instr::Not { src, dest } => self.not(src, dest),
            Instr::Gt { lhs, rhs, dest } => self.compare(true, lhs, rhs, dest),
            Instr::Lt { lhs, rhs, dest } => self.compare(false, lhs, rhs, dest),
            Instr::VarSet { tag, data, dest } => self.var_set(tag, data, dest),
            Instr::Let { tag, data, dest } => self.let_(tag, data, dest),
            Instr::ArrayWrite { array, index, value } => self.array_write(array, index, value),
            Instr::Tjmp { cond, target } => self.branch(true, cond, target),
            Instr::Fjmp { cond, target } => self.branch(false, cond, target),
            Instr::Jmp { target } => {
                self.jump(target);
                Ok(())
            },
            Instr::Vjmp { addr } => self.computed_jump(addr),
            Instr::Clear { colour } => self.clear(colour),
            _ => Ok(()),
        }
    }

    /// Executes one instruction and says what the host is to do next. The
    /// cursor is taken to stand behind the instruction already.
    pub fn execute(&mut self, instr: Instr) -> (outcome: Result<Action, Fault>)
        ensures
            (final(self)@, outcome) == old(self)@.execute(instr),
    {
        match instr {
            Instr::SpriteBlit { rows, x, y } => {
                self.sprite_blit(rows, x, y)?;
                self.phase = Phase::Fetch;
                Ok(Action::Pump)
            },
            Instr::Float { op, lhs, rhs, dest } => {
                let (left, right) = self.numbers(lhs, rhs)?;
                self.phase = Phase::AwaitFloat(dest);
                Ok(Action::Float(op, left, right))
            },
            Instr::Key { code, dest } => {
                let key = Key::from_hex(code)?;
                self.phase = Phase::AwaitKey(dest);
                Ok(Action::Key(key))
            },
            Instr::Render => {
                self.phase = Phase::Fetch;
                Ok(Action::Present)
            },
            _ => {
                self.change(instr)?;
                self.phase = Phase::Fetch;
                Ok(Action::Pump)
            },
        }
    }

    fn end_of_pass(&mut self) -> (outcome: Result<Action, Fault>)
        ensures
            (final(self)@, outcome) == old(self)@.end_of_pass(),
    {
        if self.header.repeat {
            self.code.jmp(0);
            Ok(Action::Continue)
        } else if self.header.keep_open {
            self.phase = Phase::Idle;
            Ok(Action::Poll)
        } else {
            self.phase = Phase::Halted;
            Ok(Action::Halt)
        }
    }

    fn fetch(&mut self) -> (outcome: Result<Action, Fault>)
        ensures
            (final(self)@, outcome) == old(self)@.fetch(),
    {
        let fetched = match self.code.next() {
            ByteOption::Byte(opcode) => Some(opcode),
            ByteOption::End(_) => None,
        };
        match fetched {
            Some(opcode) => {
                self.opcode = opcode;
                self.phase = Phase::Gate;
                Ok(Action::Poll)
            },
            None => self.end_of_pass(),
        }
    }

    fn dispatch(&mut self) -> (outcome: Result<Action, Fault>)
        ensures
            (final(self)@, outcome) == old(self)@.dispatch(),
    {
        let instr = Instr::decode(&mut self.code, self.opcode)?;
        self.execute(instr)
    }

    fn react(&mut self, event: Event) -> (outcome: Result<Action, Fault>)
        ensures
            (final(self)@, outcome) == old(self)@.react(event),
    {
        match (self.phase, event) {
            (Phase::Halted, _) => Ok(Action::Halt),
            (Phase::Fetch, Event::Resume) => self.fetch(),
            (Phase::Gate, Event::Open(true)) => self.dispatch(),
            (Phase::Gate, Event::Open(false)) => {
                self.phase = Phase::Halted;
                Ok(Action::Halt)
            },
            (Phase::Idle, Event::Open(true)) => Ok(Action::Poll),
            (Phase::Idle, Event::Open(false)) => {
                self.phase = Phase::Halted;
                Ok(Action::Halt)
            },
            (Phase::AwaitKey(dest), Event::Key(down)) => {
                self.store(
                    dest,
                    if down {
                        Mem::Int(1)
                    } else {
                        Mem::Int(0)
                    },
                )?;
                self.phase = Phase::Fetch;
                Ok(Action::Pump)
            },
            (Phase::AwaitFloat(dest), Event::Float(bits)) => {
                self.store(dest, Mem::Float(bits))?;
                self.phase = Phase::Fetch;
                Ok(Action::Pump)
            },
            _ => Err(Fault::UnexpectedEvent),
        }
    }

    /// Moves the machine one step: takes in what the host reports and
    /// says what the host is to do next. A fault halts the machine; what
    /// memory and framebuffer held by then, they keep.
    pub fn step(&mut self, event: Event) -> (outcome: Result<Action, Fault>)
        ensures
            (final(self)@, outcome) == old(self)@.step(event),
    {
        let outcome = self.react(event);
        if outcome.is_err() {
            self.phase = Phase::Halted;
        }
        outcome
    }
}

} // verus!
