//! What holds of every machine, whatever program it runs.

use vstd::prelude::*;

use crate::binary64;
use crate::color::Colour;
use crate::cpu::Cpu;
use crate::fault::Fault;
use crate::instr::{Arith, Instr};
use crate::machine::{Action, Event, Machine, Phase};
use crate::mem::Mem;
use crate::{CELLS, RES};

verus! {

/// Whether a machine has the 255 cells and the 255 by 255 pixels that
/// every console has.
pub open spec fn well_formed(machine: Machine) -> bool {
    machine.memory.len() == CELLS && machine.buf.len() == RES
}

/// The console is always well formed.
pub proof fn lemma_console_is_well_formed(cpu: Cpu)
    ensures
        well_formed(cpu@),
{
    vstd::array::array_len_matches_n(&cpu.memory);
    vstd::array::array_len_matches_n(&cpu.buf);
}

/// `LET` never overwrites: where the cell holds anything, the machine
/// goes on with every cell and every pixel as it was, whatever the
/// literal is, even one with a tag that does not exist.
pub proof fn lemma_let_keeps_what_is_there(machine: Machine, tag: u8, data: [u8; 8], dest: u8)
    requires
        well_formed(machine),
        dest < CELLS,
        machine.memory[dest as int] != Mem::Nil,
    ensures
        machine.execute(Instr::Let { tag, data, dest }) == (
            machine.enter(Phase::Fetch),
            Ok::<Action, Fault>(Action::Pump),
        ),
{
}

/// `LET` declares: where the cell is empty it does what `VAR_SET` does.
pub proof fn lemma_let_fills_what_is_empty(machine: Machine, tag: u8, data: [u8; 8], dest: u8)
    requires
        well_formed(machine),
        dest < CELLS,
        machine.memory[dest as int] == Mem::Nil,
    ensures
        machine.execute(Instr::Let { tag, data, dest }) == machine.execute(
            Instr::VarSet { tag, data, dest },
        ),
{
}

/// `VAR_SET` always overwrites: whatever the cell held, it then holds the
/// literal, and no other cell has changed.
pub proof fn lemma_var_set_overwrites(machine: Machine, tag: u8, data: [u8; 8], dest: u8)
    requires
        well_formed(machine),
        dest < CELLS,
        Mem::spec_literal(tag, data) is Some,
    ensures
        machine.execute(Instr::VarSet { tag, data, dest }).1 == Ok::<Action, Fault>(Action::Pump),
        machine.execute(Instr::VarSet { tag, data, dest }).0.memory == machine.memory.update(
            dest as int,
            Mem::spec_literal(tag, data)->Some_0,
        ),
{
}

/// Of two `VAR_SET` to one cell, the second is what the cell holds.
pub proof fn lemma_last_var_set_wins(
    machine: Machine,
    first: (u8, [u8; 8]),
    second: (u8, [u8; 8]),
    dest: u8,
)
    requires
        well_formed(machine),
        dest < CELLS,
        Mem::spec_literal(first.0, first.1) is Some,
        Mem::spec_literal(second.0, second.1) is Some,
    ensures
        machine.execute(Instr::VarSet { tag: first.0, data: first.1, dest }).0.execute(
            Instr::VarSet { tag: second.0, data: second.1, dest },
        ).0.memory[dest as int] == Mem::spec_literal(second.0, second.1)->Some_0,
{
    lemma_var_set_overwrites(machine, first.0, first.1, dest);
    let between = machine.execute(Instr::VarSet { tag: first.0, data: first.1, dest }).0;
    lemma_var_set_overwrites(between, second.0, second.1, dest);
}

/// `TJMP` jumps if and only if the cell holds the integer 1, and `FJMP`
/// if and only if it does not. The integer 0 or 2 and the float 1.0 are
/// not the integer 1. Neither changes a cell or a pixel.
pub proof fn lemma_branch_on_integer_one(machine: Machine, cond: u8, target: u64)
    requires
        well_formed(machine),
        cond < CELLS,
    ensures
        machine.execute(Instr::Tjmp { cond, target }) == (
            if machine.memory[cond as int] == Mem::Int(1) {
                machine.jump(target).enter(Phase::Fetch)
            } else {
                machine.enter(Phase::Fetch)
            },
            Ok::<Action, Fault>(Action::Pump),
        ),
        machine.execute(Instr::Fjmp { cond, target }) == (
            if machine.memory[cond as int] == Mem::Int(1) {
                machine.enter(Phase::Fetch)
            } else {
                machine.jump(target).enter(Phase::Fetch)
            },
            Ok::<Action, Fault>(Action::Pump),
        ),
        Mem::Int(0) != Mem::Int(1),
        Mem::Int(2) != Mem::Int(1),
        forall|bits: u64| Mem::Float(bits) != Mem::Int(1),
{
}

/// `ARRAY_WRITE` has eight slots: an index above 7 is a fault and
/// nothing is written; an index up to 7 is written to, in a byte array
/// as the byte and in a string as the character that the byte numbers.
pub proof fn lemma_array_write_has_eight_slots(machine: Machine, array: u8, index: u8, value: u8)
    requires
        well_formed(machine),
        array < CELLS,
        machine.memory[array as int] is ByteArr || machine.memory[array as int] is Str,
    ensures
        index > 7 ==> machine.execute(Instr::ArrayWrite { array, index, value }) == (
            machine,
            Err::<Action, Fault>(Fault::IndexOutOfRange(index)),
        ),
        index <= 7 ==> machine.execute(Instr::ArrayWrite { array, index, value }).1 == Ok::<
            Action,
            Fault,
        >(Action::Pump),
        index <= 7 ==> machine.execute(Instr::ArrayWrite { array, index, value }).0.memory
            == machine.memory.update(
            array as int,
            machine.memory[array as int].spec_with_slot(index as int, value)->Some_0,
        ),
{
}

/// A division by the integer 0 is a fault of its own. Nothing is stored,
/// least of all a zero.
pub proof fn lemma_division_by_zero_faults(machine: Machine, lhs: u8, rhs: u8, dest: u8)
    requires
        well_formed(machine),
        lhs < CELLS,
        rhs < CELLS,
        machine.memory[lhs as int].numeric() is Some,
        machine.memory[rhs as int] == Mem::Int(0),
    ensures
        machine.execute(Instr::Int { op: Arith::Div, lhs, rhs, dest }) == (
            machine,
            Err::<Action, Fault>(Fault::DivisionByZero),
        ),
{
    binary64::lemma_exact_integers(0);
}

/// Integers whose magnitude is at most two to the power of 53 are added
/// exactly, as long as the sum fits; so a counter counts.
pub proof fn lemma_add_counts(machine: Machine, lhs: u8, rhs: u8, dest: u8)
    requires
        well_formed(machine),
        lhs < CELLS,
        rhs < CELLS,
        dest < CELLS,
        machine.memory[lhs as int] is Int,
        machine.memory[rhs as int] is Int,
        -0x20_0000_0000_0000 <= machine.memory[lhs as int]->Int_0 <= 0x20_0000_0000_0000,
        -0x20_0000_0000_0000 <= machine.memory[rhs as int]->Int_0 <= 0x20_0000_0000_0000,
    ensures
        machine.execute(Instr::Int { op: Arith::Add, lhs, rhs, dest }).0.memory
            == machine.memory.update(
            dest as int,
            Mem::Int(
                (machine.memory[lhs as int]->Int_0 + machine.memory[rhs as int]->Int_0) as i64,
            ),
        ),
{
    binary64::lemma_exact_integers(machine.memory[lhs as int]->Int_0);
    binary64::lemma_exact_integers(machine.memory[rhs as int]->Int_0);
}

/// `PIXEL_MEM` wraps round: an integer column or row of up to two to the
/// power of 53 lands at its remainder by the width or the height.
pub proof fn lemma_pixel_mem_wraps(machine: Machine, x: u8, y: u8, colour: u8)
    requires
        well_formed(machine),
        x < CELLS,
        y < CELLS,
        machine.memory[x as int] is Int,
        machine.memory[y as int] is Int,
        0 <= machine.memory[x as int]->Int_0 <= 0x20_0000_0000_0000,
        0 <= machine.memory[y as int]->Int_0 <= 0x20_0000_0000_0000,
        Colour::decode(colour) is Some,
        Colour::decode(colour) != Some(Colour::Transparent),
    ensures
        machine.execute(Instr::PixelMem { x, y, colour }).1 == Ok::<Action, Fault>(Action::Pump),
        machine.execute(Instr::PixelMem { x, y, colour }).0.buf == machine.buf.update(
            machine.memory[x as int]->Int_0 % 255 + (machine.memory[y as int]->Int_0 % 255) * 255,
            Colour::decode(colour)->Some_0,
        ),
{
    binary64::lemma_exact_integers(machine.memory[x as int]->Int_0);
    binary64::lemma_exact_integers(machine.memory[y as int]->Int_0);
}

proof fn lemma_rows_are_there(machine: Machine, rows: [u8; 8], from: int)
    requires
        well_formed(machine),
        0 <= from <= 8,
        forall|j: int| 0 <= j < 8 ==> machine.row(#[trigger] rows[j]) is Ok,
    ensures
        machine.bad_row(rows, from) is None,
    decreases 8 - from,
{
    if from < 8 {
        lemma_rows_are_there(machine, rows, from + 1);
    }
}

proof fn lemma_transparent_pixels_draw_nothing(
    machine: Machine,
    rows: [u8; 8],
    x: i64,
    y: i64,
    from: int,
)
    requires
        0 <= from <= 64,
        forall|k: int| 0 <= k < 64 ==> Colour::decode(#[trigger] machine.sprite_byte(rows, k))
            == Some(Colour::Transparent),
    ensures
        machine.blit(rows, x, y, from) == (machine, None::<Fault>),
    decreases 64 - from,
{
    if from < 64 {
        assert(Colour::decode(machine.sprite_byte(rows, from)) == Some(Colour::Transparent));
        lemma_transparent_pixels_draw_nothing(machine, rows, x, y, from + 1);
    }
}

/// A sprite of transparent pixels draws nothing: wherever it is put,
/// inside the framebuffer or not, no pixel changes and nothing faults.
pub proof fn lemma_transparent_sprite_draws_nothing(machine: Machine, rows: [u8; 8], x: u8, y: u8)
    requires
        well_formed(machine),
        forall|j: int| 0 <= j < 8 ==> machine.row(#[trigger] rows[j]) is Ok,
        forall|k: int| 0 <= k < 64 ==> Colour::decode(#[trigger] machine.sprite_byte(rows, k))
            == Some(Colour::Transparent),
        machine.integer(x) is Ok,
        machine.integer(y) is Ok,
    ensures
        machine.execute(Instr::SpriteBlit { rows, x, y }) == (
            machine.enter(Phase::Fetch),
            Ok::<Action, Fault>(Action::Pump),
        ),
{
    lemma_rows_are_there(machine, rows, 0);
    lemma_transparent_pixels_draw_nothing(
        machine,
        rows,
        machine.integer(x)->Ok_0,
        machine.integer(y)->Ok_0,
        0,
    );
}

/// Running off the end of the program changes no cell and no pixel. With
/// `repeat` set the cursor goes back to the first byte of the body;
/// without it the run ends, at once or when the window is closed.
pub proof fn lemma_restart_keeps_state(machine: Machine)
    requires
        machine.phase == Phase::Fetch,
        !(0 <= machine.at < machine.code.len()),
    ensures
        machine.step(Event::Resume).0.memory == machine.memory,
        machine.step(Event::Resume).0.buf == machine.buf,
        machine.header.repeat ==> machine.step(Event::Resume) == (
            Machine { at: 0, ..machine },
            Ok::<Action, Fault>(Action::Continue),
        ),
        !machine.header.repeat && machine.header.keep_open ==> machine.step(Event::Resume) == (
            machine.enter(Phase::Idle),
            Ok::<Action, Fault>(Action::Poll),
        ),
        !machine.header.repeat && !machine.header.keep_open ==> machine.step(Event::Resume) == (
            machine.enter(Phase::Halted),
            Ok::<Action, Fault>(Action::Halt),
        ),
{
}

/// A closed window ends the run, between any two instructions and while
/// the machine idles, and changes nothing else.
pub proof fn lemma_closed_window_halts(machine: Machine)
    requires
        machine.phase == Phase::Gate || machine.phase == Phase::Idle,
    ensures
        machine.step(Event::Open(false)) == (
            machine.enter(Phase::Halted),
            Ok::<Action, Fault>(Action::Halt),
        ),
{
}

proof fn lemma_blit_draws_only(machine: Machine, rows: [u8; 8], x: i64, y: i64, from: int)
    requires
        well_formed(machine),
        0 <= from <= 64,
    ensures
        well_formed(machine.blit(rows, x, y, from).0),
        machine.blit(rows, x, y, from).0 == (Machine {
            buf: machine.blit(rows, x, y, from).0.buf,
            ..machine
        }),
    decreases 64 - from,
{
    if from < 64 {
        let byte = machine.sprite_byte(rows, from);
        match Colour::decode(byte) {
            None => {},
            Some(c) => match machine.plot(crate::machine::sprite_index(x, y, from), c) {
                Err(_) => {},
                Ok(next) => {
                    lemma_blit_draws_only(next, rows, x, y, from + 1);
                },
            },
        }
    }
}

/// No step changes the program or what its header said, and none changes
/// the number of cells or of pixels: the header is read once, before the
/// first step, and the body is only ever read.
pub proof fn lemma_step_keeps_the_program(machine: Machine, event: Event)
    requires
        well_formed(machine),
    ensures
        well_formed(machine.step(event).0),
        machine.step(event).0.header == machine.header,
        machine.step(event).0.code == machine.code,
{
    if machine.phase == Phase::Gate && event == Event::Open(true) {
        let (decoded, at) = crate::instr::spec_decode(machine.code, machine.at, machine.opcode);
        let ready = Machine { at, ..machine };
        match decoded {
            Ok(Instr::SpriteBlit { rows, x, y }) => {
                let column = ready.integer(x);
                let line = ready.integer(y);
                if ready.bad_row(rows, 0) is None && column is Ok && line is Ok {
                    lemma_blit_draws_only(ready, rows, column->Ok_0, line->Ok_0, 0);
                }
            },
            _ => {},
        }
    }
}

/// A fault is final: the machine is halted, and a halted machine stays
/// as it is whatever it is told.
pub proof fn lemma_fault_is_final(machine: Machine, event: Event, later: Event)
    requires
        machine.step(event).1 is Err,
    ensures
        machine.step(event).0.phase == Phase::Halted,
        machine.step(event).0.step(later) == (
            machine.step(event).0,
            Ok::<Action, Fault>(Action::Halt),
        ),
{
}


/// The body of a program that counts its passes: it declares the integer
/// 1 in cell 10 and the integer 0 in cell 0, both with `LET`, and then
/// adds cell 10 to cell 0 with `ADD`.
pub open spec fn counting_body() -> Seq<u8> {
    seq![
        0xa2u8, 0xe0, 1, 0, 0, 0, 0, 0, 0, 0, 10,
        0xa2, 0xe0, 0, 0, 0, 0, 0, 0, 0, 0, 0,
        0xf6, 0, 10, 0,
    ]
}

/// The counting program as a file: a header that sets `repeat`, then the
/// body.
pub open spec fn counting_program() -> Seq<u8> {
    seq![0x02u8, 0x00] + counting_body()
}

/// Whether a machine stands at the start of a pass of the counting
/// program with `count` passes behind it. Before the first pass both
/// cells are empty.
pub open spec fn counting(machine: Machine, count: int) -> bool {
    &&& well_formed(machine)
    &&& machine.code == counting_body()
    &&& machine.header.repeat
    &&& machine.at == 0
    &&& machine.phase == Phase::Fetch
    &&& if count == 0 {
        machine.memory[0] == Mem::Nil && machine.memory[10] == Mem::Nil
    } else {
        machine.memory[0] == Mem::Int(count as i64) && machine.memory[10] == Mem::Int(1)
    }
}

/// The machine after one instruction in an open window: the fetch, and
/// the answer that the window is open.
pub open spec fn one_instruction(machine: Machine) -> Machine {
    machine.step(Event::Resume).0.step(Event::Open(true)).0
}

/// The machine after one pass of a body of three instructions in an open
/// window, and the step that runs off the end.
pub open spec fn one_pass(machine: Machine) -> Machine {
    one_instruction(one_instruction(one_instruction(machine))).step(Event::Resume).0
}

/// The machine after `n` such passes.
pub open spec fn passes(machine: Machine, n: nat) -> Machine
    decreases n,
{
    if n == 0 {
        machine
    } else {
        one_pass(passes(machine, (n - 1) as nat))
    }
}

/// The counting program loads: its header sets `repeat` and nothing
/// else, and its body is what follows the terminator.
pub proof fn lemma_counting_program_loads()
    ensures
        crate::header::split_program(counting_program()) == Ok::<
            (crate::header::HeaderView, Seq<u8>),
            Fault,
        >(
            (
                crate::header::HeaderView { repeat: true, ..crate::header::default_header() },
                counting_body(),
            ),
        ),
{
    reveal_with_fuel(crate::header::read_header, 3);
    let program = counting_program();
    assert(program[0] == 0x02 && program[1] == 0x00);
    assert(program.len() == 28);
    assert(program.subrange(2, 28) =~= counting_body());
}

proof fn lemma_first_let(machine: Machine)
    requires
        well_formed(machine),
        machine.code == counting_body(),
        machine.at == 0,
        machine.phase == Phase::Fetch,
    ensures
        machine.step(Event::Resume).1 == Ok::<Action, Fault>(Action::Poll),
        machine.step(Event::Resume).0.step(Event::Open(true)).1 == Ok::<Action, Fault>(
            Action::Pump,
        ),
        one_instruction(machine) == (Machine {
            at: 11,
            opcode: 0xa2,
            memory: if machine.memory[10] == Mem::Nil {
                machine.memory.update(10, Mem::Int(1))
            } else {
                machine.memory
            },
            ..machine
        }),
{
    let code = machine.code;
    let fetched = machine.step(Event::Resume).0;
    assert(code[0] == 0xa2);
    assert(fetched == Machine { at: 1, opcode: 0xa2, phase: Phase::Gate, ..machine });
    let operands = code.subrange(1, 11);
    assert(crate::instr::operands_at(code, 1, 10) == Some(operands));
    assert(operands[0] == 0xe0 && operands[1] == 1 && operands[2] == 0 && operands[3] == 0
        && operands[4] == 0 && operands[5] == 0 && operands[6] == 0 && operands[7] == 0
        && operands[8] == 0 && operands[9] == 10);
    let data = crate::instr::eight(operands, 1);
    assert(crate::bytecode::spec_word(data) == 1);
    assert(crate::instr::assemble(0xa2, operands) == Instr::Let { tag: 0xe0, data, dest: 10 });
    assert(Mem::spec_literal(0xe0, data) == Some(Mem::Int(1)));
}

proof fn lemma_second_let(machine: Machine)
    requires
        well_formed(machine),
        machine.code == counting_body(),
        machine.at == 11,
        machine.phase == Phase::Fetch,
    ensures
        machine.step(Event::Resume).1 == Ok::<Action, Fault>(Action::Poll),
        machine.step(Event::Resume).0.step(Event::Open(true)).1 == Ok::<Action, Fault>(
            Action::Pump,
        ),
        one_instruction(machine) == (Machine {
            at: 22,
            opcode: 0xa2,
            memory: if machine.memory[0] == Mem::Nil {
                machine.memory.update(0, Mem::Int(0))
            } else {
                machine.memory
            },
            ..machine
        }),
{
    let code = machine.code;
    let fetched = machine.step(Event::Resume).0;
    assert(code[11] == 0xa2);
    assert(fetched == Machine { at: 12, opcode: 0xa2, phase: Phase::Gate, ..machine });
    let operands = code.subrange(12, 22);
    assert(crate::instr::operands_at(code, 12, 10) == Some(operands));
    assert(operands[0] == 0xe0 && operands[1] == 0 && operands[2] == 0 && operands[3] == 0
        && operands[4] == 0 && operands[5] == 0 && operands[6] == 0 && operands[7] == 0
        && operands[8] == 0 && operands[9] == 0);
    let data = crate::instr::eight(operands, 1);
    assert(crate::bytecode::spec_word(data) == 0);
    assert(crate::instr::assemble(0xa2, operands) == Instr::Let { tag: 0xe0, data, dest: 0 });
    assert(Mem::spec_literal(0xe0, data) == Some(Mem::Int(0)));
}

proof fn lemma_the_add(machine: Machine, count: int)
    requires
        well_formed(machine),
        machine.code == counting_body(),
        machine.at == 22,
        machine.phase == Phase::Fetch,
        0 <= count <= 0x20_0000_0000_0000,
        machine.memory[0] == Mem::Int(count as i64),
        machine.memory[10] == Mem::Int(1),
    ensures
        machine.step(Event::Resume).1 == Ok::<Action, Fault>(Action::Poll),
        machine.step(Event::Resume).0.step(Event::Open(true)).1 == Ok::<Action, Fault>(
            Action::Pump,
        ),
        one_instruction(machine) == (Machine {
            at: 26,
            opcode: 0xf6,
            memory: machine.memory.update(0, Mem::Int((count + 1) as i64)),
            ..machine
        }),
{
    let code = machine.code;
    let fetched = machine.step(Event::Resume).0;
    assert(code[22] == 0xf6);
    assert(fetched == Machine { at: 23, opcode: 0xf6, phase: Phase::Gate, ..machine });
    let operands = code.subrange(23, 26);
    assert(crate::instr::operands_at(code, 23, 3) == Some(operands));
    assert(operands[0] == 0 && operands[1] == 10 && operands[2] == 0);
    assert(crate::instr::assemble(0xf6, operands) == Instr::Int {
        op: Arith::Add,
        lhs: 0,
        rhs: 10,
        dest: 0,
    });
    binary64::lemma_exact_integers(count as i64);
    binary64::lemma_exact_integers(1);
}

/// One pass of the counting program counts one up: cell 0 holds one more
/// than it did, cell 10 holds 1, the cursor is back at the first byte of
/// the body, and nothing else has changed. At the end of the pass the
/// machine asks for nothing but to go on.
#[verifier::rlimit(60)]
pub proof fn lemma_a_pass_counts_one(machine: Machine, count: int)
    requires
        counting(machine, count),
        0 <= count <= 0x20_0000_0000_0000,
    ensures
        counting(one_pass(machine), count + 1),
        one_pass(machine) == (Machine {
            memory: machine.memory.update(10, Mem::Int(1)).update(0, Mem::Int((count + 1) as i64)),
            opcode: 0xf6,
            ..machine
        }),
        one_instruction(one_instruction(one_instruction(machine))).step(Event::Resume).1 == Ok::<
            Action,
            Fault,
        >(Action::Continue),
{
    let declared = if machine.memory[10] == Mem::Nil {
        machine.memory.update(10, Mem::Int(1))
    } else {
        machine.memory
    };
    let first = Machine { at: 11, opcode: 0xa2, memory: declared, ..machine };
    assert(one_instruction(machine) == first) by {
        lemma_first_let(machine);
    }
    let zeroed = if declared[0] == Mem::Nil {
        declared.update(0, Mem::Int(0))
    } else {
        declared
    };
    let second = Machine { at: 22, opcode: 0xa2, memory: zeroed, ..first };
    assert(one_instruction(first) == second) by {
        lemma_second_let(first);
    }
    let counted = zeroed.update(0, Mem::Int((count + 1) as i64));
    let third = Machine { at: 26, opcode: 0xf6, memory: counted, ..second };
    assert(one_instruction(second) == third) by {
        lemma_the_add(second, count);
    }
    let last = Machine { at: 0, ..third };
    assert(third.step(Event::Resume) == (last, Ok::<Action, Fault>(Action::Continue))) by {
        assert(third.code.len() == 26);
        lemma_restart_keeps_state(third);
    }
    assert(counted =~= machine.memory.update(10, Mem::Int(1)).update(
        0,
        Mem::Int((count + 1) as i64),
    ));
    assert(one_pass(machine) == last);
}

/// Memory outlives every restart: after `n` passes of the counting
/// program in an open window, started with cells 0 and 10 empty, cell 0
/// holds `n` and cell 10 holds 1, the cursor stands at the first byte of
/// the body again, and no pixel has changed. The count is exact as far
/// as integers are read back exactly, which is up to two to the power
/// of 53.
pub proof fn lemma_repeat_counts_the_passes(machine: Machine, n: nat)
    requires
        counting(machine, 0),
        1 <= n <= 0x20_0000_0000_0001,
    ensures
        counting(passes(machine, n), n as int),
        passes(machine, n).memory[0] == Mem::Int(n as i64),
        passes(machine, n).memory[10] == Mem::Int(1),
        passes(machine, n).at == 0,
        passes(machine, n).buf == machine.buf,
        passes(machine, n).header == machine.header,
        passes(machine, n).code == machine.code,
    decreases n,
{
    if n == 1 {
        assert(passes(machine, 0) == machine);
        assert(passes(machine, 1) == one_pass(passes(machine, 0)));
        lemma_a_pass_counts_one(machine, 0);
    } else {
        lemma_repeat_counts_the_passes(machine, (n - 1) as nat);
        lemma_a_pass_counts_one(passes(machine, (n - 1) as nat), n - 1);
    }
}

/// Wherever in the next pass the window is found closed, before the
/// first, the second or the third instruction, the run ends with the
/// count still in cell 0 and the 1 still in cell 10: the two `LET` of
/// the pass have changed nothing.
pub proof fn lemma_the_count_survives_the_close(machine: Machine, count: int, done: nat)
    requires
        counting(machine, count),
        1 <= count,
        done <= 2,
    ensures
        ({
            let reached = if done == 0 {
                machine
            } else if done == 1 {
                one_instruction(machine)
            } else {
                one_instruction(one_instruction(machine))
            };
            let closed = reached.step(Event::Resume).0.step(Event::Open(false));
            &&& closed.1 == Ok::<Action, Fault>(Action::Halt)
            &&& closed.0.phase == Phase::Halted
            &&& closed.0.memory == machine.memory
            &&& closed.0.buf == machine.buf
        }),
{
    lemma_first_let(machine);
    let first = one_instruction(machine);
    lemma_second_let(first);
    let second = one_instruction(first);
    assert(machine.code[0] == 0xa2);
    assert(machine.code[11] == 0xa2);
    assert(machine.code[22] == 0xf6);
}

} // verus!
