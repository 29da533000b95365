use vstd::prelude::*;

use crate::cpu::{execute_spec, run_spec, step_spec, CpuState, Status, MAX_STACK_POINTER};
use crate::decode::{
    decode_spec, immediate12_of, immediate8_of, nibble_c, nibble_d, nibble_x, nibble_y, Instruction,
};
use crate::error::ChipError;
use crate::memory::{store_word, word_at, MEMORY_SIZE};

verus! {

/// A word splits into its family nibble and a 12-bit remainder, whose low
/// byte is the 8-bit immediate.
pub proof fn lemma_word_fields(w: u16)
    ensures
        w == nibble_c(w) * 4096 + w % 4096,
        nibble_x(w) == (w % 4096) / 256,
        immediate12_of(nibble_x(w), nibble_y(w), nibble_d(w)) == w % 4096,
        immediate8_of(nibble_y(w), nibble_d(w)) == w % 256,
{
    let x = nibble_x(w) as int;
    let y = nibble_y(w) as int;
    let d = nibble_d(w) as int;
    assert(w as int == (w as int / 4096) * 4096 + x * 256 + y * 16 + d) by (nonlinear_arith)
        requires
            x == (w as int / 256) % 16,
            y == (w as int / 16) % 16,
            d == w as int % 16,
    ;
}

/// A word stored with `write` or `write_into` is read back unchanged by a
/// two-byte read at the same address.
pub proof fn lemma_word_round_trip(bytes: Seq<u8>, addr: int, w: u16)
    requires
        0 <= addr,
        addr + 2 <= bytes.len(),
    ensures
        word_at(store_word(bytes, addr, w), addr) == w,
{
}

/// Whether a skip instruction skips in state `s`.
pub open spec fn skip_condition(s: CpuState, ins: Instruction) -> bool {
    match ins {
        Instruction::SkipIfEqual { x, value } => s.reg(x) == value,
        Instruction::SkipIfNotEqual { x, value } => s.reg(x) != value,
        Instruction::SkipIfRegistersEqual { x, y } => s.reg(x) == s.reg(y),
        Instruction::SkipIfRegistersNotEqual { x, y } => s.reg(x) != s.reg(y),
        _ => false,
    }
}

pub open spec fn is_skip(ins: Instruction) -> bool {
    ||| ins is SkipIfEqual
    ||| ins is SkipIfNotEqual
    ||| ins is SkipIfRegistersEqual
    ||| ins is SkipIfRegistersNotEqual
}

/// `ADD Vx,Vy` without a carry stores the sum in `Vx` and leaves the flag and
/// `Vy` alone (when `Vx` is neither the flag nor `Vy`).
pub proof fn lemma_add_without_carry(s: CpuState, x: u8, y: u8)
    requires
        s.wf(),
        x < 15,
        y < 16,
        x != y,
        s.reg(x) + s.reg(y) <= 255,
    ensures
        execute_spec(s, Instruction::Add { x, y }).1 == Ok::<Status, ChipError>(Status::Running),
        execute_spec(s, Instruction::Add { x, y }).0.reg(x) == s.reg(x) + s.reg(y),
        execute_spec(s, Instruction::Add { x, y }).0.flag() == s.flag(),
        execute_spec(s, Instruction::Add { x, y }).0.reg(y) == s.reg(y),
{
}

/// `ADD Vx,Vy` with a carry sets the flag to 1 and leaves `Vx` alone (when
/// `Vx` is not the flag itself).
pub proof fn lemma_add_with_carry(s: CpuState, x: u8, y: u8)
    requires
        s.wf(),
        x < 15,
        y < 16,
        s.reg(x) + s.reg(y) > 255,
    ensures
        execute_spec(s, Instruction::Add { x, y }).1 == Ok::<Status, ChipError>(Status::Running),
        execute_spec(s, Instruction::Add { x, y }).0.flag() == 1,
        execute_spec(s, Instruction::Add { x, y }).0.reg(x) == s.reg(x),
{
}

/// A program `LD Vx,nn` followed by a halt word, run from its first word,
/// halts with `Vx == nn`.
pub proof fn lemma_load_then_run(s: CpuState, x: u8, nn: u8, fuel: nat)
    requires
        s.wf(),
        x < 16,
        s.read_cursor() + 4 <= MEMORY_SIZE,
        s.current_word() == 0x6000 + x * 256 + nn,
        word_at(s.memory.bytes, s.read_cursor() + 2int) == 0,
        fuel >= 2,
    ensures
        run_spec(s, fuel).1 == Ok::<(), ChipError>(()),
        run_spec(s, fuel).0.reg(x) == nn,
{
    let w = s.current_word();
    lemma_word_fields(w);
    assert(nibble_c(w) == 6);
    assert(decode_spec(w) == Some(Instruction::LoadValue { x, value: nn }));
    let s1 = step_spec(s).0;
    assert(step_spec(s).1 == Ok::<Status, ChipError>(Status::Running));
    assert(s1.current_word() == 0);
    assert(step_spec(s1).1 == Ok::<Status, ChipError>(Status::Halted));
    assert(run_spec(s1, (fuel - 1) as nat).1 == Ok::<(), ChipError>(()));
}

/// `JP nnn` moves the read cursor to `nnn` exactly, so that the next fetch
/// reads the word stored there.
pub proof fn lemma_jump(s: CpuState, nnn: u16)
    requires
        s.wf(),
        nnn < 4096,
        s.read_cursor() + 2 <= MEMORY_SIZE,
        s.current_word() == 0x1000 + nnn,
    ensures
        step_spec(s).1 == Ok::<Status, ChipError>(Status::Running),
        step_spec(s).0.read_cursor() == nnn,
        step_spec(s).0.current_word() == word_at(s.memory.bytes, nnn as int),
{
    lemma_word_fields(s.current_word());
}

/// `CALL nnn` followed by the `RET` found at `nnn` brings the stack pointer
/// back and resumes right after the call.
pub proof fn lemma_call_then_return(s: CpuState, nnn: u16)
    requires
        s.wf(),
        s.stack_pointer < MAX_STACK_POINTER,
        nnn + 2 <= MEMORY_SIZE,
        s.read_cursor() + 2 <= MEMORY_SIZE,
        s.current_word() == 0x2000 + nnn,
        word_at(s.memory.bytes, nnn as int) == 0x00EE,
    ensures
        step_spec(s).1 == Ok::<Status, ChipError>(Status::Running),
        step_spec(step_spec(s).0).1 == Ok::<Status, ChipError>(Status::Running),
        step_spec(step_spec(s).0).0.stack_pointer == s.stack_pointer,
        step_spec(step_spec(s).0).0.read_cursor() == s.read_cursor() + 2,
{
    lemma_word_fields(s.current_word());
    let s1 = step_spec(s).0;
    assert(s1.read_cursor() == nnn);
    assert(s1.current_word() == 0x00EE);
    assert(decode_spec(0x00EE) == Some(Instruction::Return));
}

/// The four skip instructions move the read cursor by 4 when they skip and by
/// 2 (their own width) otherwise.
pub proof fn lemma_skip_width(s: CpuState)
    requires
        s.wf(),
        s.read_cursor() + 4 <= MEMORY_SIZE,
        decode_spec(s.current_word()) matches Some(ins) && is_skip(ins),
    ensures
        step_spec(s).1 == Ok::<Status, ChipError>(Status::Running),
        step_spec(s).0.read_cursor() == s.read_cursor() + if skip_condition(
            s,
            decode_spec(s.current_word())->Some_0,
        ) {
            4int
        } else {
            2int
        },
{
}

/// A word that decodes to no instruction stops a run with an error that names
/// it, never with a halt.
pub proof fn lemma_unrecognized_is_fatal(s: CpuState, fuel: nat)
    requires
        s.wf(),
        s.read_cursor() + 2 <= MEMORY_SIZE,
        decode_spec(s.current_word()) is None,
        fuel > 0,
    ensures
        run_spec(s, fuel).1 == Err::<(), ChipError>(
            ChipError::UnrecognizedInstruction(s.current_word()),
        ),
{
}

} // verus!
