use vstd::prelude::*;

use crate::decode::{decode, decode_spec, Instruction};
use crate::error::ChipError;
use crate::memory::{word_at, Memory, MemoryView, Stack, MEMORY_SIZE, PROGRAM_START, STACK_SIZE};

verus! {

/// Number of general-purpose registers.
pub const REGISTER_COUNT: usize = 16;

/// Index of the register that doubles as carry, borrow and shift flag.
pub const FLAG_REGISTER: usize = 15;

/// Largest stack pointer value; a call is refused once the pointer reaches it.
pub const MAX_STACK_POINTER: u16 = 15;

/// What a successfully executed instruction leaves the machine in.
#[derive(Debug, Clone, Copy, PartialEq, Eq, Structural)]
pub enum Status {
    Running,
    Halted,
}

/// The abstract machine: registers, memory with its cursors, and the call stack.
pub struct CpuState {
    pub registers: Seq<u8>,
    pub memory: MemoryView,
    pub stack: Seq<u16>,
    pub stack_pointer: nat,
}

impl CpuState {
    pub open spec fn wf(self) -> bool {
        &&& self.registers.len() == REGISTER_COUNT
        &&& self.memory.wf()
        &&& self.stack.len() == STACK_SIZE
        &&& self.stack_pointer <= MAX_STACK_POINTER
        &&& forall|i: int| 0 <= i < STACK_SIZE ==> #[trigger] self.stack[i] <= MEMORY_SIZE
    }

    pub open spec fn reg(self, i: u8) -> u8 {
        self.registers[i as int]
    }

    pub open spec fn flag(self) -> u8 {
        self.registers[FLAG_REGISTER as int]
    }

    pub open spec fn read_cursor(self) -> nat {
        self.memory.read_cursor
    }

    pub open spec fn with_reg(self, i: u8, v: u8) -> CpuState {
        CpuState { registers: self.registers.update(i as int, v), ..self }
    }

    pub open spec fn with_flag(self, v: u8) -> CpuState {
        CpuState { registers: self.registers.update(FLAG_REGISTER as int, v), ..self }
    }

    pub open spec fn with_read_cursor(self, a: nat) -> CpuState {
        CpuState { memory: MemoryView { read_cursor: a, ..self.memory }, ..self }
    }

    /// The word that the next fetch reads.
    pub open spec fn current_word(self) -> u16 {
        word_at(self.memory.bytes, self.memory.read_cursor as int)
    }
}

/// The state of a freshly built machine.
pub open spec fn initial_state() -> CpuState {
    CpuState {
        registers: Seq::new(REGISTER_COUNT as nat, |i: int| 0u8),
        memory: MemoryView {
            bytes: Seq::new(MEMORY_SIZE as nat, |i: int| 0u8),
            write_cursor: PROGRAM_START as nat,
            read_cursor: PROGRAM_START as nat,
        },
        stack: Seq::new(STACK_SIZE as nat, |i: int| 0u16),
        stack_pointer: 0,
    }
}

/// First register operand of an instruction (0 where it has none).
pub open spec fn operand_x(ins: Instruction) -> u8 {
    match ins {
        Instruction::SkipIfEqual { x, .. } => x,
        Instruction::SkipIfNotEqual { x, .. } => x,
        Instruction::SkipIfRegistersEqual { x, .. } => x,
        Instruction::LoadValue { x, .. } => x,
        Instruction::AddValue { x, .. } => x,
        Instruction::Move { x, .. } => x,
        Instruction::Or { x, .. } => x,
        Instruction::And { x, .. } => x,
        Instruction::Xor { x, .. } => x,
        Instruction::Add { x, .. } => x,
        Instruction::Sub { x, .. } => x,
        Instruction::ShiftRight { x } => x,
        Instruction::SubReversed { x, .. } => x,
        Instruction::ShiftLeft { x } => x,
        Instruction::SkipIfRegistersNotEqual { x, .. } => x,
        _ => 0,
    }
}

/// Second register operand of an instruction (the first where it has one only).
pub open spec fn operand_y(ins: Instruction) -> u8 {
    match ins {
        Instruction::SkipIfRegistersEqual { y, .. } => y,
        Instruction::Move { y, .. } => y,
        Instruction::Or { y, .. } => y,
        Instruction::And { y, .. } => y,
        Instruction::Xor { y, .. } => y,
        Instruction::Add { y, .. } => y,
        Instruction::Sub { y, .. } => y,
        Instruction::SubReversed { y, .. } => y,
        Instruction::SkipIfRegistersNotEqual { y, .. } => y,
        _ => operand_x(ins),
    }
}

pub open spec fn operands_in_range(ins: Instruction) -> bool {
    operand_x(ins) < REGISTER_COUNT && operand_y(ins) < REGISTER_COUNT
}

/// The first register operand that is out of range.
pub open spec fn bad_operand(ins: Instruction) -> u8 {
    if operand_x(ins) >= REGISTER_COUNT {
        operand_x(ins)
    } else {
        operand_y(ins)
    }
}

/// Skipping: the read cursor moves past one more instruction, within memory.
pub open spec fn skip_if(s: CpuState, cond: bool) -> (CpuState, Result<Status, ChipError>) {
    if !cond {
        (s, Ok(Status::Running))
    } else if s.read_cursor() + 2 > MEMORY_SIZE {
        (s, Err(ChipError::AddressOutOfBounds(s.read_cursor() as u16)))
    } else {
        (s.with_read_cursor(s.read_cursor() + 2), Ok(Status::Running))
    }
}

/// `Vx >>= 1`, the flag written first with bit 1 of `Vx`, the bit that becomes
/// the low bit of the result.
pub open spec fn shift_right_spec(s: CpuState, x: u8) -> CpuState {
    let s1 = s.with_flag(((s.reg(x) / 2) % 2) as u8);
    s1.with_reg(x, (s1.reg(x) / 2) as u8)
}

/// `Vx <<= 1`, the flag written first with the top bit of `Vx`.
pub open spec fn shift_left_spec(s: CpuState, x: u8) -> CpuState {
    let s1 = s.with_flag((s.reg(x) / 128) as u8);
    s1.with_reg(x, ((s1.reg(x) * 2) % 256) as u8)
}

/// Effect of an instruction whose register operands are in range.
pub open spec fn apply_spec(s: CpuState, ins: Instruction) -> (CpuState, Result<Status, ChipError>) {
    match ins {
        Instruction::Halt => (s, Ok(Status::Halted)),
        Instruction::Return => {
            if s.stack_pointer == 0 {
                (s, Err(ChipError::StackUnderflow))
            } else {
                let sp = (s.stack_pointer - 1) as nat;
                let back = CpuState { stack: s.stack.update(sp as int, 0), stack_pointer: sp, ..s };
                (back.with_read_cursor(s.stack[sp as int] as nat), Ok(Status::Running))
            }
        },
        Instruction::Jump { address } => {
            if address > MEMORY_SIZE {
                (s, Err(ChipError::AddressOutOfBounds(address)))
            } else {
                (s.with_read_cursor(address as nat), Ok(Status::Running))
            }
        },
        Instruction::Call { address } => {
            if s.stack_pointer >= MAX_STACK_POINTER {
                (s, Err(ChipError::StackOverflow))
            } else if address > MEMORY_SIZE {
                (s, Err(ChipError::AddressOutOfBounds(address)))
            } else {
                let pushed = CpuState {
                    stack: s.stack.update(s.stack_pointer as int, s.read_cursor() as u16),
                    stack_pointer: s.stack_pointer + 1,
                    ..s
                };
                (pushed.with_read_cursor(address as nat), Ok(Status::Running))
            }
        },
        Instruction::SkipIfEqual { x, value } => skip_if(s, s.reg(x) == value),
        Instruction::SkipIfNotEqual { x, value } => skip_if(s, s.reg(x) != value),
        Instruction::SkipIfRegistersEqual { x, y } => skip_if(s, s.reg(x) == s.reg(y)),
        Instruction::SkipIfRegistersNotEqual { x, y } => skip_if(s, s.reg(x) != s.reg(y)),
        Instruction::LoadValue { x, value } => (s.with_reg(x, value), Ok(Status::Running)),
        Instruction::AddValue { x, value } => (
            s.with_reg(x, ((s.reg(x) + value) % 256) as u8),
            Ok(Status::Running),
        ),
        Instruction::Move { x, y } => (s.with_reg(x, s.reg(y)), Ok(Status::Running)),
        Instruction::Or { x, y } => (s.with_reg(x, s.reg(x) | s.reg(y)), Ok(Status::Running)),
        Instruction::And { x, y } => (s.with_reg(x, s.reg(x) & s.reg(y)), Ok(Status::Running)),
        Instruction::Xor { x, y } => (s.with_reg(x, s.reg(x) ^ s.reg(y)), Ok(Status::Running)),
        Instruction::Add { x, y } => {
            if s.reg(x) + s.reg(y) > 255 {
                (s.with_flag(1), Ok(Status::Running))
            } else {
                (s.with_reg(x, (s.reg(x) + s.reg(y)) as u8), Ok(Status::Running))
            }
        },
        Instruction::Sub { x, y } => {
            if s.reg(x) < s.reg(y) {
                (s.with_flag(1), Ok(Status::Running))
            } else {
                (s.with_reg(x, (s.reg(x) - s.reg(y)) as u8), Ok(Status::Running))
            }
        },
        Instruction::ShiftRight { x } => (shift_right_spec(s, x), Ok(Status::Running)),
        Instruction::SubReversed { x, y } => {
            if s.reg(y) < s.reg(x) {
                (s.with_flag(1), Ok(Status::Running))
            } else {
                (s.with_reg(x, (s.reg(y) - s.reg(x)) as u8).with_flag(0), Ok(Status::Running))
            }
        },
        Instruction::ShiftLeft { x } => (shift_left_spec(s, x), Ok(Status::Running)),
    }
}

/// Effect of executing one decoded instruction: a register operand out of range
/// is fatal and changes nothing; otherwise see `apply_spec`.
pub open spec fn execute_spec(s: CpuState, ins: Instruction) -> (CpuState, Result<Status, ChipError>) {
    if !operands_in_range(ins) {
        (s, Err(ChipError::RegisterIndexOutOfRange(bad_operand(ins))))
    } else {
        apply_spec(s, ins)
    }
}

/// One fetch-decode-execute cycle. The fetch moves the read cursor past the
/// word before it is decoded and executed.
pub open spec fn step_spec(s: CpuState) -> (CpuState, Result<Status, ChipError>) {
    if s.read_cursor() + 2 > MEMORY_SIZE {
        (s, Err(ChipError::AddressOutOfBounds(s.read_cursor() as u16)))
    } else {
        let w = s.current_word();
        let fetched = s.with_read_cursor(s.read_cursor() + 2);
        match decode_spec(w) {
            Some(ins) => execute_spec(fetched, ins),
            None => (fetched, Err(ChipError::UnrecognizedInstruction(w))),
        }
    }
}

/// Repeated cycles until a halt or an error, at most `fuel` of them.
pub open spec fn run_spec(s: CpuState, fuel: nat) -> (CpuState, Result<(), ChipError>)
    decreases fuel,
{
    if fuel == 0 {
        (s, Err(ChipError::StepLimitReached))
    } else {
        let (next, r) = step_spec(s);
        match r {
            Err(e) => (next, Err(e)),
            Ok(Status::Halted) => (next, Ok(())),
            Ok(Status::Running) => run_spec(next, (fuel - 1) as nat),
        }
    }
}

/// Number of cycles that `run` executes at most.
pub open spec fn run_budget() -> nat {
    u64::MAX as nat
}

/// The machine: sixteen registers, memory, and a call stack with its pointer.
#[derive(Debug)]
pub struct CPU {
    pub registers: [u8; 16],
    memory: Memory,
    stack_pointer: u16,
    stack: Stack,
}

impl View for CPU {
    type V = CpuState;

    closed spec fn view(&self) -> CpuState {
        CpuState {
            registers: self.registers@,
            memory: self.memory@,
            stack: self.stack@,
            stack_pointer: self.stack_pointer as nat,
        }
    }
}

impl CPU {
    pub open spec fn wf(&self) -> bool {
        self@.wf()
    }

    /// Registers and memory zeroed, both cursors at the program origin, empty stack.
    pub fn new() -> (r: Self)
        ensures
            r.wf(),
            r@ == initial_state(),
    {
        let registers = [0u8; 16];
        let cpu = CPU { registers, memory: Memory::new(), stack: Stack::new(), stack_pointer: 0 };
        proof {
            assert(cpu.registers@ =~= Seq::new(REGISTER_COUNT as nat, |i: int| 0u8));
        }
        cpu
    }

    pub fn read_cursor(&self) -> (r: u16)
        ensures
            r == self@.read_cursor(),
    {
        self.memory.read_cursor()
    }

    pub fn write_cursor(&self) -> (r: u16)
        ensures
            r == self@.memory.write_cursor,
    {
        self.memory.write_cursor()
    }

    pub fn stack_pointer(&self) -> (r: u16)
        ensures
            r == self@.stack_pointer,
    {
        self.stack_pointer
    }

    /// Appends an instruction word at the write cursor.
    pub fn set_opcode(&mut self, opcode: u16) -> (r: Result<(), ChipError>)
        requires
            old(self).wf(),
        ensures
            final(self).wf(),
            final(self)@ == (CpuState { memory: final(self)@.memory, ..old(self)@ }),
            old(self)@.memory.write_cursor + 2 <= MEMORY_SIZE ==> r == Ok::<(), ChipError>(())
                && final(self)@.memory == (MemoryView {
                bytes: crate::memory::store_word(
                    old(self)@.memory.bytes,
                    old(self)@.memory.write_cursor as int,
                    opcode,
                ),
                write_cursor: (old(self)@.memory.write_cursor + 2) as nat,
                ..old(self)@.memory
            }),
            old(self)@.memory.write_cursor + 2 > MEMORY_SIZE ==> r == Err::<(), ChipError>(
                ChipError::AddressOutOfBounds(old(self)@.memory.write_cursor as u16),
            ) && final(self)@ == old(self)@,
    {
        self.memory.write(opcode)
    }

    /// Places an instruction word at `address`; cursors are untouched.
    pub fn write_into(&mut self, data: u16, address: u16) -> (r: Result<(), ChipError>)
        requires
            old(self).wf(),
        ensures
            final(self).wf(),
            address + 2 <= MEMORY_SIZE ==> r == Ok::<(), ChipError>(()) && final(self)@ == (CpuState {
                memory: MemoryView {
                    bytes: crate::memory::store_word(old(self)@.memory.bytes, address as int, data),
                    ..old(self)@.memory
                },
                ..old(self)@
            }),
            address + 2 > MEMORY_SIZE ==> r == Err::<(), ChipError>(ChipError::AddressOutOfBounds(address))
                && final(self)@ == old(self)@,
    {
        self.memory.write_into(data, address)
    }

    /// Copies a program image into memory at the program origin.
    pub fn load_rom(&mut self, rom: &[u8]) -> (r: Result<(), ChipError>)
        requires
            old(self).wf(),
        ensures
            final(self).wf(),
            PROGRAM_START + rom@.len() <= MEMORY_SIZE ==> r == Ok::<(), ChipError>(()) && final(self)@ == (CpuState {
                memory: MemoryView {
                    bytes: old(self)@.memory.bytes.take(PROGRAM_START as int) + rom@
                        + old(self)@.memory.bytes.skip(PROGRAM_START + rom@.len()),
                    ..old(self)@.memory
                },
                ..old(self)@
            }),
            PROGRAM_START + rom@.len() > MEMORY_SIZE ==> r == Err::<(), ChipError>(
                ChipError::AddressOutOfBounds(PROGRAM_START),
            ) && final(self)@ == old(self)@,
    {
        self.memory.load(rom)
    }

    /// `Vx = value`.
    fn set_value_to_register_operation(&mut self, x: u8, value: u8)
        requires
            old(self).wf(),
            x < REGISTER_COUNT,
        ensures
            final(self).wf(),
            (final(self)@, Ok::<Status, ChipError>(Status::Running)) == apply_spec(
                old(self)@,
                Instruction::LoadValue { x, value },
            ),
    {
        self.registers[x as usize] = value;
    }

    /// `Vx += value`, wrapping.
    fn add_value_to_register_operation(&mut self, x: u8, value: u8)
        requires
            old(self).wf(),
            x < REGISTER_COUNT,
        ensures
            final(self).wf(),
            (final(self)@, Ok::<Status, ChipError>(Status::Running)) == apply_spec(
                old(self)@,
                Instruction::AddValue { x, value },
            ),
    {
        let sum = (self.registers[x as usize] as u16 + value as u16) % 256;
        self.registers[x as usize] = sum as u8;
    }

    /// `Vx = Vy`.
    fn move_y_register_value_to_x_instruction(&mut self, x: u8, y: u8)
        requires
            old(self).wf(),
            x < REGISTER_COUNT,
            y < REGISTER_COUNT,
        ensures
            final(self).wf(),
            (final(self)@, Ok::<Status, ChipError>(Status::Running)) == apply_spec(
                old(self)@,
                Instruction::Move { x, y },
            ),
    {
        self.registers[x as usize] = self.registers[y as usize];
    }

    /// `Vx |= Vy`.
    fn bitwise_or_operation(&mut self, x: u8, y: u8)
        requires
            old(self).wf(),
            x < REGISTER_COUNT,
            y < REGISTER_COUNT,
        ensures
            final(self).wf(),
            (final(self)@, Ok::<Status, ChipError>(Status::Running)) == apply_spec(
                old(self)@,
                Instruction::Or { x, y },
            ),
    {
        let v = self.registers[x as usize] | self.registers[y as usize];
        self.registers[x as usize] = v;
    }

    /// `Vx &= Vy`.
    fn bitwise_and_operation(&mut self, x: u8, y: u8)
        requires
            old(self).wf(),
            x < REGISTER_COUNT,
            y < REGISTER_COUNT,
        ensures
            final(self).wf(),
            (final(self)@, Ok::<Status, ChipError>(Status::Running)) == apply_spec(
                old(self)@,
                Instruction::And { x, y },
            ),
    {
        let v = self.registers[x as usize] & self.registers[y as usize];
        self.registers[x as usize] = v;
    }

    /// `Vx ^= Vy`.
    fn bitwise_xor_operation(&mut self, x: u8, y: u8)
        requires
            old(self).wf(),
            x < REGISTER_COUNT,
            y < REGISTER_COUNT,
        ensures
            final(self).wf(),
            (final(self)@, Ok::<Status, ChipError>(Status::Running)) == apply_spec(
                old(self)@,
                Instruction::Xor { x, y },
            ),
    {
        let v = self.registers[x as usize] ^ self.registers[y as usize];
        self.registers[x as usize] = v;
    }

    /// `Vx += Vy` when the sum fits in a byte; otherwise only the flag is set
    /// and `Vx` keeps its value.
    fn add_operation(&mut self, x: u8, y: u8)
        requires
            old(self).wf(),
            x < REGISTER_COUNT,
            y < REGISTER_COUNT,
        ensures
            final(self).wf(),
            (final(self)@, Ok::<Status, ChipError>(Status::Running)) == apply_spec(
                old(self)@,
                Instruction::Add { x, y },
            ),
    {
        let x_register = self.registers[x as usize];
        let y_register = self.registers[y as usize];
        if x_register as u16 + y_register as u16 > 255 {
            self.registers[FLAG_REGISTER] = 1;
        } else {
            self.registers[x as usize] = x_register + y_register;
        }
    }

    /// `Vx -= Vy` when no borrow occurs; otherwise only the flag is set and
    /// `Vx` keeps its value.
    fn sub_operation(&mut self, x: u8, y: u8)
        requires
            old(self).wf(),
            x < REGISTER_COUNT,
            y < REGISTER_COUNT,
        ensures
            final(self).wf(),
            (final(self)@, Ok::<Status, ChipError>(Status::Running)) == apply_spec(
                old(self)@,
                Instruction::Sub { x, y },
            ),
    {
        let x_register = self.registers[x as usize];
        let y_register = self.registers[y as usize];
        if x_register < y_register {
            self.registers[FLAG_REGISTER] = 1;
        } else {
            self.registers[x as usize] = x_register - y_register;
        }
    }

    /// `Vx = Vy - Vx` and a cleared flag; when `Vy < Vx` only the flag is set.
    fn sub_vx_minus_vy_operation(&mut self, x: u8, y: u8)
        requires
            old(self).wf(),
            x < REGISTER_COUNT,
            y < REGISTER_COUNT,
        ensures
            final(self).wf(),
            (final(self)@, Ok::<Status, ChipError>(Status::Running)) == apply_spec(
                old(self)@,
                Instruction::SubReversed { x, y },
            ),
    {
        if self.registers[y as usize] < self.registers[x as usize] {
            self.registers[FLAG_REGISTER] = 1;
            return;
        }
        self.registers[x as usize] = self.registers[y as usize] - self.registers[x as usize];
        self.registers[FLAG_REGISTER] = 0;
    }

    /// Shifts `Vx` right by one; the flag gets the bit that lands in the low position.
    fn bitwise_shr_operation(&mut self, x: u8)
        requires
            old(self).wf(),
            x < REGISTER_COUNT,
        ensures
            final(self).wf(),
            (final(self)@, Ok::<Status, ChipError>(Status::Running)) == apply_spec(
                old(self)@,
                Instruction::ShiftRight { x },
            ),
    {
        self.registers[FLAG_REGISTER] = (self.registers[x as usize] / 2) % 2;
        self.registers[x as usize] = self.registers[x as usize] / 2;
    }

    /// Shifts `Vx` left by one, dropping the top bit into the flag.
    fn bitwise_shl_operation(&mut self, x: u8)
        requires
            old(self).wf(),
            x < REGISTER_COUNT,
        ensures
            final(self).wf(),
            (final(self)@, Ok::<Status, ChipError>(Status::Running)) == apply_spec(
                old(self)@,
                Instruction::ShiftLeft { x },
            ),
    {
        self.registers[FLAG_REGISTER] = self.registers[x as usize] / 128;
        let doubled = (self.registers[x as usize] as u16 * 2) % 256;
        self.registers[x as usize] = doubled as u8;
    }

    /// Moves the read cursor to `address`.
    fn jp_operation(&mut self, address: u16) -> (r: Result<Status, ChipError>)
        requires
            old(self).wf(),
        ensures
            final(self).wf(),
            (final(self)@, r) == apply_spec(old(self)@, Instruction::Jump { address }),
    {
        match self.memory.set_read_cursor(address) {
            Ok(()) => Ok(Status::Running),
            Err(e) => Err(e),
        }
    }

    /// Pushes the read cursor, bumps the stack pointer and jumps to `address`.
    fn call_operation(&mut self, address: u16) -> (r: Result<Status, ChipError>)
        requires
            old(self).wf(),
        ensures
            final(self).wf(),
            (final(self)@, r) == apply_spec(old(self)@, Instruction::Call { address }),
    {
        if self.stack_pointer >= MAX_STACK_POINTER {
            return Err(ChipError::StackOverflow);
        }
        if address as usize > MEMORY_SIZE {
            return Err(ChipError::AddressOutOfBounds(address));
        }
        let back = self.memory.read_cursor();
        self.stack.push(back, self.stack_pointer);
        self.stack_pointer = self.stack_pointer + 1;
        let _ = self.memory.set_read_cursor(address);
        Ok(Status::Running)
    }

    /// Drops the stack pointer and continues at the address found there.
    fn ret_operation(&mut self) -> (r: Result<Status, ChipError>)
        requires
            old(self).wf(),
        ensures
            final(self).wf(),
            (final(self)@, r) == apply_spec(old(self)@, Instruction::Return),
    {
        if self.stack_pointer == 0 {
            return Err(ChipError::StackUnderflow);
        }
        self.stack_pointer = self.stack_pointer - 1;
        let back = self.stack.pop(self.stack_pointer);
        let _ = self.memory.set_read_cursor(back);
        Ok(Status::Running)
    }

    /// Moves the read cursor past the next instruction when `cond` holds.
    fn skip_next_instruction_if(&mut self, cond: bool) -> (r: Result<Status, ChipError>)
        requires
            old(self).wf(),
        ensures
            final(self).wf(),
            (final(self)@, r) == skip_if(old(self)@, cond),
    {
        if !cond {
            return Ok(Status::Running);
        }
        let at = self.memory.read_cursor();
        if at as usize + 2 > MEMORY_SIZE {
            return Err(ChipError::AddressOutOfBounds(at));
        }
        let _ = self.memory.set_read_cursor(at + 2);
        Ok(Status::Running)
    }

    /// Executes one decoded instruction. A register operand of sixteen or more
    /// is refused before anything changes.
    pub fn execute(&mut self, ins: Instruction) -> (r: Result<Status, ChipError>)
        requires
            old(self).wf(),
        ensures
            final(self).wf(),
            (final(self)@, r) == execute_spec(old(self)@, ins),
    {
        let (x, y) = match ins {
            Instruction::SkipIfEqual { x, .. } => (x, x),
            Instruction::SkipIfNotEqual { x, .. } => (x, x),
            Instruction::SkipIfRegistersEqual { x, y } => (x, y),
            Instruction::LoadValue { x, .. } => (x, x),
            Instruction::AddValue { x, .. } => (x, x),
            Instruction::Move { x, y } => (x, y),
            Instruction::Or { x, y } => (x, y),
            Instruction::And { x, y } => (x, y),
            Instruction::Xor { x, y } => (x, y),
            Instruction::Add { x, y } => (x, y),
            Instruction::Sub { x, y } => (x, y),
            Instruction::ShiftRight { x } => (x, x),
            Instruction::SubReversed { x, y } => (x, y),
            Instruction::ShiftLeft { x } => (x, x),
            Instruction::SkipIfRegistersNotEqual { x, y } => (x, y),
            _ => (0, 0),
        };
        if x as usize >= REGISTER_COUNT {
            return Err(ChipError::RegisterIndexOutOfRange(x));
        }
        if y as usize >= REGISTER_COUNT {
            return Err(ChipError::RegisterIndexOutOfRange(y));
        }
        match ins {
            Instruction::Halt => Ok(Status::Halted),
            Instruction::Return => self.ret_operation(),
            Instruction::Jump { address } => self.jp_operation(address),
            Instruction::Call { address } => self.call_operation(address),
            Instruction::SkipIfEqual { x, value } => {
                let cond = self.registers[x as usize] == value;
                self.skip_next_instruction_if(cond)
            },
            Instruction::SkipIfNotEqual { x, value } => {
                let cond = self.registers[x as usize] != value;
                self.skip_next_instruction_if(cond)
            },
            Instruction::SkipIfRegistersEqual { x, y } => {
                let cond = self.registers[x as usize] == self.registers[y as usize];
                self.skip_next_instruction_if(cond)
            },
            Instruction::SkipIfRegistersNotEqual { x, y } => {
                let cond = self.registers[x as usize] != self.registers[y as usize];
                self.skip_next_instruction_if(cond)
            },
            Instruction::LoadValue { x, value } => {
                self.set_value_to_register_operation(x, value);
                Ok(Status::Running)
            },
            Instruction::AddValue { x, value } => {
                self.add_value_to_register_operation(x, value);
                Ok(Status::Running)
            },
            Instruction::Move { x, y } => {
                self.move_y_register_value_to_x_instruction(x, y);
                Ok(Status::Running)
            },
            Instruction::Or { x, y } => {
                self.bitwise_or_operation(x, y);
                Ok(Status::Running)
            },
            Instruction::And { x, y } => {
                self.bitwise_and_operation(x, y);
                Ok(Status::Running)
            },
            Instruction::Xor { x, y } => {
                self.bitwise_xor_operation(x, y);
                Ok(Status::Running)
            },
            Instruction::Add { x, y } => {
                self.add_operation(x, y);
                Ok(Status::Running)
            },
            Instruction::Sub { x, y } => {
                self.sub_operation(x, y);
                Ok(Status::Running)
            },
            Instruction::ShiftRight { x } => {
                self.bitwise_shr_operation(x);
                Ok(Status::Running)
            },
            Instruction::SubReversed { x, y } => {
                self.sub_vx_minus_vy_operation(x, y);
                Ok(Status::Running)
            },
            Instruction::ShiftLeft { x } => {
                self.bitwise_shl_operation(x);
                Ok(Status::Running)
            },
        }
    }

    /// Reads the word at the read cursor, advancing it by two, and decodes it.
    fn parse_opcode(&mut self) -> (r: Result<Instruction, ChipError>)
        requires
            old(self).wf(),
        ensures
            final(self).wf(),
            old(self)@.read_cursor() + 2 > MEMORY_SIZE ==> final(self)@ == old(self)@ && r
                == Err::<Instruction, ChipError>(
                ChipError::AddressOutOfBounds(old(self)@.read_cursor() as u16),
            ),
            old(self)@.read_cursor() + 2 <= MEMORY_SIZE ==> final(self)@ == old(self)@.with_read_cursor(
                old(self)@.read_cursor() + 2,
            ) && match decode_spec(old(self)@.current_word()) {
                Some(ins) => r == Ok::<Instruction, ChipError>(ins),
                None => r == Err::<Instruction, ChipError>(
                    ChipError::UnrecognizedInstruction(old(self)@.current_word()),
                ),
            },
    {
        match self.memory.read(2) {
            Ok(word) => decode(word),
            Err(e) => Err(e),
        }
    }

    /// One fetch-decode-execute cycle.
    pub fn step(&mut self) -> (r: Result<Status, ChipError>)
        requires
            old(self).wf(),
        ensures
            final(self).wf(),
            (final(self)@, r) == step_spec(old(self)@),
    {
        match self.parse_opcode() {
            Ok(ins) => self.execute(ins),
            Err(e) => Err(e),
        }
    }

    /// Runs cycles until a halt instruction (`Ok`) or a fatal error (`Err`).
    /// The loop gives up with `StepLimitReached` after `u64::MAX` cycles.
    pub fn run(&mut self) -> (r: Result<(), ChipError>)
        requires
            old(self).wf(),
        ensures
            final(self).wf(),
            (final(self)@, r) == run_spec(old(self)@, run_budget()),
    {
        let mut fuel: u64 = u64::MAX;
        loop
            invariant
                self.wf(),
                run_spec(self@, fuel as nat) == run_spec(old(self)@, run_budget()),
            decreases fuel,
        {
            if fuel == 0 {
                return Err(ChipError::StepLimitReached);
            }
            let r = self.step();
            match r {
                Err(e) => {
                    return Err(e);
                },
                Ok(Status::Halted) => {
                    return Ok(());
                },
                Ok(Status::Running) => {},
            }
            fuel = fuel - 1;
        }
    }
}

} // verus!
