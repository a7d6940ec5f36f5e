//! The interpreter: memory, comparison register and instruction pointer.
use vstd::prelude::*;

use core::cmp::Ordering;

use crate::AddressType;

pub mod instruction;
pub mod metadata;
pub mod pod;
pub mod stack;
pub mod laws;

use self::instruction::{
    Instruction, Opcode, Operand, decode, decode_spec, has_two_operands, lemma_decode_in_bounds,
};
use self::metadata::{Pod, is_integer};
use self::pod::{Value, integer_arith, integer_compare, integer_order, integer_result, value_of};
use self::stack::{Stack, read_spec, write_spec};

verus! {

/// Why interpretation stopped abnormally.
#[derive(Clone, Copy, Debug, PartialEq, Eq, Structural)]
pub enum Fault {
    /// A fetch would read past the end of the program.
    UnexpectedEndOfProgram,
    /// A metadata byte names no pod, or has a reserved bit set.
    InvalidMetadata,
    /// An opcode byte outside the instruction set.
    InvalidOpcode,
    /// A memory access would exceed the memory region.
    MemoryFault,
    /// An integer division by zero.
    ArithmeticFault,
}

/// A floating-point operation that the machine hands to its host, since it
/// computes on integers only. The destination address and both operands are
/// given; the host stores the result with [`VM::move_imm`], or, for
/// `Compare`, sets the comparison register with [`VM::set_comparison`].
#[derive(Clone, Copy, Debug, PartialEq, Eq, Structural)]
pub struct FloatOp {
    pub op: Opcode,
    pub dst: AddressType,
    pub lhs: Value,
    pub rhs: Value,
}

/// What an executed instruction, or a run of them, leaves for the host.
#[derive(Clone, Copy, Debug, PartialEq, Eq, Structural)]
pub enum Event {
    /// Execution can go on.
    Running,
    /// The instruction pointer reached the end of the program.
    Halted,
    /// A `Print` instruction read this value.
    Print(Value),
    /// A floating-point operation waits for the host.
    Float(FloatOp),
}

/// The state of a machine: instruction pointer, memory and comparison register.
pub struct MachineState {
    pub counter: int,
    pub memory: Seq<u8>,
    pub comparison: Option<Ordering>,
}

/// The value that the second operand denotes in `mem`.
pub open spec fn operand_spec(mem: Seq<u8>, src: Operand) -> Result<Value, Fault> {
    match src {
        Operand::Immediate(v) => Ok(v),
        Operand::Absolute(pod, addr) => read_spec(mem, addr as int, pod),
    }
}

/// Executing the two-operand opcode `op` on `dst` and `src`; the counter is untouched.
pub open spec fn binary_spec(s: MachineState, op: Opcode, dst: u32, src: Operand) -> Result<
    (MachineState, Event),
    Fault,
> {
    match operand_spec(s.memory, src) {
        Err(e) => Err(e),
        Ok(rhs) => if op == Opcode::Move {
            match write_spec(s.memory, dst as int, rhs) {
                Err(e) => Err(e),
                Ok(m) => Ok((MachineState { memory: m, ..s }, Event::Running)),
            }
        } else {
            match read_spec(s.memory, dst as int, rhs.spec_pod()) {
                Err(e) => Err(e),
                Ok(lhs) => if !is_integer(rhs.spec_pod()) {
                    Ok((s, Event::Float(FloatOp { op, dst, lhs, rhs })))
                } else if op == Opcode::Compare {
                    Ok(
                        (
                            MachineState { comparison: integer_order(lhs.bits(), rhs.bits()), ..s },
                            Event::Running,
                        ),
                    )
                } else {
                    match integer_result(op, rhs.spec_pod(), lhs.bits(), rhs.bits()) {
                        None => Err(Fault::ArithmeticFault),
                        Some(n) => match write_spec(s.memory, dst as int, value_of(rhs.spec_pod(), n)) {
                            Err(e) => Err(e),
                            Ok(m) => Ok((MachineState { memory: m, ..s }, Event::Running)),
                        },
                    }
                },
            }
        },
    }
}

/// Whether the branch opcode `op` is taken under the comparison register `c`.
pub open spec fn branch_taken(op: Opcode, c: Option<Ordering>) -> bool {
    match op {
        Opcode::Jump => true,
        Opcode::JumpIfEqual => c == Some(Ordering::Equal),
        Opcode::JumpIfLessThan => c == Some(Ordering::Less),
        _ => false,
    }
}

/// Executing a decoded instruction in `s`, whose counter already points past it.
/// A branch taken to an offset beyond the end of the program faults with
/// `UnexpectedEndOfProgram`, as the fetch there would.
pub open spec fn apply_spec(prog_len: int, s: MachineState, instr: Instruction) -> Result<
    (MachineState, Event),
    Fault,
> {
    match instr {
        Instruction::Binary { op, dst, src } => binary_spec(s, op, dst, src),
        Instruction::Branch { op, target } => if !branch_taken(op, s.comparison) {
            Ok((s, Event::Running))
        } else if target > prog_len {
            Err(Fault::UnexpectedEndOfProgram)
        } else {
            Ok((MachineState { counter: target as int, ..s }, Event::Running))
        },
        Instruction::Print { pod, addr } => match read_spec(s.memory, addr as int, pod) {
            Err(e) => Err(e),
            Ok(v) => Ok((s, Event::Print(v))),
        },
    }
}

/// Executing the instruction at the counter of `s`.
pub open spec fn step_spec(prog: Seq<u8>, s: MachineState) -> Result<(MachineState, Event), Fault> {
    match decode_spec(prog, s.counter) {
        Err(e) => Err(e),
        Ok((instr, next)) => apply_spec(prog.len() as int, MachineState { counter: next, ..s }, instr),
    }
}

/// Running `prog` from `s` for at most `fuel` instructions: it halts when the
/// counter equals the program length, stops at the first fault and at the
/// first event for the host, and otherwise reports `Running` once the fuel is
/// spent.
pub open spec fn run_spec(prog: Seq<u8>, s: MachineState, fuel: nat) -> (Result<Event, Fault>, MachineState)
    decreases fuel,
{
    if s.counter == prog.len() {
        (Ok(Event::Halted), s)
    } else if fuel == 0 {
        (Ok(Event::Running), s)
    } else {
        match step_spec(prog, s) {
            Err(e) => (Err(e), s),
            Ok((next, Event::Running)) => run_spec(prog, next, (fuel - 1) as nat),
            Ok((next, e)) => (Ok(e), next),
        }
    }
}

/// Whether a call that returned `r` and moved the machine from `before` to
/// `after` did what `expected` says: on success the new state and event, on a
/// fault that fault with the state unchanged.
pub open spec fn outcome(
    r: Result<Event, Fault>,
    before: MachineState,
    after: MachineState,
    expected: Result<(MachineState, Event), Fault>,
) -> bool {
    match expected {
        Ok((s, e)) => r == Ok::<Event, Fault>(e) && after == s,
        Err(f) => r == Err::<Event, Fault>(f) && after == before,
    }
}

/// The virtual machine: a program, an instruction pointer into it, a memory
/// region of `STACK_SIZE` bytes and the comparison register.
#[derive(Debug)]
pub struct VM<'a, const STACK_SIZE: usize> {
    program: &'a [u8],
    counter: usize,
    stack: Stack,
    comparison: Option<Ordering>,
}

impl<'a, const STACK_SIZE: usize> View for VM<'a, STACK_SIZE> {
    type V = MachineState;

    closed spec fn view(&self) -> MachineState {
        MachineState {
            counter: self.counter as int,
            memory: self.stack@,
            comparison: self.comparison,
        }
    }
}

impl<'a, const STACK_SIZE: usize> VM<'a, STACK_SIZE> {
    /// The program being run.
    pub closed spec fn spec_program(&self) -> Seq<u8> {
        self.program@
    }

    /// A machine at the start of `program`, with zeroed memory and an unset
    /// comparison register.
    pub fn new(program: &'a [u8]) -> (r: Self)
        ensures
            r.spec_program() == program@,
            r@.counter == 0,
            r@.memory == Seq::new(STACK_SIZE as nat, |i: int| 0u8),
            r@.comparison == None::<Ordering>,
    {
        VM { program, counter: 0, stack: Stack::new(STACK_SIZE), comparison: None }
    }

    /// Stores `imm` at `dst`.
    pub fn move_imm(&mut self, dst: AddressType, imm: Value) -> (r: Result<Event, Fault>)
        ensures
            final(self).spec_program() == old(self).spec_program(),
            outcome(
                r,
                old(self)@,
                final(self)@,
                binary_spec(old(self)@, Opcode::Move, dst, Operand::Immediate(imm)),
            ),
    {
        self.binary(Opcode::Move, dst, Operand::Immediate(imm))
    }

    /// Copies the value of type `pod` at `src` to `dst`.
    pub fn move_mem(&mut self, pod: Pod, dst: AddressType, src: AddressType) -> (r: Result<Event, Fault>)
        ensures
            final(self).spec_program() == old(self).spec_program(),
            outcome(
                r,
                old(self)@,
                final(self)@,
                binary_spec(old(self)@, Opcode::Move, dst, Operand::Absolute(pod, src)),
            ),
    {
        self.binary(Opcode::Move, dst, Operand::Absolute(pod, src))
    }

    /// Adds `imm` to the value at `dst`, wrapping for integers.
    /// A floating-point operation other than a move is handed out as [`Event::Float`].
    pub fn add_imm(&mut self, dst: AddressType, imm: Value) -> (r: Result<Event, Fault>)
        ensures
            final(self).spec_program() == old(self).spec_program(),
            outcome(
                r,
                old(self)@,
                final(self)@,
                binary_spec(old(self)@, Opcode::Add, dst, Operand::Immediate(imm)),
            ),
    {
        self.binary(Opcode::Add, dst, Operand::Immediate(imm))
    }

    /// Adds the value at `src` to the value at `dst`, wrapping for integers.
    /// A floating-point operation other than a move is handed out as [`Event::Float`].
    pub fn add(&mut self, pod: Pod, dst: AddressType, src: AddressType) -> (r: Result<Event, Fault>)
        ensures
            final(self).spec_program() == old(self).spec_program(),
            outcome(
                r,
                old(self)@,
                final(self)@,
                binary_spec(old(self)@, Opcode::Add, dst, Operand::Absolute(pod, src)),
            ),
    {
        self.binary(Opcode::Add, dst, Operand::Absolute(pod, src))
    }

    /// Subtracts `imm` from the value at `dst`, wrapping for integers.
    /// A floating-point operation other than a move is handed out as [`Event::Float`].
    pub fn sub_imm(&mut self, dst: AddressType, imm: Value) -> (r: Result<Event, Fault>)
        ensures
            final(self).spec_program() == old(self).spec_program(),
            outcome(
                r,
                old(self)@,
                final(self)@,
                binary_spec(old(self)@, Opcode::Subtract, dst, Operand::Immediate(imm)),
            ),
    {
        self.binary(Opcode::Subtract, dst, Operand::Immediate(imm))
    }

    /// Subtracts the value at `src` from the value at `dst`, wrapping for integers.
    /// A floating-point operation other than a move is handed out as [`Event::Float`].
    pub fn sub(&mut self, pod: Pod, dst: AddressType, src: AddressType) -> (r: Result<Event, Fault>)
        ensures
            final(self).spec_program() == old(self).spec_program(),
            outcome(
                r,
                old(self)@,
                final(self)@,
                binary_spec(old(self)@, Opcode::Subtract, dst, Operand::Absolute(pod, src)),
            ),
    {
        self.binary(Opcode::Subtract, dst, Operand::Absolute(pod, src))
    }

    /// Multiplies the value at `dst` by `imm`, wrapping for integers.
    /// A floating-point operation other than a move is handed out as [`Event::Float`].
    pub fn mul_imm(&mut self, dst: AddressType, imm: Value) -> (r: Result<Event, Fault>)
        ensures
            final(self).spec_program() == old(self).spec_program(),
            outcome(
                r,
                old(self)@,
                final(self)@,
                binary_spec(old(self)@, Opcode::Multiply, dst, Operand::Immediate(imm)),
            ),
    {
        self.binary(Opcode::Multiply, dst, Operand::Immediate(imm))
    }

    /// Multiplies the value at `dst` by the value at `src`, wrapping for integers.
    /// A floating-point operation other than a move is handed out as [`Event::Float`].
    pub fn mul(&mut self, pod: Pod, dst: AddressType, src: AddressType) -> (r: Result<Event, Fault>)
        ensures
            final(self).spec_program() == old(self).spec_program(),
            outcome(
                r,
                old(self)@,
                final(self)@,
                binary_spec(old(self)@, Opcode::Multiply, dst, Operand::Absolute(pod, src)),
            ),
    {
        self.binary(Opcode::Multiply, dst, Operand::Absolute(pod, src))
    }

    /// Divides the value at `dst` by `imm`; an integer division by zero faults.
    /// A floating-point operation other than a move is handed out as [`Event::Float`].
    pub fn div_imm(&mut self, dst: AddressType, imm: Value) -> (r: Result<Event, Fault>)
        ensures
            final(self).spec_program() == old(self).spec_program(),
            outcome(
                r,
                old(self)@,
                final(self)@,
                binary_spec(old(self)@, Opcode::Divide, dst, Operand::Immediate(imm)),
            ),
    {
        self.binary(Opcode::Divide, dst, Operand::Immediate(imm))
    }

    /// Divides the value at `dst` by the value at `src`; an integer division by zero faults.
    /// A floating-point operation other than a move is handed out as [`Event::Float`].
    pub fn div(&mut self, pod: Pod, dst: AddressType, src: AddressType) -> (r: Result<Event, Fault>)
        ensures
            final(self).spec_program() == old(self).spec_program(),
            outcome(
                r,
                old(self)@,
                final(self)@,
                binary_spec(old(self)@, Opcode::Divide, dst, Operand::Absolute(pod, src)),
            ),
    {
        self.binary(Opcode::Divide, dst, Operand::Absolute(pod, src))
    }

    /// Compares the value at `dst` with `imm` into the comparison register.
    /// A floating-point operation other than a move is handed out as [`Event::Float`].
    pub fn cmp_imm(&mut self, dst: AddressType, imm: Value) -> (r: Result<Event, Fault>)
        ensures
            final(self).spec_program() == old(self).spec_program(),
            outcome(
                r,
                old(self)@,
                final(self)@,
                binary_spec(old(self)@, Opcode::Compare, dst, Operand::Immediate(imm)),
            ),
    {
        self.binary(Opcode::Compare, dst, Operand::Immediate(imm))
    }

    /// Compares the value at `dst` with the value at `src` into the comparison register.
    /// A floating-point operation other than a move is handed out as [`Event::Float`].
    pub fn cmp(&mut self, pod: Pod, dst: AddressType, src: AddressType) -> (r: Result<Event, Fault>)
        ensures
            final(self).spec_program() == old(self).spec_program(),
            outcome(
                r,
                old(self)@,
                final(self)@,
                binary_spec(old(self)@, Opcode::Compare, dst, Operand::Absolute(pod, src)),
            ),
    {
        self.binary(Opcode::Compare, dst, Operand::Absolute(pod, src))
    }

    /// Sets the instruction pointer to `dst`.
    pub fn jump(&mut self, dst: usize)
        ensures
            final(self).spec_program() == old(self).spec_program(),
            final(self)@ == (MachineState { counter: dst as int, ..old(self)@ }),
    {
        self.counter = dst;
    }

    /// Sets the instruction pointer to `dst` when the last comparison found
    /// the left operand less than the right.
    pub fn jump_if_lt(&mut self, dst: usize)
        ensures
            final(self).spec_program() == old(self).spec_program(),
            final(self)@ == (MachineState {
                counter: if old(self)@.comparison == Some(Ordering::Less) {
                    dst as int
                } else {
                    old(self)@.counter
                },
                ..old(self)@
            }),
    {
        if matches!(self.comparison, Some(Ordering::Less)) {
            self.jump(dst);
        }
    }

    /// Sets the instruction pointer to `dst` when the last comparison found
    /// both operands equal.
    pub fn jump_if_eq(&mut self, dst: usize)
        ensures
            final(self).spec_program() == old(self).spec_program(),
            final(self)@ == (MachineState {
                counter: if old(self)@.comparison == Some(Ordering::Equal) {
                    dst as int
                } else {
                    old(self)@.counter
                },
                ..old(self)@
            }),
    {
        if matches!(self.comparison, Some(Ordering::Equal)) {
            self.jump(dst);
        }
    }

    /// Reads the value of type `pod` at `addr`.
    pub fn read(&self, pod: Pod, addr: AddressType) -> (r: Result<Value, Fault>)
        ensures
            r == read_spec(self@.memory, addr as int, pod),
    {
        self.stack.read_at(pod, addr as usize)
    }

    /// The value that printing the value of type `pod` at `dst` shows; the
    /// host writes it out.
    pub fn print(&mut self, pod: Pod, dst: AddressType) -> (r: Result<Value, Fault>)
        ensures
            final(self).spec_program() == old(self).spec_program(),
            final(self)@ == old(self)@,
            r == read_spec(old(self)@.memory, dst as int, pod),
    {
        self.read(pod, dst)
    }

    /// Sets the comparison register, as a floating-point `Compare` that the
    /// host carried out does.
    pub fn set_comparison(&mut self, c: Option<Ordering>)
        ensures
            final(self).spec_program() == old(self).spec_program(),
            final(self)@ == (MachineState { comparison: c, ..old(self)@ }),
    {
        self.comparison = c;
    }

    /// The instruction pointer.
    pub fn counter(&self) -> (r: usize)
        ensures
            r == self@.counter,
    {
        self.counter
    }

    /// The comparison register.
    pub fn comparison(&self) -> (r: Option<Ordering>)
        ensures
            r == self@.comparison,
    {
        self.comparison
    }

    /// Runs the program from the instruction pointer for at most `max_steps`
    /// instructions. It returns `Halted` once the instruction pointer equals
    /// the program length, the first fault, or the first event for the host
    /// (a print or a floating-point operation); `Running` when the steps are
    /// spent. A program may loop forever, so the caller bounds each run.
    pub fn interpret(&mut self, max_steps: usize) -> (r: Result<Event, Fault>)
        ensures
            final(self).spec_program() == old(self).spec_program(),
            (r, final(self)@) == run_spec(old(self).spec_program(), old(self)@, max_steps as nat),
    {
        let ghost prog = self.spec_program();
        let ghost start = self@;
        let mut steps: usize = 0;
        while steps < max_steps
            invariant
                self.spec_program() == prog,
                prog == old(self).spec_program(),
                start == old(self)@,
                steps <= max_steps,
                run_spec(prog, start, max_steps as nat) == run_spec(
                    prog,
                    self@,
                    (max_steps - steps) as nat,
                ),
            decreases max_steps - steps,
        {
            if self.counter == self.program.len() {
                return Ok(Event::Halted);
            }
            match self.execute() {
                Ok(Event::Running) => {},
                other => return other,
            }
            steps = steps + 1;
        }
        if self.counter == self.program.len() {
            Ok(Event::Halted)
        } else {
            Ok(Event::Running)
        }
    }

    /// Executes a two-operand opcode on `dst` and `src`; on a fault nothing changes.
    fn binary(&mut self, op: Opcode, dst: u32, src: Operand) -> (r: Result<Event, Fault>)
        requires
            has_two_operands(op),
        ensures
            final(self).spec_program() == old(self).spec_program(),
            outcome(r, old(self)@, final(self)@, binary_spec(old(self)@, op, dst, src)),
    {
        let rhs = match src {
            Operand::Immediate(v) => v,
            Operand::Absolute(pod, addr) => match self.stack.read_at(pod, addr as usize) {
                Ok(v) => v,
                Err(e) => return Err(e),
            },
        };
        if op == Opcode::Move {
            return match self.stack.write_at(dst as usize, rhs) {
                Ok(()) => Ok(Event::Running),
                Err(e) => Err(e),
            };
        }
        let lhs = match self.stack.read_at(rhs.pod(), dst as usize) {
            Ok(v) => v,
            Err(e) => return Err(e),
        };
        if !rhs.pod().is_integer() {
            return Ok(Event::Float(FloatOp { op, dst, lhs, rhs }));
        }
        if op == Opcode::Compare {
            self.comparison = integer_compare(lhs, rhs);
            return Ok(Event::Running);
        }
        let result = match integer_arith(op, lhs, rhs) {
            Ok(v) => v,
            Err(e) => return Err(e),
        };
        match self.stack.write_at(dst as usize, result) {
            Ok(()) => Ok(Event::Running),
            Err(e) => Err(e),
        }
    }

    /// Executes the instruction at the instruction pointer; on a fault nothing changes.
    pub fn execute(&mut self) -> (r: Result<Event, Fault>)
        ensures
            final(self).spec_program() == old(self).spec_program(),
            outcome(r, old(self)@, final(self)@, step_spec(old(self).spec_program(), old(self)@)),
    {
        proof {
            lemma_decode_in_bounds(self.program@, self.counter as int);
        }
        let (instr, next) = match decode(self.program, self.counter) {
            Ok(d) => d,
            Err(e) => return Err(e),
        };
        match instr {
            Instruction::Binary { op, dst, src } => {
                let at = self.counter;
                self.counter = next;
                let r = self.binary(op, dst, src);
                if r.is_err() {
                    self.counter = at;
                }
                r
            },
            Instruction::Branch { op, target } => {
                let taken = match op {
                    Opcode::Jump => true,
                    Opcode::JumpIfEqual => matches!(self.comparison, Some(Ordering::Equal)),
                    Opcode::JumpIfLessThan => matches!(self.comparison, Some(Ordering::Less)),
                    _ => false,
                };
                if !taken {
                    self.counter = next;
                } else if target > self.program.len() as u64 {
                    return Err(Fault::UnexpectedEndOfProgram);
                } else {
                    self.counter = target as usize;
                }
                Ok(Event::Running)
            },
            Instruction::Print { pod, addr } => match self.stack.read_at(pod, addr as usize) {
                Ok(v) => {
                    self.counter = next;
                    Ok(Event::Print(v))
                },
                Err(e) => Err(e),
            },
        }
    }
}

} // verus!
