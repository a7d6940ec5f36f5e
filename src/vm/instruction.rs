//! The instruction set: opcodes and the operands they carry.
use vstd::prelude::*;

use vstd::bytes::*;

use super::Fault;
use super::metadata::{AddressingMode, Metadata, Pod, decode_mode, decode_pod, pod_width};
use super::pod::{Value, value_of_bytes};

verus! {

/// Opcodes of the virtual machine: the whole instruction set as one byte each.
#[derive(Clone, Copy, Debug, PartialEq, Eq, Structural)]
pub enum Opcode {
    // Memory
    Move,
    // Arithmetic
    Add,
    Subtract,
    Multiply,
    Divide,
    // Control flow
    Compare,
    Jump,
    JumpIfEqual,
    JumpIfLessThan,
    // Debugging
    Print,
}

/// The byte that encodes `op`.
pub open spec fn opcode_byte(op: Opcode) -> nat {
    match op {
        Opcode::Move => 0,
        Opcode::Add => 1,
        Opcode::Subtract => 2,
        Opcode::Multiply => 3,
        Opcode::Divide => 4,
        Opcode::Compare => 5,
        Opcode::Jump => 6,
        Opcode::JumpIfEqual => 7,
        Opcode::JumpIfLessThan => 8,
        Opcode::Print => 9,
    }
}

/// Whether `op` is one of the four arithmetic opcodes.
pub open spec fn is_arithmetic(op: Opcode) -> bool {
    op == Opcode::Add || op == Opcode::Subtract || op == Opcode::Multiply || op == Opcode::Divide
}

/// Whether `op` carries a metadata byte, a destination and a second operand.
pub open spec fn has_two_operands(op: Opcode) -> bool {
    op == Opcode::Move || is_arithmetic(op) || op == Opcode::Compare
}

/// Whether `op` carries a jump target.
pub open spec fn is_jump(op: Opcode) -> bool {
    op == Opcode::Jump || op == Opcode::JumpIfEqual || op == Opcode::JumpIfLessThan
}

/// The opcode encoded by `b`, or `InvalidOpcode`.
pub open spec fn decode_opcode(b: u8) -> Result<Opcode, Fault> {
    if b == 0 {
        Ok(Opcode::Move)
    } else if b == 1 {
        Ok(Opcode::Add)
    } else if b == 2 {
        Ok(Opcode::Subtract)
    } else if b == 3 {
        Ok(Opcode::Multiply)
    } else if b == 4 {
        Ok(Opcode::Divide)
    } else if b == 5 {
        Ok(Opcode::Compare)
    } else if b == 6 {
        Ok(Opcode::Jump)
    } else if b == 7 {
        Ok(Opcode::JumpIfEqual)
    } else if b == 8 {
        Ok(Opcode::JumpIfLessThan)
    } else if b == 9 {
        Ok(Opcode::Print)
    } else {
        Err(Fault::InvalidOpcode)
    }
}

impl Opcode {
    /// Decodes an opcode byte.
    pub fn from_byte(b: u8) -> (r: Result<Opcode, Fault>)
        ensures
            r == decode_opcode(b),
            r matches Ok(op) ==> opcode_byte(op) == b,
    {
        match b {
            0 => Ok(Opcode::Move),
            1 => Ok(Opcode::Add),
            2 => Ok(Opcode::Subtract),
            3 => Ok(Opcode::Multiply),
            4 => Ok(Opcode::Divide),
            5 => Ok(Opcode::Compare),
            6 => Ok(Opcode::Jump),
            7 => Ok(Opcode::JumpIfEqual),
            8 => Ok(Opcode::JumpIfLessThan),
            9 => Ok(Opcode::Print),
            _ => Err(Fault::InvalidOpcode),
        }
    }

    /// The byte that encodes this opcode.
    pub fn byte(self) -> (r: u8)
        ensures
            r == opcode_byte(self),
            decode_opcode(r) == Ok::<Opcode, Fault>(self),
    {
        match self {
            Opcode::Move => 0,
            Opcode::Add => 1,
            Opcode::Subtract => 2,
            Opcode::Multiply => 3,
            Opcode::Divide => 4,
            Opcode::Compare => 5,
            Opcode::Jump => 6,
            Opcode::JumpIfEqual => 7,
            Opcode::JumpIfLessThan => 8,
            Opcode::Print => 9,
        }
    }
}

/// The second operand of a two-operand instruction.
#[derive(Clone, Copy, Debug, PartialEq, Eq, Structural)]
pub enum Operand {
    /// The value itself.
    Immediate(Value),
    /// The address of a value of the given type in memory.
    Absolute(Pod, u32),
}

/// One decoded instruction.
///
/// Multi-byte fields are little-endian. The encodings are:
/// - two operands, immediate: `[opcode][metadata][dst: u32][value: pod width]`;
/// - two operands, absolute: `[opcode][metadata][dst: u32][src: u32]`;
/// - branch: `[opcode][target: u64]`;
/// - print: `[opcode][metadata][addr: u32]`, where only the pod bits of the
///   metadata are read.
#[derive(Clone, Copy, Debug, PartialEq, Eq, Structural)]
pub enum Instruction {
    /// Move, an arithmetic opcode or Compare, on the value at `dst` and `src`.
    Binary { op: Opcode, dst: u32, src: Operand },
    /// Jump, JumpIfEqual or JumpIfLessThan to the program offset `target`.
    Branch { op: Opcode, target: u64 },
    /// Print the value of type `pod` at `addr`.
    Print { pod: Pod, addr: u32 },
}

/// The `n` bytes of `prog` from `at`, or `UnexpectedEndOfProgram`.
pub open spec fn fetch_spec(prog: Seq<u8>, at: int, n: int) -> Result<Seq<u8>, Fault> {
    if 0 <= at && at + n <= prog.len() {
        Ok(prog.subrange(at, at + n))
    } else {
        Err(Fault::UnexpectedEndOfProgram)
    }
}

/// Whether `n` bytes of `prog` are left from `at`.
pub open spec fn available(prog: Seq<u8>, at: int, n: int) -> bool {
    0 <= at && at + n <= prog.len()
}

/// The little-endian `u32` in the four bytes of `prog` from `at`.
pub open spec fn u32_at(prog: Seq<u8>, at: int) -> u32 {
    spec_u32_from_le_bytes(prog.subrange(at, at + 4))
}

/// The encoded length of a two-operand instruction.
pub open spec fn binary_size(pod: Pod, mode: AddressingMode) -> int {
    match mode {
        AddressingMode::Immediate => 6 + pod_width(pod) as int,
        AddressingMode::Absolute => 10,
    }
}

/// Decodes the two-operand instruction `op` whose metadata byte is at `ip + 1`.
pub open spec fn decode_binary_spec(prog: Seq<u8>, ip: int, op: Opcode) -> Result<(Instruction, int), Fault> {
    if !available(prog, ip, 2) {
        Err(Fault::UnexpectedEndOfProgram)
    } else {
        match decode_pod(prog[ip + 1]) {
            Err(e) => Err(e),
            Ok(pod) => match decode_mode(prog[ip + 1]) {
                Err(e) => Err(e),
                Ok(mode) => {
                    let size = binary_size(pod, mode);
                    if !available(prog, ip, size) {
                        Err(Fault::UnexpectedEndOfProgram)
                    } else {
                        let src = match mode {
                            AddressingMode::Immediate => Operand::Immediate(
                                value_of_bytes(pod, prog.subrange(ip + 6, ip + size)),
                            ),
                            AddressingMode::Absolute => Operand::Absolute(pod, u32_at(prog, ip + 6)),
                        };
                        Ok((Instruction::Binary { op, dst: u32_at(prog, ip + 2), src }, ip + size))
                    }
                },
            },
        }
    }
}

/// Decodes the instruction at `ip` of `prog`: the instruction and the offset
/// just past it, or the fault that its bytes give.
pub open spec fn decode_spec(prog: Seq<u8>, ip: int) -> Result<(Instruction, int), Fault> {
    if !available(prog, ip, 1) {
        Err(Fault::UnexpectedEndOfProgram)
    } else {
        match decode_opcode(prog[ip]) {
            Err(e) => Err(e),
            Ok(op) => if has_two_operands(op) {
                decode_binary_spec(prog, ip, op)
            } else if is_jump(op) {
                if !available(prog, ip, 9) {
                    Err(Fault::UnexpectedEndOfProgram)
                } else {
                    Ok(
                        (
                            Instruction::Branch {
                                op,
                                target: spec_u64_from_le_bytes(prog.subrange(ip + 1, ip + 9)),
                            },
                            ip + 9,
                        ),
                    )
                }
            } else if !available(prog, ip, 2) {
                Err(Fault::UnexpectedEndOfProgram)
            } else {
                match decode_pod(prog[ip + 1]) {
                    Err(e) => Err(e),
                    Ok(pod) => if !available(prog, ip, 6) {
                        Err(Fault::UnexpectedEndOfProgram)
                    } else {
                        Ok((Instruction::Print { pod, addr: u32_at(prog, ip + 2) }, ip + 6))
                    },
                }
            },
        }
    }
}

/// A decoded instruction lies inside the program: decoding moves the offset
/// forward and never past the end.
pub proof fn lemma_decode_in_bounds(prog: Seq<u8>, ip: int)
    ensures
        decode_spec(prog, ip) matches Ok((_, next)) ==> ip < next <= prog.len(),
{
}

/// The `n` bytes of `program` from `at`, or `UnexpectedEndOfProgram` when
/// fewer are left.
pub fn fetch(program: &[u8], at: usize, n: usize) -> (r: Result<&[u8], Fault>)
    ensures
        match fetch_spec(program@, at as int, n as int) {
            Ok(s) => r matches Ok(b) && b@ == s,
            Err(e) => r == Err::<&[u8], Fault>(e),
        },
        program@.len() <= usize::MAX,
{
    let len = program.len();
    if at > len || n > len - at {
        return Err(Fault::UnexpectedEndOfProgram);
    }
    Ok(vstd::slice::slice_subrange(program, at, at + n))
}

/// Decodes the two-operand instruction `op` whose metadata byte is at `ip + 1`.
fn decode_binary(program: &[u8], ip: usize, op: Opcode) -> (r: Result<(Instruction, usize), Fault>)
    requires
        ip < program@.len() <= usize::MAX,
    ensures
        match decode_binary_spec(program@, ip as int, op) {
            Ok((i, next)) => r matches Ok((ri, rn)) && ri == i && rn == next,
            Err(e) => r == Err::<(Instruction, usize), Fault>(e),
        },
{
    let meta = match fetch(program, ip + 1, 1) {
        Ok(b) => Metadata::from_byte(b[0]),
        Err(e) => return Err(e),
    };
    let pod = match meta.pod() {
        Ok(p) => p,
        Err(e) => return Err(e),
    };
    let mode = match meta.addressing_mode() {
        Ok(m) => m,
        Err(e) => return Err(e),
    };
    let operand_len = match mode {
        AddressingMode::Immediate => pod.width(),
        AddressingMode::Absolute => 4,
    };
    let body = match fetch(program, ip, 6 + operand_len) {
        Ok(b) => b,
        Err(e) => return Err(e),
    };
    proof {
        assert(body@.subrange(2, 6) =~= program@.subrange(ip + 2, ip + 6));
        assert(body@.subrange(6, 6 + operand_len) =~= program@.subrange(ip + 6, ip + 6 + operand_len));
    }
    let dst = u32_from_le_bytes(vstd::slice::slice_subrange(body, 2, 6));
    let operand = vstd::slice::slice_subrange(body, 6, 6 + operand_len);
    let src = match mode {
        AddressingMode::Immediate => Operand::Immediate(Value::from_bytes(pod, operand)),
        AddressingMode::Absolute => Operand::Absolute(pod, u32_from_le_bytes(operand)),
    };
    Ok((Instruction::Binary { op, dst, src }, ip + 6 + operand_len))
}

/// Decodes the instruction at `ip`: the instruction and the offset just past
/// it, or the fault that its bytes give.
pub fn decode(program: &[u8], ip: usize) -> (r: Result<(Instruction, usize), Fault>)
    ensures
        match decode_spec(program@, ip as int) {
            Ok((i, next)) => r matches Ok((ri, rn)) && ri == i && rn == next,
            Err(e) => r == Err::<(Instruction, usize), Fault>(e),
        },
        r matches Ok((_, next)) ==> ip < next <= program@.len(),
{
    proof {
        lemma_decode_in_bounds(program@, ip as int);
    }
    let op = match fetch(program, ip, 1) {
        Ok(b) => match Opcode::from_byte(b[0]) {
            Ok(op) => op,
            Err(e) => return Err(e),
        },
        Err(e) => return Err(e),
    };
    match op {
        Opcode::Jump | Opcode::JumpIfEqual | Opcode::JumpIfLessThan => {
            let body = match fetch(program, ip, 9) {
                Ok(b) => b,
                Err(e) => return Err(e),
            };
            proof {
                assert(body@.subrange(1, 9) =~= program@.subrange(ip + 1, ip + 9));
            }
            let target = u64_from_le_bytes(vstd::slice::slice_subrange(body, 1, 9));
            Ok((Instruction::Branch { op, target }, ip + 9))
        },
        Opcode::Print => {
            let meta = match fetch(program, ip + 1, 1) {
                Ok(b) => Metadata::from_byte(b[0]),
                Err(e) => return Err(e),
            };
            let pod = match meta.pod() {
                Ok(p) => p,
                Err(e) => return Err(e),
            };
            let body = match fetch(program, ip, 6) {
                Ok(b) => b,
                Err(e) => return Err(e),
            };
            proof {
                assert(body@.subrange(2, 6) =~= program@.subrange(ip + 2, ip + 6));
            }
            let addr = u32_from_le_bytes(vstd::slice::slice_subrange(body, 2, 6));
            Ok((Instruction::Print { pod, addr }, ip + 6))
        },
        _ => decode_binary(program, ip, op),
    }
}

} // verus!
