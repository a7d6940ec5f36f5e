//! Properties of the machine's semantics that hold for every input.
use vstd::prelude::*;

use core::cmp::Ordering;

use super::{Event, Fault, MachineState, apply_spec, binary_spec, branch_taken, run_spec, step_spec};
use super::instruction::{Instruction, Opcode, Operand, available, fetch_spec, is_arithmetic};
use super::metadata::{Pod, is_integer, pod_width};
use super::pod::{Value, integer_result, lemma_bytes_round_trip, value_of};
use super::stack::{fits, read_spec, write_spec};

verus! {

/// Writing a value and reading the same type back at the same offset gives
/// the value back.
pub proof fn lemma_write_then_read(mem: Seq<u8>, offset: int, v: Value)
    requires
        fits(mem.len() as int, offset, v.spec_pod()),
    ensures
        write_spec(mem, offset, v) matches Ok(m) && m.len() == mem.len() && read_spec(
            m,
            offset,
            v.spec_pod(),
        ) == Ok::<Value, Fault>(v),
{
    lemma_bytes_round_trip(v);
    let w = pod_width(v.spec_pod()) as int;
    let m = mem.subrange(0, offset) + v.spec_bytes() + mem.subrange(offset + w, mem.len() as int);
    assert(m.subrange(offset, offset + w) =~= v.spec_bytes());
}

/// `Move` with an immediate operand, then a read at the destination, yields
/// the immediate unchanged.
pub proof fn lemma_move_imm_round_trip(s: MachineState, dst: u32, imm: Value)
    requires
        fits(s.memory.len() as int, dst as int, imm.spec_pod()),
    ensures
        binary_spec(s, Opcode::Move, dst, Operand::Immediate(imm)) matches Ok((t, e)) && e
            == Event::Running && read_spec(t.memory, dst as int, imm.spec_pod()) == Ok::<
            Value,
            Fault,
        >(imm),
{
    lemma_write_then_read(s.memory, dst as int, imm);
}

/// `Move` with an absolute operand, then a read at the destination, yields
/// the value that was at the source.
pub proof fn lemma_move_round_trip(s: MachineState, pod: Pod, dst: u32, src: u32)
    requires
        fits(s.memory.len() as int, dst as int, pod),
        fits(s.memory.len() as int, src as int, pod),
    ensures
        binary_spec(s, Opcode::Move, dst, Operand::Absolute(pod, src)) matches Ok((t, e)) && e
            == Event::Running && read_spec(t.memory, dst as int, pod) == read_spec(
            s.memory,
            src as int,
            pod,
        ),
{
    let v = read_spec(s.memory, src as int, pod)->Ok_0;
    lemma_bytes_round_trip(v);
    lemma_write_then_read(s.memory, dst as int, v);
}

/// An instruction with an absolute operand behaves as the same instruction
/// with the value found at that address as immediate.
pub proof fn lemma_operand_shapes_agree(s: MachineState, op: Opcode, dst: u32, pod: Pod, src: u32)
    requires
        fits(s.memory.len() as int, src as int, pod),
    ensures
        binary_spec(s, op, dst, Operand::Absolute(pod, src)) == binary_spec(
            s,
            op,
            dst,
            Operand::Immediate(read_spec(s.memory, src as int, pod)->Ok_0),
        ),
{
}

/// An arithmetic opcode on integers stores at the destination the wrapped
/// result of the operation, or faults on a division by zero.
pub proof fn lemma_integer_arithmetic(s: MachineState, op: Opcode, dst: u32, lhs: Value, rhs: Value)
    requires
        is_arithmetic(op),
        is_integer(rhs.spec_pod()),
        read_spec(s.memory, dst as int, rhs.spec_pod()) == Ok::<Value, Fault>(lhs),
    ensures
        binary_spec(s, op, dst, Operand::Immediate(rhs)) == match integer_result(
            op,
            rhs.spec_pod(),
            lhs.bits(),
            rhs.bits(),
        ) {
            None => Err(Fault::ArithmeticFault),
            Some(n) => Ok(
                (
                    MachineState {
                        memory: write_spec(s.memory, dst as int, value_of(rhs.spec_pod(), n))->Ok_0,
                        ..s
                    },
                    Event::Running,
                ),
            ),
        },
        integer_result(op, rhs.spec_pod(), lhs.bits(), rhs.bits()) matches Some(n)
            ==> read_spec(
            write_spec(s.memory, dst as int, value_of(rhs.spec_pod(), n))->Ok_0,
            dst as int,
            rhs.spec_pod(),
        ) == Ok::<Value, Fault>(value_of(rhs.spec_pod(), n)),
{
    let pod = rhs.spec_pod();
    match integer_result(op, pod, lhs.bits(), rhs.bits()) {
        Some(n) => {
            let v = value_of(pod, n);
            assert(v.spec_pod() == pod);
            lemma_write_then_read(s.memory, dst as int, v);
        },
        None => {},
    }
}

/// The wrapped integer results are those of the native operations on `u8`.
pub proof fn lemma_native_u8(a: u8, b: u8)
    ensures
        integer_result(Opcode::Add, Pod::U8, a as int, b as int) == Some(a.wrapping_add(b) as int),
        integer_result(Opcode::Subtract, Pod::U8, a as int, b as int) == Some(a.wrapping_sub(b) as int),
        integer_result(Opcode::Multiply, Pod::U8, a as int, b as int) == Some(a.wrapping_mul(b) as int),
        b != 0 ==> integer_result(Opcode::Divide, Pod::U8, a as int, b as int) == Some((a / b) as int),
        b == 0 ==> integer_result(Opcode::Divide, Pod::U8, a as int, b as int) == None::<int>,
{
}

/// The wrapped integer results are those of the native operations on `u16`.
pub proof fn lemma_native_u16(a: u16, b: u16)
    ensures
        integer_result(Opcode::Add, Pod::U16, a as int, b as int) == Some(a.wrapping_add(b) as int),
        integer_result(Opcode::Subtract, Pod::U16, a as int, b as int) == Some(a.wrapping_sub(b) as int),
        integer_result(Opcode::Multiply, Pod::U16, a as int, b as int) == Some(a.wrapping_mul(b) as int),
        b != 0 ==> integer_result(Opcode::Divide, Pod::U16, a as int, b as int) == Some((a / b) as int),
        b == 0 ==> integer_result(Opcode::Divide, Pod::U16, a as int, b as int) == None::<int>,
{
}

/// The wrapped integer results are those of the native operations on `u32`.
pub proof fn lemma_native_u32(a: u32, b: u32)
    ensures
        integer_result(Opcode::Add, Pod::U32, a as int, b as int) == Some(a.wrapping_add(b) as int),
        integer_result(Opcode::Subtract, Pod::U32, a as int, b as int) == Some(a.wrapping_sub(b) as int),
        integer_result(Opcode::Multiply, Pod::U32, a as int, b as int) == Some(a.wrapping_mul(b) as int),
        b != 0 ==> integer_result(Opcode::Divide, Pod::U32, a as int, b as int) == Some((a / b) as int),
        b == 0 ==> integer_result(Opcode::Divide, Pod::U32, a as int, b as int) == None::<int>,
{
}

/// The wrapped integer results are those of the native operations on `u64`.
pub proof fn lemma_native_u64(a: u64, b: u64)
    ensures
        integer_result(Opcode::Add, Pod::U64, a as int, b as int) == Some(a.wrapping_add(b) as int),
        integer_result(Opcode::Subtract, Pod::U64, a as int, b as int) == Some(a.wrapping_sub(b) as int),
        integer_result(Opcode::Multiply, Pod::U64, a as int, b as int) == Some(a.wrapping_mul(b) as int),
        b != 0 ==> integer_result(Opcode::Divide, Pod::U64, a as int, b as int) == Some((a / b) as int),
        b == 0 ==> integer_result(Opcode::Divide, Pod::U64, a as int, b as int) == None::<int>,
{
}

/// After an integer `Compare`, `JumpIfLessThan` is taken exactly when the
/// left operand is less than the right, and `JumpIfEqual` exactly when they
/// are equal.
pub proof fn lemma_compare_then_branch(s: MachineState, dst: u32, lhs: Value, rhs: Value)
    requires
        is_integer(rhs.spec_pod()),
        read_spec(s.memory, dst as int, rhs.spec_pod()) == Ok::<Value, Fault>(lhs),
    ensures
        binary_spec(s, Opcode::Compare, dst, Operand::Immediate(rhs)) matches Ok((t, e)) && e
            == Event::Running && t.counter == s.counter && t.memory == s.memory && (
        branch_taken(Opcode::JumpIfLessThan, t.comparison) <==> lhs.bits() < rhs.bits()) && (
        branch_taken(Opcode::JumpIfEqual, t.comparison) <==> lhs.bits() == rhs.bits()),
{
}

/// A conditional branch to an offset inside the program jumps exactly when
/// its condition holds of the comparison register, and falls through
/// otherwise; nothing else changes.
pub proof fn lemma_conditional_branch(prog_len: int, s: MachineState, op: Opcode, target: u64)
    requires
        op == Opcode::JumpIfEqual || op == Opcode::JumpIfLessThan,
        target <= prog_len,
    ensures
        apply_spec(prog_len, s, Instruction::Branch { op, target }) == Ok::<(MachineState, Event), Fault>(
            (
                MachineState {
                    counter: if (op == Opcode::JumpIfEqual && s.comparison == Some(Ordering::Equal))
                        || (op == Opcode::JumpIfLessThan && s.comparison == Some(Ordering::Less)) {
                        target as int
                    } else {
                        s.counter
                    },
                    ..s
                },
                Event::Running,
            ),
        ),
{
}

/// A run reports `Halted` exactly where the counter equals the program length.
pub proof fn lemma_halts_at_end(prog: Seq<u8>, s: MachineState, fuel: nat)
    ensures
        run_spec(prog, s, fuel).0 == Ok::<Event, Fault>(Event::Halted) ==> run_spec(
            prog,
            s,
            fuel,
        ).1.counter == prog.len(),
        s.counter == prog.len() ==> run_spec(prog, s, fuel).0 == Ok::<Event, Fault>(Event::Halted),
    decreases fuel,
{
    if s.counter != prog.len() && fuel > 0 {
        match step_spec(prog, s) {
            Ok((next, Event::Running)) => lemma_halts_at_end(prog, next, (fuel - 1) as nat),
            _ => {},
        }
    }
}

/// Executing at or past the end of the program faults with
/// `UnexpectedEndOfProgram`; it never reads beyond the program.
pub proof fn lemma_step_past_end(prog: Seq<u8>, s: MachineState)
    requires
        s.counter >= prog.len(),
    ensures
        step_spec(prog, s) == Err::<(MachineState, Event), Fault>(Fault::UnexpectedEndOfProgram),
{
}

/// A fetch of bytes that the program does not hold faults, and so do a read
/// and a write outside the memory region.
pub proof fn lemma_out_of_bounds_faults(
    prog: Seq<u8>,
    at: int,
    n: int,
    mem: Seq<u8>,
    offset: int,
    v: Value,
)
    ensures
        !available(prog, at, n) ==> fetch_spec(prog, at, n) == Err::<Seq<u8>, Fault>(
            Fault::UnexpectedEndOfProgram,
        ),
        !fits(mem.len() as int, offset, v.spec_pod()) ==> read_spec(mem, offset, v.spec_pod())
            == Err::<Value, Fault>(Fault::MemoryFault) && write_spec(mem, offset, v) == Err::<
            Seq<u8>,
            Fault,
        >(Fault::MemoryFault),
{
}

} // verus!
