use std::cmp::Ordering;

use hayai::vm::instruction::{Instruction, Opcode, Operand, decode};
use hayai::vm::metadata::{AddressingMode, Metadata, Pod};
use hayai::vm::pod::Value;
use hayai::vm::{Event, Fault, FloatOp, VM};

fn binary(out: &mut Vec<u8>, op: Opcode, pod: Pod, mode: AddressingMode, dst: u32) {
    out.push(op.byte());
    out.push(Metadata::new(pod, Some(mode)).byte());
    out.extend_from_slice(&dst.to_le_bytes());
}

fn imm_u32(out: &mut Vec<u8>, op: Opcode, dst: u32, imm: u32) {
    binary(out, op, Pod::U32, AddressingMode::Immediate, dst);
    out.extend_from_slice(&imm.to_le_bytes());
}

fn abs(out: &mut Vec<u8>, op: Opcode, pod: Pod, dst: u32, src: u32) {
    binary(out, op, pod, AddressingMode::Absolute, dst);
    out.extend_from_slice(&src.to_le_bytes());
}

fn branch(out: &mut Vec<u8>, op: Opcode, target: u64) {
    out.push(op.byte());
    out.extend_from_slice(&target.to_le_bytes());
}

fn print(out: &mut Vec<u8>, pod: Pod, addr: u32) {
    out.push(Opcode::Print.byte());
    out.push(Metadata::new(pod, None).byte());
    out.extend_from_slice(&addr.to_le_bytes());
}

fn fibonacci(with_print: bool) -> (Vec<u8>, u64) {
    let mut p = Vec::new();
    imm_u32(&mut p, Opcode::Move, 0, 0);
    imm_u32(&mut p, Opcode::Move, 4, 1);
    let start = p.len() as u64;
    if with_print {
        print(&mut p, Pod::U32, 0);
    }
    abs(&mut p, Opcode::Move, Pod::U32, 8, 0);
    abs(&mut p, Opcode::Add, Pod::U32, 8, 4);
    abs(&mut p, Opcode::Move, Pod::U32, 0, 4);
    abs(&mut p, Opcode::Move, Pod::U32, 4, 8);
    imm_u32(&mut p, Opcode::Compare, 0, 255);
    branch(&mut p, Opcode::JumpIfLessThan, start);
    (p, start)
}

#[test]
fn fibonacci_halts_at_377() {
    let (p, start) = fibonacci(false);
    assert_eq!(start, 20);
    let mut vm: VM<12> = VM::new(&p);
    assert_eq!(vm.interpret(10_000), Ok(Event::Halted));
    assert_eq!(vm.counter(), p.len());
    assert_eq!(vm.read(Pod::U32, 0), Ok(Value::U32(377)));
    assert_eq!(vm.read(Pod::U32, 4), Ok(Value::U32(610)));
}

#[test]
fn fibonacci_prints_each_term() {
    let (p, _) = fibonacci(true);
    let mut vm: VM<12> = VM::new(&p);
    let mut shown = Vec::new();
    loop {
        match vm.interpret(10_000) {
            Ok(Event::Print(v)) => shown.push(v.debug_text().unwrap()),
            Ok(Event::Halted) => break,
            other => panic!("unexpected {:?}", other),
        }
    }
    let expected: Vec<String> = [0u32, 1, 1, 2, 3, 5, 8, 13, 21, 34, 55, 89, 144, 233]
        .iter()
        .map(|x| x.to_string())
        .collect();
    assert_eq!(shown, expected);
}

#[test]
fn print_u32_shows_42() {
    let mut p = Vec::new();
    imm_u32(&mut p, Opcode::Move, 4, 42);
    print(&mut p, Pod::U32, 4);
    let mut vm: VM<8> = VM::new(&p);
    let event = vm.interpret(100).unwrap();
    assert_eq!(event, Event::Print(Value::U32(42)));
    if let Event::Print(v) = event {
        assert_eq!(v.debug_text(), Some("42".to_string()));
    }
    assert_eq!(vm.interpret(100), Ok(Event::Halted));
}

#[test]
fn debug_text_of_each_integer_type() {
    assert_eq!(Value::U8(255).debug_text(), Some("255".to_string()));
    assert_eq!(Value::U16(0).debug_text(), Some("0".to_string()));
    assert_eq!(Value::U64(u64::MAX).debug_text(), Some("18446744073709551615".to_string()));
    assert_eq!(Value::F32(0).debug_text(), None);
}

#[test]
fn integer_divide_by_zero_faults() {
    let mut p = Vec::new();
    imm_u32(&mut p, Opcode::Move, 0, 7);
    imm_u32(&mut p, Opcode::Divide, 0, 0);
    let mut vm: VM<4> = VM::new(&p);
    assert_eq!(vm.interpret(100), Err(Fault::ArithmeticFault));
    assert_eq!(vm.read(Pod::U32, 0), Ok(Value::U32(7)));
    assert_eq!(vm.counter(), 10);
}

#[test]
fn divide_by_zero_in_memory_faults() {
    let mut vm: VM<2> = VM::new(&[]);
    assert_eq!(vm.move_imm(0, Value::U8(9)), Ok(Event::Running));
    assert_eq!(vm.div(Pod::U8, 0, 1), Err(Fault::ArithmeticFault));
    assert_eq!(vm.div_imm(0, Value::U8(2)), Ok(Event::Running));
    assert_eq!(vm.read(Pod::U8, 0), Ok(Value::U8(4)));
}

#[test]
fn truncated_operand_is_end_of_program() {
    let mut p = Vec::new();
    imm_u32(&mut p, Opcode::Move, 0, 5);
    imm_u32(&mut p, Opcode::Move, 4, 6);
    p.truncate(p.len() - 1);
    let mut vm: VM<8> = VM::new(&p);
    assert_eq!(vm.interpret(100), Err(Fault::UnexpectedEndOfProgram));
    assert_eq!(vm.counter(), 10);
    assert_eq!(vm.read(Pod::U32, 0), Ok(Value::U32(5)));
    assert_eq!(vm.read(Pod::U32, 4), Ok(Value::U32(0)));
}

#[test]
fn truncated_jump_target_is_end_of_program() {
    let mut p = Vec::new();
    branch(&mut p, Opcode::Jump, 0);
    p.pop();
    assert_eq!(decode(&p, 0), Err(Fault::UnexpectedEndOfProgram));
    let mut only_opcode = vec![Opcode::Print.byte()];
    assert_eq!(decode(&only_opcode, 0), Err(Fault::UnexpectedEndOfProgram));
    only_opcode.push(Metadata::new(Pod::U8, None).byte());
    assert_eq!(decode(&only_opcode, 0), Err(Fault::UnexpectedEndOfProgram));
}

#[test]
fn empty_program_halts_at_once() {
    let mut vm: VM<0> = VM::new(&[]);
    assert_eq!(vm.interpret(0), Ok(Event::Halted));
    assert_eq!(vm.interpret(5), Ok(Event::Halted));
}

#[test]
fn jump_past_end_faults() {
    let mut p = Vec::new();
    branch(&mut p, Opcode::Jump, 100);
    let mut vm: VM<0> = VM::new(&p);
    assert_eq!(vm.interpret(5), Err(Fault::UnexpectedEndOfProgram));
    assert_eq!(vm.counter(), 0);
    vm.jump(100);
    assert_eq!(vm.execute(), Err(Fault::UnexpectedEndOfProgram));
    assert_eq!(vm.interpret(5), Err(Fault::UnexpectedEndOfProgram));
}

#[test]
fn jump_to_end_halts() {
    let mut p = Vec::new();
    branch(&mut p, Opcode::Jump, 18);
    branch(&mut p, Opcode::Jump, 0);
    let mut vm: VM<0> = VM::new(&p);
    assert_eq!(vm.interpret(5), Ok(Event::Halted));
    assert_eq!(vm.counter(), 18);
}

#[test]
fn endless_loop_reports_running_when_steps_run_out() {
    let mut p = Vec::new();
    branch(&mut p, Opcode::Jump, 0);
    let mut vm: VM<0> = VM::new(&p);
    assert_eq!(vm.interpret(1000), Ok(Event::Running));
    assert_eq!(vm.counter(), 0);
}

#[test]
fn memory_out_of_bounds_faults() {
    let mut vm: VM<8> = VM::new(&[]);
    assert_eq!(vm.move_imm(5, Value::U32(1)), Err(Fault::MemoryFault));
    assert_eq!(vm.move_imm(4, Value::U32(1)), Ok(Event::Running));
    assert_eq!(vm.read(Pod::U64, 1), Err(Fault::MemoryFault));
    assert_eq!(vm.read(Pod::U8, 8), Err(Fault::MemoryFault));
    assert_eq!(vm.read(Pod::U8, u32::MAX), Err(Fault::MemoryFault));
    assert_eq!(vm.add(Pod::U32, 0, 6), Err(Fault::MemoryFault));
    assert_eq!(vm.print(Pod::U16, 7), Err(Fault::MemoryFault));
    assert_eq!(vm.read(Pod::U64, 0), Ok(Value::U64(1 << 32)));
}

#[test]
fn memory_fault_in_program() {
    let mut p = Vec::new();
    imm_u32(&mut p, Opcode::Move, 2, 1);
    let mut vm: VM<4> = VM::new(&p);
    assert_eq!(vm.interpret(10), Err(Fault::MemoryFault));
    assert_eq!(vm.counter(), 0);
}

#[test]
fn move_round_trips_every_type() {
    let values = [
        Value::U8(0xab),
        Value::U16(0xbeef),
        Value::U32(0xdead_beef),
        Value::U64(0x0123_4567_89ab_cdef),
        Value::F32(1.5f32.to_bits()),
        Value::F64((-0.25f64).to_bits()),
    ];
    for v in values {
        let mut vm: VM<24> = VM::new(&[]);
        assert_eq!(vm.move_imm(3, v), Ok(Event::Running));
        assert_eq!(vm.read(v.pod(), 3), Ok(v));
        assert_eq!(vm.move_mem(v.pod(), 13, 3), Ok(Event::Running));
        assert_eq!(vm.read(v.pod(), 13), Ok(v));
    }
}

#[test]
fn move_in_bytecode_round_trips() {
    let mut p = Vec::new();
    binary(&mut p, Opcode::Move, Pod::U16, AddressingMode::Immediate, 1);
    p.extend_from_slice(&0x1234u16.to_le_bytes());
    abs(&mut p, Opcode::Move, Pod::U16, 5, 1);
    let mut vm: VM<8> = VM::new(&p);
    assert_eq!(vm.interpret(10), Ok(Event::Halted));
    assert_eq!(vm.read(Pod::U16, 1), Ok(Value::U16(0x1234)));
    assert_eq!(vm.read(Pod::U16, 5), Ok(Value::U16(0x1234)));
    assert_eq!(vm.read(Pod::U8, 5), Ok(Value::U8(0x34)));
}

#[test]
fn integer_arithmetic_wraps() {
    let mut vm: VM<16> = VM::new(&[]);
    vm.move_imm(0, Value::U8(250)).unwrap();
    vm.add_imm(0, Value::U8(10)).unwrap();
    assert_eq!(vm.read(Pod::U8, 0), Ok(Value::U8(4)));
    vm.sub_imm(0, Value::U8(5)).unwrap();
    assert_eq!(vm.read(Pod::U8, 0), Ok(Value::U8(255)));
    vm.move_imm(2, Value::U16(300)).unwrap();
    vm.mul_imm(2, Value::U16(300)).unwrap();
    assert_eq!(vm.read(Pod::U16, 2), Ok(Value::U16(90000u32 as u16)));
    vm.move_imm(4, Value::U32(7)).unwrap();
    vm.move_imm(8, Value::U32(2)).unwrap();
    vm.div(Pod::U32, 4, 8).unwrap();
    assert_eq!(vm.read(Pod::U32, 4), Ok(Value::U32(3)));
    vm.sub(Pod::U32, 4, 8).unwrap();
    vm.sub(Pod::U32, 4, 8).unwrap();
    assert_eq!(vm.read(Pod::U32, 4), Ok(Value::U32(u32::MAX)));
    vm.mul(Pod::U32, 4, 8).unwrap();
    assert_eq!(vm.read(Pod::U32, 4), Ok(Value::U32(u32::MAX.wrapping_mul(2))));
    vm.move_imm(8, Value::U64(u64::MAX)).unwrap();
    vm.add_imm(8, Value::U64(2)).unwrap();
    assert_eq!(vm.read(Pod::U64, 8), Ok(Value::U64(1)));
}

#[test]
fn arithmetic_shapes_agree() {
    let mut a: VM<8> = VM::new(&[]);
    let mut b: VM<8> = VM::new(&[]);
    for vm in [&mut a, &mut b] {
        vm.move_imm(0, Value::U16(40000)).unwrap();
        vm.move_imm(2, Value::U16(30000)).unwrap();
    }
    a.add_imm(0, Value::U16(30000)).unwrap();
    b.add(Pod::U16, 0, 2).unwrap();
    assert_eq!(a.read(Pod::U16, 0), b.read(Pod::U16, 0));
    assert_eq!(a.read(Pod::U16, 0), Ok(Value::U16(40000u16.wrapping_add(30000))));
}

#[test]
fn compare_then_jump_if_less_than() {
    let cases = [(3u32, 5u32, true), (5, 5, false), (6, 5, false)];
    for (lhs, rhs, jumps) in cases {
        let mut vm: VM<4> = VM::new(&[]);
        vm.move_imm(0, Value::U32(lhs)).unwrap();
        vm.cmp_imm(0, Value::U32(rhs)).unwrap();
        vm.jump_if_lt(77);
        assert_eq!(vm.counter() == 77, jumps);
    }
}

#[test]
fn compare_then_jump_if_equal() {
    let cases = [(3u8, 5u8, false), (5, 5, true), (6, 5, false)];
    for (lhs, rhs, jumps) in cases {
        let mut vm: VM<4> = VM::new(&[]);
        vm.move_imm(0, Value::U8(lhs)).unwrap();
        vm.move_imm(1, Value::U8(rhs)).unwrap();
        vm.cmp(Pod::U8, 0, 1).unwrap();
        vm.jump_if_eq(77);
        assert_eq!(vm.counter() == 77, jumps);
    }
}

#[test]
fn conditional_jumps_need_a_comparison() {
    let mut vm: VM<4> = VM::new(&[]);
    assert_eq!(vm.comparison(), None);
    vm.jump_if_lt(9);
    vm.jump_if_eq(9);
    assert_eq!(vm.counter(), 0);
    vm.set_comparison(Some(Ordering::Greater));
    vm.jump_if_lt(9);
    vm.jump_if_eq(9);
    assert_eq!(vm.counter(), 0);
}

#[test]
fn jump_if_equal_in_bytecode() {
    let mut p = Vec::new();
    imm_u32(&mut p, Opcode::Compare, 0, 0);
    branch(&mut p, Opcode::JumpIfEqual, 29);
    imm_u32(&mut p, Opcode::Move, 0, 1);
    imm_u32(&mut p, Opcode::Move, 0, 2);
    assert_eq!(p.len(), 39);
    let mut vm: VM<4> = VM::new(&p);
    assert_eq!(vm.interpret(10), Ok(Event::Halted));
    assert_eq!(vm.read(Pod::U32, 0), Ok(Value::U32(2)));
}

#[test]
fn float_operation_is_handed_out() {
    let mut vm: VM<8> = VM::new(&[]);
    vm.move_imm(0, Value::F32(2.0f32.to_bits())).unwrap();
    let event = vm.add_imm(0, Value::F32(0.5f32.to_bits()));
    assert_eq!(
        event,
        Ok(Event::Float(FloatOp {
            op: Opcode::Add,
            dst: 0,
            lhs: Value::F32(2.0f32.to_bits()),
            rhs: Value::F32(0.5f32.to_bits()),
        }))
    );
    assert_eq!(vm.read(Pod::F32, 0), Ok(Value::F32(2.0f32.to_bits())));
    assert_eq!(vm.cmp_imm(4, Value::F32(0)), Ok(Event::Float(FloatOp {
        op: Opcode::Compare,
        dst: 4,
        lhs: Value::F32(0),
        rhs: Value::F32(0),
    })));
    assert_eq!(vm.comparison(), None);
}

#[test]
fn invalid_opcode_faults() {
    let p = [10u8, 0, 0];
    let mut vm: VM<4> = VM::new(&p);
    assert_eq!(vm.interpret(10), Err(Fault::InvalidOpcode));
    assert_eq!(Opcode::from_byte(255), Err(Fault::InvalidOpcode));
}

#[test]
fn invalid_metadata_faults() {
    let mut p = vec![Opcode::Move.byte(), 6 << 5];
    p.extend_from_slice(&[0; 8]);
    let mut vm: VM<4> = VM::new(&p);
    assert_eq!(vm.interpret(10), Err(Fault::InvalidMetadata));
    let mut q = vec![Opcode::Add.byte(), (2 << 5) | 1];
    q.extend_from_slice(&[0; 8]);
    let mut vm: VM<4> = VM::new(&q);
    assert_eq!(vm.interpret(10), Err(Fault::InvalidMetadata));
    let r = [Opcode::Print.byte(), 7 << 5, 0, 0, 0, 0];
    assert_eq!(decode(&r, 0), Err(Fault::InvalidMetadata));
}

#[test]
fn metadata_encoding() {
    let m = Metadata::new(Pod::F64, Some(AddressingMode::Absolute));
    assert_eq!(m.byte(), 0b1011_0000);
    assert_eq!(m.pod(), Ok(Pod::F64));
    assert_eq!(m.addressing_mode(), Ok(AddressingMode::Absolute));
    let n = Metadata::new(Pod::U16, None);
    assert_eq!(n.byte(), 0b0010_0000);
    assert_eq!(n.addressing_mode(), Ok(AddressingMode::Immediate));
    assert_eq!(Metadata::from_byte(0b1100_0000).pod(), Err(Fault::InvalidMetadata));
    assert_eq!(Metadata::from_byte(0b0001_1000).addressing_mode(), Err(Fault::InvalidMetadata));
}

#[test]
fn print_metadata_ignores_low_bits() {
    let mut p = vec![Opcode::Print.byte(), (1 << 5) | 0b1_1111];
    p.extend_from_slice(&0u32.to_le_bytes());
    assert_eq!(decode(&p, 0), Ok((Instruction::Print { pod: Pod::U16, addr: 0 }, 6)));
}

#[test]
fn decode_reads_operands() {
    let mut p = Vec::new();
    abs(&mut p, Opcode::Subtract, Pod::U64, 0x0102_0304, 9);
    assert_eq!(
        decode(&p, 0),
        Ok((Instruction::Binary { op: Opcode::Subtract, dst: 0x0102_0304, src: Operand::Absolute(Pod::U64, 9) }, 10))
    );
    let mut q = Vec::new();
    binary(&mut q, Opcode::Multiply, Pod::U8, AddressingMode::Immediate, 3);
    q.push(200);
    assert_eq!(
        decode(&q, 0),
        Ok((Instruction::Binary { op: Opcode::Multiply, dst: 3, src: Operand::Immediate(Value::U8(200)) }, 7))
    );
}

#[test]
fn opcode_bytes() {
    let all = [
        Opcode::Move,
        Opcode::Add,
        Opcode::Subtract,
        Opcode::Multiply,
        Opcode::Divide,
        Opcode::Compare,
        Opcode::Jump,
        Opcode::JumpIfEqual,
        Opcode::JumpIfLessThan,
        Opcode::Print,
    ];
    for (i, op) in all.iter().enumerate() {
        assert_eq!(op.byte() as usize, i);
        assert_eq!(Opcode::from_byte(i as u8), Ok(*op));
    }
}

#[test]
fn value_bytes_are_little_endian() {
    assert_eq!(Value::U32(0x0102_0304).to_bytes(), vec![4, 3, 2, 1]);
    assert_eq!(Value::from_bytes(Pod::U16, &[0x34, 0x12]), Value::U16(0x1234));
    assert_eq!(Value::U8(7).to_bytes(), vec![7]);
    assert_eq!(Value::F64(1).to_bytes().len(), 8);
}
