//! Typed values of the primitive types that operands carry.
use vstd::prelude::*;
use vstd::bytes::*;

use super::Fault;
use super::instruction::{Opcode, is_arithmetic};
use super::metadata::{Pod, pod_width, is_integer};

verus! {

/// A value of one of the primitive operand types.
///
/// Floating-point values are held as their IEEE-754 bit patterns.
#[derive(Clone, Copy, Debug, PartialEq, Eq, Structural)]
pub enum Value {
    U8(u8),
    U16(u16),
    U32(u32),
    U64(u64),
    /// The bit pattern of an `f32`.
    F32(u32),
    /// The bit pattern of an `f64`.
    F64(u64),
}

/// One more than the largest number that `pod`'s bytes can hold.
pub open spec fn modulus(pod: Pod) -> int {
    match pod {
        Pod::U8 => 0x100,
        Pod::U16 => 0x1_0000,
        Pod::U32 | Pod::F32 => 0x1_0000_0000,
        Pod::U64 | Pod::F64 => 0x1_0000_0000_0000_0000,
    }
}

/// The value of type `pod` whose bits are the number `n`.
pub open spec fn value_of(pod: Pod, n: int) -> Value {
    match pod {
        Pod::U8 => Value::U8(n as u8),
        Pod::U16 => Value::U16(n as u16),
        Pod::U32 => Value::U32(n as u32),
        Pod::U64 => Value::U64(n as u64),
        Pod::F32 => Value::F32(n as u32),
        Pod::F64 => Value::F64(n as u64),
    }
}

/// The value of type `pod` whose little-endian encoding is `s`.
pub open spec fn value_of_bytes(pod: Pod, s: Seq<u8>) -> Value {
    match pod {
        Pod::U8 => Value::U8(s[0]),
        Pod::U16 => Value::U16(spec_u16_from_le_bytes(s)),
        Pod::U32 => Value::U32(spec_u32_from_le_bytes(s)),
        Pod::U64 => Value::U64(spec_u64_from_le_bytes(s)),
        Pod::F32 => Value::F32(spec_u32_from_le_bytes(s)),
        Pod::F64 => Value::F64(spec_u64_from_le_bytes(s)),
    }
}

/// What an arithmetic opcode yields on two integers of type `pod`: the
/// result wraps around modulo the type's range, and a division by zero
/// yields nothing.
pub open spec fn integer_result(op: Opcode, pod: Pod, a: int, b: int) -> Option<int> {
    let m = modulus(pod);
    match op {
        Opcode::Add => Some((a + b) % m),
        Opcode::Subtract => Some((a - b) % m),
        Opcode::Multiply => Some((a * b) % m),
        Opcode::Divide => if b == 0 {
            None
        } else {
            Some(a / b)
        },
        _ => None,
    }
}

/// The ordering of two integers.
pub open spec fn integer_order(a: int, b: int) -> Option<core::cmp::Ordering> {
    if a < b {
        Some(core::cmp::Ordering::Less)
    } else if a == b {
        Some(core::cmp::Ordering::Equal)
    } else {
        Some(core::cmp::Ordering::Greater)
    }
}

/// An arithmetic opcode on two `u8` operands, with wrapping overflow.
fn arith_u8(op: Opcode, a: u8, b: u8) -> (r: Result<u8, Fault>)
    requires
        is_arithmetic(op),
    ensures
        r == match integer_result(op, Pod::U8, a as int, b as int) {
            Some(n) => Ok::<u8, Fault>(n as u8),
            None => Err(Fault::ArithmeticFault),
        },
{
    match op {
        Opcode::Add => Ok(a.wrapping_add(b)),
        Opcode::Subtract => Ok(a.wrapping_sub(b)),
        Opcode::Multiply => Ok(a.wrapping_mul(b)),
        _ => if b == 0 {
            Err(Fault::ArithmeticFault)
        } else {
            Ok(a / b)
        },
    }
}

/// An arithmetic opcode on two `u16` operands, with wrapping overflow.
fn arith_u16(op: Opcode, a: u16, b: u16) -> (r: Result<u16, Fault>)
    requires
        is_arithmetic(op),
    ensures
        r == match integer_result(op, Pod::U16, a as int, b as int) {
            Some(n) => Ok::<u16, Fault>(n as u16),
            None => Err(Fault::ArithmeticFault),
        },
{
    match op {
        Opcode::Add => Ok(a.wrapping_add(b)),
        Opcode::Subtract => Ok(a.wrapping_sub(b)),
        Opcode::Multiply => Ok(a.wrapping_mul(b)),
        _ => if b == 0 {
            Err(Fault::ArithmeticFault)
        } else {
            Ok(a / b)
        },
    }
}

/// An arithmetic opcode on two `u32` operands, with wrapping overflow.
fn arith_u32(op: Opcode, a: u32, b: u32) -> (r: Result<u32, Fault>)
    requires
        is_arithmetic(op),
    ensures
        r == match integer_result(op, Pod::U32, a as int, b as int) {
            Some(n) => Ok::<u32, Fault>(n as u32),
            None => Err(Fault::ArithmeticFault),
        },
{
    match op {
        Opcode::Add => Ok(a.wrapping_add(b)),
        Opcode::Subtract => Ok(a.wrapping_sub(b)),
        Opcode::Multiply => Ok(a.wrapping_mul(b)),
        _ => if b == 0 {
            Err(Fault::ArithmeticFault)
        } else {
            Ok(a / b)
        },
    }
}

/// An arithmetic opcode on two `u64` operands, with wrapping overflow.
fn arith_u64(op: Opcode, a: u64, b: u64) -> (r: Result<u64, Fault>)
    requires
        is_arithmetic(op),
    ensures
        r == match integer_result(op, Pod::U64, a as int, b as int) {
            Some(n) => Ok::<u64, Fault>(n as u64),
            None => Err(Fault::ArithmeticFault),
        },
{
    match op {
        Opcode::Add => Ok(a.wrapping_add(b)),
        Opcode::Subtract => Ok(a.wrapping_sub(b)),
        Opcode::Multiply => Ok(a.wrapping_mul(b)),
        _ => if b == 0 {
            Err(Fault::ArithmeticFault)
        } else {
            Ok(a / b)
        },
    }
}

/// Applies an arithmetic opcode to two integer values of the same type.
pub fn integer_arith(op: Opcode, lhs: Value, rhs: Value) -> (r: Result<Value, Fault>)
    requires
        is_arithmetic(op),
        is_integer(lhs.spec_pod()),
        rhs.spec_pod() == lhs.spec_pod(),
    ensures
        r == match integer_result(op, lhs.spec_pod(), lhs.bits(), rhs.bits()) {
            Some(n) => Ok::<Value, Fault>(value_of(lhs.spec_pod(), n)),
            None => Err(Fault::ArithmeticFault),
        },
{
    match (lhs, rhs) {
        (Value::U8(a), Value::U8(b)) => match arith_u8(op, a, b) {
            Ok(x) => Ok(Value::U8(x)),
            Err(e) => Err(e),
        },
        (Value::U16(a), Value::U16(b)) => match arith_u16(op, a, b) {
            Ok(x) => Ok(Value::U16(x)),
            Err(e) => Err(e),
        },
        (Value::U32(a), Value::U32(b)) => match arith_u32(op, a, b) {
            Ok(x) => Ok(Value::U32(x)),
            Err(e) => Err(e),
        },
        (Value::U64(a), Value::U64(b)) => match arith_u64(op, a, b) {
            Ok(x) => Ok(Value::U64(x)),
            Err(e) => Err(e),
        },
        _ => Err(Fault::ArithmeticFault),
    }
}

/// Compares two integer values of the same type.
pub fn integer_compare(lhs: Value, rhs: Value) -> (r: Option<core::cmp::Ordering>)
    requires
        is_integer(lhs.spec_pod()),
        rhs.spec_pod() == lhs.spec_pod(),
    ensures
        r == integer_order(lhs.bits(), rhs.bits()),
{
    let a = lhs.to_bits();
    let b = rhs.to_bits();
    if a < b {
        Some(core::cmp::Ordering::Less)
    } else if a == b {
        Some(core::cmp::Ordering::Equal)
    } else {
        Some(core::cmp::Ordering::Greater)
    }
}

/// The character of the decimal digit `d`.
pub open spec fn digit_char(d: nat) -> char {
    if d == 0 {
        '0'
    } else if d == 1 {
        '1'
    } else if d == 2 {
        '2'
    } else if d == 3 {
        '3'
    } else if d == 4 {
        '4'
    } else if d == 5 {
        '5'
    } else if d == 6 {
        '6'
    } else if d == 7 {
        '7'
    } else if d == 8 {
        '8'
    } else {
        '9'
    }
}

/// The decimal digits of `n`, most significant first, with no leading zero.
pub open spec fn decimal(n: nat) -> Seq<char>
    decreases n,
{
    if n < 10 {
        seq![digit_char(n)]
    } else {
        decimal(n / 10).push(digit_char(n % 10))
    }
}

/// Relies on the `Debug` formatting of `u64` in std, which writes an integer
/// as its decimal digits.
#[verifier::external_body]
fn debug_u64(x: u64) -> (r: String)
    ensures
        r@ == decimal(x as nat),
{
    format!("{:?}", x)
}

impl Value {
    /// The text that printing this value shows, for the integer types: its
    /// decimal digits. A floating-point value is shown by the host.
    pub fn debug_text(&self) -> (r: Option<String>)
        ensures
            is_integer(self.spec_pod()) ==> (r matches Some(t) && t@ == decimal(self.bits() as nat)),
            !is_integer(self.spec_pod()) ==> r is None,
    {
        match *self {
            Value::F32(_) | Value::F64(_) => None,
            _ => Some(debug_u64(self.to_bits())),
        }
    }

    /// The type of this value.
    pub open spec fn spec_pod(self) -> Pod {
        match self {
            Value::U8(_) => Pod::U8,
            Value::U16(_) => Pod::U16,
            Value::U32(_) => Pod::U32,
            Value::U64(_) => Pod::U64,
            Value::F32(_) => Pod::F32,
            Value::F64(_) => Pod::F64,
        }
    }

    /// The number that this value's bits form.
    pub open spec fn bits(self) -> int {
        match self {
            Value::U8(x) => x as int,
            Value::U16(x) => x as int,
            Value::U32(x) => x as int,
            Value::U64(x) => x as int,
            Value::F32(x) => x as int,
            Value::F64(x) => x as int,
        }
    }

    /// The little-endian encoding of this value.
    pub open spec fn spec_bytes(self) -> Seq<u8> {
        match self {
            Value::U8(x) => seq![x],
            Value::U16(x) => spec_u16_to_le_bytes(x),
            Value::U32(x) => spec_u32_to_le_bytes(x),
            Value::U64(x) => spec_u64_to_le_bytes(x),
            Value::F32(x) => spec_u32_to_le_bytes(x),
            Value::F64(x) => spec_u64_to_le_bytes(x),
        }
    }

    /// The type of this value.
    pub fn pod(&self) -> (r: Pod)
        ensures
            r == self.spec_pod(),
    {
        match self {
            Value::U8(_) => Pod::U8,
            Value::U16(_) => Pod::U16,
            Value::U32(_) => Pod::U32,
            Value::U64(_) => Pod::U64,
            Value::F32(_) => Pod::F32,
            Value::F64(_) => Pod::F64,
        }
    }

    /// The number that this value's bits form.
    pub fn to_bits(&self) -> (r: u64)
        ensures
            r == self.bits(),
    {
        match *self {
            Value::U8(x) => x as u64,
            Value::U16(x) => x as u64,
            Value::U32(x) => x as u64,
            Value::U64(x) => x,
            Value::F32(x) => x as u64,
            Value::F64(x) => x,
        }
    }

    /// The little-endian encoding of this value.
    pub fn to_bytes(&self) -> (r: Vec<u8>)
        ensures
            r@ == self.spec_bytes(),
            r@.len() == pod_width(self.spec_pod()),
    {
        proof {
            lemma_auto_spec_u16_to_from_le_bytes();
            lemma_auto_spec_u32_to_from_le_bytes();
            lemma_auto_spec_u64_to_from_le_bytes();
        }
        match *self {
            Value::U8(x) => {
                let r = vec![x];
                assert(r@ =~= seq![x]);
                r
            },
            Value::U16(x) => u16_to_le_bytes(x),
            Value::U32(x) => u32_to_le_bytes(x),
            Value::U64(x) => u64_to_le_bytes(x),
            Value::F32(x) => u32_to_le_bytes(x),
            Value::F64(x) => u64_to_le_bytes(x),
        }
    }

    /// Decodes a value of type `pod` from its little-endian encoding.
    pub fn from_bytes(pod: Pod, s: &[u8]) -> (r: Value)
        requires
            s@.len() == pod_width(pod),
        ensures
            r == value_of_bytes(pod, s@),
            r.spec_pod() == pod,
    {
        match pod {
            Pod::U8 => Value::U8(s[0]),
            Pod::U16 => Value::U16(u16_from_le_bytes(s)),
            Pod::U32 => Value::U32(u32_from_le_bytes(s)),
            Pod::U64 => Value::U64(u64_from_le_bytes(s)),
            Pod::F32 => Value::F32(u32_from_le_bytes(s)),
            Pod::F64 => Value::F64(u64_from_le_bytes(s)),
        }
    }
}

/// Encoding a value and decoding the bytes as the same type gives the value back.
pub proof fn lemma_bytes_round_trip(v: Value)
    ensures
        v.spec_bytes().len() == pod_width(v.spec_pod()),
        value_of_bytes(v.spec_pod(), v.spec_bytes()) == v,
{
    lemma_auto_spec_u16_to_from_le_bytes();
    lemma_auto_spec_u32_to_from_le_bytes();
    lemma_auto_spec_u64_to_from_le_bytes();
    match v {
        Value::U8(x) => assert(seq![x][0] == x),
        Value::U16(x) => assert(spec_u16_to_le_bytes(x).len() == 2 && spec_u16_from_le_bytes(spec_u16_to_le_bytes(x)) == x),
        Value::U32(x) => assert(spec_u32_to_le_bytes(x).len() == 4 && spec_u32_from_le_bytes(spec_u32_to_le_bytes(x)) == x),
        Value::U64(x) => assert(spec_u64_from_le_bytes(spec_u64_to_le_bytes(x)) == x),
        Value::F32(x) => assert(spec_u32_to_le_bytes(x).len() == 4 && spec_u32_from_le_bytes(spec_u32_to_le_bytes(x)) == x),
        Value::F64(x) => assert(spec_u64_from_le_bytes(spec_u64_to_le_bytes(x)) == x),
    }
}

} // verus!
