//! The metadata byte that precedes the operands of typed instructions.
use vstd::prelude::*;

use super::Fault;

verus! {

/// The primitive type carried by an instruction's operands.
#[derive(Clone, Copy, Debug, PartialEq, Eq, Structural)]
pub enum Pod {
    U8,
    U16,
    U32,
    U64,
    F32,
    F64,
}

/// How the second operand of an instruction is read.
#[derive(Clone, Copy, Debug, PartialEq, Eq, Structural)]
pub enum AddressingMode {
    /// The operand bytes are the value itself.
    Immediate,
    /// The operand bytes are a memory address holding the value.
    Absolute,
}

/// The three-bit tag of a pod in the metadata byte.
pub open spec fn pod_tag(pod: Pod) -> nat {
    match pod {
        Pod::U8 => 0,
        Pod::U16 => 1,
        Pod::U32 => 2,
        Pod::U64 => 3,
        Pod::F32 => 4,
        Pod::F64 => 5,
    }
}

/// The pod whose tag is `tag`, if there is one.
pub open spec fn pod_of_tag(tag: nat) -> Option<Pod> {
    if tag == 0 {
        Some(Pod::U8)
    } else if tag == 1 {
        Some(Pod::U16)
    } else if tag == 2 {
        Some(Pod::U32)
    } else if tag == 3 {
        Some(Pod::U64)
    } else if tag == 4 {
        Some(Pod::F32)
    } else if tag == 5 {
        Some(Pod::F64)
    } else {
        None
    }
}

/// The number of bytes a value of `pod` occupies.
pub open spec fn pod_width(pod: Pod) -> nat {
    match pod {
        Pod::U8 => 1,
        Pod::U16 => 2,
        Pod::U32 | Pod::F32 => 4,
        Pod::U64 | Pod::F64 => 8,
    }
}

/// Whether `pod` is one of the unsigned integer types.
pub open spec fn is_integer(pod: Pod) -> bool {
    match pod {
        Pod::F32 | Pod::F64 => false,
        _ => true,
    }
}

/// The bit of an addressing mode in the metadata byte.
pub open spec fn mode_bit(mode: AddressingMode) -> nat {
    match mode {
        AddressingMode::Immediate => 0,
        AddressingMode::Absolute => 1,
    }
}

/// The pod that the metadata byte `b` names, or `InvalidMetadata`.
pub open spec fn decode_pod(b: u8) -> Result<Pod, Fault> {
    match pod_of_tag((b / 32) as nat) {
        Some(p) => Ok(p),
        None => Err(Fault::InvalidMetadata),
    }
}

/// The addressing mode that the metadata byte `b` names, or
/// `InvalidMetadata` when one of its reserved low bits is set.
pub open spec fn decode_mode(b: u8) -> Result<AddressingMode, Fault> {
    if b % 16 != 0 {
        Err(Fault::InvalidMetadata)
    } else if (b / 16) % 2 == 1 {
        Ok(AddressingMode::Absolute)
    } else {
        Ok(AddressingMode::Immediate)
    }
}

impl Pod {
    /// The number of bytes a value of this pod occupies.
    pub fn width(self) -> (r: usize)
        ensures
            r == pod_width(self),
    {
        match self {
            Pod::U8 => 1,
            Pod::U16 => 2,
            Pod::U32 | Pod::F32 => 4,
            Pod::U64 | Pod::F64 => 8,
        }
    }

    /// The pod whose three-bit tag is `tag`, if there is one.
    pub fn from_tag(tag: u8) -> (r: Option<Pod>)
        ensures
            r == pod_of_tag(tag as nat),
    {
        match tag {
            0 => Some(Pod::U8),
            1 => Some(Pod::U16),
            2 => Some(Pod::U32),
            3 => Some(Pod::U64),
            4 => Some(Pod::F32),
            5 => Some(Pod::F64),
            _ => None,
        }
    }

    /// Whether this pod is one of the unsigned integer types.
    pub fn is_integer(self) -> (r: bool)
        ensures
            r == is_integer(self),
    {
        match self {
            Pod::F32 | Pod::F64 => false,
            _ => true,
        }
    }

    /// The three-bit tag of this pod.
    pub fn tag(self) -> (r: u8)
        ensures
            r == pod_tag(self),
    {
        match self {
            Pod::U8 => 0,
            Pod::U16 => 1,
            Pod::U32 => 2,
            Pod::U64 => 3,
            Pod::F32 => 4,
            Pod::F64 => 5,
        }
    }
}

/// Compactly stores the operand description of an instruction in one byte.
///
/// Bits 7 to 5 hold the pod tag, bit 4 the addressing mode, bits 3 to 0 are
/// reserved and zero.
#[derive(Clone, Copy, Debug, PartialEq, Eq, Structural)]
pub struct Metadata(u8);

impl Metadata {
    /// The encoded byte.
    pub closed spec fn spec_byte(self) -> u8 {
        self.0
    }

    /// Packs a pod and, where the instruction has one, an addressing mode.
    pub fn new(pod: Pod, opkind: Option<AddressingMode>) -> (r: Self)
        ensures
            r.spec_byte() == pod_tag(pod) * 32 + match opkind {
                Some(m) => mode_bit(m) * 16,
                None => 0,
            },
            decode_pod(r.spec_byte()) == Ok::<Pod, Fault>(pod),
            opkind matches Some(m) ==> decode_mode(r.spec_byte()) == Ok::<AddressingMode, Fault>(m),
    {
        let tag = pod.tag();
        match opkind {
            Some(AddressingMode::Immediate) => Metadata(tag * 32),
            Some(AddressingMode::Absolute) => Metadata(tag * 32 + 16),
            None => Metadata(tag * 32),
        }
    }

    /// Wraps a metadata byte read from a program.
    pub fn from_byte(b: u8) -> (r: Self)
        ensures
            r.spec_byte() == b,
    {
        Metadata(b)
    }

    /// The encoded byte.
    pub fn byte(&self) -> (r: u8)
        ensures
            r == self.spec_byte(),
    {
        self.0
    }

    /// The pod named by the top three bits.
    pub fn pod(&self) -> (r: Result<Pod, Fault>)
        ensures
            r == decode_pod(self.spec_byte()),
    {
        match Pod::from_tag(self.0 / 32) {
            Some(p) => Ok(p),
            None => Err(Fault::InvalidMetadata),
        }
    }

    /// The addressing mode named by bit 4; the reserved low bits must be zero.
    pub fn addressing_mode(&self) -> (r: Result<AddressingMode, Fault>)
        ensures
            r == decode_mode(self.spec_byte()),
    {
        if self.0 % 16 != 0 {
            Err(Fault::InvalidMetadata)
        } else if (self.0 / 16) % 2 == 1 {
            Ok(AddressingMode::Absolute)
        } else {
            Ok(AddressingMode::Immediate)
        }
    }
}

} // verus!
