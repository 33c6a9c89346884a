use vstd::prelude::*;

verus! {

/// The symbolic instruction set. Wire format of the opcode byte:
/// `HLT = 0`, `LOAD = 1`, `ADD = 2`, `SUB = 3`, `MUL = 4`, `DIV = 5`,
/// `JMP = 6`; every other byte decodes to `IGL`.
#[derive(Debug, Clone, Copy, PartialEq, Eq, Structural)]
pub enum Opcode {
    HLT,
    IGL,
    LOAD,
    ADD,
    SUB,
    MUL,
    DIV,
    JMP,
}

/// The opcode that a byte stands for.
pub open spec fn opcode_of(b: u8) -> Opcode {
    if b == 0 {
        Opcode::HLT
    } else if b == 1 {
        Opcode::LOAD
    } else if b == 2 {
        Opcode::ADD
    } else if b == 3 {
        Opcode::SUB
    } else if b == 4 {
        Opcode::MUL
    } else if b == 5 {
        Opcode::DIV
    } else if b == 6 {
        Opcode::JMP
    } else {
        Opcode::IGL
    }
}

impl Opcode {
    /// Decodes one byte; total, never fails.
    pub fn decode(b: u8) -> (r: Opcode)
        ensures
            r == opcode_of(b),
    {
        match b {
            0 => Opcode::HLT,
            1 => Opcode::LOAD,
            2 => Opcode::ADD,
            3 => Opcode::SUB,
            4 => Opcode::MUL,
            5 => Opcode::DIV,
            6 => Opcode::JMP,
            _ => Opcode::IGL,
        }
    }
}

impl From<u8> for Opcode {
    fn from(v: u8) -> (r: Opcode)
        ensures
            r == opcode_of(v),
    {
        Opcode::decode(v)
    }
}

impl vstd::std_specs::convert::FromSpecImpl<u8> for Opcode {
    open spec fn obeys_from_spec() -> bool {
        true
    }

    open spec fn from_spec(v: u8) -> Opcode {
        opcode_of(v)
    }
}

/// One decoded instruction.
#[derive(Debug, Clone, Copy, PartialEq, Eq, Structural)]
pub struct Instruction {
    pub opcode: Opcode,
}

impl Instruction {
    pub fn new(opcode: Opcode) -> (r: Self)
        ensures
            r.opcode == opcode,
    {
        Instruction { opcode }
    }
}

} // verus!
