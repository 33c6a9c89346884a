use vstd::prelude::*;
use crate::instruction::{Opcode, opcode_of};

verus! {

/// Number of general-purpose registers.
pub const REGISTER_COUNT: usize = 32;

/// What the machine is doing, or why it stopped.
#[derive(Debug, Clone, Copy, PartialEq, Eq, Structural)]
pub enum Status {
    /// The last instruction completed and execution may go on.
    Running,
    /// A `HLT` instruction was executed.
    Halted,
    /// The program counter was at or past the end of the program.
    ProgramEnd,
    /// The opcode byte has no meaning.
    IllegalOpcode,
    /// A `DIV` instruction had a zero divisor.
    DivideByZero,
    /// An operand named a register outside `0..32`.
    BadRegister,
    /// The program ended in the middle of an instruction's operands.
    Truncated,
}

impl Status {
    pub open spec fn is_terminal(self) -> bool {
        self != Status::Running
    }
}

/// The mathematical model of a machine.
pub struct Machine {
    pub registers: Seq<i32>,
    pub pc: usize,
    pub remainder: u32,
    pub program: Seq<u8>,
    pub status: Status,
}

/// The value that `LOAD` stores: the big-endian 16-bit literal, zero-extended.
pub open spec fn literal_of(hi: u8, lo: u8) -> i32 {
    (hi as int * 256 + lo as int) as i32
}

pub open spec fn magnitude(x: i32) -> nat {
    if x < 0 {
        (-(x as int)) as nat
    } else {
        x as nat
    }
}

/// Quotient truncated toward zero; `i32::MIN / -1` wraps to `i32::MIN`.
pub open spec fn quotient_of(a: i32, b: i32) -> i32 {
    let q = magnitude(a) / magnitude(b);
    let s: int = if (a < 0) != (b < 0) {
        -(q as int)
    } else {
        q as int
    };
    if s > i32::MAX {
        i32::MIN
    } else {
        s as i32
    }
}

/// Magnitude of the remainder of the division truncated toward zero.
pub open spec fn remainder_of(a: i32, b: i32) -> u32 {
    (magnitude(a) % magnitude(b)) as u32
}

/// The machine stopped by a fault: only the status changes, and the program
/// counter keeps pointing at the faulting instruction.
pub open spec fn fault(m: Machine, status: Status) -> Machine {
    Machine { status, ..m }
}

/// `ADD`, `SUB`, `MUL` or `DIV` at `m.pc`, whose opcode byte is known.
pub open spec fn arith_step(m: Machine, op: Opcode) -> Machine {
    let p = m.program;
    let pc = m.pc as int;
    if p.len() - pc < 4 {
        fault(m, Status::Truncated)
    } else {
        let a = p[pc + 1] as int;
        let b = p[pc + 2] as int;
        let d = p[pc + 3] as int;
        if a >= 32 || b >= 32 || d >= 32 {
            fault(m, Status::BadRegister)
        } else {
            let x = m.registers[a];
            let y = m.registers[b];
            let next = (pc + 4) as usize;
            if op == Opcode::ADD {
                Machine { registers: m.registers.update(d, x.wrapping_add(y)), pc: next, status: Status::Running, ..m }
            } else if op == Opcode::SUB {
                Machine { registers: m.registers.update(d, x.wrapping_sub(y)), pc: next, status: Status::Running, ..m }
            } else if op == Opcode::MUL {
                Machine { registers: m.registers.update(d, x.wrapping_mul(y)), pc: next, status: Status::Running, ..m }
            } else if y == 0 {
                fault(m, Status::DivideByZero)
            } else {
                Machine {
                    registers: m.registers.update(d, quotient_of(x, y)),
                    remainder: remainder_of(x, y),
                    pc: next,
                    status: Status::Running,
                    ..m
                }
            }
        }
    }
}

/// One fetch-decode-execute cycle. The incoming status plays no part.
pub open spec fn step(m: Machine) -> Machine {
    let p = m.program;
    let pc = m.pc as int;
    if pc >= p.len() {
        Machine { status: Status::ProgramEnd, ..m }
    } else {
        let op = opcode_of(p[pc]);
        if op == Opcode::HLT {
            Machine { pc: (pc + 1) as usize, status: Status::Halted, ..m }
        } else if op == Opcode::IGL {
            Machine { pc: (pc + 1) as usize, status: Status::IllegalOpcode, ..m }
        } else if op == Opcode::LOAD {
            if p.len() - pc < 4 {
                fault(m, Status::Truncated)
            } else if p[pc + 1] >= 32 {
                fault(m, Status::BadRegister)
            } else {
                Machine {
                    registers: m.registers.update(p[pc + 1] as int, literal_of(p[pc + 2], p[pc + 3])),
                    pc: (pc + 4) as usize,
                    status: Status::Running,
                    ..m
                }
            }
        } else if op == Opcode::JMP {
            if p.len() - pc < 2 {
                fault(m, Status::Truncated)
            } else if p[pc + 1] >= 32 {
                fault(m, Status::BadRegister)
            } else {
                Machine { pc: m.registers[p[pc + 1] as int] as usize, status: Status::Running, ..m }
            }
        } else {
            arith_step(m, op)
        }
    }
}

/// Cycles until one stops the machine, at most `fuel` of them.
pub open spec fn run_for(m: Machine, fuel: nat) -> Machine
    decreases fuel,
{
    if fuel == 0 {
        m
    } else {
        let n = step(m);
        if n.status.is_terminal() {
            n
        } else {
            run_for(n, (fuel - 1) as nat)
        }
    }
}


/// A virtual machine: registers, program counter, remainder and program.
pub struct VM {
    registers: [i32; 32],
    pc: usize,
    program: Vec<u8>,
    remainder: u32,
    status: Status,
}

impl View for VM {
    type V = Machine;

    closed spec fn view(&self) -> Machine {
        Machine {
            registers: self.registers@,
            pc: self.pc,
            remainder: self.remainder,
            program: self.program@,
            status: self.status,
        }
    }
}

impl VM {
    /// A machine with zeroed registers and remainder, an empty program and
    /// the program counter at 0.
    pub fn new() -> (r: Self)
        ensures
            r@.registers == Seq::new(32, |i: int| 0i32),
            r@.pc == 0,
            r@.remainder == 0,
            r@.program.len() == 0,
            r@.status == Status::Running,
    {
        let r = VM { registers: [0; 32], pc: 0, program: Vec::new(), remainder: 0, status: Status::Running };
        assert(r.registers@ =~= Seq::new(32, |i: int| 0i32));
        r
    }

    /// Runs until the machine stops, for at most `u64::MAX` cycles.
    pub fn run(&mut self)
        ensures
            final(self)@ == run_for(old(self)@, u64::MAX as nat),
    {
        self.run_steps(u64::MAX);
    }

    /// Runs until the machine stops, for at most `max_steps` cycles.
    pub fn run_steps(&mut self, max_steps: u64)
        ensures
            final(self)@ == run_for(old(self)@, max_steps as nat),
    {
        let mut left: u64 = max_steps;
        while left > 0
            invariant
                run_for(self@, left as nat) == run_for(old(self)@, max_steps as nat),
            decreases left,
        {
            let done = self.execute_instruction();
            if done {
                assert(run_for(self@, 0) == self@);
                left = 0;
            } else {
                left = left - 1;
            }
        }
    }

    /// Executes exactly one cycle.
    pub fn run_once(&mut self)
        ensures
            final(self)@ == step(old(self)@),
    {
        self.execute_instruction();
    }

    /// Replaces the program and puts the program counter back at its start;
    /// registers and remainder are kept.
    pub fn set_program(&mut self, program: Vec<u8>)
        ensures
            final(self)@ == (Machine { program: program@, pc: 0, status: Status::Running, ..old(self)@ }),
    {
        self.program = program;
        self.pc = 0;
        self.status = Status::Running;
    }

    /// Writes one register.
    pub fn set_register(&mut self, index: usize, value: i32)
        requires
            index < REGISTER_COUNT,
        ensures
            final(self)@ == (Machine { registers: old(self)@.registers.update(index as int, value), ..old(self)@ }),
    {
        self.registers[index] = value;
    }

    pub fn registers(&self) -> (r: &[i32; 32])
        ensures
            r@ == self@.registers,
    {
        &self.registers
    }

    pub fn pc(&self) -> (r: usize)
        ensures
            r == self@.pc,
    {
        self.pc
    }

    pub fn remainder(&self) -> (r: u32)
        ensures
            r == self@.remainder,
    {
        self.remainder
    }

    pub fn status(&self) -> (r: Status)
        ensures
            r == self@.status,
    {
        self.status
    }

    pub fn program(&self) -> (r: &[u8])
        ensures
            r@ == self@.program,
    {
        self.program.as_slice()
    }

    fn execute_instruction(&mut self) -> (done: bool)
        ensures
            final(self)@ == step(old(self)@),
            done == final(self)@.status.is_terminal(),
    {
        let start = self.pc;
        if self.pc >= self.program.len() {
            self.status = Status::ProgramEnd;
            return true;
        }
        let op = self.decode_opecode();
        match op {
            Opcode::HLT => {
                self.status = Status::Halted;
                true
            },
            Opcode::IGL => {
                self.status = Status::IllegalOpcode;
                true
            },
            Opcode::LOAD => {
                if self.program.len() - self.pc < 3 {
                    return self.stop_at(start, Status::Truncated);
                }
                let register = self.next_8_bits() as usize;
                let number = self.next_16_bits();
                if register >= REGISTER_COUNT {
                    return self.stop_at(start, Status::BadRegister);
                }
                assert(number as i32 == literal_of(self.program@[start + 2], self.program@[start + 3]));
                self.registers[register] = number as i32;
                self.status = Status::Running;
                false
            },
            Opcode::JMP => {
                if self.program.len() - self.pc < 1 {
                    return self.stop_at(start, Status::Truncated);
                }
                let register = self.next_8_bits() as usize;
                if register >= REGISTER_COUNT {
                    return self.stop_at(start, Status::BadRegister);
                }
                self.pc = self.registers[register] as usize;
                self.status = Status::Running;
                false
            },
            _ => self.execute_arith(op, start),
        }
    }

    fn execute_arith(&mut self, op: Opcode, start: usize) -> (done: bool)
        requires
            op == Opcode::ADD || op == Opcode::SUB || op == Opcode::MUL || op == Opcode::DIV,
            (start as int) < old(self)@.program.len(),
            opcode_of(old(self)@.program[start as int]) == op,
            old(self)@.pc == start + 1,
        ensures
            final(self)@ == arith_step(Machine { pc: start, ..old(self)@ }, op),
            done == final(self)@.status.is_terminal(),
    {
        if self.program.len() - self.pc < 3 {
            return self.stop_at(start, Status::Truncated);
        }
        let a = self.next_8_bits() as usize;
        let b = self.next_8_bits() as usize;
        let d = self.next_8_bits() as usize;
        if a >= REGISTER_COUNT || b >= REGISTER_COUNT || d >= REGISTER_COUNT {
            return self.stop_at(start, Status::BadRegister);
        }
        let x = self.registers[a];
        let y = self.registers[b];
        match op {
            Opcode::ADD => {
                self.registers[d] = x.wrapping_add(y);
            },
            Opcode::SUB => {
                self.registers[d] = x.wrapping_sub(y);
            },
            Opcode::MUL => {
                self.registers[d] = x.wrapping_mul(y);
            },
            _ => {
                if y == 0 {
                    return self.stop_at(start, Status::DivideByZero);
                }
                let (q, r) = divide(x, y);
                self.registers[d] = q;
                self.remainder = r;
            },
        }
        self.status = Status::Running;
        false
    }

    /// Stops the machine with `status`, the program counter back at `start`.
    fn stop_at(&mut self, start: usize, status: Status) -> (done: bool)
        requires
            status.is_terminal(),
        ensures
            final(self)@ == (Machine { pc: start, status, ..old(self)@ }),
            done,
    {
        self.pc = start;
        self.status = status;
        true
    }

    fn decode_opecode(&mut self) -> (r: Opcode)
        requires
            old(self)@.pc < old(self)@.program.len(),
        ensures
            r == opcode_of(old(self)@.program[old(self)@.pc as int]),
            final(self)@ == (Machine { pc: (old(self)@.pc + 1) as usize, ..old(self)@ }),
    {
        let result = Opcode::decode(self.program[self.pc]);
        assert(self.pc < self.program.len());
        self.pc += 1;
        result
    }

    fn next_8_bits(&mut self) -> (r: u8)
        requires
            old(self)@.pc < old(self)@.program.len(),
        ensures
            r == old(self)@.program[old(self)@.pc as int],
            final(self)@ == (Machine { pc: (old(self)@.pc + 1) as usize, ..old(self)@ }),
    {
        let result = self.program[self.pc];
        assert(self.pc < self.program.len());
        self.pc += 1;
        result
    }

    fn next_16_bits(&mut self) -> (r: u16)
        requires
            old(self)@.program.len() - old(self)@.pc >= 2,
        ensures
            r as int == old(self)@.program[old(self)@.pc as int] as int * 256
                + old(self)@.program[old(self)@.pc + 1] as int,
            final(self)@ == (Machine { pc: (old(self)@.pc + 2) as usize, ..old(self)@ }),
    {
        let hi = self.program[self.pc];
        assert(self.pc + 2 <= self.program.len());
        let lo = self.program[self.pc + 1];
        let result = ((hi as u16) << 8u16) | (lo as u16);
        assert(((hi as u16) << 8u16) | (lo as u16) == (hi as u16) * 256 + (lo as u16)) by (bit_vector);
        self.pc += 2;
        result
    }
}

/// Truncating division and the magnitude of its remainder; `b` is not zero.
fn divide(a: i32, b: i32) -> (r: (i32, u32))
    requires
        b != 0,
    ensures
        r.0 == quotient_of(a, b),
        r.1 == remainder_of(a, b),
{
    let ua: u32 = if a < 0 { (-(a as i64)) as u32 } else { a as u32 };
    let ub: u32 = if b < 0 { (-(b as i64)) as u32 } else { b as u32 };
    let q: u32 = ua / ub;
    let r: u32 = ua % ub;
    proof {
        vstd::arithmetic::div_mod::lemma_div_is_ordered_by_denominator(ua as int, 1, ub as int);
    }
    let quot: i32 = if (a < 0) != (b < 0) {
        (-(q as i64)) as i32
    } else if q > 2147483647u32 {
        i32::MIN
    } else {
        q as i32
    };
    (quot, r)
}

} // verus!
