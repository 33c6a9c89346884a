use vstd::prelude::*;
use crate::vm::{Machine, Status, step, run_for, fault};

verus! {

/// `n` single cycles in a row.
pub open spec fn iterate(m: Machine, n: nat) -> Machine
    decreases n,
{
    if n == 0 {
        m
    } else {
        iterate(step(m), (n - 1) as nat)
    }
}

/// Single-stepping until the first cycle that stops the machine ends in the
/// same state as running with enough fuel for those cycles.
pub proof fn lemma_stepping_matches_run(m: Machine, n: nat, fuel: nat)
    requires
        1 <= n <= fuel,
        iterate(m, n).status.is_terminal(),
        forall|k: nat| 1 <= k < n ==> !(#[trigger] iterate(m, k)).status.is_terminal(),
    ensures
        run_for(m, fuel) == iterate(m, n),
    decreases n,
{
    let m1 = step(m);
    assert(iterate(m, 1) == iterate(m1, 0));
    if n > 1 {
        assert(!iterate(m, 1).status.is_terminal());
        assert forall|k: nat| 1 <= k < n - 1 implies !(#[trigger] iterate(m1, k)).status.is_terminal() by {
            assert(iterate(m, k + 1) == iterate(m1, k));
        }
        lemma_stepping_matches_run(m1, (n - 1) as nat, (fuel - 1) as nat);
    }
}

/// A `DIV` whose divisor register holds zero stops the machine with a fault
/// and leaves every register, the remainder and the program counter as they were.
pub proof fn lemma_divide_by_zero_faults(m: Machine, fuel: nat)
    requires
        m.registers.len() == 32,
        m.program.len() - m.pc >= 4,
        m.program[m.pc as int] == 5,
        m.program[m.pc + 1] < 32,
        m.program[m.pc + 2] < 32,
        m.program[m.pc + 3] < 32,
        m.registers[m.program[m.pc + 2] as int] == 0,
        fuel >= 1,
    ensures
        step(m) == fault(m, Status::DivideByZero),
        step(m).registers == m.registers,
        step(m).remainder == m.remainder,
        step(m).pc == m.pc,
        run_for(m, fuel) == step(m),
{
}

/// `JMP r` sets the program counter to the value of register `r`, and the
/// next cycle fetches from that offset.
pub proof fn lemma_jump_sets_pc(m: Machine)
    requires
        m.registers.len() == 32,
        m.program.len() - m.pc >= 2,
        m.program[m.pc as int] == 6,
        m.program[m.pc + 1] < 32,
    ensures
        step(m).pc == m.registers[m.program[m.pc + 1] as int] as usize,
        step(m).status == Status::Running,
        step(m).registers == m.registers,
        step(step(m)) == step(Machine { pc: m.registers[m.program[m.pc + 1] as int] as usize, ..m }),
{
}

/// An opcode byte outside `0..=6` stops the machine after that one fetch,
/// with the program counter one past it.
pub proof fn lemma_illegal_opcode_stops(m: Machine, fuel: nat)
    requires
        m.pc < m.program.len(),
        m.program[m.pc as int] > 6,
        fuel >= 1,
    ensures
        step(m) == (Machine { pc: (m.pc + 1) as usize, status: Status::IllegalOpcode, ..m }),
        run_for(m, fuel) == step(m),
{
}

} // verus!
