use regvm::vm::{Status, VM};

fn run_program(program: Vec<u8>) -> VM {
    let mut vm = VM::new();
    vm.set_program(program);
    vm.run();
    vm
}

#[test]
fn test_create_vm() {
    let test_vm = VM::new();
    for i in 0..32 {
        assert_eq!(test_vm.registers()[i], 0);
    }
}

#[test]
fn test_opcode_hlt() {
    let test_vm = run_program(vec![0, 0, 0, 0]);
    assert_eq!(test_vm.pc(), 1);
}

#[test]
fn test_opcode_igl() {
    let test_vm = run_program(vec![254, 0, 0, 0]);
    assert_eq!(test_vm.pc(), 1);
}

#[test]
fn test_load_opcode() {
    let test_vm = run_program(vec![1, 0, 1, 244]);
    assert_eq!(test_vm.registers()[0], 500);
}

#[test]
fn test_add_opcode() {
    let v1: u8 = 10;
    let v2: u8 = 5;
    let test_vm = run_program(vec![1, 0, 0, v1, 1, 1, 0, 5, 2, 0, 1, 2]);
    assert_eq!(test_vm.registers()[2], (v1 + v2) as i32);
}

#[test]
fn test_sub_opcode() {
    let v1: u8 = 10;
    let v2: u8 = 5;
    let test_vm = run_program(vec![1, 0, 0, v1, 1, 1, 0, 5, 3, 0, 1, 2]);
    assert_eq!(test_vm.registers()[2], (v1 - v2) as i32);
}

#[test]
fn test_mul_opcode() {
    let v1: u8 = 10;
    let v2: u8 = 5;
    let test_vm = run_program(vec![1, 0, 0, v1, 1, 1, 0, 5, 4, 0, 1, 2]);
    assert_eq!(test_vm.registers()[2], (v1 * v2) as i32);
}

#[test]
fn test_div_opcode() {
    let v1: u8 = 10;
    let v2: u8 = 5;
    let test_vm = run_program(vec![1, 0, 0, v1, 1, 1, 0, 5, 5, 0, 1, 2]);
    assert_eq!(test_vm.registers()[2], (v1 / v2) as u32 as i32);
    assert_eq!(test_vm.remainder(), (v1 % v2) as u32);
}

#[test]
fn test_jmp_opcode() {
    let mut test_vm = VM::new();
    test_vm.set_register(0, 3);
    test_vm.set_register(1, 2);
    test_vm.set_register(2, 3);
    test_vm.set_program(vec![6, 0, 5, 2, 1, 2, 3]);
    test_vm.run();
    assert_eq!(test_vm.registers()[3], 5);
}

#[test]
fn fresh_vm_is_zeroed() {
    let vm = VM::new();
    assert_eq!(vm.pc(), 0);
    assert_eq!(vm.remainder(), 0);
    assert_eq!(vm.registers().len(), 32);
    assert!(vm.registers().iter().all(|&r| r == 0));
    assert_eq!(vm.status(), Status::Running);
    assert!(vm.program().is_empty());
}

#[test]
fn halt_first_keeps_registers() {
    let vm = run_program(vec![0, 0, 0, 0]);
    assert_eq!(vm.status(), Status::Halted);
    assert_eq!(vm.pc(), 1);
    assert!(vm.registers().iter().all(|&r| r == 0));
}

#[test]
fn load_literal_is_big_endian_and_zero_extended() {
    let vm = run_program(vec![1, 7, 0xFF, 0xFE]);
    assert_eq!(vm.registers()[7], 65534);
    assert_eq!(vm.pc(), 4);
    assert_eq!(vm.status(), Status::ProgramEnd);
}

#[test]
fn divide_with_remainder() {
    let vm = run_program(vec![1, 0, 0, 10, 1, 1, 0, 3, 5, 0, 1, 2]);
    assert_eq!(vm.registers()[2], 3);
    assert_eq!(vm.remainder(), 1);
}

#[test]
fn divide_negative_truncates_toward_zero() {
    let mut vm = VM::new();
    vm.set_register(0, -7);
    vm.set_register(1, 2);
    vm.set_program(vec![5, 0, 1, 2]);
    vm.run();
    assert_eq!(vm.registers()[2], -3);
    assert_eq!(vm.remainder(), 1);
}

#[test]
fn divide_min_by_minus_one_wraps() {
    let mut vm = VM::new();
    vm.set_register(0, i32::MIN);
    vm.set_register(1, -1);
    vm.set_program(vec![5, 0, 1, 2]);
    vm.run();
    assert_eq!(vm.registers()[2], i32::MIN);
    assert_eq!(vm.remainder(), 0);
    assert_eq!(vm.status(), Status::ProgramEnd);
}

#[test]
fn divide_by_zero_faults_and_keeps_state() {
    let mut vm = VM::new();
    vm.set_program(vec![1, 0, 0, 10, 1, 1, 0, 3, 5, 0, 1, 2, 1, 3, 0, 9, 5, 0, 4, 2]);
    vm.run();
    assert_eq!(vm.status(), Status::DivideByZero);
    assert_eq!(vm.registers()[2], 3);
    assert_eq!(vm.remainder(), 1);
    assert_eq!(vm.registers()[3], 9);
    assert_eq!(vm.pc(), 16);
}

#[test]
fn add_and_mul_wrap() {
    let mut vm = VM::new();
    vm.set_register(0, i32::MAX);
    vm.set_register(1, 1);
    vm.set_register(4, 65536);
    vm.set_program(vec![2, 0, 1, 2, 4, 4, 4, 3, 3, 2, 1, 5]);
    vm.run();
    assert_eq!(vm.registers()[2], i32::MIN);
    assert_eq!(vm.registers()[3], 0);
    assert_eq!(vm.registers()[5], i32::MAX);
}

#[test]
fn jump_sets_pc_to_register_value() {
    let mut vm = VM::new();
    vm.set_register(4, 5);
    vm.set_program(vec![6, 4, 0, 0, 0, 1, 1, 0, 42]);
    vm.run_once();
    assert_eq!(vm.pc(), 5);
    assert_eq!(vm.status(), Status::Running);
    vm.run();
    assert_eq!(vm.registers()[1], 42);
    assert_eq!(vm.status(), Status::ProgramEnd);
}

#[test]
fn jump_past_end_ends_program() {
    let mut vm = VM::new();
    vm.set_register(0, 100);
    vm.set_program(vec![6, 0]);
    vm.run();
    assert_eq!(vm.pc(), 100);
    assert_eq!(vm.status(), Status::ProgramEnd);
}

#[test]
fn every_undefined_opcode_stops_after_one_fetch() {
    for b in 7..=255u8 {
        let vm = run_program(vec![b, 1, 0, 0, 5]);
        assert_eq!(vm.pc(), 1);
        assert_eq!(vm.status(), Status::IllegalOpcode);
        assert!(vm.registers().iter().all(|&r| r == 0));
    }
}

#[test]
fn bad_register_index_faults() {
    let vm = run_program(vec![1, 0, 0, 1, 1, 32, 0, 7]);
    assert_eq!(vm.status(), Status::BadRegister);
    assert_eq!(vm.pc(), 4);
    assert_eq!(vm.registers()[0], 1);
    let vm = run_program(vec![2, 0, 40, 1]);
    assert_eq!(vm.status(), Status::BadRegister);
    let vm = run_program(vec![6, 200]);
    assert_eq!(vm.status(), Status::BadRegister);
    assert_eq!(vm.pc(), 0);
}

#[test]
fn truncated_instruction_faults() {
    let vm = run_program(vec![1, 0, 1]);
    assert_eq!(vm.status(), Status::Truncated);
    assert_eq!(vm.pc(), 0);
    assert_eq!(vm.registers()[0], 0);
    let vm = run_program(vec![0x05, 0, 1]);
    assert_eq!(vm.status(), Status::Truncated);
    let vm = run_program(vec![6]);
    assert_eq!(vm.status(), Status::Truncated);
}

#[test]
fn empty_program_ends_at_once() {
    let vm = run_program(vec![]);
    assert_eq!(vm.status(), Status::ProgramEnd);
    assert_eq!(vm.pc(), 0);
}

#[test]
fn stepping_matches_run() {
    let programs: Vec<Vec<u8>> = vec![
        vec![1, 0, 0, 10, 1, 1, 0, 3, 5, 0, 1, 2, 3, 0, 1, 4, 0],
        vec![1, 0, 0, 10, 1, 1, 0, 0, 5, 0, 1, 2],
        vec![1, 0, 0, 9, 6, 0, 7, 7, 7, 1, 5, 0, 7],
        vec![200],
    ];
    for program in programs {
        let mut whole = VM::new();
        whole.set_program(program.clone());
        whole.run();
        let mut stepped = VM::new();
        stepped.set_program(program);
        loop {
            stepped.run_once();
            if stepped.status() != Status::Running {
                break;
            }
        }
        assert_eq!(stepped.registers(), whole.registers());
        assert_eq!(stepped.pc(), whole.pc());
        assert_eq!(stepped.remainder(), whole.remainder());
        assert_eq!(stepped.status(), whole.status());
    }
}

#[test]
fn run_steps_stops_an_endless_loop() {
    let mut vm = VM::new();
    vm.set_program(vec![6, 0]);
    vm.run_steps(1000);
    assert_eq!(vm.status(), Status::Running);
    assert_eq!(vm.pc(), 0);
}

#[test]
fn set_program_restarts_at_zero_and_keeps_registers() {
    let mut vm = run_program(vec![1, 3, 0, 8, 0]);
    assert_eq!(vm.status(), Status::Halted);
    vm.set_program(vec![2, 3, 3, 4]);
    assert_eq!(vm.pc(), 0);
    assert_eq!(vm.status(), Status::Running);
    vm.run();
    assert_eq!(vm.registers()[4], 16);
    assert_eq!(vm.program(), &[2u8, 3, 3, 4][..]);
}
