use stack_vm::errors::VmError;
use stack_vm::opcodes::Opcode;
use stack_vm::vm::Vm;

/// A step budget well past what any test program needs.
const BUDGET: usize = 1000;

#[test]
fn decode_opcode_no_arg() {
    assert_eq!(Opcode::decode(0x0004), Ok(Opcode::Push(0x0004)));
}

#[test]
fn decode_opcode_with_arg() {
    assert_eq!(Opcode::decode(0x1000), Ok(Opcode::Pop));
}

#[test]
fn encode_and_decode_opcode() {
    assert_eq!(Opcode::decode(Opcode::Push(5).encode()), Ok(Opcode::Push(5)));
}

#[test]
fn vm_performs_arithmetic() {
    let code = vec![
        Opcode::Push(10).encode(),
        Opcode::Push(5).encode(),
        Opcode::Add.encode(),
        Opcode::Push(3).encode(),
        Opcode::Sub.encode(),
    ];

    let mut vm = Vm::new(code);
    assert_eq!(vm.run(BUDGET), Ok(()));
    assert!(vm.is_halted());

    assert_eq!(vm.peek(), Ok(12));
}

#[test]
fn vm_handles_logic() {
    let code = vec![
        Opcode::Push(0).encode(),
        Opcode::Jz(4).encode(),
        Opcode::Push(0).encode(),
        Opcode::Jz(0).encode(),
        Opcode::Push(1).encode(),
    ];

    let mut vm = Vm::new(code);
    assert_eq!(vm.run(BUDGET), Ok(()));
    assert!(vm.is_halted());

    assert_eq!(vm.peek(), Ok(1));
}

#[test]
fn sub_takes_second_popped_minus_first() {
    let code = vec![
        Opcode::Push(3).encode(),
        Opcode::Push(10).encode(),
        Opcode::Sub.encode(),
    ];
    let mut vm = Vm::new(code);
    assert_eq!(vm.run(BUDGET), Ok(()));
    assert_eq!(vm.peek(), Ok(3 - 10));
}

#[test]
fn mul_wraps_on_overflow() {
    let code = vec![
        Opcode::Push(0xFFF).encode(),
        Opcode::Push(0xFFF).encode(),
        Opcode::Mul.encode(),
        Opcode::Push(0xFFF).encode(),
        Opcode::Mul.encode(),
        Opcode::Push(0xFFF).encode(),
        Opcode::Mul.encode(),
    ];
    let mut vm = Vm::new(code);
    assert_eq!(vm.run(BUDGET), Ok(()));
    let expected = 4095i32
        .wrapping_mul(4095)
        .wrapping_mul(4095)
        .wrapping_mul(4095);
    assert_eq!(vm.peek(), Ok(expected));
}

#[test]
fn halt_truncates_program() {
    let code = vec![Opcode::Halt.encode(), Opcode::Push(1).encode()];
    let mut vm = Vm::new(code);
    assert_eq!(vm.run(BUDGET), Ok(()));
    assert!(vm.is_halted());
    // The Push after Halt never executed.
    assert_eq!(vm.peek(), Err(VmError::StackUnderflow));
    // Steps after halting are no-ops.
    assert_eq!(vm.step(), Ok(()));
    assert_eq!(vm.step(), Ok(()));
    assert!(vm.is_halted());
    assert_eq!(vm.peek(), Err(VmError::StackUnderflow));
}

#[test]
fn jump_past_end_halts_cleanly() {
    let code = vec![Opcode::Push(0).encode(), Opcode::Jz(9).encode()];
    let mut vm = Vm::new(code);
    assert_eq!(vm.step(), Ok(()));
    assert_eq!(vm.step(), Ok(()));
    assert!(!vm.is_halted());
    // The overrun is detected as end-of-program: a normal halt, no failure.
    assert_eq!(vm.step(), Ok(()));
    assert!(vm.is_halted());
}

#[test]
fn jump_not_taken_on_nonzero() {
    let code = vec![
        Opcode::Push(7).encode(),
        Opcode::Jz(4).encode(),
        Opcode::Push(2).encode(),
    ];
    let mut vm = Vm::new(code);
    assert_eq!(vm.run(BUDGET), Ok(()));
    assert_eq!(vm.peek(), Ok(2));
}

#[test]
fn print_emits_in_execution_order() {
    let code = vec![
        Opcode::Push(1).encode(),
        Opcode::Push(2).encode(),
        Opcode::Print.encode(),
        Opcode::Print.encode(),
    ];
    let mut vm = Vm::new(code);
    assert_eq!(vm.run(BUDGET), Ok(()));
    assert_eq!(vm.output().as_slice(), &[2, 1]);
}

#[test]
fn invalid_opcode_fails_run() {
    let code = vec![0x8123u16];
    let mut vm = Vm::new(code);
    assert_eq!(vm.run(BUDGET), Err(VmError::InvalidOpcode(8)));
}

#[test]
fn underflow_fails_run() {
    let code = vec![Opcode::Add.encode()];
    let mut vm = Vm::new(code);
    assert_eq!(vm.run(BUDGET), Err(VmError::StackUnderflow));
}

#[test]
fn overflow_fails_run() {
    let mut code = Vec::new();
    for _ in 0..257 {
        code.push(Opcode::Push(1).encode());
    }
    let mut vm = Vm::new(code);
    assert_eq!(vm.run(BUDGET), Err(VmError::StackOverflow));
}

#[test]
fn run_stops_at_budget() {
    // An endless loop: push 0, jump back to the start.
    let code = vec![Opcode::Push(0).encode(), Opcode::Jz(0).encode()];
    let mut vm = Vm::new(code);
    assert_eq!(vm.run(7), Ok(()));
    assert!(!vm.is_halted());
    assert_eq!(vm.run(BUDGET), Ok(()));
    assert!(!vm.is_halted());
}
