use chasement::{
    Data, Fault, FaultKind, Flow, Instruction, InstructionSet, Status, Vm, VM,
};

fn table() -> InstructionSet {
    let mut set = InstructionSet::new();
    set.with_base_instructions().with_arithmetic_instructions();
    set
}

fn machine(program: &str) -> Vm<Vec<u8>> {
    Vm::new(table(), program.as_bytes().to_vec())
}

fn stack_of(vm: &Vm<Vec<u8>>) -> Vec<Data> {
    let mut bottom_up: Vec<Data> = vm.get_context().stack_iter().into_iter().cloned().collect();
    bottom_up.reverse();
    bottom_up
}

fn run_to_end(program: &str) -> (Result<Status, Fault>, String, Vec<Data>) {
    let mut vm = machine(program);
    let result = vm.run(1_000_000);
    let output = String::from(vm.get_context().output());
    let stack = stack_of(&vm);
    (result, output, stack)
}

#[test]
fn push_two_push_three_add_print() {
    let (result, output, stack) = run_to_end("2 3+p");
    assert_eq!(result, Ok(Status::Finished));
    assert_eq!(output, "5");
    assert!(stack.is_empty());
}

#[test]
fn adjacent_digits_are_one_number() {
    let (result, output, stack) = run_to_end("23+p");
    assert_eq!(
        result,
        Err(Fault { opcode: b'+', address: 2, kind: FaultKind::StackUnderflow })
    );
    assert_eq!(output, "");
    assert_eq!(stack, vec![Data::Int(23)]);
}

#[test]
fn plus_alone_faults_without_output() {
    let (result, output, stack) = run_to_end("+");
    assert_eq!(
        result,
        Err(Fault { opcode: b'+', address: 0, kind: FaultKind::StackUnderflow })
    );
    assert_eq!(output, "");
    assert!(stack.is_empty());
}

#[test]
fn unknown_opcode_faults_with_its_byte_and_address() {
    let (result, output, _) = run_to_end("?");
    assert_eq!(result, Err(Fault { opcode: b'?', address: 0, kind: FaultKind::NoInstruction }));
    assert_eq!(output, "");
    let (later, printed, stack) = run_to_end("7p1 ~p");
    assert_eq!(later, Err(Fault { opcode: b'~', address: 4, kind: FaultKind::NoInstruction }));
    assert_eq!(printed, "7");
    assert_eq!(stack, vec![Data::Int(1)]);
}

#[test]
fn plus_is_unknown_without_the_arithmetic_group() {
    let mut set = InstructionSet::new();
    set.with_base_instructions();
    let mut vm = Vm::new(set, "2 3+".as_bytes().to_vec());
    assert_eq!(
        vm.run(100),
        Err(Fault { opcode: b'+', address: 3, kind: FaultKind::NoInstruction })
    );
}

#[test]
fn empty_program_finishes_at_once() {
    let (result, output, stack) = run_to_end("");
    assert_eq!(result, Ok(Status::Finished));
    assert_eq!(output, "");
    assert!(stack.is_empty());
    let mut vm = machine("");
    assert_eq!(vm.run(0), Ok(Status::Finished));
}

#[test]
fn decimal_literals_round_trip() {
    let mut samples: Vec<i64> = (0..=99).collect();
    samples.push(100);
    samples.push(999999);
    samples.push(1234567890);
    samples.push(i64::MAX);
    for i in samples {
        let (result, _, stack) = run_to_end(&format!("{}", i));
        assert_eq!(result, Ok(Status::Finished));
        assert_eq!(stack, vec![Data::Int(i)]);
        let (result, output, stack) = run_to_end(&format!("{} p", i));
        assert_eq!(result, Ok(Status::Finished));
        assert_eq!(output, format!("{}", i));
        assert!(stack.is_empty());
    }
}

#[test]
fn literal_followed_by_an_opcode() {
    let (result, output, stack) = run_to_end("12d+p");
    assert_eq!(result, Ok(Status::Finished));
    assert_eq!(output, "24");
    assert!(stack.is_empty());
}

#[test]
fn literal_too_large_faults_at_its_first_digit() {
    let (result, _, stack) = run_to_end("1 9223372036854775808");
    assert_eq!(result, Err(Fault { opcode: b'9', address: 2, kind: FaultKind::Overflow }));
    assert_eq!(stack, vec![Data::Int(1)]);
}

#[test]
fn empty_test_on_fresh_and_filled_stack() {
    let (_, _, fresh) = run_to_end("e");
    assert_eq!(fresh, vec![Data::Bool(true)]);
    let (_, _, filled) = run_to_end("7e");
    assert_eq!(filled, vec![Data::Int(7), Data::Bool(false)]);
    let (_, _, aux) = run_to_end("z1az");
    assert_eq!(aux, vec![Data::Bool(true), Data::Bool(false)]);
}

#[test]
fn swap_in_a_program() {
    let (result, output, _) = run_to_end("1 2wpp");
    assert_eq!(result, Ok(Status::Finished));
    assert_eq!(output, "12");
}

#[test]
fn dup_then_drop_in_a_program() {
    let (_, _, with) = run_to_end("1 2do");
    let (_, _, without) = run_to_end("1 2");
    assert_eq!(with, without);
}

#[test]
fn jump_resumes_at_the_target() {
    let mut vm = machine("5j0p 7p");
    assert_eq!(vm.run(2), Ok(Status::Suspended));
    assert_eq!(vm.get_context().get_pc(), 5);
    assert_eq!(vm.get_context().cur_byte(), Some(b'7'));
    assert_eq!(vm.run(100), Ok(Status::Finished));
    assert_eq!(vm.get_context().output(), "7");
}

#[test]
fn jump_to_address_zero_starts_over() {
    let mut vm = machine("0j");
    assert_eq!(vm.run(2), Ok(Status::Suspended));
    assert_eq!(vm.get_context().get_pc(), 0);
    assert_eq!(vm.run(1001), Ok(Status::Suspended));
    assert_eq!(stack_of(&vm), vec![Data::Int(0)]);
}

#[test]
fn jump_past_the_end_finishes() {
    let (result, output, _) = run_to_end("100j1p");
    assert_eq!(result, Ok(Status::Finished));
    assert_eq!(output, "");
}

#[test]
fn skip_if_skips_the_next_instruction() {
    let (_, skipped, _) = run_to_end("1 ts pp");
    assert_eq!(skipped, "1");
    let (result, kept, _) = run_to_end("1 2fspp");
    assert_eq!(result, Ok(Status::Finished));
    assert_eq!(kept, "21");
}

#[test]
fn closing_bracket_resumes_at_its_open_bracket() {
    for program in ["[]", "[[]]", "[[[[]]]]", "[ [1o] [[2o]] ]"] {
        let mut vm = machine(program);
        vm.get_context_mut().set_pc(program.len() - 1);
        assert_eq!(vm.run_op(&b']'), Ok(Flow::Advance));
        assert_eq!(vm.get_context().get_pc(), 0);
        assert_eq!(vm.run(1), Ok(Status::Suspended));
        assert_eq!(vm.get_context().get_pc(), 1);
        assert_eq!(stack_of(&vm), vec![Data::Int(0)]);
    }
}

#[test]
fn bracket_loop_counts_down() {
    let (result, output, stack) = run_to_end("3[odp0!+d0=s]");
    assert_eq!(result, Ok(Status::Finished));
    assert_eq!(output, "321");
    assert_eq!(stack, vec![Data::Int(0)]);
}

#[test]
fn jump_loop_counts_down() {
    let (result, output, stack) = run_to_end("2 dp0!+d0=!sx2j");
    assert_eq!(result, Ok(Status::Exited));
    assert_eq!(output, "21");
    assert_eq!(stack, vec![Data::Int(0)]);
}

#[test]
fn unmatched_closing_bracket_faults() {
    let (result, output, _) = run_to_end("1p]");
    assert_eq!(
        result,
        Err(Fault { opcode: b']', address: 2, kind: FaultKind::UnmatchedBracket })
    );
    assert_eq!(output, "1");
}

#[test]
fn parentheses_skip_their_body() {
    let (result, output, _) = run_to_end("1(2p(3p))p");
    assert_eq!(result, Ok(Status::Finished));
    assert_eq!(output, "1");
}

#[test]
fn parenthesised_body_can_be_jumped_into() {
    let (result, output, _) = run_to_end("(7px)1j");
    assert_eq!(result, Ok(Status::Exited));
    assert_eq!(output, "7");
}

#[test]
fn unmatched_opening_parenthesis_faults() {
    let (result, output, _) = run_to_end("1p(2p");
    assert_eq!(
        result,
        Err(Fault { opcode: b'(', address: 2, kind: FaultKind::UnmatchedBracket })
    );
    assert_eq!(output, "1");
}

#[test]
fn comments_are_skipped() {
    let (result, output, _) = run_to_end("1#2p#p");
    assert_eq!(result, Ok(Status::Finished));
    assert_eq!(output, "1");
    let (_, by_line, _) = run_to_end("1#2p\np3");
    assert_eq!(by_line, "1");
    let (open, nothing, _) = run_to_end("1#p");
    assert_eq!(open, Ok(Status::Finished));
    assert_eq!(nothing, "");
}

#[test]
fn whitespace_is_ignored() {
    let (result, output, _) = run_to_end(" 1\n 2 \n+ p\n");
    assert_eq!(result, Ok(Status::Finished));
    assert_eq!(output, "3");
}

#[test]
fn character_literals() {
    let (result, output, _) = run_to_end("'\\n'b'appp");
    assert_eq!(result, Ok(Status::Finished));
    assert_eq!(output, "ab\n");
}

#[test]
fn character_literal_faults() {
    let (eof, _, _) = run_to_end("1'");
    assert_eq!(eof, Err(Fault { opcode: b'\'', address: 1, kind: FaultKind::UnexpectedEnd }));
    let (escape, _, _) = run_to_end("'\\q");
    assert_eq!(
        escape,
        Err(Fault { opcode: b'\'', address: 0, kind: FaultKind::InvalidEscape(b'q') })
    );
}

#[test]
fn equality_in_a_program() {
    let (_, same, _) = run_to_end("4 4=p");
    assert_eq!(same, "true");
    let (_, differ, _) = run_to_end("4 5=p");
    assert_eq!(differ, "false");
    let (_, cross, _) = run_to_end("1t=p");
    assert_eq!(cross, "false");
}

#[test]
fn negation_in_a_program() {
    let (_, output, _) = run_to_end("t!p0!p");
    assert_eq!(output, "false-1");
}

#[test]
fn auxiliary_stack_in_a_program() {
    let (result, output, _) = run_to_end("1 2 3aampmpp");
    assert_eq!(result, Ok(Status::Finished));
    assert_eq!(output, "231");
}

#[test]
fn exit_stops_the_run() {
    let mut vm = machine("1px2p");
    assert_eq!(vm.run(100), Ok(Status::Exited));
    assert_eq!(vm.get_context().output(), "1");
    assert_eq!(vm.get_context().get_pc(), 2);
}

#[test]
fn stack_listing_in_a_program() {
    let (result, output, _) = run_to_end("1 'c t a h");
    assert_eq!(result, Ok(Status::Finished));
    assert_eq!(output, "Main: [\n    Char('c'),\n    Int(1),\n]\nAux: [\n    Bool(true),\n]\n");
}

#[test]
fn input_waits_until_a_byte_is_offered() {
    let mut vm = machine("1p,p,p");
    assert_eq!(vm.run(100), Ok(Status::AwaitingInput));
    assert_eq!(vm.get_context().output(), "1");
    assert_eq!(vm.get_context().get_pc(), 2);
    assert_eq!(vm.run(100), Ok(Status::AwaitingInput));
    assert_eq!(vm.get_context().get_pc(), 2);
    vm.get_context_mut().offer_input(b'x');
    assert_eq!(vm.run(100), Ok(Status::AwaitingInput));
    assert_eq!(vm.get_context().output(), "1x");
    assert_eq!(vm.get_context().get_pc(), 4);
    vm.get_context_mut().offer_input(b'y');
    assert_eq!(vm.run(100), Ok(Status::Finished));
    assert_eq!(vm.get_context_mut().take_output(), "1xy");
}

#[test]
fn input_offered_ahead_is_read_in_order() {
    let mut vm = machine(",,,ppp");
    for byte in [b'a', b'b', b'c'] {
        vm.get_context_mut().offer_input(byte);
    }
    assert_eq!(vm.run(100), Ok(Status::Finished));
    assert_eq!(vm.get_context().output(), "cba");
}

#[test]
fn zero_byte_input_is_the_nul_character() {
    let mut vm = machine(",");
    vm.get_context_mut().offer_input(0);
    assert_eq!(vm.run(100), Ok(Status::Finished));
    assert_eq!(stack_of(&vm), vec![Data::Char('\0')]);
}

#[test]
fn run_stops_when_the_steps_are_used_up() {
    let mut vm = machine("1p2p3p");
    assert_eq!(vm.run(0), Ok(Status::Suspended));
    assert_eq!(vm.get_context().output(), "");
    assert_eq!(vm.run(2), Ok(Status::Suspended));
    assert_eq!(vm.get_context().output(), "1");
    assert_eq!(vm.run(3), Ok(Status::Suspended));
    assert_eq!(vm.get_context().output(), "12");
    assert_eq!(vm.get_context().get_pc(), 5);
    assert_eq!(vm.run(1), Ok(Status::Finished));
    assert_eq!(vm.get_context().output(), "123");
    assert_eq!(vm.run(1), Ok(Status::Finished));
    assert_eq!(vm.get_context().get_pc(), 6);
}

#[test]
fn run_in_pieces_equals_run_at_once() {
    let program = "3[odp0!+d0=s]5p";
    let (whole, output, stack) = run_to_end(program);
    for piece in 1..7u64 {
        let mut vm = machine(program);
        let mut result = vm.run(piece);
        while result == Ok(Status::Suspended) {
            result = vm.run(piece);
        }
        assert_eq!(result, whole);
        assert_eq!(vm.get_context().output(), output);
        assert_eq!(stack_of(&vm), stack);
    }
}

#[test]
fn a_fault_leaves_the_machine_where_it_was() {
    let mut vm = machine("1 t+p");
    assert_eq!(
        vm.run(100),
        Err(Fault { opcode: b'+', address: 3, kind: FaultKind::TypeMismatch })
    );
    assert_eq!(vm.get_context().get_pc(), 3);
    assert_eq!(stack_of(&vm), vec![Data::Int(1), Data::Bool(true)]);
    assert_eq!(
        vm.run(100),
        Err(Fault { opcode: b'+', address: 3, kind: FaultKind::TypeMismatch })
    );
}

#[test]
fn run_op_runs_the_given_opcode() {
    let mut vm = machine("    ");
    assert_eq!(vm.run_op(&b't'), Ok(Flow::Advance));
    assert_eq!(vm.get_context().get_pc(), 1);
    assert_eq!(stack_of(&vm), vec![Data::Bool(true)]);
    assert_eq!(vm.run_op(&b'x'), Ok(Flow::Exit));
    assert_eq!(vm.get_context().get_pc(), 1);
    assert_eq!(vm.run_op(&b','), Ok(Flow::AwaitInput));
    assert_eq!(vm.get_context().get_pc(), 1);
    assert_eq!(
        vm.run_op(&b'+'),
        Err(Fault { opcode: b'+', address: 1, kind: FaultKind::StackUnderflow })
    );
    assert_eq!(
        vm.run_op(&0),
        Err(Fault { opcode: 0, address: 1, kind: FaultKind::NoInstruction })
    );
    assert_eq!(vm.get_context().get_pc(), 1);
}

#[test]
fn run_op_wraps_the_counter() {
    let mut vm = machine("ab");
    vm.get_context_mut().set_pc(usize::MAX);
    assert_eq!(vm.run_op(&b' '), Ok(Flow::Advance));
    assert_eq!(vm.get_context().get_pc(), 0);
}

#[test]
fn run_instruction_does_not_move_the_counter() {
    let mut vm = machine("");
    assert_eq!(vm.run_instruction(Instruction::True), Ok(Flow::Advance));
    assert_eq!(vm.run_instruction(Instruction::Dup), Ok(Flow::Advance));
    assert_eq!(vm.get_context().get_pc(), 0);
    assert_eq!(stack_of(&vm), vec![Data::Bool(true), Data::Bool(true)]);
    assert_eq!(vm.run_instruction(Instruction::Plus), Err(FaultKind::TypeMismatch));
}

#[test]
fn rebound_opcode_runs_the_new_instruction() {
    let mut set = table();
    set.insert(b'p', Instruction::Drop);
    set.insert(b'~', Instruction::Print);
    let mut vm = Vm::new(set, "1 2p~".as_bytes().to_vec());
    assert_eq!(vm.run(100), Ok(Status::Finished));
    assert_eq!(vm.get_context().output(), "1");
}

#[test]
fn with_program_keeps_the_state() {
    let mut vm = machine("1 2");
    assert_eq!(vm.run(100), Ok(Status::Finished));
    let mut next = vm.with_program("1 2+p".as_bytes().to_vec());
    assert_eq!(next.get_context().get_pc(), 3);
    assert_eq!(next.run(100), Ok(Status::Finished));
    assert_eq!(next.get_context().output(), "3");
}

#[test]
fn machine_over_a_borrowed_program() {
    let bytes = *b"2 3+p";
    let mut vm: VM = Vm::new(table(), &bytes[..]);
    assert_eq!(vm.run(100), Ok(Status::Finished));
    assert_eq!(vm.get_context().output(), "5");
}

#[test]
fn cloned_machine_runs_on_its_own() {
    let mut vm = machine("1p2p");
    assert_eq!(vm.run(2), Ok(Status::Suspended));
    let mut copy = vm.clone();
    assert_eq!(copy.run(100), Ok(Status::Finished));
    assert_eq!(copy.get_context().output(), "12");
    assert_eq!(vm.get_context().output(), "1");
}
