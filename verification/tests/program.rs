use chasement::{ExtendableProgramStorage, ProgramStorage};

#[test]
fn vec_opcode_at_inside_and_past_the_end() {
    let program: Vec<u8> = vec![b'2', b' ', b'p'];
    assert_eq!(program.opcode_at(0), Some(b'2'));
    assert_eq!(program.opcode_at(2), Some(b'p'));
    assert_eq!(program.opcode_at(3), None);
    assert_eq!(program.opcode_at(usize::MAX), None);
}

#[test]
fn slice_opcode_at_inside_and_past_the_end() {
    let bytes = [b'a', b'm'];
    let program: &[u8] = &bytes;
    assert_eq!(program.opcode_at(0), Some(b'a'));
    assert_eq!(program.opcode_at(1), Some(b'm'));
    assert_eq!(program.opcode_at(2), None);
}

#[test]
fn empty_program_has_no_opcode() {
    let program: Vec<u8> = Vec::new();
    assert_eq!(program.opcode_at(0), None);
    let slice: &[u8] = &[];
    assert_eq!(slice.opcode_at(0), None);
}

#[test]
fn unchecked_lookup_agrees_with_checked() {
    let program: Vec<u8> = vec![b'[', b']'];
    assert_eq!(program.opcode_at_unchecked(0), b'[');
    assert_eq!(program.opcode_at_unchecked(1), b']');
    let slice: &[u8] = &program;
    assert_eq!(slice.opcode_at_unchecked(1), b']');
}

#[test]
fn push_opcode_appends() {
    let mut program: Vec<u8> = vec![b'1'];
    program.push_opcode(b'p');
    assert_eq!(program, vec![b'1', b'p']);
    assert_eq!(program.opcode_at(1), Some(b'p'));
    assert_eq!(program.opcode_at(2), None);
}
