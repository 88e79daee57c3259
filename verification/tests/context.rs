use chasement::{Context, Data};

fn context(program: &str) -> Context<Vec<u8>> {
    Context::new(program.as_bytes().to_vec())
}

#[test]
fn new_context_is_empty_at_address_zero() {
    let ctx = context("23+p");
    assert_eq!(ctx.get_pc(), 0);
    assert_eq!(ctx.top(), None);
    assert_eq!(ctx.aux_top(), None);
    assert!(ctx.stack_iter().is_empty());
    assert!(ctx.aux_stack_iter().is_empty());
    assert_eq!(ctx.output(), "");
    assert_eq!(ctx.cur_byte(), Some(b'2'));
}

#[test]
fn push_pop_is_last_in_first_out() {
    let mut ctx = context("");
    ctx.push(Data::Int(1));
    ctx.push(Data::Bool(true));
    ctx.push(Data::Char('c'));
    assert_eq!(ctx.top(), Some(&Data::Char('c')));
    assert_eq!(ctx.pop(), Some(Data::Char('c')));
    assert_eq!(ctx.pop(), Some(Data::Bool(true)));
    assert_eq!(ctx.top(), Some(&Data::Int(1)));
    assert_eq!(ctx.pop(), Some(Data::Int(1)));
    assert_eq!(ctx.pop(), None);
    assert_eq!(ctx.top(), None);
}

#[test]
fn top_does_not_remove() {
    let mut ctx = context("");
    ctx.push(Data::Int(8));
    assert_eq!(ctx.top(), Some(&Data::Int(8)));
    assert_eq!(ctx.top(), Some(&Data::Int(8)));
    assert_eq!(ctx.stack_iter().len(), 1);
}

#[test]
fn to_auxiliary_moves_the_top() {
    let mut ctx = context("");
    ctx.push(Data::Int(1));
    ctx.push(Data::Int(2));
    ctx.to_auxiliary();
    assert_eq!(ctx.top(), Some(&Data::Int(1)));
    assert_eq!(ctx.aux_top(), Some(&Data::Int(2)));
    ctx.to_auxiliary();
    assert_eq!(ctx.top(), None);
    assert_eq!(ctx.aux_top(), Some(&Data::Int(1)));
}

#[test]
fn to_auxiliary_on_empty_stack_does_nothing() {
    let mut ctx = context("");
    ctx.to_auxiliary();
    assert_eq!(ctx.top(), None);
    assert_eq!(ctx.aux_top(), None);
}

#[test]
fn to_main_moves_the_top_back() {
    let mut ctx = context("");
    ctx.push(Data::Int(1));
    ctx.push(Data::Int(2));
    ctx.to_auxiliary();
    ctx.to_auxiliary();
    ctx.to_main();
    assert_eq!(ctx.top(), Some(&Data::Int(1)));
    assert_eq!(ctx.aux_top(), Some(&Data::Int(2)));
    ctx.to_main();
    assert_eq!(ctx.top(), Some(&Data::Int(2)));
    assert_eq!(ctx.aux_top(), None);
}

#[test]
fn to_main_on_empty_auxiliary_does_nothing() {
    let mut ctx = context("");
    ctx.push(Data::Int(5));
    ctx.to_main();
    assert_eq!(ctx.top(), Some(&Data::Int(5)));
    assert_eq!(ctx.stack_iter().len(), 1);
    assert_eq!(ctx.aux_top(), None);
}

#[test]
fn set_pc_and_get_pc() {
    let mut ctx = context("abc");
    ctx.set_pc(2);
    assert_eq!(ctx.get_pc(), 2);
    assert_eq!(ctx.cur_byte(), Some(b'c'));
    ctx.set_pc(3);
    assert_eq!(ctx.cur_byte(), None);
}

#[test]
fn advance_moves_forward_and_wraps() {
    let mut ctx = context("ab");
    ctx.advance();
    assert_eq!(ctx.get_pc(), 1);
    ctx.set_pc(usize::MAX);
    ctx.advance();
    assert_eq!(ctx.get_pc(), 0);
}

#[test]
fn prev_moves_back_and_wraps() {
    let mut ctx = context("ab");
    ctx.set_pc(1);
    ctx.prev();
    assert_eq!(ctx.get_pc(), 0);
    ctx.prev();
    assert_eq!(ctx.get_pc(), usize::MAX);
    assert_eq!(ctx.cur_byte(), None);
    ctx.advance();
    assert_eq!(ctx.get_pc(), 0);
}

#[test]
fn stack_iter_goes_from_top_to_bottom() {
    let mut ctx = context("");
    ctx.push(Data::Int(1));
    ctx.push(Data::Int(2));
    ctx.push(Data::Int(3));
    let seen: Vec<Data> = ctx.stack_iter().into_iter().cloned().collect();
    assert_eq!(seen, vec![Data::Int(3), Data::Int(2), Data::Int(1)]);
    let again: Vec<Data> = ctx.stack_iter().into_iter().cloned().collect();
    assert_eq!(again, seen);
}

#[test]
fn aux_stack_iter_goes_from_top_to_bottom() {
    let mut ctx = context("");
    ctx.push(Data::Char('a'));
    ctx.push(Data::Char('b'));
    ctx.to_auxiliary();
    ctx.to_auxiliary();
    let seen: Vec<Data> = ctx.aux_stack_iter().into_iter().cloned().collect();
    assert_eq!(seen, vec![Data::Char('a'), Data::Char('b')]);
}

#[test]
fn with_program_keeps_stacks_and_counter() {
    let mut ctx = context("abc");
    ctx.push(Data::Int(4));
    ctx.push(Data::Int(6));
    ctx.to_auxiliary();
    ctx.set_pc(1);
    ctx.write("out");
    ctx.offer_input(9);
    let bytes = [b'x', b'y', b'z'];
    let mut moved = ctx.with_program(&bytes[..]);
    assert_eq!(moved.get_pc(), 1);
    assert_eq!(moved.cur_byte(), Some(b'y'));
    assert_eq!(moved.top(), Some(&Data::Int(4)));
    assert_eq!(moved.aux_top(), Some(&Data::Int(6)));
    assert_eq!(moved.output(), "out");
    assert_eq!(moved.read_input(), Some(9));
}

#[test]
fn input_is_read_in_the_order_offered() {
    let mut ctx = context("");
    assert_eq!(ctx.read_input(), None);
    ctx.offer_input(1);
    ctx.offer_input(2);
    ctx.offer_input(3);
    assert_eq!(ctx.read_input(), Some(1));
    ctx.offer_input(4);
    assert_eq!(ctx.read_input(), Some(2));
    assert_eq!(ctx.read_input(), Some(3));
    assert_eq!(ctx.read_input(), Some(4));
    assert_eq!(ctx.read_input(), None);
}

#[test]
fn output_accumulates_until_taken() {
    let mut ctx = context("");
    ctx.write("ab");
    ctx.write("");
    ctx.write("c");
    assert_eq!(ctx.output(), "abc");
    assert_eq!(ctx.take_output(), "abc");
    assert_eq!(ctx.output(), "");
    ctx.write("d");
    assert_eq!(ctx.take_output(), "d");
    assert_eq!(ctx.take_output(), "");
}

#[test]
fn cloned_context_is_independent() {
    let mut ctx = context("ab");
    ctx.push(Data::Int(1));
    let mut copy = ctx.clone();
    copy.push(Data::Int(2));
    copy.advance();
    assert_eq!(ctx.top(), Some(&Data::Int(1)));
    assert_eq!(ctx.get_pc(), 0);
    assert_eq!(copy.top(), Some(&Data::Int(2)));
    assert_eq!(copy.get_pc(), 1);
}
