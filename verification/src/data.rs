//! The values that programs compute with, and their text forms.

use vstd::prelude::*;
use vstd::std_specs::cmp::PartialEqSpecImpl;
use vstd::string::StringExecFns;

use crate::opcodes::DIGIT_ZERO;
use crate::scan::decimal_digits;

verus! {

/// A value on one of the stacks.
#[derive(Debug)]
pub enum Data {
    Int(i64),
    Bool(bool),
    Char(char),
    Str(String),
}

/// The mathematical content of a [`Data`].
pub enum Value {
    Int(int),
    Bool(bool),
    Char(char),
    Str(Seq<char>),
}

impl View for Data {
    type V = Value;

    open spec fn view(&self) -> Value {
        match self {
            Data::Int(i) => Value::Int(*i as int),
            Data::Bool(b) => Value::Bool(*b),
            Data::Char(c) => Value::Char(*c),
            Data::Str(s) => Value::Str(s@),
        }
    }
}

impl Clone for Data {
    /// The copy is the same variant with the same payload.
    fn clone(&self) -> (copy: Self)
        ensures
            copy == *self,
    {
        match self {
            Data::Int(i) => Data::Int(*i),
            Data::Bool(b) => Data::Bool(*b),
            Data::Char(c) => Data::Char(*c),
            Data::Str(s) => Data::Str(s.clone()),
        }
    }
}

impl PartialEq for Data {
    /// Structural equality: same variant, same payload.
    fn eq(&self, other: &Self) -> (same: bool) {
        match (self, other) {
            (Data::Int(a), Data::Int(b)) => *a == *b,
            (Data::Bool(a), Data::Bool(b)) => *a == *b,
            (Data::Char(a), Data::Char(b)) => *a == *b,
            (Data::Str(a), Data::Str(b)) => *a == *b,
            _ => false,
        }
    }
}

impl PartialEqSpecImpl for Data {
    open spec fn obeys_eq_spec() -> bool {
        true
    }

    open spec fn eq_spec(&self, other: &Self) -> bool {
        self@ == other@
    }
}

/// The decimal text of a natural number.
pub open spec fn nat_text(n: nat) -> Seq<char> {
    decimal_digits(n).map_values(|digit: u8| digit as char)
}

/// The decimal text of an integer: a minus sign before the digits of a
/// negative number, and no sign otherwise.
pub open spec fn int_text(i: int) -> Seq<char> {
    if i < 0 {
        seq!['-'] + nat_text((-i) as nat)
    } else {
        nat_text(i as nat)
    }
}

/// The text of a truth value.
pub open spec fn bool_text(b: bool) -> Seq<char> {
    if b {
        "true"@
    } else {
        "false"@
    }
}

/// `payload` in round brackets behind `tag`.
pub open spec fn tagged_text(tag: Seq<char>, payload: Seq<char>) -> Seq<char> {
    tag + seq!['('] + payload + seq![')']
}

/// What the `{:?}` format of std writes for a character: the character in
/// single quotes, escaped where std escapes it.
pub uninterp spec fn char_debug(c: char) -> Seq<char>;

/// What the `{:?}` format of std writes for a string: the string in double
/// quotes, escaped where std escapes it.
pub uninterp spec fn str_debug(s: Seq<char>) -> Seq<char>;

impl Value {
    /// The text that printing the value writes: the payload alone.
    pub open spec fn text(self) -> Seq<char> {
        match self {
            Value::Int(i) => int_text(i),
            Value::Bool(b) => bool_text(b),
            Value::Char(c) => seq![c],
            Value::Str(s) => s,
        }
    }

    /// The text that a stack listing writes for the value: the name of the
    /// variant and the payload in round brackets.
    pub open spec fn debug_text(self) -> Seq<char> {
        match self {
            Value::Int(i) => tagged_text("Int"@, int_text(i)),
            Value::Bool(b) => tagged_text("Bool"@, bool_text(b)),
            Value::Char(c) => tagged_text("Char"@, char_debug(c)),
            Value::Str(s) => tagged_text("Str"@, str_debug(s)),
        }
    }
}

/// `String::push`: appends one character.
#[verifier::external_body]
fn push_char(text: &mut String, c: char)
    ensures
        final(text)@ == old(text)@.push(c),
{
    text.push(c)
}

/// The `{:?}` format of std applied to a character. The text depends on the
/// character alone; `char_debug` names it.
#[verifier::external_body]
fn char_debug_text(c: char) -> (text: String)
    ensures
        text@ == char_debug(c),
{
    format!("{:?}", c)
}

/// The `{:?}` format of std applied to a string. The text depends on the
/// characters alone; `str_debug` names it.
#[verifier::external_body]
fn str_debug_text(s: &str) -> (text: String)
    ensures
        text@ == str_debug(s@),
{
    format!("{:?}", s)
}

/// Appends the decimal digits of `n` to `text`.
fn push_nat(text: &mut String, n: u64)
    ensures
        final(text)@ == old(text)@ + nat_text(n as nat),
    decreases n,
{
    if n >= 10 {
        push_nat(text, n / 10);
    }
    let digit = (n % 10) as u8;
    push_char(text, (DIGIT_ZERO + digit) as char);
}

/// The decimal text of `i`.
pub fn int_to_text(i: i64) -> (text: String)
    ensures
        text@ == int_text(i as int),
{
    let mut text = String::new();
    if i < 0 {
        push_char(&mut text, '-');
        push_nat(&mut text, (-(i as i128)) as u64);
    } else {
        push_nat(&mut text, i as u64);
    }
    text
}

/// `payload` in round brackets behind `tag`.
pub fn tagged(tag: &str, payload: &str) -> (text: String)
    ensures
        text@ == tagged_text(tag@, payload@),
{
    let mut text = String::from_str(tag);
    push_char(&mut text, '(');
    text.append(payload);
    push_char(&mut text, ')');
    text
}

impl Data {
    /// The text that printing the value writes.
    pub fn to_text(&self) -> (text: String)
        ensures
            text@ == self@.text(),
    {
        match self {
            Data::Int(i) => int_to_text(*i),
            Data::Bool(b) => if *b {
                String::from_str("true")
            } else {
                String::from_str("false")
            },
            Data::Char(c) => {
                let mut text = String::new();
                push_char(&mut text, *c);
                text
            },
            Data::Str(s) => s.clone(),
        }
    }

    /// The text that a stack listing writes for the value.
    pub fn to_debug_text(&self) -> (text: String)
        ensures
            text@ == self@.debug_text(),
    {
        match self {
            Data::Int(i) => tagged("Int", int_to_text(*i).as_str()),
            Data::Bool(b) => tagged("Bool", if *b {
                "true"
            } else {
                "false"
            }),
            Data::Char(c) => tagged("Char", char_debug_text(*c).as_str()),
            Data::Str(s) => tagged("Str", str_debug_text(s.as_str()).as_str()),
        }
    }
}

} // verus!
