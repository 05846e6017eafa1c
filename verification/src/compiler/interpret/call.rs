//! The interpreter's decisions that do not depend on values: the stack space a call uses,
//! the message for a call with the wrong number of arguments, the fuel that loops spend,
//! and the steps of a `while` loop.
use vstd::prelude::*;
use crate::text::{decimal, owned, push_decimal, push_str};

verus! {

/// The message for a call of `name`, which takes `arity` arguments, with `count` of them.
pub open spec fn wrong_arity_text(name: Seq<char>, arity: nat, count: nat) -> Seq<char> {
    "Wrong number of arguments in function call '"@ + name + "' - Expected: "@ + decimal(arity)
        + ", got: "@ + decimal(count) + " instead"@
}

/// The message for a call that has no stack space left.
pub const STACK_EXCEEDED_MESSAGE: &'static str = "Stack size exceeded.";

/// Enters a call with `available_stack` units of stack space left: the call uses one, and
/// it may go on only if some are left after that. Returns the space left and whether the
/// call may go on; a call that may not is reported with `STACK_EXCEEDED_MESSAGE`.
pub fn enter_call(available_stack: i64) -> (r: (i64, bool))
    requires
        available_stack > i64::MIN,
    ensures
        r.0 == available_stack - 1,
        r.1 == (available_stack - 1 > 0),
{
    let left = available_stack - 1;
    (left, left > 0)
}

/// Leaves a call that went on: its unit of stack space is given back.
pub fn leave_call(available_stack: i64) -> (r: i64)
    requires
        available_stack < i64::MAX,
    ensures
        r == available_stack + 1,
{
    available_stack + 1
}

/// Whether a callable that takes `arity` arguments can be called with `count` of them.
pub fn arity_matches(arity: usize, count: usize) -> (b: bool)
    ensures
        b == (arity == count),
{
    arity == count
}

/// The message for a call of `name`, which takes `arity` arguments, with `count` of them
/// (see `wrong_arity_text`).
pub fn wrong_arity_message(name: &str, arity: usize, count: usize) -> (s: String)
    ensures
        s@ == wrong_arity_text(name@, arity as nat, count as nat),
{
    let mut s = owned("Wrong number of arguments in function call '");
    push_str(&mut s, name);
    push_str(&mut s, "' - Expected: ");
    push_decimal(&mut s, arity as u64);
    push_str(&mut s, ", got: ");
    push_decimal(&mut s, count as u64);
    push_str(&mut s, " instead");
    assert(s@ =~= wrong_arity_text(name@, arity as nat, count as nat));
    s
}

/// The fuel an interpreter starts with: each loop iteration spends one unit.
pub const INITIAL_FUEL: i64 = 1000;

/// The stack space an interpreter starts with: each call uses one unit.
pub const INITIAL_STACK: i64 = 20;

/// The message for running out of fuel.
pub const OUT_OF_FUEL_MESSAGE: &'static str = "Out of fuel! Execution took to many loops/function calls.";

/// Spends one unit of `fuel`: returns what is left and whether execution may go on; it
/// may not once none is left, and is then reported with `OUT_OF_FUEL_MESSAGE`.
pub fn spend_fuel(fuel: i64) -> (r: (i64, bool))
    requires
        fuel > i64::MIN,
    ensures
        r.0 == fuel - 1,
        r.1 == (fuel - 1 > 0),
{
    let left = fuel - 1;
    (left, left > 0)
}

/// What a `while` loop does after evaluating its condition.
pub enum LoopStep {
    /// The condition held: run the body, spend fuel and test again.
    Continue,
    /// The condition did not hold: the loop ends with the unit value.
    Stop,
    /// The condition was no boolean: the loop is reported as an error.
    NotABool,
}

/// The step of a `while` loop whose condition evaluated to `condition`: `Some(b)` for the
/// boolean `b`, `None` for any other value.
pub fn loop_step(condition: Option<bool>) -> (s: LoopStep)
    ensures
        s == match condition {
            Some(true) => LoopStep::Continue,
            Some(false) => LoopStep::Stop,
            None => LoopStep::NotABool,
        },
{
    match condition {
        Some(true) => LoopStep::Continue,
        Some(false) => LoopStep::Stop,
        None => LoopStep::NotABool,
    }
}

/// The message for a loop condition that is no boolean, shown as `shown`.
pub open spec fn not_a_bool_text(shown: Seq<char>) -> Seq<char> {
    "Expected true or false in loop condition, but found '"@ + shown + "' instead"@
}

/// The message for a loop condition that is no boolean, shown as `shown` (see
/// `not_a_bool_text`).
pub fn not_a_bool_message(shown: &str) -> (s: String)
    ensures
        s@ == not_a_bool_text(shown@),
{
    let mut s = owned("Expected true or false in loop condition, but found '");
    push_str(&mut s, shown);
    push_str(&mut s, "' instead");
    assert(s@ =~= not_a_bool_text(shown@));
    s
}

} // verus!
