//! The small rules of the other pages: the counter that moves in steps, the
//! text that turns its box blue, and the switch that a button flips.

use vstd::prelude::*;

verus! {

/// How far one press of a button moves the counter.
pub const STEP: i32 = 5;

/// The counter after a press of the plus button, where it stays within
/// range.
pub open spec fn raised(value: i32) -> Option<i32> {
    if value + STEP <= i32::MAX {
        Some((value + STEP) as i32)
    } else {
        None
    }
}

/// The counter after a press of the minus button, where it stays within
/// range.
pub open spec fn lowered(value: i32) -> Option<i32> {
    if value - STEP >= i32::MIN {
        Some((value - STEP) as i32)
    } else {
        None
    }
}

/// Whether a text turns its box blue: it does when it is the word `blue`
/// and nothing else.
pub open spec fn is_blue(text: Seq<char>) -> bool {
    text == "blue"@
}

/// Moves the counter up by one step; `None` where that would leave the
/// range of the counter.
pub fn step_up(value: i32) -> (r: Option<i32>)
    ensures
        r == raised(value),
{
    if value <= i32::MAX - STEP {
        Some(value + STEP)
    } else {
        None
    }
}

/// Moves the counter down by one step; `None` where that would leave the
/// range of the counter.
pub fn step_down(value: i32) -> (r: Option<i32>)
    ensures
        r == lowered(value),
{
    if value >= i32::MIN + STEP {
        Some(value - STEP)
    } else {
        None
    }
}

/// Tells whether `text` turns its box blue.
pub fn highlights(text: &str) -> (r: bool)
    ensures
        r == is_blue(text@),
{
    text.to_owned() == String::from_str("blue")
}

/// The switch after a press of its button.
pub fn toggled(on: bool) -> (r: bool)
    ensures
        r == !on,
{
    !on
}

} // verus!
