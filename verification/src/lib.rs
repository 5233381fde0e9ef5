//! What the pages of a small site decide, apart from how they are drawn.
//!
//! The list page loads figures from a remote JSON API and shows one line
//! per figure. Here is which address it asks, whether an answer counts as a
//! success, how the body is decoded into records, which state the result
//! slot ends in, and which lines are shown. The date page says of a chosen
//! day whether it is a weekend.
//!
//! Mounting views, listening to events and talking to the network are left
//! to the program around this crate.

pub mod calendar;
pub mod controls;
pub mod decimal;
pub mod decode;
pub mod guarantees;
pub mod json;
pub mod loader;
pub mod present;
pub mod record;
