//! A cell that holds exactly one value and hands it out by move.
//!
//! [`MoveCell`] owns a single value of any type, duplicable or not. The value
//! is read by taking it out and putting a value back: [`MoveCell::replace`]
//! swaps in a new one, [`MoveCell::take`] leaves the type's default behind as
//! a placeholder, and [`MoveCell::borrow`] moves the value into a [`Borrow`]
//! guard that gives it back when it is torn down.
//!
//! Every operation that changes the slot takes the cell by `&mut`, so the
//! borrow checker rules out overlapping access to one cell, and each contract
//! states the slot's contents before and after the call.
pub mod cell;
pub mod laws;
pub mod text;

pub use cell::is_placeholder;
pub use cell::Borrow;
pub use cell::MoveCell;
