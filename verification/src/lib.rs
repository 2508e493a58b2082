//! A dictionary for the terminal with a box of cards for the words to learn:
//! the rules behind the screen.
//!
//! The cards are reviewed by spaced repetition in five Leitner boxes.
//! [`schedule`] holds the rule that moves a card between the boxes, [`leitner`]
//! the collection of cards in memory, [`date`] the calendar they are scheduled
//! on and [`label`] what is shown of a card's box and date.
//!
//! Nothing here reads or writes a store, a terminal or a file. The collection
//! says which record of the store to read and what to write, and takes a
//! change over once the caller reports that the store has made it. In the same
//! way [`keys`] turns a key press into a command for the caller to carry
//! out, and [`cursor`], [`screen`], [`input`] and [`text`] work out positions,
//! scroll offsets and texts from plain values.

pub mod cursor;
pub mod date;
pub mod input;
pub mod keys;
pub mod label;
pub mod leitner;
pub mod schedule;
pub mod screen;
pub mod text;
