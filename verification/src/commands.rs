//! Interface to the EVE graphics coprocessor: the types that its commands
//! take as arguments, the encoding of data into command words, and the
//! waiting for space in its command buffer.

pub mod command_word;
pub mod options;
pub mod waiter;

pub use crate::strfmt;
