//! Verified core of a command-line front end for a shared network session:
//! the command-line grammar, the actor that serializes every operation on the
//! session, and the protocols by which the front end drains each reply channel.

pub mod actor;
pub mod command;
pub mod driver;
pub mod text;
