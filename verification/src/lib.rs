//! A command-line number-guessing game, with its decisions verified.
//!
//! The secret is an integer in `1 ..= 100`. Each turn, a line of input is
//! parsed as a signed decimal integer ([`parse`]), validated into the
//! playing range ([`guess`]), and compared against the secret ([`game`]);
//! an equal guess wins and ends the game. The binary around this library
//! only reads lines and prints the reports computed here.

pub mod game;
pub mod guess;
pub mod parse;
