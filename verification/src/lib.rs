//! A parser-combinator engine over arbitrary token streams.
//!
//! Input is consumed by splitting, never by copying, and every failure carries
//! the pass at the position where it occurred. Every combinator states what it
//! returns and what it leaves of the input in its contract.
//!
//! The layers, from the bottom:
//!
//! - [`input`]: tokens, inputs over them, markers that scan ahead of an input,
//!   and the errors of splitting. The view of an input is the sequence of the
//!   tokens that are left in it, and every split is stated over that sequence.
//! - [`pass`]: the context that holds the input, and the pass that is threaded
//!   by value through a chain of combinators.
//! - [`combinator`]: the primitives that split the input of a pass, and the
//!   combinators that compose them. A combinator is a function from a pass to
//!   a value and a pass, or to an error and a pass; its contract says of the
//!   function that it returns when it can be called and what it returns.
//! - [`ascii`] and [`byte`]: the ASCII character classes, built from the
//!   combinators alone.

pub mod ascii;
pub mod byte;
pub mod combinator;
pub mod input;
pub mod pass;
