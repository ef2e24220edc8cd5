//! Combinators on raw bytes.

use vstd::prelude::*;

use crate::ascii::{is_digit, DIGIT_0, DIGIT_9};
use crate::combinator::{in_range, takes_first_where};
use crate::input::Input;
use crate::pass::{Pass, PassInput, PassResult};

verus! {

/// Consumes a byte if it is an ASCII decimal digit `[0-9]`.
pub fn ascii_digit<'p, P>(pass: P) -> (result: PassResult<'p, P, u8>) where
    P: Pass<'p>,
    PassInput<'p, P>: Input<'p, Token = u8>,

    ensures
        takes_first_where(|byte: u8| is_digit(byte), pass, result),
{
    in_range(DIGIT_0, DIGIT_9)(pass)
}

} // verus!
