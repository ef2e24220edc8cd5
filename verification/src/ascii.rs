//! Combinators that take one ASCII byte of a given class.

use vstd::prelude::*;

use crate::combinator::{
    fails_with, hint, in_range, or, rejected, take_token_if, takes_first_where,
};
use crate::input::{Input, Requirement};
use crate::pass::{incomplete_error, pass_tokens, Pass, PassInput, PassResult};

verus! {

/// The byte `0`.
pub const DIGIT_0: u8 = 0x30;

/// The byte `9`.
pub const DIGIT_9: u8 = 0x39;

/// The byte `A`.
pub const UPPER_A: u8 = 0x41;

/// The byte `F`.
pub const UPPER_F: u8 = 0x46;

/// The byte `Z`.
pub const UPPER_Z: u8 = 0x5a;

/// The byte `a`.
pub const LOWER_A: u8 = 0x61;

/// The byte `f`.
pub const LOWER_F: u8 = 0x66;

/// The byte `z`.
pub const LOWER_Z: u8 = 0x7a;

/// `byte` is an ASCII lowercase character `[a-z]`.
pub open spec fn is_lowercase(byte: u8) -> bool {
    LOWER_A <= byte <= LOWER_Z
}

/// `byte` is an ASCII uppercase character `[A-Z]`.
pub open spec fn is_uppercase(byte: u8) -> bool {
    UPPER_A <= byte <= UPPER_Z
}

/// `byte` is an ASCII alphabetic character `[a-zA-Z]`.
pub open spec fn is_alphabetic(byte: u8) -> bool {
    is_lowercase(byte) || is_uppercase(byte)
}

/// `byte` is an ASCII decimal digit `[0-9]`.
pub open spec fn is_digit(byte: u8) -> bool {
    DIGIT_0 <= byte <= DIGIT_9
}

/// `byte` is an ASCII hexadecimal digit `[0-9A-Fa-f]`.
pub open spec fn is_hexdigit(byte: u8) -> bool {
    is_digit(byte) || UPPER_A <= byte <= UPPER_F || LOWER_A <= byte <= LOWER_F
}

/// `byte` is an ASCII alphanumeric character `[a-zA-Z0-9]`.
pub open spec fn is_alphanumeric(byte: u8) -> bool {
    is_alphabetic(byte) || is_digit(byte)
}

/// Decides `is_lowercase`.
fn lowercase(byte: &u8) -> (holds: bool)
    ensures
        holds == is_lowercase(*byte),
{
    LOWER_A <= *byte && *byte <= LOWER_Z
}

/// Decides `is_uppercase`.
fn uppercase(byte: &u8) -> (holds: bool)
    ensures
        holds == is_uppercase(*byte),
{
    UPPER_A <= *byte && *byte <= UPPER_Z
}

/// Decides `is_alphabetic`.
fn alphabetic(byte: &u8) -> (holds: bool)
    ensures
        holds == is_alphabetic(*byte),
{
    lowercase(byte) || uppercase(byte)
}

/// Decides `is_digit`.
fn digit(byte: &u8) -> (holds: bool)
    ensures
        holds == is_digit(*byte),
{
    DIGIT_0 <= *byte && *byte <= DIGIT_9
}

/// Decides `is_hexdigit`.
fn hexdigit(byte: &u8) -> (holds: bool)
    ensures
        holds == is_hexdigit(*byte),
{
    digit(byte) || (UPPER_A <= *byte && *byte <= UPPER_F) || (LOWER_A <= *byte && *byte <= LOWER_F)
}

/// Decides `is_alphanumeric`.
fn alphanumeric(byte: &u8) -> (holds: bool)
    ensures
        holds == is_alphanumeric(*byte),
{
    alphabetic(byte) || digit(byte)
}

/// Consumes a byte if it is an ASCII lowercase character `[a-z]`.
pub fn ascii_lowercase<'p, P>(pass: P) -> (result: PassResult<'p, P, u8>) where
    P: Pass<'p>,
    PassInput<'p, P>: Input<'p, Token = u8>,

    ensures
        takes_first_where(|byte: u8| is_lowercase(byte), pass, result),
{
    hint(take_token_if(lowercase), "valid ascii lowercase")(pass)
}

/// Consumes a byte if it is an ASCII uppercase character `[A-Z]`.
pub fn ascii_uppercase<'p, P>(pass: P) -> (result: PassResult<'p, P, u8>) where
    P: Pass<'p>,
    PassInput<'p, P>: Input<'p, Token = u8>,

    ensures
        takes_first_where(|byte: u8| is_uppercase(byte), pass, result),
{
    hint(take_token_if(uppercase), "valid ascii uppercase")(pass)
}

/// Consumes a byte if it is an ASCII alphabetic character `[a-zA-Z]`.
pub fn ascii_alphabetic<'p, P>(pass: P) -> (result: PassResult<'p, P, u8>) where
    P: Pass<'p>,
    PassInput<'p, P>: Input<'p, Token = u8>,

    ensures
        takes_first_where(|byte: u8| is_alphabetic(byte), pass, result),
{
    hint(take_token_if(alphabetic), "valid ascii alphabetic")(pass)
}

/// Consumes a byte if it is an ASCII decimal digit `[0-9]`.
pub fn ascii_digit<'p, P>(pass: P) -> (result: PassResult<'p, P, u8>) where
    P: Pass<'p>,
    PassInput<'p, P>: Input<'p, Token = u8>,

    ensures
        takes_first_where(|byte: u8| is_digit(byte), pass, result),
{
    hint(take_token_if(digit), "valid ascii decimal digit")(pass)
}

/// Consumes a byte if it is an ASCII hexadecimal digit `[0-9A-Fa-f]`.
pub fn ascii_hexdigit<'p, P>(pass: P) -> (result: PassResult<'p, P, u8>) where
    P: Pass<'p>,
    PassInput<'p, P>: Input<'p, Token = u8>,

    ensures
        takes_first_where(|byte: u8| is_hexdigit(byte), pass, result),
{
    hint(take_token_if(hexdigit), "valid ascii hex digit")(pass)
}

/// Consumes a byte if it is an ASCII alphanumeric character `[a-zA-Z0-9]`.
pub fn ascii_alphanumeric<'p, P>(pass: P) -> (result: PassResult<'p, P, u8>) where
    P: Pass<'p>,
    PassInput<'p, P>: Input<'p, Token = u8>,

    ensures
        takes_first_where(|byte: u8| is_alphanumeric(byte), pass, result),
{
    hint(take_token_if(alphanumeric), "valid ascii alphanumeric")(pass)
}

/// What `parse_ascii_digit` returns on `pass`: the value of the first byte as
/// a decimal digit where it is one, leaving the bytes behind it; a request for
/// one byte where the input is empty; and else the byte as unexpected.
pub open spec fn parses_digit<'p, P>(pass: P, result: PassResult<'p, P, u8>) -> bool where
    P: Pass<'p>,
    PassInput<'p, P>: Input<'p, Token = u8>,
 {
    let bytes = pass_tokens(pass);
    if bytes.len() == 0 {
        fails_with(result, pass, incomplete_error(pass, Requirement::Exact(1)))
    } else if is_digit(bytes[0]) {
        &&& result matches Ok((value, rest))
        &&& value == bytes[0] - DIGIT_0
        &&& pass_tokens(rest) == bytes.skip(1)
    } else {
        fails_with(result, pass, rejected(pass, bytes[0]))
    }
}

/// Parses an ASCII decimal digit.
pub fn parse_ascii_digit<'p, P>(pass: P) -> (result: PassResult<'p, P, u8>) where
    P: Pass<'p>,
    PassInput<'p, P>: Input<'p, Token = u8>,

    ensures
        parses_digit(pass, result),
{
    let value = |byte: u8| -> (value: u8)
        requires
            is_digit(byte),
        ensures
            value == byte - DIGIT_0,
        { byte - DIGIT_0 };
    crate::combinator::map(ascii_digit, value)(pass)
}

/// Consumes a byte if it lies in the range of the ASCII lowercase characters
/// `[a-z]`.
pub fn ascii_alpha_lower<'p, P>(pass: P) -> (result: PassResult<'p, P, u8>) where
    P: Pass<'p>,
    PassInput<'p, P>: Input<'p, Token = u8>,

    ensures
        takes_first_where(|byte: u8| is_lowercase(byte), pass, result),
{
    hint(in_range(LOWER_A, LOWER_Z), "valid ascii alpha lower")(pass)
}

/// Consumes a byte if it lies in the range of the ASCII uppercase characters
/// `[A-Z]`.
pub fn ascii_alpha_upper<'p, P>(pass: P) -> (result: PassResult<'p, P, u8>) where
    P: Pass<'p>,
    PassInput<'p, P>: Input<'p, Token = u8>,

    ensures
        takes_first_where(|byte: u8| is_uppercase(byte), pass, result),
{
    hint(in_range(UPPER_A, UPPER_Z), "valid ascii alpha upper")(pass)
}

/// Consumes a byte if it is an ASCII lowercase or an ASCII uppercase character.
pub fn ascii_alpha<'p, P>(pass: P) -> (result: PassResult<'p, P, u8>) where
    P: Pass<'p>,
    PassInput<'p, P>: Input<'p, Token = u8>,

    ensures
        takes_first_where(|byte: u8| is_alphabetic(byte), pass, result),
{
    hint(or(ascii_alpha_lower, ascii_alpha_upper), "valid ascii alpha")(pass)
}

/// Consumes a byte if it is an ASCII alphabetic character or an ASCII decimal
/// digit.
pub fn ascii_alphanum<'p, P>(pass: P) -> (result: PassResult<'p, P, u8>) where
    P: Pass<'p>,
    PassInput<'p, P>: Input<'p, Token = u8>,

    ensures
        takes_first_where(|byte: u8| is_alphanumeric(byte), pass, result),
{
    hint(or(ascii_alpha, ascii_digit), "valid ascii alphanum")(pass)
}

} // verus!
