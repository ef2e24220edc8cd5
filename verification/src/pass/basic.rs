use vstd::prelude::*;

use super::{Context, Error, Pass};
use crate::input::{self, Requirement, SliceInput, Unexpected};

verus! {

/// An error that keeps nothing of its cause but whether it is fatal.
#[derive(Debug, PartialEq)]
pub struct SilentError {
    fatal: bool,
}

impl<'a> input::Error<'a> for SilentError {
    type Token = u8;

    closed spec fn spec_is_fatal(&self) -> bool {
        self.fatal
    }

    closed spec fn spec_unexpected(unexpected: Unexpected<'a, u8>) -> Self {
        SilentError { fatal: true }
    }

    closed spec fn spec_incomplete(requirement: Requirement) -> Self {
        SilentError { fatal: false }
    }

    proof fn unexpected_is_fatal(unexpected: Unexpected<'a, u8>) {
    }

    proof fn incomplete_is_not_fatal(requirement: Requirement) {
    }

    fn is_fatal(&self) -> (fatal: bool) {
        self.fatal
    }

    fn unexpected(_unexpected: Unexpected<'a, u8>) -> (error: Self) {
        SilentError { fatal: true }
    }

    fn incomplete(_requirement: Requirement) -> (error: Self) {
        SilentError { fatal: false }
    }
}

impl<'a> Error<'a> for SilentError {
    type Context = BasicByteSlicePass<'a>;

    type InputError = SilentError;

    open spec fn spec_from_input_error(ctx: &BasicByteSlicePass<'a>, err: SilentError) -> Self {
        err
    }

    fn from_input_error(_ctx: &BasicByteSlicePass<'a>, err: SilentError) -> (error: Self) {
        err
    }
}

/// A pass over a slice of bytes that is its own context and reports silent
/// errors.
#[derive(Debug, PartialEq)]
pub struct BasicByteSlicePass<'a> {
    pub input: SliceInput<'a, u8>,
}

impl<'a> Context<'a> for BasicByteSlicePass<'a> {
    type Input = SliceInput<'a, u8>;

    open spec fn spec_input(&self) -> SliceInput<'a, u8> {
        self.input
    }

    fn input(&self) -> (input: SliceInput<'a, u8>) {
        self.input
    }
}

impl<'a> Pass<'a> for BasicByteSlicePass<'a> {
    type Context = Self;

    type Error = SilentError;

    open spec fn spec_context(&self) -> Self {
        *self
    }

    fn context(&self) -> (context: &Self) {
        self
    }

    fn into_context(self) -> (context: Self) {
        self
    }

    fn commit(self, rest: SliceInput<'a, u8>) -> (pass: Self) {
        Self { input: rest }
    }
}

} // verus!
