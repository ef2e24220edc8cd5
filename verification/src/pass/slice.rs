use std::marker::PhantomData;
use vstd::prelude::*;
use vstd::std_specs::convert::FromSpecImpl;

use super::{Context, Error, Pass};
use crate::input::{SliceInput, Token};

verus! {

/// The context of a pass over a slice: holds the slice input that is left.
#[derive(Debug, PartialEq)]
pub struct SlicePassContext<'i, T> where T: Token {
    input: SliceInput<'i, T>,
}

impl<'i, T> Clone for SlicePassContext<'i, T> where T: Token {
    fn clone(&self) -> (context: Self)
        ensures
            context == *self,
    {
        Self { input: self.input }
    }
}

impl<'i, T> Context<'i> for SlicePassContext<'i, T> where T: Token {
    type Input = SliceInput<'i, T>;

    closed spec fn spec_input(&self) -> SliceInput<'i, T> {
        self.input
    }

    fn input(&self) -> (input: SliceInput<'i, T>) {
        self.input
    }
}

/// A pass over a slice of tokens, with errors of type `E`.
#[derive(Debug, PartialEq)]
pub struct SlicePass<'i, T, E> where T: Token, E: Error<'i> {
    ctx: SlicePassContext<'i, T>,
    _err: PhantomData<E>,
}

impl<'i, T, E> Clone for SlicePass<'i, T, E> where T: Token, E: Error<'i> {
    fn clone(&self) -> (pass: Self)
        ensures
            pass == *self,
    {
        Self { ctx: self.ctx.clone(), _err: PhantomData::<E> }
    }
}

impl<'i, T, E> Pass<'i> for SlicePass<'i, T, E> where
    T: Token,
    E: Error<'i, Context = SlicePassContext<'i, T>>,
 {
    type Error = E;

    type Context = SlicePassContext<'i, T>;

    closed spec fn spec_context(&self) -> SlicePassContext<'i, T> {
        self.ctx
    }

    fn context(&self) -> (context: &SlicePassContext<'i, T>) {
        &self.ctx
    }

    fn into_context(self) -> (context: SlicePassContext<'i, T>) {
        self.ctx
    }

    fn commit(self, rest: SliceInput<'i, T>) -> (pass: Self) {
        let mut pass = self;
        pass.ctx.input = rest;
        pass
    }
}

impl<'i, T, E> SlicePass<'i, T, E> where
    T: Token,
    E: Error<'i, Context = SlicePassContext<'i, T>>,
 {
    /// A slice pass holds its input and nothing else: two passes with the same
    /// input are the same pass.
    pub proof fn lemma_input_determines(self, other: Self)
        requires
            self.spec_context().spec_input() == other.spec_context().spec_input(),
        ensures
            self == other,
    {
    }
}

impl<'i, T, E> FromSpecImpl<&'i [T]> for SlicePass<'i, T, E> where
    T: Token,
    E: Error<'i, Context = SlicePassContext<'i, T>>,
 {
    open spec fn obeys_from_spec() -> bool {
        true
    }

    closed spec fn from_spec(slice: &'i [T]) -> Self {
        SlicePass { ctx: SlicePassContext { input: SliceInput(slice) }, _err: PhantomData }
    }
}

impl<'i, T, E> From<&'i [T]> for SlicePass<'i, T, E> where
    T: Token,
    E: Error<'i, Context = SlicePassContext<'i, T>>,
 {
    fn from(slice: &'i [T]) -> (pass: Self)
        ensures
            pass.spec_context().spec_input() == SliceInput(slice),
    {
        Self { ctx: SlicePassContext { input: SliceInput(slice) }, _err: PhantomData::<E> }
    }
}

} // verus!
