use super::{Context, ContextToken};
use crate::input;
use std::fmt::Debug;
use vstd::prelude::*;

verus! {

/// The error type of a pass: made from an input error and the context in
/// which it occurred.
pub trait Error<'i>: Sized + Debug + 'i {
    type Context: Context<'i>;

    type InputError: input::Error<'i, Token = ContextToken<'i, Self::Context>>;

    /// The pass error that stands for `err` in `ctx`.
    spec fn spec_from_input_error(ctx: &Self::Context, err: Self::InputError) -> Self;

    /// Creates a pass error from an input error.
    fn from_input_error(ctx: &Self::Context, err: Self::InputError) -> (error: Self)
        ensures
            error == Self::spec_from_input_error(ctx, err),
    ;
}

/// A pass error that keeps the input error as it came. Its view is that
/// input error.
#[derive(Clone, Debug, PartialEq)]
pub struct VerboseError<'i, C> where C: Context<'i> {
    input: input::ErrorReason<'i, ContextToken<'i, C>>,
}

impl<'i, C> View for VerboseError<'i, C> where C: Context<'i> {
    type V = input::ErrorReason<'i, ContextToken<'i, C>>;

    closed spec fn view(&self) -> Self::V {
        self.input
    }
}

impl<'i, C> VerboseError<'i, C> where C: Context<'i> {
    /// The input error that the pass error was made from.
    pub fn input_error(&self) -> (err: &input::ErrorReason<'i, ContextToken<'i, C>>)
        ensures
            *err == self@,
    {
        &self.input
    }

    /// The verbose error that stands for `err` is `err` itself, whatever the
    /// context.
    pub proof fn lemma_keeps_input_error(ctx: &C, err: input::ErrorReason<'i, ContextToken<'i, C>>)
        ensures
            (<Self as Error<'i>>::spec_from_input_error(ctx, err))@ == err,
    {
    }
}

impl<'i, C> Error<'i> for VerboseError<'i, C> where C: Context<'i> {
    type Context = C;

    type InputError = input::ErrorReason<'i, ContextToken<'i, C>>;

    closed spec fn spec_from_input_error(ctx: &C, err: Self::InputError) -> Self {
        VerboseError { input: err }
    }

    fn from_input_error(_ctx: &C, err: Self::InputError) -> (error: Self)
        ensures
            error@ == err,
    {
        VerboseError { input: err }
    }
}

} // verus!
