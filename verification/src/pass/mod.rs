//! The pass: the one carrier of the current position, which is handed through
//! a chain of combinators by value.

mod basic;
mod error;
mod slice;

use std::fmt::Debug;
use vstd::prelude::*;

use crate::input::{self, Input, InputSection, InputToken, Requirement, Unexpected};

pub use self::basic::{BasicByteSlicePass, SilentError};
pub use self::error::{Error, VerboseError};
pub use self::slice::{SlicePass, SlicePassContext};

verus! {

/// The state that a pass holds: the input that is left.
pub trait Context<'i>: Sized + Debug + 'i {
    type Input: Input<'i>;

    /// The input that the context holds.
    spec fn spec_input(&self) -> Self::Input;

    /// Returns the input that the context holds. This is a cheap view, and
    /// leaves the context as it is.
    fn input(&self) -> (input: Self::Input)
        ensures
            input == self.spec_input(),
    ;
}

pub type ContextInput<'i, C> = <C as Context<'i>>::Input;

pub type ContextToken<'i, C> = InputToken<'i, ContextInput<'i, C>>;

/// A pass owns one context and is handed on by value: each combinator takes
/// the pass and returns it, beside a value or beside an error.
pub trait Pass<'i>: Sized + Debug + 'i {
    type Context: Context<'i>;

    type Error: Error<'i, Context = Self::Context>;

    /// The context that the pass holds.
    spec fn spec_context(&self) -> Self::Context;

    /// Returns the context that the pass holds.
    fn context(&self) -> (context: &Self::Context)
        ensures
            *context == self.spec_context(),
    ;

    /// Gives up the pass for its context.
    fn into_context(self) -> (context: Self::Context)
        ensures
            context == self.spec_context(),
    ;

    /// Commit the remaining input to be used, consuming the changes.
    fn commit(self, rest: PassInput<'i, Self>) -> (pass: Self)
        ensures
            pass.spec_context().spec_input() == rest,
    ;

    /// Get the input for this pass.
    fn input(&self) -> (input: PassInput<'i, Self>)
        ensures
            input == self.spec_context().spec_input(),
    {
        self.context().input()
    }

    /// Fails with `err`, and hands the pass back as it is.
    fn with_error<O>(self, err: PassError<'i, Self>) -> (result: PassResult<'i, Self, O>)
        ensures
            result == Err::<(O, Self), (PassError<'i, Self>, Self)>((err, self)),
    {
        Err((err, self))
    }

    /// With input result, mapping the error for a pass.
    fn with_input_result<O>(self, input_result: Result<O, PassInputError<'i, Self>>) -> (result:
        PassResult<'i, Self, O>)
        ensures
            result == match input_result {
                Ok(out) => Ok::<(O, Self), (PassError<'i, Self>, Self)>((out, self)),
                Err(err) => Err::<(O, Self), (PassError<'i, Self>, Self)>(
                    (PassError::<'i, Self>::spec_from_input_error(&self.spec_context(), err), self),
                ),
            },
    {
        match input_result {
            Ok(out) => Ok((out, self)),
            Err(err) => self.with_input_error(err),
        }
    }

    /// Create a pass error based on an input error.
    fn with_input_error<O>(self, err: PassInputError<'i, Self>) -> (result: PassResult<
        'i,
        Self,
        O,
    >)
        ensures
            result == Err::<(O, Self), (PassError<'i, Self>, Self)>(
                (PassError::<'i, Self>::spec_from_input_error(&self.spec_context(), err), self),
            ),
    {
        let err = <PassError<'i, Self> as Error<'i>>::from_input_error(self.context(), err);
        self.with_error(err)
    }

    /// Create a pass error based on an incomplete input error.
    fn with_input_error_incomplete<O>(self, requirement: Requirement) -> (result: PassResult<
        'i,
        Self,
        O,
    >)
        ensures
            result == Err::<(O, Self), (PassError<'i, Self>, Self)>(
                (
                    PassError::<'i, Self>::spec_from_input_error(
                        &self.spec_context(),
                        <PassInputError<'i, Self> as input::Error<'i>>::spec_incomplete(requirement),
                    ),
                    self,
                ),
            ),
    {
        self.with_input_error(
            <PassInputError<'i, Self> as input::Error<'i>>::incomplete(requirement),
        )
    }

    /// Create a pass error based on an unexpected input error.
    fn with_input_error_unexpected<O>(self, unexpected: Unexpected<'i, PassToken<'i, Self>>) -> (result:
        PassResult<'i, Self, O>)
        ensures
            result == Err::<(O, Self), (PassError<'i, Self>, Self)>(
                (
                    PassError::<'i, Self>::spec_from_input_error(
                        &self.spec_context(),
                        <PassInputError<'i, Self> as input::Error<'i>>::spec_unexpected(unexpected),
                    ),
                    self,
                ),
            ),
    {
        self.with_input_error(
            <PassInputError<'i, Self> as input::Error<'i>>::unexpected(unexpected),
        )
    }
}

pub type PassError<'p, P> = <P as Pass<'p>>::Error;

pub type PassContext<'p, P> = <P as Pass<'p>>::Context;

pub type PassInput<'p, P> = <PassContext<'p, P> as Context<'p>>::Input;

pub type PassToken<'p, P> = InputToken<'p, PassInput<'p, P>>;

pub type PassSection<'p, P> = InputSection<'p, PassInput<'p, P>>;

pub type PassResult<'p, P, O> = Result<(O, P), (PassError<'p, P>, P)>;

pub type PassInputError<'i, P> = <<P as Pass<'i>>::Error as Error<'i>>::InputError;

/// The input that `pass` holds.
pub open spec fn pass_input<'p, P: Pass<'p>>(pass: P) -> PassInput<'p, P> {
    pass.spec_context().spec_input()
}

/// The tokens that are left in the input of `pass`.
pub open spec fn pass_tokens<'p, P: Pass<'p>>(pass: P) -> Seq<PassToken<'p, P>> {
    pass_input(pass)@
}

/// The error that `pass` makes of the input error `err`.
pub open spec fn input_error<'p, P: Pass<'p>>(pass: P, err: PassInputError<'p, P>) -> PassError<
    'p,
    P,
> {
    PassError::<'p, P>::spec_from_input_error(&pass.spec_context(), err)
}

/// The error of `pass` that asks for `requirement` more input.
pub open spec fn incomplete_error<'p, P: Pass<'p>>(pass: P, requirement: Requirement) -> PassError<
    'p,
    P,
> {
    input_error(pass, <PassInputError<'p, P> as input::Error<'p>>::spec_incomplete(requirement))
}

/// The error of `pass` that reports `unexpected`.
pub open spec fn unexpected_error<'p, P: Pass<'p>>(
    pass: P,
    unexpected: Unexpected<'p, PassToken<'p, P>>,
) -> PassError<'p, P> {
    input_error(pass, <PassInputError<'p, P> as input::Error<'p>>::spec_unexpected(unexpected))
}

} // verus!
