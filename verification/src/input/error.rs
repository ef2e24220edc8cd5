use super::token::{Token, TokenTag};
use std::fmt::Debug;
use vstd::prelude::*;

verus! {

/// What an input reports when it cannot be split as asked.
///
/// An error is either incomplete, which more input might resolve, or
/// unexpected, which no further input can mend. `is_fatal` tells the two apart.
pub trait Error<'a>: Debug + PartialEq + Sized {
    type Token: Token;

    /// Whether the error is fatal.
    spec fn spec_is_fatal(&self) -> bool;

    /// The error that reports `unexpected`.
    spec fn spec_unexpected(unexpected: Unexpected<'a, Self::Token>) -> Self;

    /// The error that asks for `requirement` more input.
    spec fn spec_incomplete(requirement: Requirement) -> Self;

    /// An unexpected error is always fatal: no further input can mend a token
    /// that was already read.
    proof fn unexpected_is_fatal(unexpected: Unexpected<'a, Self::Token>)
        ensures
            Self::spec_unexpected(unexpected).spec_is_fatal(),
    ;

    /// An incomplete error is never fatal: more input may resolve it.
    proof fn incomplete_is_not_fatal(requirement: Requirement)
        ensures
            !Self::spec_incomplete(requirement).spec_is_fatal(),
    ;

    /// If the error is fatal, we won't be able to try again.
    fn is_fatal(&self) -> (fatal: bool)
        ensures
            fatal == self.spec_is_fatal(),
    ;

    /// If the error is completable, more input may resolve it.
    fn is_completable(&self) -> (completable: bool)
        ensures
            completable == !self.spec_is_fatal(),
    {
        !self.is_fatal()
    }

    /// Creates a new unexpected error with details.
    fn unexpected(unexpected: Unexpected<'a, Self::Token>) -> (error: Self)
        ensures
            error == Self::spec_unexpected(unexpected),
    ;

    /// Creates a new incomplete error with a requirement.
    fn incomplete(requirement: Requirement) -> (error: Self)
        ensures
            error == Self::spec_incomplete(requirement),
    ;
}

/// The plain record of why an input could not be split.
#[derive(Clone, Debug, PartialEq)]
pub enum ErrorReason<'a, T: Token> {
    Incomplete(Requirement),
    Unexpected(Unexpected<'a, T>),
}

impl<'a, T: Token> ErrorReason<'a, T> {
    /// Whether the error is fatal: an unexpected error is, an incomplete one
    /// is not.
    pub fn is_fatal(&self) -> (fatal: bool)
        ensures
            fatal == (*self is Unexpected),
    {
        match self {
            ErrorReason::Incomplete(_) => false,
            _ => true,
        }
    }
}

impl<'a, T> Error<'a> for ErrorReason<'a, T> where T: Token {
    type Token = T;

    open spec fn spec_is_fatal(&self) -> bool {
        *self is Unexpected
    }

    open spec fn spec_unexpected(unexpected: Unexpected<'a, T>) -> Self {
        ErrorReason::Unexpected(unexpected)
    }

    open spec fn spec_incomplete(requirement: Requirement) -> Self {
        ErrorReason::Incomplete(requirement)
    }

    proof fn unexpected_is_fatal(unexpected: Unexpected<'a, T>) {
    }

    proof fn incomplete_is_not_fatal(requirement: Requirement) {
    }

    fn is_fatal(&self) -> (fatal: bool) {
        self.is_fatal()
    }

    fn unexpected(unexpected: Unexpected<'a, T>) -> (error: Self) {
        ErrorReason::Unexpected(unexpected)
    }

    fn incomplete(requirement: Requirement) -> (error: Self) {
        ErrorReason::Incomplete(requirement)
    }
}

/// What was found in the input, and what would have been accepted in its place.
#[derive(Clone, Debug, PartialEq)]
pub struct Unexpected<'a, T: Token> {
    pub unexpected: TokenTag<'a, T>,
    pub expecting: ExpectedHint<'a, T>,
}

/// A hint at what a combinator would have accepted.
#[derive(Clone, Debug, PartialEq)]
pub enum ExpectedHint<'a, T: Token> {
    Nothing,
    Token(T),
    Tag(&'a [T]),
    Description(&'a str),
    OneOf(&'a [ExpectedHint<'a, T>]),
}

/// How much more input would resolve an incomplete error.
#[derive(Clone, Debug, PartialEq)]
pub enum Requirement {
    Exact(usize),
    Between(usize, usize),
    Unknown,
}

} // verus!
