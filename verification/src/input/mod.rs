//! Tokens, inputs over them, and the failures that splitting an input can give.

mod capture;
mod error;
mod mark;
mod slice;
mod slice_iter;
mod token;

use std::fmt::Debug;
use vstd::prelude::*;

pub use self::capture::{BuildableCapture, Capture, CompleteCapture, StreamCapture};
pub use self::error::{Error, ErrorReason, ExpectedHint, Requirement, Unexpected};
pub use self::mark::{Mark, Span};
pub use self::slice::{SliceInput, SliceMarker};
pub use self::slice_iter::SliceIter;
pub use self::token::{
    bytes_of, lemma_bytes_of_len, zero_padded, BytesToken, IntoBytes, Token, TokenBytes, TokenTag,
};

verus! {

/// A read-only cursor over the tokens of an input.
///
/// A marker is derived from an input and scans ahead of it: advancing the
/// marker leaves the input as it was. The position it has reached can be taken
/// as a mark and handed to `split_mark` on the input it was derived from.
pub trait InputMarker: Sized {
    type Mark: Mark;

    type Token: Token;

    /// The tokens that the marker has passed.
    spec fn passed(&self) -> Seq<Self::Token>;

    /// The tokens that the marker has yet to pass.
    spec fn remaining(&self) -> Seq<Self::Token>;

    /// Passes the next token and returns it, or returns `None` at the end.
    fn next(&mut self) -> (token: Option<Self::Token>)
        ensures
            old(self).remaining().len() == 0 ==> token is None && *final(self) == *old(self),
            old(self).remaining().len() > 0 ==> {
                &&& token == Some(old(self).remaining()[0])
                &&& final(self).passed() == old(self).passed().push(old(self).remaining()[0])
                &&& final(self).remaining() == old(self).remaining().skip(1)
            },
    ;

    /// Passes `n` tokens if that many remain, and says whether it did.
    fn skip(&mut self, n: usize) -> (skipped: bool)
        ensures
            skipped == (n <= old(self).remaining().len()),
            skipped ==> {
                &&& final(self).passed() == old(self).passed() + old(self).remaining().take(n as int)
                &&& final(self).remaining() == old(self).remaining().skip(n as int)
            },
            !skipped ==> *final(self) == *old(self),
    ;

    /// Returns the next token without passing it.
    fn peek(&self) -> (token: Option<Self::Token>)
        ensures
            token == if self.remaining().len() > 0 {
                Some(self.remaining()[0])
            } else {
                None
            },
    ;

    /// Returns an independent copy of the marker, for scanning that can be
    /// given up without moving this marker.
    fn child(&self) -> (child: Self)
        ensures
            child.passed() == self.passed(),
            child.remaining() == self.remaining(),
    ;

    /// Returns the position that the marker has reached.
    fn mark(&self) -> (mark: Self::Mark)
        ensures
            mark.offset() == self.passed().len(),
    ;
}

/// A stretch of input of known length, whose tokens can be read by position.
///
/// The view of a section is the sequence of its tokens.
pub trait ExactSizeInput: Sized + Debug + View<V = Seq<<Self as ExactSizeInput>::Token>> {
    /// The smallest unit of data the input provides.
    type Token: Token;

    /// Returns the length of the input.
    fn len(&self) -> (len: usize)
        ensures
            len == self@.len(),
    ;

    /// Returns the token at position `idx`.
    fn token_at(&self, idx: usize) -> (token: Self::Token)
        requires
            idx < self@.len(),
        ensures
            token == self@[idx as int],
    ;
}

/// An immutable view over a sequence of tokens.
///
/// The only way to consume an input is to split it: each split takes the input
/// by value and hands back what was split off together with the remainder. The
/// view of an input is the sequence of the tokens that remain in it.
pub trait Input<'i>: Sized + Debug + View<V = Seq<<Self as Input<'i>>::Token>> {
    /// A position in the input.
    type Mark: Mark;

    /// The smallest unit of data the input provides.
    type Token: Token;

    /// A section, or sequence of tokens from the input.
    type Section: ExactSizeInput<Token = Self::Token>;

    /// A cursor for scanning ahead of the input.
    type Marker: InputMarker<Mark = Self::Mark, Token = Self::Token>;

    /// Returns whether or not the input is empty.
    fn is_empty(&self) -> (empty: bool)
        ensures
            empty == (self@.len() == 0),
    ;

    /// Splits the first token from the input.
    fn split_first<E>(self) -> (result: Result<(Self::Token, Self), E>) where
        E: Error<'i, Token = Self::Token>,

        ensures
            split_first_ensures(self@, result),
    ;

    /// Splits an input in two, from an exact size.
    fn split_at<E>(self, mid: usize) -> (result: Result<(Self::Section, Self), E>) where
        E: Error<'i, Token = Self::Token>,

        ensures
            split_at_ensures(self@, mid, result),
    ;

    /// Splits an input in two at a mark that a marker of this input gave.
    fn split_mark<E>(self, mark: Self::Mark) -> (result: Result<(Self::Section, Self), E>) where
        E: Error<'i, Token = Self::Token>,

        ensures
            split_at_ensures(self@, mark.offset(), result),
    ;

    /// Returns a marker at the start of the input.
    fn marker(&self) -> (marker: Self::Marker)
        ensures
            marker.passed() == Seq::<Self::Token>::empty(),
            marker.remaining() == self@,
    ;
}

/// What `split_first` returns for an input that holds `tokens`: the first
/// token and the rest, or a request for one token where there is none.
pub open spec fn split_first_ensures<'i, T, I, E>(tokens: Seq<T>, result: Result<(T, I), E>) -> bool where
    T: Token,
    I: View<V = Seq<T>>,
    E: Error<'i, Token = T>,
 {
    if tokens.len() > 0 {
        &&& result matches Ok((token, rest))
        &&& token == tokens[0]
        &&& rest@ == tokens.skip(1)
    } else {
        result == Err::<(T, I), E>(E::spec_incomplete(Requirement::Exact(1)))
    }
}

/// What `split_at` returns for an input that holds `tokens`: the first `mid`
/// tokens and the rest, or a request for as many tokens as are missing.
pub open spec fn split_at_ensures<'i, T, S, I, E>(
    tokens: Seq<T>,
    mid: usize,
    result: Result<(S, I), E>,
) -> bool where T: Token, S: View<V = Seq<T>>, I: View<V = Seq<T>>, E: Error<'i, Token = T> {
    if mid <= tokens.len() {
        &&& result matches Ok((section, rest))
        &&& section@ == tokens.take(mid as int)
        &&& rest@ == tokens.skip(mid as int)
    } else {
        result == Err::<(S, I), E>(
            E::spec_incomplete(Requirement::Exact((mid - tokens.len()) as usize)),
        )
    }
}

/// Split totality: a split at `mid` succeeds wherever the input holds `mid`
/// tokens, and the section followed by the remainder is the input.
pub proof fn lemma_split_at_total<'i, T, S, I, E>(
    tokens: Seq<T>,
    mid: usize,
    result: Result<(S, I), E>,
) where T: Token, S: View<V = Seq<T>>, I: View<V = Seq<T>>, E: Error<'i, Token = T>
    requires
        split_at_ensures(tokens, mid, result),
        mid <= tokens.len(),
    ensures
        result matches Ok((section, rest)) && section@.len() == mid && section@ + rest@ == tokens,
{
    assert(tokens.take(mid as int) + tokens.skip(mid as int) =~= tokens);
}

/// Split failure: a split at `mid` fails wherever the input holds fewer than
/// `mid` tokens, with a request for exactly as many tokens as are missing.
pub proof fn lemma_split_at_short<'i, T, S, I, E>(
    tokens: Seq<T>,
    mid: usize,
    result: Result<(S, I), E>,
) where T: Token, S: View<V = Seq<T>>, I: View<V = Seq<T>>, E: Error<'i, Token = T>
    requires
        split_at_ensures(tokens, mid, result),
        mid > tokens.len(),
    ensures
        result matches Err(error) && error == E::spec_incomplete(
            Requirement::Exact((mid - tokens.len()) as usize),
        ) && !error.spec_is_fatal(),
{
    E::incomplete_is_not_fatal(Requirement::Exact((mid - tokens.len()) as usize));
}

/// Helper to reference an Input's `Token` type.
pub type InputToken<'i, I> = <I as Input<'i>>::Token;

/// Helper to reference an Input's `Section` type.
pub type InputSection<'i, I> = <I as Input<'i>>::Section;

/// Helper to reference an Input's `Mark` type.
pub type InputMark<'i, I> = <I as Input<'i>>::Mark;

} // verus!
