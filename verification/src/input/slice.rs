use std::ops::Index;
use vstd::prelude::*;
use vstd::slice::slice_subrange;
use vstd::std_specs::convert::FromSpecImpl;

use super::{Error, ExactSizeInput, Input, InputMarker, Requirement, Token};

verus! {

/// An input over a borrowed slice of tokens. Splitting it gives two views into
/// the same slice.
#[derive(Copy, Clone, Debug, PartialEq)]
pub struct SliceInput<'i, T: Token>(pub &'i [T]);

impl<'i, T> View for SliceInput<'i, T> where T: Token {
    type V = Seq<T>;

    open spec fn view(&self) -> Seq<T> {
        self.0@
    }
}

impl<'i, T: 'i> SliceInput<'i, T> where T: Token {
    /// An input that holds no token.
    pub fn empty() -> (input: Self)
        ensures
            input@ == Seq::<T>::empty(),
    {
        let input = Self(&[]);
        assert(input@ =~= Seq::<T>::empty());
        input
    }

    /// The slice that the input views.
    pub fn as_slice(&self) -> (slice: &'i [T])
        ensures
            slice@ == self@,
    {
        self.0
    }
}

impl<'i, T> FromSpecImpl<&'i [T]> for SliceInput<'i, T> where T: Token {
    open spec fn obeys_from_spec() -> bool {
        true
    }

    open spec fn from_spec(slice: &'i [T]) -> Self {
        SliceInput(slice)
    }
}

impl<'i, T> From<&'i [T]> for SliceInput<'i, T> where T: Token {
    fn from(slice: &'i [T]) -> (input: Self) {
        Self(slice)
    }
}

impl<'i, T> vstd::std_specs::core::IndexSpecImpl<usize> for SliceInput<'i, T> where T: Token {
    open spec fn index_req(&self, idx: &usize) -> bool {
        *idx < self@.len()
    }
}

impl<'i, T> Index<usize> for SliceInput<'i, T> where T: Token {
    type Output = T;

    fn index(&self, idx: usize) -> (token: &T)
        ensures
            *token == self@[idx as int],
    {
        &self.0[idx]
    }
}

impl<'i, T> ExactSizeInput for SliceInput<'i, T> where T: Token {
    type Token = T;

    fn len(&self) -> (len: usize) {
        self.0.len()
    }

    fn token_at(&self, idx: usize) -> (token: T) {
        self.0[idx]
    }
}

impl<'i, T> Input<'i> for SliceInput<'i, T> where T: Token {
    type Mark = usize;

    type Token = T;

    type Section = Self;

    type Marker = SliceMarker<'i, T>;

    fn is_empty(&self) -> (empty: bool) {
        self.0.len() == 0
    }

    fn split_first<E>(self) -> (result: Result<(T, Self), E>) where E: Error<'i, Token = T> {
        if self.0.len() == 0 {
            Err(E::incomplete(Requirement::Exact(1)))
        } else {
            let rest = slice_subrange(self.0, 1, self.0.len());
            Ok((self.0[0], Self(rest)))
        }
    }

    fn split_at<E>(self, mid: usize) -> (result: Result<(Self, Self), E>) where
        E: Error<'i, Token = T>,
     {
        if mid > self.0.len() {
            Err(E::incomplete(Requirement::Exact(mid - self.0.len())))
        } else {
            let consumed = slice_subrange(self.0, 0, mid);
            let rest = slice_subrange(self.0, mid, self.0.len());
            Ok((Self(consumed), Self(rest)))
        }
    }

    fn split_mark<E>(self, mark: usize) -> (result: Result<(Self, Self), E>) where
        E: Error<'i, Token = T>,
     {
        self.split_at(mark)
    }

    fn marker(&self) -> (marker: SliceMarker<'i, T>) {
        SliceMarker::from(self.0)
    }
}

////////////////////////////////////////////////////////////////////////////////

/// A cursor over a borrowed slice of tokens.
pub struct SliceMarker<'a, T: Token> {
    cursor: usize,
    items: &'a [T],
}

impl<'a, T> Clone for SliceMarker<'a, T> where T: Token {
    fn clone(&self) -> (marker: Self)
        ensures
            marker == *self,
    {
        proof {
            use_type_invariant(self);
        }
        Self { cursor: self.cursor, items: self.items }
    }
}

impl<'a, T> SliceMarker<'a, T> where T: Token {
    #[verifier::type_invariant]
    spec fn well_formed(self) -> bool {
        self.cursor <= self.items@.len()
    }

    /// The number of tokens that the marker has yet to pass.
    pub fn len(&self) -> (len: usize)
        ensures
            len == self.remaining().len(),
    {
        proof {
            use_type_invariant(self);
        }
        self.items.len() - self.cursor
    }

    /// Whether the marker has passed every token.
    pub fn at_end(&self) -> (at_end: bool)
        ensures
            at_end == (self.remaining().len() == 0),
    {
        self.len() == 0
    }
}

impl<'a, T> FromSpecImpl<&'a [T]> for SliceMarker<'a, T> where T: Token {
    open spec fn obeys_from_spec() -> bool {
        true
    }

    closed spec fn from_spec(items: &'a [T]) -> Self {
        SliceMarker { cursor: 0, items }
    }
}

impl<'a, T> From<&'a [T]> for SliceMarker<'a, T> where T: Token {
    /// A marker at the start of `items`.
    fn from(items: &'a [T]) -> (marker: Self)
        ensures
            marker.passed() == Seq::<T>::empty(),
            marker.remaining() == items@,
    {
        let marker = Self { cursor: 0, items };
        assert(marker.passed() =~= Seq::<T>::empty());
        assert(marker.remaining() =~= items@);
        marker
    }
}

impl<'a, T> InputMarker for SliceMarker<'a, T> where T: Token {
    type Mark = usize;

    type Token = T;

    closed spec fn passed(&self) -> Seq<T> {
        self.items@.take(self.cursor as int)
    }

    closed spec fn remaining(&self) -> Seq<T> {
        self.items@.skip(self.cursor as int)
    }

    fn next(&mut self) -> (token: Option<T>) {
        proof {
            use_type_invariant(&*self);
        }
        if self.at_end() {
            None
        } else {
            let next = self.items[self.cursor];
            self.cursor += 1;
            assert(self.passed() =~= old(self).passed().push(next));
            assert(self.remaining() =~= old(self).remaining().skip(1));
            Some(next)
        }
    }

    fn skip(&mut self, n: usize) -> (skipped: bool) {
        proof {
            use_type_invariant(&*self);
        }
        if self.items.len() - self.cursor >= n {
            self.cursor += n;
            assert(self.passed() =~= old(self).passed() + old(self).remaining().take(n as int));
            assert(self.remaining() =~= old(self).remaining().skip(n as int));
            true
        } else {
            false
        }
    }

    fn peek(&self) -> (token: Option<T>) {
        proof {
            use_type_invariant(self);
        }
        if self.at_end() {
            None
        } else {
            Some(self.items[self.cursor])
        }
    }

    fn child(&self) -> (child: Self) {
        self.clone()
    }

    fn mark(&self) -> (mark: usize) {
        proof {
            use_type_invariant(self);
        }
        self.cursor
    }
}

} // verus!
