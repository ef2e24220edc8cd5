use super::Token;
use vstd::prelude::*;

verus! {

/// Hands out the tokens of a borrowed slice one by one.
pub struct SliceIter<'a, T: Token> {
    cursor: usize,
    items: &'a [T],
}

impl<'a, T: Token> SliceIter<'a, T> {
    #[verifier::type_invariant]
    spec fn well_formed(self) -> bool {
        self.cursor <= self.items@.len()
    }

    /// The tokens that are yet to be handed out.
    pub closed spec fn remaining(&self) -> Seq<T> {
        self.items@.skip(self.cursor as int)
    }

    /// An iterator that has all of `items` to hand out.
    pub fn new(items: &'a [T]) -> (iter: Self)
        ensures
            iter.remaining() == items@,
    {
        let iter = Self { cursor: 0, items };
        assert(iter.remaining() =~= items@);
        iter
    }

    /// Hands out the next token, or `None` where none is left.
    pub fn next(&mut self) -> (token: Option<T>)
        ensures
            old(self).remaining().len() == 0 ==> token is None && *final(self) == *old(self),
            old(self).remaining().len() > 0 ==> token == Some(old(self).remaining()[0])
                && final(self).remaining() == old(self).remaining().skip(1),
    {
        proof {
            use_type_invariant(&*self);
        }
        if self.len() > 0 {
            let next = self.items[self.cursor];
            self.cursor += 1;
            assert(self.remaining() =~= old(self).remaining().skip(1));
            Some(next)
        } else {
            None
        }
    }

    /// The number of tokens that are yet to be handed out.
    pub fn len(&self) -> (len: usize)
        ensures
            len == self.remaining().len(),
    {
        proof {
            use_type_invariant(self);
        }
        self.items.len() - self.cursor
    }
}

} // verus!
