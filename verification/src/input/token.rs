use super::capture::Capture;
use std::fmt::Debug;
use vstd::prelude::*;
use vstd::utf8::encode_scalar;

verus! {

/// A `Token` is the smallest unit of input, with a fixed size,
/// that can be copied without worrying about performance.
///
/// For zero-copy guarantees over input this is the largest type
/// that can and should be re-allocated.
///
/// Tokens are compared for equality and for order, and a token type says in
/// `spec_at_most` what its order is.
pub trait Token: Sized + Debug + Copy + Eq + 'static {
    /// The order of the tokens: `self` stands before `other` or is `other`.
    spec fn spec_at_most(&self, other: &Self) -> bool;

    /// Decides whether two tokens are equal.
    fn same(&self, other: &Self) -> (same: bool)
        ensures
            same == (*self == *other),
    ;

    /// Decides whether `self` stands before `other` or is `other`.
    fn at_most(&self, other: &Self) -> (at_most: bool)
        ensures
            at_most == self.spec_at_most(other),
    ;
}

/// A run of bytes that can be read as a slice. Its view is the sequence of
/// the bytes.
pub trait TokenBytes: Sized + View<V = Seq<u8>> {
    /// The bytes as a slice.
    fn as_bytes(&self) -> (bytes: &[u8])
        ensures
            bytes@ == self@,
    ;
}

impl<const N: usize> TokenBytes for [u8; N] {
    fn as_bytes(&self) -> (bytes: &[u8]) {
        self.as_slice()
    }
}

impl TokenBytes for Vec<u8> {
    fn as_bytes(&self) -> (bytes: &[u8]) {
        self.as_slice()
    }
}

/// A value with a deterministic representation as raw bytes.
pub trait IntoBytes: Sized {
    /// The bytes container for the value.
    type Bytes: TokenBytes;

    /// The bytes that stand for the value.
    spec fn spec_bytes(&self) -> Seq<u8>;

    /// Converts the value into raw bytes.
    fn into_bytes(self) -> (bytes: Self::Bytes)
        ensures
            bytes@ == self.spec_bytes(),
    ;
}

/// A `BytesToken` extends a standard `Token` with the guarantee
/// that it is a stable, fixed size representation of raw bytes.
pub trait BytesToken: Token + IntoBytes {
    /// The fixed byte size of the token.
    spec fn spec_byte_size() -> nat;

    /// Every token of the type is represented by exactly `byte_size` bytes.
    proof fn bytes_have_byte_size(self)
        ensures
            self.spec_bytes().len() == Self::spec_byte_size(),
    ;

    /// The fixed byte size of the token.
    fn byte_size() -> (size: usize)
        ensures
            size == Self::spec_byte_size(),
    ;
}

impl<T> Capture for T where T: Token {
    type Value = T;

    open spec fn complete(&self) -> bool {
        true
    }

    open spec fn value(&self) -> T {
        *self
    }

    /// A `Token` always returns true as it either is produced or
    /// not produced from input.
    fn is_complete(&self) -> (complete: bool) {
        true
    }

    /// It's already complete, resolving is a nop.
    fn resolve(&mut self) {
    }

    /// Passes the token through.
    fn into_value(self) -> (value: T) {
        self
    }
}

///////////////////////////////////////////////////////////////////////////////

impl Token for u8 {
    open spec fn spec_at_most(&self, other: &Self) -> bool {
        *self <= *other
    }

    fn same(&self, other: &Self) -> (same: bool) {
        *self == *other
    }

    fn at_most(&self, other: &Self) -> (at_most: bool) {
        *self <= *other
    }
}

impl IntoBytes for u8 {
    type Bytes = [u8; 1];

    open spec fn spec_bytes(&self) -> Seq<u8> {
        seq![*self]
    }

    fn into_bytes(self) -> (bytes: [u8; 1]) {
        let bytes = [self];
        assert(bytes@ =~= seq![self]);
        bytes
    }
}

impl BytesToken for u8 {
    open spec fn spec_byte_size() -> nat {
        1
    }

    proof fn bytes_have_byte_size(self) {
    }

    fn byte_size() -> (size: usize) {
        1
    }
}

///////////////////////////////////////////////////////////////////////////////

/// `bytes` followed by as many zero bytes as it takes to fill `width`.
pub open spec fn zero_padded(bytes: Seq<u8>, width: nat) -> Seq<u8> {
    bytes + Seq::new((width - bytes.len()) as nat, |i: int| 0u8)
}

/// Calls `char::encode_utf8` on the whole of `buf`. The UTF-8 encoding of `c`,
/// which takes at most four bytes, is written to the front of the buffer, and
/// the bytes behind it are left as they were.
#[verifier::external_body]
fn encode_utf8_into(c: char, buf: &mut [u8; 4])
    ensures
        final(buf)@ == encode_scalar(c as u32) + old(buf)@.skip(encode_scalar(c as u32).len() as int),
{
    c.encode_utf8(&mut buf[..]);
}

impl Token for char {
    /// Characters are ordered by their scalar values.
    open spec fn spec_at_most(&self, other: &Self) -> bool {
        *self as u32 <= *other as u32
    }

    fn same(&self, other: &Self) -> (same: bool) {
        *self == *other
    }

    fn at_most(&self, other: &Self) -> (at_most: bool) {
        *self as u32 <= *other as u32
    }
}

impl IntoBytes for char {
    type Bytes = [u8; 4];

    open spec fn spec_bytes(&self) -> Seq<u8> {
        zero_padded(encode_scalar(*self as u32), 4)
    }

    fn into_bytes(self) -> (bytes: [u8; 4]) {
        let mut bytes = [0u8; 4];
        encode_utf8_into(self, &mut bytes);
        assert(bytes@ =~= self.spec_bytes());
        bytes
    }
}

impl BytesToken for char {
    open spec fn spec_byte_size() -> nat {
        4
    }

    proof fn bytes_have_byte_size(self) {
    }

    fn byte_size() -> (size: usize) {
        4
    }
}

///////////////////////////////////////////////////////////////////////////////

/// A TokenTag is a container for either a token or a tag.
#[derive(Debug, Clone, Eq, PartialEq)]
pub enum TokenTag<'a, T: Token> {
    Token(T),
    Tag(&'a [T]),
}

impl<'a, T> TokenTag<'a, T> where T: Token {
    /// Whether the container holds a single token.
    pub fn is_token(&self) -> (is_token: bool)
        ensures
            is_token == (*self is Token),
    {
        match self {
            TokenTag::Token(_) => true,
            _ => false,
        }
    }
}

/// The bytes of each token of `tokens` in turn.
pub open spec fn bytes_of<T: BytesToken>(tokens: Seq<T>) -> Seq<u8>
    decreases tokens.len(),
{
    if tokens.len() == 0 {
        Seq::empty()
    } else {
        bytes_of(tokens.drop_last()) + tokens.last().spec_bytes()
    }
}

/// `tokens` take `byte_size` bytes each.
pub proof fn lemma_bytes_of_len<T: BytesToken>(tokens: Seq<T>)
    ensures
        bytes_of(tokens).len() == T::spec_byte_size() * tokens.len(),
    decreases tokens.len(),
{
    if tokens.len() > 0 {
        lemma_bytes_of_len(tokens.drop_last());
        tokens.last().bytes_have_byte_size();
        assert(T::spec_byte_size() * tokens.len() == T::spec_byte_size() * (tokens.len() - 1)
            + T::spec_byte_size()) by (nonlinear_arith);
    }
}

/// `count` tokens of `tokens` from its start stand before the `count + 1`st.
proof fn lemma_bytes_of_take_next<T: BytesToken>(tokens: Seq<T>, count: int)
    requires
        0 <= count < tokens.len(),
    ensures
        bytes_of(tokens.take(count + 1)) == bytes_of(tokens.take(count)) + tokens[count].spec_bytes(),
{
    assert(tokens.take(count + 1).drop_last() =~= tokens.take(count));
}

impl<'a, T> IntoBytes for TokenTag<'a, T> where T: BytesToken {
    type Bytes = Vec<u8>;

    open spec fn spec_bytes(&self) -> Seq<u8> {
        match self {
            TokenTag::Tag(tag) => bytes_of(tag@),
            TokenTag::Token(token) => token.spec_bytes(),
        }
    }

    fn into_bytes(self) -> (bytes: Vec<u8>) {
        self.to_bytes_vec()
    }
}

/// Writes `bytes` over `buf` from `at` on, and leaves the rest of `buf` as it was.
fn write_bytes(buf: &mut [u8], at: usize, bytes: &[u8])
    requires
        at + bytes@.len() <= old(buf)@.len(),
    ensures
        final(buf)@ == old(buf)@.take(at as int) + bytes@ + old(buf)@.skip(at + bytes@.len()),
{
    let len = buf.len();
    let mut i: usize = 0;
    while i < bytes.len()
        invariant
            i <= bytes@.len(),
            at + bytes@.len() <= buf@.len(),
            buf@.len() == old(buf)@.len(),
            buf@.len() == len,
            buf@ == old(buf)@.take(at as int) + bytes@.take(i as int) + old(buf)@.skip(at + i),
        decreases bytes@.len() - i,
    {
        buf[at + i] = bytes[i];
        assert(buf@ =~= old(buf)@.take(at as int) + bytes@.take(i + 1) + old(buf)@.skip(
            at + i + 1,
        ));
        i += 1;
    }
    assert(bytes@.take(i as int) == bytes@);
}

impl<'a, T> TokenTag<'a, T> where T: BytesToken {
    /// The total token byte size.
    pub open spec fn spec_byte_size(&self) -> nat {
        match self {
            TokenTag::Tag(tag) => T::spec_byte_size() * tag@.len(),
            TokenTag::Token(_) => T::spec_byte_size(),
        }
    }

    /// `spec_bytes` is `spec_byte_size` bytes long.
    pub proof fn lemma_bytes_len(&self)
        ensures
            self.spec_bytes().len() == self.spec_byte_size(),
    {
        match self {
            TokenTag::Tag(tag) => lemma_bytes_of_len(tag@),
            TokenTag::Token(token) => token.bytes_have_byte_size(),
        }
    }

    /// The total token byte size.
    pub fn byte_size(&self) -> (size: usize)
        requires
            self.spec_byte_size() <= usize::MAX,
        ensures
            size == self.spec_byte_size(),
    {
        match self {
            TokenTag::Tag(tag) => T::byte_size() * tag.len(),
            TokenTag::Token(_) => T::byte_size(),
        }
    }

    /// Writes the TokenTag value into the front of a byte buffer, and leaves
    /// the bytes behind it as they were.
    ///
    /// The buffer must be large enough.
    pub fn copy_into_buf(&self, buf: &mut [u8])
        requires
            self.spec_byte_size() <= old(buf)@.len(),
        ensures
            final(buf)@ == self.spec_bytes() + old(buf)@.skip(self.spec_byte_size() as int),
    {
        match self {
            TokenTag::Tag(tag) => {
                let size = T::byte_size();
                let len = buf.len();
                let mut i: usize = 0;
                let mut at: usize = 0;
                while i < tag.len()
                    invariant
                        i <= tag@.len(),
                        buf@.len() == len,
                        size == T::spec_byte_size(),
                        at == size * i,
                        T::spec_byte_size() * tag@.len() <= buf@.len(),
                        buf@.len() == old(buf)@.len(),
                        buf@ == bytes_of(tag@.take(i as int)) + old(buf)@.skip(at as int),
                    decreases tag@.len() - i,
                {
                    let token_bytes = tag[i].into_bytes();
                    proof {
                        tag@[i as int].bytes_have_byte_size();
                        lemma_bytes_of_take_next(tag@, i as int);
                        lemma_bytes_of_len(tag@.take(i as int));
                        assert(size * (i + 1) <= size * tag@.len()) by (nonlinear_arith)
                            requires
                                i + 1 <= tag@.len(),
                        ;
                        assert(size * (i + 1) == size * i + size) by (nonlinear_arith);
                    }
                    write_bytes(buf, at, token_bytes.as_bytes());
                    assert(buf@ =~= bytes_of(tag@.take(i + 1)) + old(buf)@.skip(at + size));
                    at += size;
                    i += 1;
                }
                assert(tag@.take(i as int) == tag@);
            },
            TokenTag::Token(token) => {
                let token_bytes = token.into_bytes();
                proof {
                    token.bytes_have_byte_size();
                }
                write_bytes(buf, 0, token_bytes.as_bytes());
                assert(buf@ =~= token.spec_bytes() + old(buf)@.skip(T::spec_byte_size() as int));
            },
        }
    }

    /// Converts the TokenTag into bytes.
    pub fn to_bytes_vec(&self) -> (bytes: Vec<u8>)
        ensures
            bytes@ == self.spec_bytes(),
    {
        let mut bytes: Vec<u8> = Vec::new();
        match self {
            TokenTag::Tag(tag) => {
                let mut i: usize = 0;
                while i < tag.len()
                    invariant
                        i <= tag@.len(),
                        bytes@ == bytes_of(tag@.take(i as int)),
                    decreases tag@.len() - i,
                {
                    let token_bytes = tag[i].into_bytes();
                    let ghost before = bytes@;
                    bytes.extend_from_slice(token_bytes.as_bytes());
                    proof {
                        lemma_bytes_of_take_next(tag@, i as int);
                        assert(bytes@ =~= before + tag@[i as int].spec_bytes());
                    }
                    i += 1;
                }
                assert(tag@.take(i as int) == tag@);
            },
            TokenTag::Token(token) => {
                let token_bytes = token.into_bytes();
                bytes.extend_from_slice(token_bytes.as_bytes());
                assert(bytes@ =~= token.spec_bytes());
            },
        }
        bytes
    }
}

} // verus!
