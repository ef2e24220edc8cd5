use vstd::prelude::*;

use super::fails_with;
use crate::input::{
    ExactSizeInput, ExpectedHint, Input, InputMarker, Mark, Requirement, Token, TokenTag,
    Unexpected,
};
use crate::pass::{
    incomplete_error, pass_tokens, unexpected_error, Pass, PassInput, PassResult, PassSection,
    PassToken,
};

verus! {

/// What `take(n)` returns on `pass`: the first `n` tokens as a section, or a
/// request for as many tokens as are missing.
pub open spec fn takes_count<'p, P: Pass<'p>>(
    n: usize,
    pass: P,
    result: PassResult<'p, P, PassSection<'p, P>>,
) -> bool {
    if n <= pass_tokens(pass).len() {
        &&& result matches Ok((taken, rest))
        &&& taken@ == pass_tokens(pass).take(n as int)
        &&& pass_tokens(rest) == pass_tokens(pass).skip(n as int)
    } else {
        fails_with(
            result,
            pass,
            incomplete_error(pass, Requirement::Exact((n - pass_tokens(pass).len()) as usize)),
        )
    }
}

/// Takes the first `n` tokens of the input.
pub fn take<'p, P>(n: usize) -> (f: impl Fn(P) -> PassResult<'p, P, PassSection<'p, P>>) where
    P: Pass<'p>,

    ensures
        forall|pass: P| #[trigger] call_requires(f, (pass,)),
        forall|pass: P, result: PassResult<'p, P, PassSection<'p, P>>| #[trigger]
            call_ensures(f, (pass,), result) ==> takes_count(n, pass, result),
{
    move |pass: P| -> (result: PassResult<'p, P, PassSection<'p, P>>)
        ensures
            takes_count(n, pass, result),
        {
            let input = pass.input();
            match pass.with_input_result(input.split_at(n)) {
                Ok(((taken, rest), pass)) => Ok((taken, pass.commit(rest))),
                Err(failure) => Err(failure),
            }
        }
}

/// What `take_until(pred)` returns on `pass`: the tokens before the first one
/// of which `pred` returned true, as a section, with that token the first of
/// what is left; or, where `pred` returned false of every token, a request for
/// an unknown amount of input.
pub open spec fn takes_until<'p, P, F>(
    pred: F,
    pass: P,
    result: PassResult<'p, P, PassSection<'p, P>>,
) -> bool where P: Pass<'p>, F: Fn(&PassToken<'p, P>) -> bool {
    let tokens = pass_tokens(pass);
    match result {
        Ok((taken, rest)) => {
            &&& taken@.len() < tokens.len()
            &&& taken@ == tokens.take(taken@.len() as int)
            &&& pass_tokens(rest) == tokens.skip(taken@.len() as int)
            &&& call_ensures(pred, (&tokens[taken@.len() as int],), true)
            &&& forall|i: int|
                0 <= i < taken@.len() ==> #[trigger] call_ensures(pred, (&tokens[i],), false)
        },
        Err(_) => {
            &&& fails_with(result, pass, incomplete_error(pass, Requirement::Unknown))
            &&& forall|i: int|
                0 <= i < tokens.len() ==> #[trigger] call_ensures(pred, (&tokens[i],), false)
        },
    }
}

/// Takes the tokens of the input that stand before the first one of which
/// `pred` returns true.
///
/// A marker scans ahead of the input, and the input is split at the mark
/// that the marker had reached before the token of which `pred` held.
pub fn take_until<'p, P, F>(pred: F) -> (f: impl Fn(P) -> PassResult<'p, P, PassSection<'p, P>>) where
    P: Pass<'p>,
    F: Fn(&PassToken<'p, P>) -> bool,

    ensures
        forall|pass: P|
            (forall|i: int|
                0 <= i < pass_tokens(pass).len() ==> #[trigger] call_requires(
                    pred,
                    (&pass_tokens(pass)[i],),
                )) ==> #[trigger] call_requires(f, (pass,)),
        forall|pass: P, result: PassResult<'p, P, PassSection<'p, P>>| #[trigger]
            call_ensures(f, (pass,), result) ==> takes_until(pred, pass, result),
{
    move |pass: P| -> (result: PassResult<'p, P, PassSection<'p, P>>)
        requires
            forall|i: int|
                0 <= i < pass_tokens(pass).len() ==> #[trigger] call_requires(
                    pred,
                    (&pass_tokens(pass)[i],),
                ),
        ensures
            takes_until(pred, pass, result),
        {
            let ghost tokens = pass_tokens(pass);
            let input = pass.input();
            let mut marker = input.marker();
            loop
                invariant
                    tokens == pass_tokens(pass),
                    input@ == tokens,
                    marker.passed() + marker.remaining() == tokens,
                    forall|i: int|
                        0 <= i < tokens.len() ==> #[trigger] call_requires(pred, (&tokens[i],)),
                    forall|i: int|
                        0 <= i < marker.passed().len() ==> #[trigger] call_ensures(
                            pred,
                            (&tokens[i],),
                            false,
                        ),
                ensures
                    marker.remaining().len() == 0,
                decreases marker.remaining().len(),
            {
                let mark = marker.mark();
                let ghost passed = marker.passed();
                match marker.next() {
                    Some(token) => {
                        assert(tokens[passed.len() as int] == token);
                        if pred(&token) {
                            return match pass.with_input_result(input.split_mark(mark)) {
                                Ok(((taken, rest), held)) => Ok((taken, held.commit(rest))),
                                Err(failure) => Err(failure),
                            };
                        }
                    },
                    None => {
                        break ;
                    },
                }
            }
            assert(marker.passed() =~= tokens);
            pass.with_input_error_incomplete(Requirement::Unknown)
        }
}

/// `found` differs from `expected` at `i`, and nowhere before `i`.
pub open spec fn first_mismatch<T>(expected: Seq<T>, found: Seq<T>, i: int) -> bool {
    &&& 0 <= i < expected.len()
    &&& found[i] != expected[i]
    &&& forall|j: int| 0 <= j < i ==> found[j] == expected[j]
}

/// What `tag(expected)` returns on `pass`: the first tokens as a section where
/// they are the tokens of `expected`; a request for as many tokens as are
/// missing where the input is shorter than `expected`; and else the first
/// token that differs as unexpected, with `expected` as the hint.
pub open spec fn takes_tag<'p, P: Pass<'p>>(
    expected: &'p [PassToken<'p, P>],
    pass: P,
    result: PassResult<'p, P, PassSection<'p, P>>,
) -> bool {
    let tokens = pass_tokens(pass);
    if expected@.len() > tokens.len() {
        fails_with(
            result,
            pass,
            incomplete_error(pass, Requirement::Exact((expected@.len() - tokens.len()) as usize)),
        )
    } else if tokens.take(expected@.len() as int) =~= expected@ {
        &&& result matches Ok((taken, rest))
        &&& taken@ == expected@
        &&& pass_tokens(rest) == tokens.skip(expected@.len() as int)
    } else {
        exists|i: int| #[trigger]
            first_mismatch(expected@, tokens, i) && fails_with(
                result,
                pass,
                unexpected_error(
                    pass,
                    Unexpected {
                        unexpected: TokenTag::Token(tokens[i]),
                        expecting: ExpectedHint::Tag(expected),
                    },
                ),
            )
    }
}

/// Takes the tokens of `expected` from the start of the input.
pub fn tag<'p, P, T>(expected: &'p [T]) -> (f: impl Fn(P) -> PassResult<
    'p,
    P,
    PassSection<'p, P>,
>) where P: Pass<'p>, T: Token, PassInput<'p, P>: Input<'p, Token = T>
    ensures
        forall|pass: P| #[trigger] call_requires(f, (pass,)),
        forall|pass: P, result: PassResult<'p, P, PassSection<'p, P>>| #[trigger]
            call_ensures(f, (pass,), result) ==> takes_tag(expected, pass, result),
{
    move |pass: P| -> (result: PassResult<'p, P, PassSection<'p, P>>)
        ensures
            takes_tag(expected, pass, result),
        {
            let ghost tokens = pass_tokens(pass);
            let tag_len = expected.len();
            let input = pass.input();
            match pass.with_input_result(input.split_at(tag_len)) {
                Ok(((input_tag, rest), held)) => {
                    let mut i: usize = 0;
                    while i < tag_len
                        invariant
                            i <= tag_len,
                            tag_len == expected@.len(),
                            tag_len <= tokens.len(),
                            held == pass,
                            tokens == pass_tokens(pass),
                            input_tag@ == tokens.take(tag_len as int),
                            forall|j: int| 0 <= j < i ==> tokens[j] == expected@[j],
                        decreases tag_len - i,
                    {
                        let found = input_tag.token_at(i);
                        if !expected[i].same(&found) {
                            assert(first_mismatch(expected@, tokens, i as int));
                            assert(tokens.take(tag_len as int)[i as int] != expected@[i as int]);
                            return held.with_input_error_unexpected(
                                Unexpected {
                                    unexpected: TokenTag::Token(found),
                                    expecting: ExpectedHint::Tag(expected),
                                },
                            );
                        }
                        i += 1;
                    }
                    assert(tokens.take(tag_len as int) =~= expected@);
                    Ok((input_tag, held.commit(rest)))
                },
                Err(failure) => Err(failure),
            }
        }
}

/// Takes the first `n` tokens of the input. Another name for `take`.
pub fn take_input<'p, P>(n: usize) -> (f: impl Fn(P) -> PassResult<'p, P, PassSection<'p, P>>) where
    P: Pass<'p>,

    ensures
        forall|pass: P| #[trigger] call_requires(f, (pass,)),
        forall|pass: P, result: PassResult<'p, P, PassSection<'p, P>>| #[trigger]
            call_ensures(f, (pass,), result) ==> takes_count(n, pass, result),
{
    take(n)
}

/// Takes the tokens of the input that stand before the first one of which
/// `pred` returns true. Another name for `take_until`.
pub fn take_input_until<'p, P, F>(pred: F) -> (f: impl Fn(P) -> PassResult<
    'p,
    P,
    PassSection<'p, P>,
>) where P: Pass<'p>, F: Fn(&PassToken<'p, P>) -> bool
    ensures
        forall|pass: P|
            (forall|i: int|
                0 <= i < pass_tokens(pass).len() ==> #[trigger] call_requires(
                    pred,
                    (&pass_tokens(pass)[i],),
                )) ==> #[trigger] call_requires(f, (pass,)),
        forall|pass: P, result: PassResult<'p, P, PassSection<'p, P>>| #[trigger]
            call_ensures(f, (pass,), result) ==> takes_until(pred, pass, result),
{
    take_until(pred)
}

/// `take(n)` hands the pass back as it was where it fails.
pub proof fn lemma_take_failure_keeps_pass<'p, P: Pass<'p>>(
    n: usize,
    pass: P,
    result: PassResult<'p, P, PassSection<'p, P>>,
)
    requires
        takes_count(n, pass, result),
    ensures
        result matches Err((_, returned)) ==> returned == pass,
{
}

/// `take_until(pred)` hands the pass back as it was where it fails.
pub proof fn lemma_take_until_failure_keeps_pass<'p, P, F>(
    pred: F,
    pass: P,
    result: PassResult<'p, P, PassSection<'p, P>>,
) where P: Pass<'p>, F: Fn(&PassToken<'p, P>) -> bool
    requires
        takes_until(pred, pass, result),
    ensures
        result matches Err((_, returned)) ==> returned == pass,
{
}

/// `holds` is true of `tokens[i]`, and of no token before it.
pub open spec fn first_where<T>(tokens: Seq<T>, holds: spec_fn(T) -> bool, i: int) -> bool {
    &&& 0 <= i < tokens.len()
    &&& holds(tokens[i])
    &&& forall|j: int| 0 <= j < i ==> !holds(#[trigger] tokens[j])
}

/// What a combinator returns that takes the tokens before the first one of
/// which `holds` is true: those tokens as a section, with that token the first
/// of what is left; or, where `holds` is true of no token, a request for an
/// unknown amount of input.
pub open spec fn takes_until_where<'p, P: Pass<'p>>(
    holds: spec_fn(PassToken<'p, P>) -> bool,
    pass: P,
    result: PassResult<'p, P, PassSection<'p, P>>,
) -> bool {
    let tokens = pass_tokens(pass);
    match result {
        Ok((taken, rest)) => {
            &&& first_where(tokens, holds, taken@.len() as int)
            &&& taken@ == tokens.take(taken@.len() as int)
            &&& pass_tokens(rest) == tokens.skip(taken@.len() as int)
        },
        Err(_) => {
            &&& fails_with(result, pass, incomplete_error(pass, Requirement::Unknown))
            &&& forall|i: int| 0 <= i < tokens.len() ==> !holds(#[trigger] tokens[i])
        },
    }
}

/// Where `pred` returns what `holds` says of every token, `take_until(pred)`
/// splits the input before the first token of which `holds` is true.
pub proof fn lemma_take_until_decided<'p, P, F>(
    pred: F,
    holds: spec_fn(PassToken<'p, P>) -> bool,
    pass: P,
    result: PassResult<'p, P, PassSection<'p, P>>,
) where P: Pass<'p>, F: Fn(&PassToken<'p, P>) -> bool
    requires
        takes_until(pred, pass, result),
        forall|found: PassToken<'p, P>, held: bool| #[trigger]
            call_ensures(pred, (&found,), held) ==> held == holds(found),
    ensures
        takes_until_where(holds, pass, result),
{
    let tokens = pass_tokens(pass);
    match result {
        Ok((taken, rest)) => {
            assert forall|j: int| 0 <= j < taken@.len() implies !holds(#[trigger] tokens[j]) by {
                assert(call_ensures(pred, (&tokens[j],), false));
            }
        },
        Err(_) => {
            assert forall|i: int| 0 <= i < tokens.len() implies !holds(#[trigger] tokens[i]) by {
                assert(call_ensures(pred, (&tokens[i],), false));
            }
        },
    }
}

/// `tag(expected)` is atomic: it takes exactly the tokens of `expected` from
/// the start of the input and returns them unchanged, or it fails and hands
/// the pass back as it was.
pub proof fn lemma_tag_atomic<'p, P: Pass<'p>>(
    expected: &'p [PassToken<'p, P>],
    pass: P,
    result: PassResult<'p, P, PassSection<'p, P>>,
)
    requires
        takes_tag(expected, pass, result),
    ensures
        match result {
            Ok((taken, rest)) => {
                &&& taken@ == expected@
                &&& pass_tokens(pass) == expected@ + pass_tokens(rest)
            },
            Err((_, returned)) => returned == pass,
        },
{
    let tokens = pass_tokens(pass);
    if let Ok((taken, rest)) = result {
        assert(tokens =~= tokens.take(expected@.len() as int) + tokens.skip(
            expected@.len() as int,
        ));
    }
}

} // verus!
