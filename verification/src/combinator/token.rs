use vstd::prelude::*;

use super::fails_with;
use crate::input::{ExpectedHint, Input, Requirement, Token, TokenTag, Unexpected};
use crate::pass::{
    incomplete_error, pass_tokens, unexpected_error, Pass, PassError, PassInput, PassResult,
    PassToken,
};

verus! {

/// `token` is the first token of `pass`, and `rest` holds the tokens behind it.
pub open spec fn took_first<'p, P: Pass<'p>>(pass: P, token: PassToken<'p, P>, rest: P) -> bool {
    &&& pass_tokens(pass).len() > 0
    &&& token == pass_tokens(pass)[0]
    &&& pass_tokens(rest) == pass_tokens(pass).skip(1)
}

/// What `take_token` returns on `pass`: the first token, or a request for one
/// token where the input is empty.
pub open spec fn takes_first<'p, P: Pass<'p>>(
    pass: P,
    result: PassResult<'p, P, PassToken<'p, P>>,
) -> bool {
    if pass_tokens(pass).len() > 0 {
        result matches Ok((token, rest)) && took_first(pass, token, rest)
    } else {
        fails_with(result, pass, incomplete_error(pass, Requirement::Exact(1)))
    }
}

/// The error that rejects the token `found` without a hint.
pub open spec fn rejected<'p, P: Pass<'p>>(pass: P, found: PassToken<'p, P>) -> PassError<'p, P> {
    unexpected_error(
        pass,
        Unexpected { unexpected: TokenTag::Token(found), expecting: ExpectedHint::Nothing },
    )
}

/// What a combinator returns that looks at the first token and either takes
/// it or rejects it: the token, or a request for one token where the input is
/// empty, or the token as unexpected.
pub open spec fn takes_first_or_rejects<'p, P: Pass<'p>>(
    pass: P,
    result: PassResult<'p, P, PassToken<'p, P>>,
) -> bool {
    if pass_tokens(pass).len() > 0 {
        match result {
            Ok((token, rest)) => took_first(pass, token, rest),
            Err(_) => fails_with(result, pass, rejected(pass, pass_tokens(pass)[0])),
        }
    } else {
        fails_with(result, pass, incomplete_error(pass, Requirement::Exact(1)))
    }
}

/// What `take_token_if(pred)` returns on `pass`: it takes the first token where
/// `pred` returned true of it, and rejects it where `pred` returned false.
pub open spec fn takes_first_if<'p, P, F>(
    pred: F,
    pass: P,
    result: PassResult<'p, P, PassToken<'p, P>>,
) -> bool where P: Pass<'p>, F: Fn(&PassToken<'p, P>) -> bool {
    &&& takes_first_or_rejects(pass, result)
    &&& pass_tokens(pass).len() > 0 ==> call_ensures(pred, (&pass_tokens(pass)[0],), result is Ok)
}

/// What a combinator returns that takes the first token where `accepts` holds
/// of it, and rejects it where not.
pub open spec fn takes_first_where<'p, P: Pass<'p>>(
    accepts: spec_fn(PassToken<'p, P>) -> bool,
    pass: P,
    result: PassResult<'p, P, PassToken<'p, P>>,
) -> bool {
    &&& takes_first_or_rejects(pass, result)
    &&& pass_tokens(pass).len() > 0 ==> (result is Ok <==> accepts(pass_tokens(pass)[0]))
}

/// What `one_if(predicate)` returns on `pass`: it takes the first token and
/// returns what `predicate` made of it where `predicate` returned `Ok`, and
/// reports as unexpected what `predicate` returned in `Err`.
pub open spec fn takes_first_as<'p, P, F>(
    predicate: F,
    pass: P,
    result: PassResult<'p, P, PassToken<'p, P>>,
) -> bool where
    P: Pass<'p>,
    F: Fn(PassToken<'p, P>) -> Result<PassToken<'p, P>, PassToken<'p, P>>,
 {
    let tokens = pass_tokens(pass);
    if tokens.len() > 0 {
        match result {
            Ok((token, rest)) => {
                &&& call_ensures(
                    predicate,
                    (tokens[0],),
                    Ok::<PassToken<'p, P>, PassToken<'p, P>>(token),
                )
                &&& pass_tokens(rest) == tokens.skip(1)
            },
            Err(_) => exists|refused: PassToken<'p, P>|
                {
                    &&& #[trigger] call_ensures(
                        predicate,
                        (tokens[0],),
                        Err::<PassToken<'p, P>, PassToken<'p, P>>(refused),
                    )
                    &&& fails_with(result, pass, rejected(pass, refused))
                },
        }
    } else {
        fails_with(result, pass, incomplete_error(pass, Requirement::Exact(1)))
    }
}

/// Takes the first token of the input.
pub fn take_token<'p, P>() -> (f: impl Fn(P) -> PassResult<'p, P, PassToken<'p, P>>) where
    P: Pass<'p>,

    ensures
        forall|pass: P| #[trigger] call_requires(f, (pass,)),
        forall|pass: P, result: PassResult<'p, P, PassToken<'p, P>>|
            #[trigger] call_ensures(f, (pass,), result) ==> takes_first(pass, result),
{
    move |pass: P| -> (result: PassResult<'p, P, PassToken<'p, P>>)
        ensures
            takes_first(pass, result),
        {
            let input = pass.input();
            match pass.with_input_result(input.split_first()) {
                Ok(((token, rest), pass)) => Ok((token, pass.commit(rest))),
                Err(failure) => Err(failure),
            }
        }
}

/// Takes the first token of the input if `pred` returns true of it.
pub fn take_token_if<'p, P, F>(pred: F) -> (f: impl Fn(P) -> PassResult<'p, P, PassToken<'p, P>>) where
    P: Pass<'p>,
    F: Fn(&PassToken<'p, P>) -> bool,

    ensures
        forall|pass: P|
            (pass_tokens(pass).len() > 0 ==> call_requires(pred, (&pass_tokens(pass)[0],)))
                ==> #[trigger] call_requires(f, (pass,)),
        forall|pass: P, result: PassResult<'p, P, PassToken<'p, P>>|
            #[trigger] call_ensures(f, (pass,), result) ==> takes_first_if(pred, pass, result),
{
    move |pass: P| -> (result: PassResult<'p, P, PassToken<'p, P>>)
        requires
            pass_tokens(pass).len() > 0 ==> call_requires(pred, (&pass_tokens(pass)[0],)),
        ensures
            takes_first_if(pred, pass, result),
        {
            let input = pass.input();
            match pass.with_input_result(input.split_first()) {
                Ok(((token, rest), pass)) => {
                    if pred(&token) {
                        Ok((token, pass.commit(rest)))
                    } else {
                        pass.with_input_error_unexpected(
                            Unexpected {
                                unexpected: TokenTag::Token(token),
                                expecting: ExpectedHint::Nothing,
                            },
                        )
                    }
                },
                Err(failure) => Err(failure),
            }
        }
}

/// Takes the first token of the input if it is `expected`.
pub fn token<'p, P, T>(expected: T) -> (f: impl Fn(P) -> PassResult<'p, P, T>) where
    P: Pass<'p>,
    T: Token,
    PassInput<'p, P>: Input<'p, Token = T>,

    ensures
        forall|pass: P| #[trigger] call_requires(f, (pass,)),
        forall|pass: P, result: PassResult<'p, P, T>| #[trigger]
            call_ensures(f, (pass,), result) ==> takes_first_where(
                |found: T| found == expected,
                pass,
                result,
            ),
{
    let is_token = move |found: &T| -> (same: bool)
        ensures
            same == (*found == expected),
        { expected.same(found) };
    take_token_if(is_token)
}

/// `found` lies between `start` and `end` in the order of the tokens, both
/// included.
pub open spec fn within<T: Token>(start: T, end: T, found: T) -> bool {
    start.spec_at_most(&found) && found.spec_at_most(&end)
}

/// Takes the first token of the input if it lies between `start` and `end`,
/// both included.
pub fn in_range<'p, P, T>(start: T, end: T) -> (f: impl Fn(P) -> PassResult<'p, P, T>) where
    P: Pass<'p>,
    T: Token,
    PassInput<'p, P>: Input<'p, Token = T>,

    ensures
        forall|pass: P| #[trigger] call_requires(f, (pass,)),
        forall|pass: P, result: PassResult<'p, P, T>| #[trigger]
            call_ensures(f, (pass,), result) ==> takes_first_where(
                |found: T| within(start, end, found),
                pass,
                result,
            ),
{
    let is_within = move |found: &T| -> (inside: bool)
        ensures
            inside == within(start, end, *found),
        { start.at_most(found) && found.at_most(&end) };
    take_token_if(is_within)
}

/// Takes the first token of the input if `predicate` returns it in `Ok`.
pub fn one_if<'p, P, F>(predicate: F) -> (f: impl Fn(P) -> PassResult<'p, P, PassToken<'p, P>>) where
    P: Pass<'p>,
    F: Fn(PassToken<'p, P>) -> Result<PassToken<'p, P>, PassToken<'p, P>>,

    ensures
        forall|pass: P|
            (pass_tokens(pass).len() > 0 ==> call_requires(predicate, (pass_tokens(pass)[0],)))
                ==> #[trigger] call_requires(f, (pass,)),
        forall|pass: P, result: PassResult<'p, P, PassToken<'p, P>>| #[trigger]
            call_ensures(f, (pass,), result) ==> takes_first_as(predicate, pass, result),
{
    move |pass: P| -> (result: PassResult<'p, P, PassToken<'p, P>>)
        requires
            pass_tokens(pass).len() > 0 ==> call_requires(predicate, (pass_tokens(pass)[0],)),
        ensures
            takes_first_as(predicate, pass, result),
        {
            let input = pass.input();
            match pass.with_input_result(input.split_first()) {
                Ok(((token, rest), held)) => {
                    match predicate(token) {
                        Ok(token) => Ok((token, held.commit(rest))),
                        Err(token) => held.with_input_error_unexpected(
                            Unexpected {
                                unexpected: TokenTag::Token(token),
                                expecting: ExpectedHint::Nothing,
                            },
                        ),
                    }
                },
                Err(failure) => Err(failure),
            }
        }
}

/// Takes the first token of the input. Another name for `take_token`.
pub fn take_one<'p, P>() -> (f: impl Fn(P) -> PassResult<'p, P, PassToken<'p, P>>) where
    P: Pass<'p>,

    ensures
        forall|pass: P| #[trigger] call_requires(f, (pass,)),
        forall|pass: P, result: PassResult<'p, P, PassToken<'p, P>>|
            #[trigger] call_ensures(f, (pass,), result) ==> takes_first(pass, result),
{
    take_token()
}

/// Takes the first token of the input if `pred` returns true of it. Another
/// name for `take_token_if`.
pub fn take_one_if<'p, P, F>(pred: F) -> (f: impl Fn(P) -> PassResult<'p, P, PassToken<'p, P>>) where
    P: Pass<'p>,
    F: Fn(&PassToken<'p, P>) -> bool,

    ensures
        forall|pass: P|
            (pass_tokens(pass).len() > 0 ==> call_requires(pred, (&pass_tokens(pass)[0],)))
                ==> #[trigger] call_requires(f, (pass,)),
        forall|pass: P, result: PassResult<'p, P, PassToken<'p, P>>|
            #[trigger] call_ensures(f, (pass,), result) ==> takes_first_if(pred, pass, result),
{
    take_token_if(pred)
}

/// A combinator that takes the first token or rejects it hands the pass back
/// as it was where it fails.
pub proof fn lemma_rejection_keeps_pass<'p, P: Pass<'p>>(
    pass: P,
    result: PassResult<'p, P, PassToken<'p, P>>,
)
    requires
        takes_first_or_rejects(pass, result),
    ensures
        result matches Err((_, returned)) ==> returned == pass,
{
}

/// `take_token` hands the pass back as it was where it fails.
pub proof fn lemma_take_token_failure_keeps_pass<'p, P: Pass<'p>>(
    pass: P,
    result: PassResult<'p, P, PassToken<'p, P>>,
)
    requires
        takes_first(pass, result),
    ensures
        result matches Err((_, returned)) ==> returned == pass,
{
}

/// `one_if` hands the pass back as it was where it fails.
pub proof fn lemma_one_if_failure_keeps_pass<'p, P, F>(
    predicate: F,
    pass: P,
    result: PassResult<'p, P, PassToken<'p, P>>,
) where P: Pass<'p>, F: Fn(PassToken<'p, P>) -> Result<PassToken<'p, P>, PassToken<'p, P>>
    requires
        takes_first_as(predicate, pass, result),
    ensures
        result matches Err((_, returned)) ==> returned == pass,
{
}

/// Where `pred` returns what `accepts` says of every token, `take_token_if(pred)`
/// takes the first token exactly where `accepts` holds of it.
pub proof fn lemma_take_token_if_decided<'p, P, F>(
    pred: F,
    accepts: spec_fn(PassToken<'p, P>) -> bool,
    pass: P,
    result: PassResult<'p, P, PassToken<'p, P>>,
) where P: Pass<'p>, F: Fn(&PassToken<'p, P>) -> bool
    requires
        takes_first_if(pred, pass, result),
        forall|found: PassToken<'p, P>, accepted: bool| #[trigger]
            call_ensures(pred, (&found,), accepted) ==> accepted == accepts(found),
    ensures
        takes_first_where(accepts, pass, result),
{
}

} // verus!
