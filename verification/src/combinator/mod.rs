//! The combinators: functions from a pass to a value and the pass, or to an
//! error and the pass.
//!
//! A primitive combinator splits the input of the pass and commits the
//! remainder only where it succeeds, so that a failure hands the pass back as
//! it was. The contract of a combinator speaks of the function that it
//! returns: on which passes that function can be called, and what it returns
//! on each.

mod hinting;
mod input;
mod token;

use vstd::prelude::*;

use crate::pass::{pass_input, Pass, PassError, PassResult};

pub use self::hinting::hint;
pub use self::input::{
    first_mismatch, first_where, lemma_tag_atomic, lemma_take_failure_keeps_pass,
    lemma_take_until_decided, lemma_take_until_failure_keeps_pass, tag, take, take_input,
    take_input_until, take_until, takes_count, takes_tag, takes_until, takes_until_where,
};
pub use self::token::{
    in_range, lemma_one_if_failure_keeps_pass, lemma_rejection_keeps_pass,
    lemma_take_token_failure_keeps_pass, lemma_take_token_if_decided, one_if, rejected, take_one,
    take_one_if, take_token, take_token_if, takes_first, takes_first_as, takes_first_if,
    takes_first_or_rejects, takes_first_where, token, took_first, within,
};

verus! {

/// `result` is the failure with `err` that hands `pass` back as it was.
pub open spec fn fails_with<'p, P: Pass<'p>, O>(
    result: PassResult<'p, P, O>,
    pass: P,
    err: PassError<'p, P>,
) -> bool {
    result == Err::<(O, P), (PassError<'p, P>, P)>((err, pass))
}

/// `inner` can return `value` on `pass`, beside some pass.
pub open spec fn succeeds_with<'p, P, F, O>(inner: F, pass: P, value: O) -> bool where
    P: Pass<'p>,
    F: Fn(P) -> PassResult<'p, P, O>,
 {
    exists|advanced: P| #[trigger]
        call_ensures(inner, (pass,), Ok::<(O, P), (PassError<'p, P>, P)>((value, advanced)))
}

/// What `peek(inner)` returns on `pass`: the value that `inner` returned,
/// beside a pass with the input of `pass`; or the failure of `inner`.
pub open spec fn peek_ensures<'p, P, F, O>(inner: F, pass: P, result: PassResult<'p, P, O>) -> bool where
    P: Pass<'p>,
    F: Fn(P) -> PassResult<'p, P, O>,
 {
    match result {
        Ok((value, rest)) => {
            &&& pass_input(rest) == pass_input(pass)
            &&& succeeds_with(inner, pass, value)
        },
        Err(_) => call_ensures(inner, (pass,), result),
    }
}

/// Runs `inner` and returns its value, but leaves the input as it was.
pub fn peek<'p, P, F, O>(inner: F) -> (f: impl Fn(P) -> PassResult<'p, P, O>) where
    P: Pass<'p>,
    F: Fn(P) -> PassResult<'p, P, O>,

    ensures
        forall|pass: P| call_requires(inner, (pass,)) ==> #[trigger] call_requires(f, (pass,)),
        forall|pass: P, result: PassResult<'p, P, O>| #[trigger]
            call_ensures(f, (pass,), result) ==> peek_ensures(inner, pass, result),
{
    move |pass: P| -> (result: PassResult<'p, P, O>)
        requires
            call_requires(inner, (pass,)),
        ensures
            peek_ensures(inner, pass, result),
        {
            let input = pass.input();
            match inner(pass) {
                Ok((out, advanced)) => {
                    assert(call_ensures(
                        inner,
                        (pass,),
                        Ok::<(O, P), (PassError<'p, P>, P)>((out, advanced)),
                    ));
                    Ok((out, advanced.commit(input)))
                },
                Err(failure) => Err(failure),
            }
        }
}

/// `or(a, b)` can be called on `pass`: `a` can, and `b` can on every pass that
/// `a` hands back with a failure.
pub open spec fn or_requires<'p, P, A, B, O>(a: A, b: B, pass: P) -> bool where
    P: Pass<'p>,
    A: Fn(P) -> PassResult<'p, P, O>,
    B: Fn(P) -> PassResult<'p, P, O>,
 {
    &&& call_requires(a, (pass,))
    &&& forall|err_a: PassError<'p, P>, pass_a: P| #[trigger]
        call_ensures(a, (pass,), Err::<(O, P), (PassError<'p, P>, P)>((err_a, pass_a)))
            ==> call_requires(b, (pass_a,))
}

/// What `or(a, b)` returns on `pass`: the success of `a`, or else what `b`
/// returned on the pass that `a` handed back with its failure.
pub open spec fn or_ensures<'p, P, A, B, O>(a: A, b: B, pass: P, result: PassResult<'p, P, O>) -> bool where
    P: Pass<'p>,
    A: Fn(P) -> PassResult<'p, P, O>,
    B: Fn(P) -> PassResult<'p, P, O>,
 {
    ||| result is Ok && call_ensures(a, (pass,), result)
    ||| exists|err_a: PassError<'p, P>, pass_a: P|
        {
            &&& #[trigger] call_ensures(
                a,
                (pass,),
                Err::<(O, P), (PassError<'p, P>, P)>((err_a, pass_a)),
            )
            &&& call_ensures(b, (pass_a,), result)
        }
}

/// Tries `a`, and where it fails tries `b` on the pass that `a` handed back.
/// Where both fail, the error is that of `b`.
pub fn or<'p, P, A, B, O>(a: A, b: B) -> (f: impl Fn(P) -> PassResult<'p, P, O>) where
    P: Pass<'p>,
    A: Fn(P) -> PassResult<'p, P, O>,
    B: Fn(P) -> PassResult<'p, P, O>,

    ensures
        forall|pass: P| or_requires(a, b, pass) ==> #[trigger] call_requires(f, (pass,)),
        forall|pass: P, result: PassResult<'p, P, O>| #[trigger]
            call_ensures(f, (pass,), result) ==> or_ensures(a, b, pass, result),
{
    move |pass: P| -> (result: PassResult<'p, P, O>)
        requires
            or_requires(a, b, pass),
        ensures
            or_ensures(a, b, pass, result),
        {
            match a(pass) {
                Err((_err_a, pass_a)) => b(pass_a),
                Ok(success) => Ok(success),
            }
        }
}

/// `map(inner, mapper)` can be called on `pass`: `inner` can, and `mapper` can
/// on every value that `inner` returns.
pub open spec fn map_requires<'p, P, A, F, O, U>(inner: A, mapper: F, pass: P) -> bool where
    P: Pass<'p>,
    A: Fn(P) -> PassResult<'p, P, O>,
    F: Fn(O) -> U,
 {
    &&& call_requires(inner, (pass,))
    &&& forall|value: O, rest: P| #[trigger]
        call_ensures(inner, (pass,), Ok::<(O, P), (PassError<'p, P>, P)>((value, rest)))
            ==> call_requires(mapper, (value,))
}

/// `mapper` made `mapped` of a value that `inner` returned on `pass` beside
/// `rest`.
pub open spec fn mapped_from<'p, P, A, F, O, U>(
    inner: A,
    mapper: F,
    pass: P,
    mapped: U,
    rest: P,
) -> bool where P: Pass<'p>, A: Fn(P) -> PassResult<'p, P, O>, F: Fn(O) -> U {
    exists|value: O|
        {
            &&& #[trigger] call_ensures(
                inner,
                (pass,),
                Ok::<(O, P), (PassError<'p, P>, P)>((value, rest)),
            )
            &&& call_ensures(mapper, (value,), mapped)
        }
}

/// What `map(inner, mapper)` returns on `pass`: what `mapper` made of the
/// value of `inner`, beside the pass that `inner` returned; or the failure of
/// `inner`.
pub open spec fn map_ensures<'p, P, A, F, O, U>(
    inner: A,
    mapper: F,
    pass: P,
    result: PassResult<'p, P, U>,
) -> bool where P: Pass<'p>, A: Fn(P) -> PassResult<'p, P, O>, F: Fn(O) -> U {
    match result {
        Ok((mapped, rest)) => mapped_from(inner, mapper, pass, mapped, rest),
        Err(failure) => call_ensures(
            inner,
            (pass,),
            Err::<(O, P), (PassError<'p, P>, P)>(failure),
        ),
    }
}

/// Runs `inner` and hands its value to `mapper`. A failure passes through
/// untouched.
pub fn map<'p, P, A, F, O, U>(inner: A, mapper: F) -> (f: impl Fn(P) -> PassResult<'p, P, U>) where
    P: Pass<'p>,
    A: Fn(P) -> PassResult<'p, P, O>,
    F: Fn(O) -> U,

    ensures
        forall|pass: P| map_requires(inner, mapper, pass) ==> #[trigger] call_requires(f, (pass,)),
        forall|pass: P, result: PassResult<'p, P, U>| #[trigger]
            call_ensures(f, (pass,), result) ==> map_ensures(inner, mapper, pass, result),
{
    move |pass: P| -> (result: PassResult<'p, P, U>)
        requires
            map_requires(inner, mapper, pass),
        ensures
            map_ensures(inner, mapper, pass, result),
        {
            match inner(pass) {
                Ok((value, rest)) => {
                    let mapped = mapper(value);
                    assert(mapped_from(inner, mapper, pass, mapped, rest)) by {
                        assert(call_ensures(
                            inner,
                            (pass,),
                            Ok::<(O, P), (PassError<'p, P>, P)>((value, rest)),
                        ));
                    }
                    Ok((mapped, rest))
                },
                Err(failure) => Err(failure),
            }
        }
}

/// `and_then(inner, next)` can be called on `pass`: `inner` can, and `next`
/// can on every value and pass that `inner` returns.
pub open spec fn and_then_requires<'p, P, A, N, O, U>(inner: A, next: N, pass: P) -> bool where
    P: Pass<'p>,
    A: Fn(P) -> PassResult<'p, P, O>,
    N: Fn(O, P) -> PassResult<'p, P, U>,
 {
    &&& call_requires(inner, (pass,))
    &&& forall|value: O, rest: P| #[trigger]
        call_ensures(inner, (pass,), Ok::<(O, P), (PassError<'p, P>, P)>((value, rest)))
            ==> call_requires(next, (value, rest))
}

/// What `and_then(inner, next)` returns on `pass`: what `next` returned on the
/// value and the pass of `inner`; or the failure of `inner`.
pub open spec fn and_then_ensures<'p, P, A, N, O, U>(
    inner: A,
    next: N,
    pass: P,
    result: PassResult<'p, P, U>,
) -> bool where
    P: Pass<'p>,
    A: Fn(P) -> PassResult<'p, P, O>,
    N: Fn(O, P) -> PassResult<'p, P, U>,
 {
    ||| exists|value: O, rest: P|
        {
            &&& #[trigger] call_ensures(
                inner,
                (pass,),
                Ok::<(O, P), (PassError<'p, P>, P)>((value, rest)),
            )
            &&& call_ensures(next, (value, rest), result)
        }
    ||| result matches Err(failure) && call_ensures(
        inner,
        (pass,),
        Err::<(O, P), (PassError<'p, P>, P)>(failure),
    )
}

/// Runs `inner`, and where it succeeds runs `next` on its value and its pass.
pub fn and_then<'p, P, A, N, O, U>(inner: A, next: N) -> (f: impl Fn(P) -> PassResult<'p, P, U>) where
    P: Pass<'p>,
    A: Fn(P) -> PassResult<'p, P, O>,
    N: Fn(O, P) -> PassResult<'p, P, U>,

    ensures
        forall|pass: P|
            and_then_requires(inner, next, pass) ==> #[trigger] call_requires(f, (pass,)),
        forall|pass: P, result: PassResult<'p, P, U>| #[trigger]
            call_ensures(f, (pass,), result) ==> and_then_ensures(inner, next, pass, result),
{
    move |pass: P| -> (result: PassResult<'p, P, U>)
        requires
            and_then_requires(inner, next, pass),
        ensures
            and_then_ensures(inner, next, pass, result),
        {
            match inner(pass) {
                Ok((value, rest)) => next(value, rest),
                Err(failure) => Err(failure),
            }
        }
}

/// `peek(inner)` restores the input: where it succeeds, its value is one that
/// `inner` returns on `pass`, and the pass that it returns holds the input
/// that `pass` held.
pub proof fn lemma_peek_restores_input<'p, P, F, O>(
    inner: F,
    pass: P,
    result: PassResult<'p, P, O>,
) where P: Pass<'p>, F: Fn(P) -> PassResult<'p, P, O>
    requires
        peek_ensures(inner, pass, result),
    ensures
        result matches Ok((value, rest)) ==> {
            &&& succeeds_with(inner, pass, value)
            &&& pass_input(rest) == pass_input(pass)
        },
{
}

/// `a` hands the pass back as it was wherever it fails on `pass`.
pub open spec fn keeps_pass_on_failure<'p, P, A, O>(a: A, pass: P) -> bool where
    P: Pass<'p>,
    A: Fn(P) -> PassResult<'p, P, O>,
 {
    forall|err: PassError<'p, P>, returned: P| #[trigger]
        call_ensures(a, (pass,), Err::<(O, P), (PassError<'p, P>, P)>((err, returned)))
            ==> returned == pass
}

/// `a` does not succeed on `pass`.
pub open spec fn never_succeeds<'p, P, A, O>(a: A, pass: P) -> bool where
    P: Pass<'p>,
    A: Fn(P) -> PassResult<'p, P, O>,
 {
    forall|value: O, rest: P|
        !#[trigger] call_ensures(a, (pass,), Ok::<(O, P), (PassError<'p, P>, P)>((value, rest)))
}

/// Where `a` fails on `pass` and hands it back as it was, `or(a, b)` returns
/// on `pass` what `b` returns on `pass`.
pub proof fn lemma_or_falls_back<'p, P, A, B, O>(a: A, b: B, pass: P, result: PassResult<'p, P, O>) where
    P: Pass<'p>,
    A: Fn(P) -> PassResult<'p, P, O>,
    B: Fn(P) -> PassResult<'p, P, O>,

    requires
        or_ensures(a, b, pass, result),
        never_succeeds(a, pass),
        keeps_pass_on_failure(a, pass),
    ensures
        call_ensures(b, (pass,), result),
{
    if result is Ok && call_ensures(a, (pass,), result) {
        let (value, rest) = result->Ok_0;
        assert(call_ensures(a, (pass,), Ok::<(O, P), (PassError<'p, P>, P)>((value, rest))));
    }
}

/// Where `a` succeeds on `pass`, `or(a, b)` does not try `b`: it returns a
/// success of `a`.
pub proof fn lemma_or_short_circuits<'p, P, A, B, O>(
    a: A,
    b: B,
    pass: P,
    result: PassResult<'p, P, O>,
) where
    P: Pass<'p>,
    A: Fn(P) -> PassResult<'p, P, O>,
    B: Fn(P) -> PassResult<'p, P, O>,

    requires
        or_ensures(a, b, pass, result),
        forall|err: PassError<'p, P>, returned: P|
            !#[trigger] call_ensures(
                a,
                (pass,),
                Err::<(O, P), (PassError<'p, P>, P)>((err, returned)),
            ),
    ensures
        result is Ok,
        call_ensures(a, (pass,), result),
{
}

} // verus!
