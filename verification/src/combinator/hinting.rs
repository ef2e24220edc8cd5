use vstd::prelude::*;

use crate::pass::{Pass, PassResult};

verus! {

/// Names what `inner` accepts, for diagnostics. What `inner` returns is
/// returned as it is: a success unchanged, and a failure with the error of
/// `inner`, fatal or not as it was.
pub fn hint<'p, P, F, O>(inner: F, _description: &'static str) -> (f: impl Fn(P) -> PassResult<
    'p,
    P,
    O,
>) where P: Pass<'p>, F: Fn(P) -> PassResult<'p, P, O>
    ensures
        forall|pass: P| call_requires(inner, (pass,)) ==> #[trigger] call_requires(f, (pass,)),
        forall|pass: P, result: PassResult<'p, P, O>| #[trigger]
            call_ensures(f, (pass,), result) ==> call_ensures(inner, (pass,), result),
{
    move |pass: P| -> (result: PassResult<'p, P, O>)
        requires
            call_requires(inner, (pass,)),
        ensures
            call_ensures(inner, (pass,), result),
        {
            match inner(pass) {
                Err((err, pass)) => Err((err, pass)),
                Ok(success) => Ok(success),
            }
        }
}

} // verus!
