use feast::combinator::{tag, take, take_token, take_until, token};
use feast::input::{
    Error as InputError, ErrorReason, ExpectedHint, Requirement, SliceInput, TokenTag, Unexpected,
};
use feast::pass::{
    BasicByteSlicePass, Context, Error, Pass, PassResult, SilentError, SlicePass,
    SlicePassContext, VerboseError,
};

type TestContext = SlicePassContext<'static, u8>;
type TestError = VerboseError<'static, TestContext>;
type TestPass = SlicePass<'static, u8, TestError>;

fn test_pass(input: &'static [u8]) -> TestPass {
    TestPass::from(input)
}

fn basic_pass(input: &'static [u8]) -> BasicByteSlicePass<'static> {
    BasicByteSlicePass {
        input: SliceInput::from(input),
    }
}

#[test]
fn a_pass_starts_with_the_whole_input() {
    let pass = test_pass(b"hello");
    assert_eq!(pass.input(), SliceInput::from(&b"hello"[..]));
    assert_eq!(pass.context().input(), SliceInput::from(&b"hello"[..]));
    assert_eq!(pass.into_context().input(), SliceInput::from(&b"hello"[..]));
}

#[test]
fn input_is_a_view_and_leaves_the_pass_as_it_is() {
    let pass = test_pass(b"hello");
    let first = pass.input();
    let second = pass.input();
    assert_eq!(first, second);
    assert_eq!(pass, test_pass(b"hello"));
}

#[test]
fn commit_replaces_the_input() {
    let pass = test_pass(b"hello").commit(SliceInput::from(&b"lo"[..]));
    assert_eq!(pass.input(), SliceInput::from(&b"lo"[..]));
    assert_eq!(pass, test_pass(b"lo"));
    let pass = pass.commit(SliceInput::empty());
    assert_eq!(pass, test_pass(b""));
}

#[test]
fn clone_gives_an_equal_pass() {
    let pass = test_pass(b"hello");
    let copy = pass.clone();
    assert_eq!(copy, pass);
    assert_eq!(copy.context().clone(), test_pass(b"hello").into_context());
}

#[test]
fn with_error_hands_the_pass_back() {
    let pass = test_pass(b"hello");
    let err = TestError::from_input_error(
        pass.context(),
        ErrorReason::Incomplete(Requirement::Unknown),
    );
    let result: PassResult<'static, TestPass, u8> = pass.with_error(err.clone());
    assert_eq!(result, Err((err, test_pass(b"hello"))));
}

#[test]
fn with_input_result_keeps_a_success_and_converts_a_failure() {
    let ok: PassResult<'static, TestPass, u8> = test_pass(b"hello").with_input_result(Ok(7));
    assert_eq!(ok, Ok((7, test_pass(b"hello"))));

    let reason = ErrorReason::Incomplete(Requirement::Between(1, 2));
    let err: PassResult<'static, TestPass, u8> =
        test_pass(b"hello").with_input_result(Err(reason.clone()));
    match err {
        Ok(_) => panic!("a failure became a success"),
        Err((err, pass)) => {
            assert_eq!(err.input_error(), &reason);
            assert_eq!(pass, test_pass(b"hello"));
        }
    }
}

#[test]
fn with_input_error_makes_each_kind_of_error() {
    let incomplete: PassResult<'static, TestPass, u8> =
        test_pass(b"ab").with_input_error_incomplete(Requirement::Exact(3));
    match incomplete {
        Ok(_) => panic!("a failure became a success"),
        Err((err, pass)) => {
            assert_eq!(
                err.input_error(),
                &ErrorReason::Incomplete(Requirement::Exact(3))
            );
            assert!(!err.input_error().is_fatal());
            assert_eq!(pass, test_pass(b"ab"));
        }
    }

    let unexpected = Unexpected {
        unexpected: TokenTag::Tag(&b"ab"[..]),
        expecting: ExpectedHint::Description("something else"),
    };
    let fatal: PassResult<'static, TestPass, u8> =
        test_pass(b"ab").with_input_error_unexpected(unexpected.clone());
    match fatal {
        Ok(_) => panic!("a failure became a success"),
        Err((err, pass)) => {
            assert_eq!(err.input_error(), &ErrorReason::Unexpected(unexpected));
            assert!(err.input_error().is_fatal());
            assert_eq!(pass, test_pass(b"ab"));
        }
    }

    let reason = ErrorReason::Incomplete(Requirement::Unknown);
    let plain: PassResult<'static, TestPass, u8> =
        test_pass(b"ab").with_input_error(reason.clone());
    match plain {
        Ok(_) => panic!("a failure became a success"),
        Err((err, pass)) => {
            assert_eq!(err.input_error(), &reason);
            assert_eq!(pass, test_pass(b"ab"));
        }
    }
}

#[test]
fn verbose_error_keeps_the_input_error() {
    let pass = test_pass(b"ab");
    let reason = ErrorReason::Unexpected(Unexpected {
        unexpected: TokenTag::Token(b'a'),
        expecting: ExpectedHint::Token(b'b'),
    });
    let err = TestError::from_input_error(pass.context(), reason.clone());
    assert_eq!(err.input_error(), &reason);
    assert_eq!(err.clone(), err);
}

#[test]
fn silent_error_keeps_only_whether_it_is_fatal() {
    let incomplete = <SilentError as InputError>::incomplete(Requirement::Exact(1));
    assert!(!incomplete.is_fatal());
    assert!(incomplete.is_completable());
    assert_eq!(
        incomplete,
        <SilentError as InputError>::incomplete(Requirement::Unknown)
    );

    let unexpected = <SilentError as InputError>::unexpected(Unexpected {
        unexpected: TokenTag::Token(b'a'),
        expecting: ExpectedHint::Nothing,
    });
    assert!(unexpected.is_fatal());
    assert!(!unexpected.is_completable());
    assert_ne!(incomplete, unexpected);

    let pass = basic_pass(b"ab");
    let made = <SilentError as Error>::from_input_error(pass.context(), unexpected);
    assert!(made.is_fatal());
}

#[test]
fn combinators_run_on_a_basic_pass() {
    match take_token()(basic_pass(b"ab")) {
        Ok((token, rest)) => {
            assert_eq!(token, b'a');
            assert_eq!(rest, basic_pass(b"b"));
        }
        Err((err, _)) => panic!("failed with {:?}", err),
    }

    match tag(&b"ab"[..])(basic_pass(b"abc")) {
        Ok((taken, rest)) => {
            assert_eq!(taken, SliceInput::from(&b"ab"[..]));
            assert_eq!(rest, basic_pass(b"c"));
        }
        Err((err, _)) => panic!("failed with {:?}", err),
    }

    match take_until(|t: &u8| *t == b'c')(basic_pass(b"abc")) {
        Ok((taken, rest)) => {
            assert_eq!(taken, SliceInput::from(&b"ab"[..]));
            assert_eq!(rest, basic_pass(b"c"));
        }
        Err((err, _)) => panic!("failed with {:?}", err),
    }
}

#[test]
fn a_basic_pass_fails_silently_and_unchanged() {
    match token(b'x')(basic_pass(b"ab")) {
        Ok(_) => panic!("took a token that was not there"),
        Err((err, kept)) => {
            assert!(err.is_fatal());
            assert_eq!(kept, basic_pass(b"ab"));
        }
    }

    match take(3)(basic_pass(b"ab")) {
        Ok(_) => panic!("took more than there was"),
        Err((err, kept)) => {
            assert!(!err.is_fatal());
            assert_eq!(kept, basic_pass(b"ab"));
        }
    }
}

#[test]
fn a_basic_pass_is_its_own_context() {
    let pass = basic_pass(b"ab");
    assert_eq!(pass.context(), &basic_pass(b"ab"));
    assert_eq!(Context::input(&pass), SliceInput::from(&b"ab"[..]));
    assert_eq!(
        pass.commit(SliceInput::from(&b"b"[..])).into_context(),
        basic_pass(b"b")
    );
}
