use feast::ascii::{
    ascii_alpha, ascii_alpha_lower, ascii_alpha_upper, ascii_alphabetic, ascii_alphanum,
    ascii_alphanumeric, ascii_digit, ascii_hexdigit, ascii_lowercase, ascii_uppercase,
    parse_ascii_digit,
};
use feast::input::{ErrorReason, ExpectedHint, Requirement, TokenTag, Unexpected};
use feast::pass::{PassResult, SlicePass, SlicePassContext, VerboseError};

type TestContext = SlicePassContext<'static, u8>;
type TestError = VerboseError<'static, TestContext>;
type TestPass = SlicePass<'static, u8, TestError>;

fn test_pass(input: &'static [u8]) -> TestPass {
    TestPass::from(input)
}

fn empty_pass() -> TestPass {
    test_pass(b"")
}

/// Every byte, each as an input of its own.
fn every_byte() -> &'static [u8] {
    let bytes: Vec<u8> = (0..=255u8).collect();
    bytes.leak()
}

/// Checks that `combinator` takes exactly the bytes that `class` holds of,
/// rejects every other byte and leaves the input as it was, and asks for one
/// byte on empty input.
fn assert_class(
    combinator: fn(TestPass) -> PassResult<'static, TestPass, u8>,
    class: fn(&u8) -> bool,
) {
    let bytes = every_byte();
    for i in 0..bytes.len() {
        let data = &bytes[i..];
        let byte = data[0];
        match combinator(test_pass(data)) {
            Ok((taken, rest)) => {
                assert!(class(&byte), "took {:#x}", byte);
                assert_eq!(taken, byte);
                assert_eq!(rest, test_pass(&data[1..]));
            }
            Err((err, kept)) => {
                assert!(!class(&byte), "rejected {:#x}", byte);
                assert_eq!(
                    err.input_error(),
                    &ErrorReason::Unexpected(Unexpected {
                        unexpected: TokenTag::Token(byte),
                        expecting: ExpectedHint::Nothing,
                    })
                );
                assert_eq!(kept, test_pass(data));
            }
        }
    }
    match combinator(empty_pass()) {
        Ok((taken, _)) => panic!("took {:#x} from empty input", taken),
        Err((err, kept)) => {
            assert_eq!(
                err.input_error(),
                &ErrorReason::Incomplete(Requirement::Exact(1))
            );
            assert_eq!(kept, empty_pass());
        }
    }
}

#[test]
fn ascii_test_valid_ascii_digit() {
    let pass = test_pass(b"1");

    match ascii_digit(pass.clone()) {
        Ok((b'1', pass_out)) => {
            assert_eq!(pass_out, empty_pass())
        }
        other => panic!("unexpected result {:?}", other),
    }

    match parse_ascii_digit(pass) {
        Ok((1, pass_out)) => {
            assert_eq!(pass_out, empty_pass())
        }
        other => panic!("unexpected result {:?}", other),
    }
}

#[test]
fn byte_test_valid_ascii_digit() {
    let pass = test_pass(b"1");

    match feast::byte::ascii_digit(pass) {
        Ok((b'1', pass_out)) => {
            assert_eq!(pass_out, empty_pass())
        }
        other => panic!("unexpected result {:?}", other),
    }
}

#[test]
fn ascii_digit_on_empty_input_asks_for_one_byte() {
    match ascii_digit(empty_pass()) {
        Ok(_) => panic!("took a digit from empty input"),
        Err((err, pass_out)) => {
            assert_eq!(
                err.input_error(),
                &ErrorReason::Incomplete(Requirement::Exact(1))
            );
            assert_eq!(pass_out, empty_pass());
        }
    }
}

#[test]
fn classes_agree_with_the_ascii_tables() {
    assert_class(ascii_lowercase, u8::is_ascii_lowercase);
    assert_class(ascii_uppercase, u8::is_ascii_uppercase);
    assert_class(ascii_alphabetic, u8::is_ascii_alphabetic);
    assert_class(ascii_digit, u8::is_ascii_digit);
    assert_class(ascii_hexdigit, u8::is_ascii_hexdigit);
    assert_class(ascii_alphanumeric, u8::is_ascii_alphanumeric);
    assert_class(ascii_alpha_lower, u8::is_ascii_lowercase);
    assert_class(ascii_alpha_upper, u8::is_ascii_uppercase);
    assert_class(ascii_alpha, u8::is_ascii_alphabetic);
    assert_class(ascii_alphanum, u8::is_ascii_alphanumeric);
    assert_class(feast::byte::ascii_digit, u8::is_ascii_digit);
}

#[test]
fn parse_ascii_digit_gives_the_value_of_each_digit() {
    let digits: &'static [u8] = b"0123456789";
    for i in 0..digits.len() {
        match parse_ascii_digit(test_pass(&digits[i..])) {
            Ok((value, rest)) => {
                assert_eq!(usize::from(value), i);
                assert_eq!(rest, test_pass(&digits[i + 1..]));
            }
            Err((err, _)) => panic!("failed with {:?}", err),
        }
    }
}

#[test]
fn parse_ascii_digit_rejects_what_is_no_digit() {
    for data in [&b"/"[..], &b":"[..], &b"a"[..], &b" 1"[..]] {
        match parse_ascii_digit(test_pass(data)) {
            Ok((value, _)) => panic!("parsed {}", value),
            Err((err, kept)) => {
                assert_eq!(
                    err.input_error(),
                    &ErrorReason::Unexpected(Unexpected {
                        unexpected: TokenTag::Token(data[0]),
                        expecting: ExpectedHint::Nothing,
                    })
                );
                assert_eq!(kept, test_pass(data));
            }
        }
    }
    match parse_ascii_digit(empty_pass()) {
        Ok((value, _)) => panic!("parsed {}", value),
        Err((err, kept)) => {
            assert_eq!(
                err.input_error(),
                &ErrorReason::Incomplete(Requirement::Exact(1))
            );
            assert_eq!(kept, empty_pass());
        }
    }
}
