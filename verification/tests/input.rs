use feast::input::{
    Error, ErrorReason, ExactSizeInput, ExpectedHint, Input, InputMarker, Requirement, SliceInput,
    SliceIter, SliceMarker, Span, TokenTag, Unexpected,
};

type MockToken = u8;
type MockError = ErrorReason<'static, MockToken>;

const MOCK_DATA: &[u8] = b"hello:world";

fn slice_input(input: &'static [u8]) -> SliceInput<'static, MockToken> {
    SliceInput::from(input)
}

fn mock_slice_input() -> SliceInput<'static, MockToken> {
    slice_input(MOCK_DATA)
}

fn empty_slice_input() -> SliceInput<'static, MockToken> {
    SliceInput::empty()
}

#[test]
fn test_slice_input_split_first() {
    assert_eq!(
        mock_slice_input().split_first::<MockError>(),
        Ok((b'h', slice_input(b"ello:world")))
    );

    assert_eq!(
        empty_slice_input().split_first::<MockError>(),
        Err(ErrorReason::Incomplete(Requirement::Exact(1)))
    );
}

#[test]
fn test_slice_input_split_at() {
    assert_eq!(
        mock_slice_input().split_at::<MockError>(6),
        Ok((slice_input(b"hello:"), slice_input(b"world")))
    );

    assert_eq!(
        mock_slice_input().split_at::<MockError>(MOCK_DATA.len()),
        Ok((mock_slice_input(), empty_slice_input()))
    );

    assert_eq!(
        mock_slice_input().split_at::<MockError>(MOCK_DATA.len() + 1),
        Err(ErrorReason::Incomplete(Requirement::Exact(1)))
    );
}

#[test]
fn test_slice_input_marker() {
    assert_eq!(mock_slice_input().marker().next(), Some(b'h'));
}

#[test]
fn split_at_zero_gives_an_empty_section_and_the_whole_input() {
    assert_eq!(
        mock_slice_input().split_at::<MockError>(0),
        Ok((empty_slice_input(), mock_slice_input()))
    );
    assert_eq!(
        empty_slice_input().split_at::<MockError>(0),
        Ok((empty_slice_input(), empty_slice_input()))
    );
}

#[test]
fn split_at_every_length_reconstructs_the_input() {
    for mid in 0..=MOCK_DATA.len() {
        match mock_slice_input().split_at::<MockError>(mid) {
            Ok((section, rest)) => {
                assert_eq!(section.len(), mid);
                let mut joined = section.as_slice().to_vec();
                joined.extend_from_slice(rest.as_slice());
                assert_eq!(joined.as_slice(), MOCK_DATA);
            }
            Err(err) => panic!("split at {} failed with {:?}", mid, err),
        }
    }
}

#[test]
fn split_at_beyond_the_length_asks_for_what_is_missing() {
    for missing in 1..5usize {
        assert_eq!(
            mock_slice_input().split_at::<MockError>(MOCK_DATA.len() + missing),
            Err(ErrorReason::Incomplete(Requirement::Exact(missing)))
        );
    }
    assert_eq!(
        empty_slice_input().split_at::<MockError>(3),
        Err(ErrorReason::Incomplete(Requirement::Exact(3)))
    );
}

#[test]
fn split_mark_splits_where_the_marker_stood() {
    let input = mock_slice_input();
    let mut marker = input.marker();
    assert_eq!(marker.next(), Some(b'h'));
    assert_eq!(marker.next(), Some(b'e'));
    let mark = marker.mark();
    assert_eq!(
        input.split_mark::<MockError>(mark),
        Ok((slice_input(b"he"), slice_input(b"llo:world")))
    );
}

#[test]
fn split_mark_beyond_the_length_asks_for_what_is_missing() {
    let long = slice_input(b"abcdef");
    let mut marker = long.marker();
    assert!(marker.skip(5));
    let mark = marker.mark();
    assert_eq!(
        slice_input(b"abc").split_mark::<MockError>(mark),
        Err(ErrorReason::Incomplete(Requirement::Exact(2)))
    );
}

#[test]
fn is_empty_agrees_with_len() {
    assert!(empty_slice_input().is_empty());
    assert_eq!(empty_slice_input().len(), 0);
    assert!(!mock_slice_input().is_empty());
    assert_eq!(mock_slice_input().len(), 11);
}

#[test]
fn sections_are_read_by_position() {
    let input = mock_slice_input();
    assert_eq!(input.token_at(0), b'h');
    assert_eq!(input.token_at(5), b':');
    assert_eq!(input[10], b'd');
    assert_eq!(input.as_slice(), MOCK_DATA);
}

#[test]
fn marker_leaves_the_input_as_it_was() {
    let input = mock_slice_input();
    let mut marker = input.marker();
    while marker.next().is_some() {}
    assert!(marker.at_end());
    assert_eq!(input, mock_slice_input());
}

#[test]
fn marker_next_walks_every_token_then_stops() {
    let mut marker = slice_input(b"abc").marker();
    assert_eq!(marker.len(), 3);
    assert_eq!(marker.next(), Some(b'a'));
    assert_eq!(marker.next(), Some(b'b'));
    assert_eq!(marker.mark(), 2);
    assert_eq!(marker.next(), Some(b'c'));
    assert_eq!(marker.next(), None);
    assert_eq!(marker.next(), None);
    assert_eq!(marker.mark(), 3);
    assert_eq!(marker.len(), 0);
}

#[test]
fn marker_peek_does_not_advance() {
    let mut marker = slice_input(b"ab").marker();
    assert_eq!(marker.peek(), Some(b'a'));
    assert_eq!(marker.peek(), Some(b'a'));
    assert_eq!(marker.mark(), 0);
    assert_eq!(marker.next(), Some(b'a'));
    assert_eq!(marker.peek(), Some(b'b'));
    assert_eq!(marker.next(), Some(b'b'));
    assert_eq!(marker.peek(), None);
    assert_eq!(empty_slice_input().marker().peek(), None);
}

#[test]
fn marker_skip_reports_whether_enough_tokens_were_left() {
    let mut marker = slice_input(b"abcde").marker();
    assert!(marker.skip(2));
    assert_eq!(marker.mark(), 2);
    assert_eq!(marker.peek(), Some(b'c'));
    assert!(!marker.skip(4));
    assert_eq!(marker.mark(), 2);
    assert!(marker.skip(0));
    assert_eq!(marker.mark(), 2);
    assert!(marker.skip(3));
    assert_eq!(marker.mark(), 5);
    assert!(marker.at_end());
    assert!(!marker.skip(1));
    assert!(marker.skip(0));
}

#[test]
fn marker_child_scans_on_its_own() {
    let mut parent = slice_input(b"abc").marker();
    assert_eq!(parent.next(), Some(b'a'));
    let mut child = parent.child();
    assert_eq!(child.mark(), 1);
    assert_eq!(child.next(), Some(b'b'));
    assert_eq!(child.next(), Some(b'c'));
    assert_eq!(child.mark(), 3);
    assert_eq!(parent.mark(), 1);
    assert_eq!(parent.next(), Some(b'b'));
    let copy = parent.clone();
    assert_eq!(copy.mark(), 2);
}

#[test]
fn marker_from_a_slice_starts_at_the_front() {
    let marker = SliceMarker::from(&b"xy"[..]);
    assert_eq!(marker.mark(), 0);
    assert_eq!(marker.len(), 2);
    assert!(!marker.at_end());
    assert!(SliceMarker::<u8>::from(&[][..]).at_end());
}

#[test]
fn slice_iter_hands_out_each_token_once() {
    let mut iter = SliceIter::new(&b"ab"[..]);
    assert_eq!(iter.len(), 2);
    assert_eq!(iter.next(), Some(b'a'));
    assert_eq!(iter.len(), 1);
    assert_eq!(iter.next(), Some(b'b'));
    assert_eq!(iter.len(), 0);
    assert_eq!(iter.next(), None);
    assert_eq!(iter.next(), None);
}

#[test]
fn incomplete_is_never_fatal() {
    for requirement in [
        Requirement::Exact(1),
        Requirement::Exact(0),
        Requirement::Between(1, 4),
        Requirement::Unknown,
    ] {
        let error = MockError::incomplete(requirement.clone());
        assert_eq!(error, ErrorReason::Incomplete(requirement));
        assert!(!error.is_fatal());
        assert!(Error::is_completable(&error));
        assert!(!Error::is_fatal(&error));
    }
}

#[test]
fn unexpected_is_always_fatal() {
    let hints = [
        ExpectedHint::Nothing,
        ExpectedHint::Token(b'a'),
        ExpectedHint::Tag(&b"ab"[..]),
        ExpectedHint::Description("a letter"),
        ExpectedHint::OneOf(&[ExpectedHint::Token(b'a'), ExpectedHint::Token(b'b')]),
    ];
    for expecting in hints {
        let unexpected = Unexpected {
            unexpected: TokenTag::Token(b'?'),
            expecting,
        };
        let error = MockError::unexpected(unexpected.clone());
        assert_eq!(error, ErrorReason::Unexpected(unexpected));
        assert!(error.is_fatal());
        assert!(!Error::is_completable(&error));
        assert!(Error::is_fatal(&error));
    }
}

#[test]
fn span_holds_its_two_marks() {
    let span = Span::new(2usize, 7usize);
    assert_eq!(span.from, 2);
    assert_eq!(span.to, 7);
    assert_eq!(span, Span { from: 2, to: 7 });
}
