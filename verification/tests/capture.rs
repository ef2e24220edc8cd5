use feast::input::{BuildableCapture, Capture, CompleteCapture, StreamCapture};

#[test]
fn stream_capture_tracks_completeness() {
    let complete = StreamCapture::from_determinate(7u8);
    assert!(complete.is_complete());
    assert_eq!(complete.into_value(), 7);

    let partial = StreamCapture::from_indeterminate(7u8);
    assert!(!partial.is_complete());
    assert_eq!(partial.into_value(), 7);
}

#[test]
fn resolve_makes_a_capture_complete_for_good() {
    let mut capture = StreamCapture::from_indeterminate(3u32);
    assert!(!capture.is_complete());
    capture.resolve();
    assert!(capture.is_complete());
    capture.resolve();
    assert!(capture.is_complete());
    assert_eq!(capture, StreamCapture::from_determinate(3u32));
    assert_eq!(capture.into_value(), 3);
}

#[test]
fn resolve_is_a_no_op_on_complete_values() {
    let mut capture = CompleteCapture::from_determinate(9u16);
    assert!(capture.is_complete());
    capture.resolve();
    assert!(capture.is_complete());
    assert_eq!(capture.into_value(), 9);

    let mut token = b'x';
    assert!(token.is_complete());
    token.resolve();
    assert!(token.is_complete());
    assert_eq!(token.into_value(), b'x');

    let mut c = 'y';
    c.resolve();
    assert!(Capture::is_complete(&c));
    assert_eq!(Capture::into_value(c), 'y');
}

#[test]
fn complete_capture_is_complete_however_it_is_built() {
    let a = <CompleteCapture<u8> as BuildableCapture>::from_determinate(1);
    let b = <CompleteCapture<u8> as BuildableCapture>::from_indeterminate(1);
    assert!(a.is_complete());
    assert!(b.is_complete());
    assert_eq!(a, b);
}

#[test]
fn complete_capture_is_made_from_a_bare_value() {
    let capture = CompleteCapture::from(4u8);
    assert!(capture.is_complete());
    assert_eq!(capture, CompleteCapture::from_determinate(4u8));
    let converted: CompleteCapture<char> = 'c'.into();
    assert_eq!(converted.into_value(), 'c');
}

#[test]
fn stream_capture_is_built_as_asked() {
    let a = <StreamCapture<u8> as BuildableCapture>::from_determinate(1);
    let b = <StreamCapture<u8> as BuildableCapture>::from_indeterminate(1);
    assert!(a.is_complete());
    assert!(!b.is_complete());
    assert_eq!(a.into_value(), b.into_value());
}

#[test]
fn map_converts_the_value_and_keeps_completeness() {
    let complete: StreamCapture<u32> = BuildableCapture::map(StreamCapture::from_determinate(5u8));
    assert!(complete.is_complete());
    assert_eq!(complete.into_value(), 5u32);

    let partial: StreamCapture<u32> = BuildableCapture::map(StreamCapture::from_indeterminate(5u8));
    assert!(!partial.is_complete());
    assert_eq!(partial.into_value(), 5u32);

    let forced: CompleteCapture<u64> = BuildableCapture::map(StreamCapture::from_indeterminate(5u8));
    assert!(forced.is_complete());
    assert_eq!(forced.into_value(), 5u64);

    let token: StreamCapture<u32> = BuildableCapture::map('a');
    assert!(token.is_complete());
    assert_eq!(token.into_value(), 'a' as u32);
}
