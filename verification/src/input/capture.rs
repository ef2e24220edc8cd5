use vstd::prelude::*;
use vstd::std_specs::convert::FromSpecImpl;

verus! {

/// A captured value that is either complete or still indeterminate, as the
/// tail of a streamed input is until more of it has arrived.
pub trait Capture: Sized {
    /// The value type captured.
    type Value;

    /// Whether the capture is complete.
    spec fn complete(&self) -> bool;

    /// The value captured.
    spec fn value(&self) -> Self::Value;

    /// Returns whether or not the capture is complete.
    ///
    /// Captures are complete when either created from a determinate value,
    /// or have been resolved from an indeterminate value.
    fn is_complete(&self) -> (complete: bool)
        ensures
            complete == self.complete(),
    ;

    /// Resolves the value to be complete.
    fn resolve(&mut self)
        ensures
            final(self).complete(),
            final(self).value() == old(self).value(),
    ;

    /// Consumes the capture to get the value.
    fn into_value(self) -> (value: Self::Value)
        ensures
            value == self.value(),
    ;
}

/// A capture that can be built from a bare value.
pub trait BuildableCapture: Capture {
    /// Builds a capture from a complete value.
    fn from_determinate(value: Self::Value) -> (capture: Self)
        ensures
            capture.complete(),
            capture.value() == value,
    ;

    /// Builds a capture from an indeterminate value.
    ///
    /// A capture may resolve the value to be complete at once if captures of its
    /// type are always complete.
    fn from_indeterminate(value: Self::Value) -> (capture: Self)
        ensures
            capture.value() == value,
    ;

    /// Maps one capture to another, converting its value with `From`. A
    /// complete capture stays complete.
    fn map<A>(parent: A) -> (mapped: Self) where A: Capture, Self::Value: From<A::Value>
        ensures
            parent.complete() ==> mapped.complete(),
            call_ensures(
                <Self::Value as From<A::Value>>::from,
                (parent.value(),),
                mapped.value(),
            ),
    {
        if parent.is_complete() {
            Self::from_determinate(<Self::Value as From<A::Value>>::from(parent.into_value()))
        } else {
            Self::from_indeterminate(<Self::Value as From<A::Value>>::from(parent.into_value()))
        }
    }
}

/// A capture that can be indeterminate.
#[derive(Debug, PartialEq)]
pub struct StreamCapture<T> {
    value: T,
    complete: bool,
}

impl<T> StreamCapture<T> {
    /// A complete capture of `value`.
    pub fn from_determinate(value: T) -> (capture: Self)
        ensures
            capture.complete(),
            capture.value() == value,
    {
        Self { value, complete: true }
    }

    /// A capture of `value` that is yet to be resolved.
    pub fn from_indeterminate(value: T) -> (capture: Self)
        ensures
            !capture.complete(),
            capture.value() == value,
    {
        Self { value, complete: false }
    }
}

impl<T> Capture for StreamCapture<T> {
    type Value = T;

    closed spec fn complete(&self) -> bool {
        self.complete
    }

    closed spec fn value(&self) -> T {
        self.value
    }

    fn is_complete(&self) -> (complete: bool) {
        self.complete
    }

    fn resolve(&mut self) {
        self.complete = true;
    }

    fn into_value(self) -> (value: T) {
        self.value
    }
}

impl<T> BuildableCapture for StreamCapture<T> {
    fn from_determinate(value: T) -> (capture: Self) {
        StreamCapture::from_determinate(value)
    }

    fn from_indeterminate(value: T) -> (capture: Self)
        ensures
            !capture.complete(),
    {
        StreamCapture::from_indeterminate(value)
    }
}

/// A capture that cannot be indeterminate.
#[derive(Debug, PartialEq)]
pub struct CompleteCapture<T> {
    value: T,
}

impl<T> CompleteCapture<T> {
    /// A complete capture of `value`.
    pub fn from_determinate(value: T) -> (capture: Self)
        ensures
            capture.complete(),
            capture.value() == value,
    {
        Self { value }
    }
}

impl<T> FromSpecImpl<T> for CompleteCapture<T> {
    open spec fn obeys_from_spec() -> bool {
        true
    }

    closed spec fn from_spec(value: T) -> Self {
        CompleteCapture { value }
    }
}

impl<T> From<T> for CompleteCapture<T> {
    fn from(value: T) -> (capture: Self)
        ensures
            capture.complete(),
            capture.value() == value,
    {
        Self::from_determinate(value)
    }
}

impl<T> Capture for CompleteCapture<T> {
    type Value = T;

    open spec fn complete(&self) -> bool {
        true
    }

    closed spec fn value(&self) -> T {
        self.value
    }

    fn is_complete(&self) -> (complete: bool) {
        true
    }

    fn resolve(&mut self) {
    }

    fn into_value(self) -> (value: T) {
        self.value
    }
}

impl<T> BuildableCapture for CompleteCapture<T> {
    fn from_determinate(value: T) -> (capture: Self) {
        CompleteCapture::from_determinate(value)
    }

    fn from_indeterminate(value: T) -> (capture: Self) {
        CompleteCapture::from_determinate(value)
    }
}

} // verus!
