use vstd::prelude::*;

verus! {

/// Whether an asynchronous step has produced its value yet.
pub enum Async<T> {
    Ready(T),
    NotReady,
}

/// Why an asynchronous construction failed. Every factory of handlers,
/// decorators and reducers reports its failures in this one type.
#[derive(Debug, PartialEq, Eq)]
pub enum ConstructionError {
    /// A construction step failed; the message says why.
    Failed(String),
    /// The construction was advanced again after it had finished.
    Finished,
}

/// The result of advancing an asynchronous operation by one step.
pub type Poll<T> = Result<Async<T>, ConstructionError>;

/// An asynchronous construction, driven by a scheduler that calls `poll`
/// until it returns a value or an error. It is not to be polled after that.
pub trait Construction {
    type Item;

    /// Advance the construction by one step.
    fn poll(&mut self) -> Poll<Self::Item>;
}

/// A construction that is done at its first step.
pub struct Immediate<T> {
    pub value: Option<T>,
}

impl<T> Immediate<T> {
    /// A construction that yields `value` at its first step.
    pub fn new(value: T) -> (r: Self)
        ensures
            r.value == Some(value),
    {
        Immediate { value: Some(value) }
    }
}

impl<T> Construction for Immediate<T> {
    type Item = T;

    fn poll(&mut self) -> (r: Poll<T>)
        ensures
            r == match old(self).value {
                Some(v) => Ok(Async::Ready(v)),
                None => Err(ConstructionError::Finished),
            },
            final(self).value is None,
    {
        let mut value = None;
        std::mem::swap(&mut value, &mut self.value);
        match value {
            Some(v) => Ok(Async::Ready(v)),
            None => Err(ConstructionError::Finished),
        }
    }
}

} // verus!
