//! Error types.

use vstd::prelude::*;

verus! {

/// The error that the limiter reports when its memory provider was unable to
/// determine the available amount of memory.
///
/// It carries the provider's diagnostic cause. A failure without a cause is
/// what is left behind once the cause has been taken out.
#[derive(Debug)]
pub struct MemCheckFailure {
    inner: Option<String>,
}

impl View for MemCheckFailure {
    type V = Option<Seq<char>>;

    /// The text of the cause, if the failure still carries one.
    closed spec fn view(&self) -> Option<Seq<char>> {
        match self.inner {
            Some(cause) => Some(cause@),
            None => None,
        }
    }
}

impl MemCheckFailure {
    /// A failure that carries `inner` as its cause.
    pub fn new(inner: String) -> (failure: Self)
        ensures
            failure@ == Some(inner@),
    {
        MemCheckFailure { inner: Some(inner) }
    }

    /// The cause, if the failure still carries one.
    pub fn cause(&self) -> (cause: Option<&String>)
        ensures
            match cause {
                Some(text) => self@ == Some(text@),
                None => self@ is None,
            },
    {
        match &self.inner {
            Some(text) => Some(text),
            None => None,
        }
    }

    /// Gives up the failure for its cause.
    pub fn into_cause(self) -> (cause: Option<String>)
        ensures
            match cause {
                Some(text) => self@ == Some(text@),
                None => self@ is None,
            },
    {
        self.inner
    }

    /// Moves the failure out, leaving one without a cause in its place.
    pub fn take(&mut self) -> (taken: Self)
        ensures
            taken@ == old(self)@,
            final(self)@ is None,
    {
        MemCheckFailure { inner: self.inner.take() }
    }
}

impl Default for MemCheckFailure {
    /// A failure without a cause.
    fn default() -> (failure: Self)
        ensures
            failure@ is None,
    {
        MemCheckFailure { inner: None }
    }
}

} // verus!
