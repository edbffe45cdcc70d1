//! The completion handle of an invocation.

use vstd::prelude::*;

use crate::error::MemCheckFailure;

verus! {

/// What a completion handle stands for.
pub enum Completion<F> {
    /// The wrapped unit's own in-flight result.
    Called(F),
    /// A failure that was captured before the wrapped unit was touched, by the
    /// text of its cause.
    Failed(Option<Seq<char>>),
}

/// The handle that an invocation of the limiter returns.
///
/// It either stands for the wrapped unit's in-flight result or is resolved from
/// the start to a failure of the memory check. A handle is made per invocation
/// and used up by whoever awaits it.
#[derive(Debug)]
pub struct ResponseFuture<F> {
    state: ResponseState<F>,
}

#[derive(Debug)]
enum ResponseState<F> {
    Called { fut: F },
    MemCheckFailure { e: MemCheckFailure },
}

impl<F> View for ResponseFuture<F> {
    type V = Completion<F>;

    closed spec fn view(&self) -> Completion<F> {
        match self.state {
            ResponseState::Called { fut } => Completion::Called(fut),
            ResponseState::MemCheckFailure { e } => Completion::Failed(e@),
        }
    }
}

impl<F> ResponseFuture<F> {
    /// The handle of an invocation that was passed on to the wrapped unit.
    pub fn called(fut: F) -> (handle: Self)
        ensures
            handle@ == Completion::Called(fut),
    {
        ResponseFuture { state: ResponseState::Called { fut } }
    }

    /// A handle that yields `e` without touching the wrapped unit.
    pub fn failed(e: MemCheckFailure) -> (handle: Self)
        ensures
            handle@ == Completion::<F>::Failed(e@),
    {
        ResponseFuture { state: ResponseState::MemCheckFailure { e } }
    }

    /// Takes the handle apart: the wrapped unit's in-flight result to await, or
    /// the failure to yield at once.
    pub fn into_result(self) -> (parts: Result<F, MemCheckFailure>)
        ensures
            match self@ {
                Completion::Called(fut) => parts == Ok::<F, MemCheckFailure>(fut),
                Completion::Failed(cause) => parts matches Err(e) && e@ == cause,
            },
    {
        match self.state {
            ResponseState::Called { fut } => Ok(fut),
            ResponseState::MemCheckFailure { e } => Err(e),
        }
    }
}

} // verus!
