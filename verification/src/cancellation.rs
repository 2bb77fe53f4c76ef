//! Cancellation of jobs: the token a running job watches, with what the session knows of
//! it.
use vstd::prelude::*;
use tokio_util::sync::CancellationToken;

verus! {

#[verifier::external_type_specification]
#[verifier::external_body]
pub struct ExCancellationToken(tokio_util::sync::CancellationToken);

/// A job's cancellation token.
pub struct JobToken {
    token: CancellationToken,
    /// Which cancellation state the token is a handle on; handles made by `share` are on
    /// the same state.
    state: Ghost<int>,
    /// Whether the session has cancelled the state, through this handle or through the
    /// one it was shared from.
    cancel_requested: Ghost<bool>,
}

impl JobToken {
    /// Which cancellation state the token is a handle on.
    pub closed spec fn state(&self) -> int {
        self.state@
    }

    /// Whether the session has cancelled the token's state, through this handle or
    /// through the one it was shared from.
    pub closed spec fn cancel_requested(&self) -> bool {
        self.cancel_requested@
    }

    /// `CancellationToken::new`: a token on a state of its own, not cancelled.
    #[verifier::external_body]
    pub(crate) fn new() -> (t: JobToken)
        ensures
            !t.cancel_requested(),
    {
        JobToken { token: CancellationToken::new(), state: Ghost(0), cancel_requested: Ghost(false) }
    }

    /// `CancellationToken::clone`: another handle on the same cancellation state.
    #[verifier::external_body]
    pub(crate) fn share(&self) -> (r: JobToken)
        ensures
            r.state() == self.state(),
            r.cancel_requested() == self.cancel_requested(),
    {
        JobToken { token: self.token.clone(), state: self.state, cancel_requested: self.cancel_requested }
    }

    /// `CancellationToken::cancel`: cancels the state, for every handle on it.
    #[verifier::external_body]
    pub(crate) fn cancel(&mut self)
        ensures
            final(self).state() == old(self).state(),
            final(self).cancel_requested(),
    {
        self.token.cancel();
    }

    /// The token itself, for the task that runs the job to watch.
    pub fn token(&self) -> &CancellationToken {
        &self.token
    }
}

} // verus!
