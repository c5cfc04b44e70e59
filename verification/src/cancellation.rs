//! The cancellation token through which every task learns that it is to stop.
//!
//! Whether a token is cancelled changes behind shared references, so no value of
//! it says whether it is. What a value can say is what was done with the handle
//! that it holds: the types here hold a handle that was just made, one that was
//! given, and one through which the token was cancelled. Each is made in one place
//! only, and a handle that was cancelled is never again in one of the others. They
//! say nothing of what is done through clones of the handle; the library makes no
//! clone.

use tokio_util::sync::CancellationToken;
use vstd::prelude::*;

verus! {

/// `tokio_util::sync::CancellationToken`, of which nothing is known but which one
/// it is: its clones share the state of being cancelled.
#[verifier::external_type_specification]
#[verifier::external_body]
pub struct ExCancellationToken(CancellationToken);

/// A handle to a token that was made here, through which it was not cancelled.
pub struct FreshToken {
    token: CancellationToken,
}

/// A handle that was given to the library, through which the library has not
/// cancelled the token.
pub struct GivenToken {
    token: CancellationToken,
}

/// A handle through which its token was cancelled. The token stays so: it never
/// ceases to be cancelled.
pub struct CancelledToken {
    token: CancellationToken,
}

impl FreshToken {
    /// The token.
    pub closed spec fn token(self) -> CancellationToken {
        self.token
    }

    /// The token.
    pub(crate) fn as_token(&self) -> (token: &CancellationToken)
        ensures
            *token == self.token(),
    {
        &self.token
    }

    /// The token, as any other.
    pub(crate) fn into_token(self) -> (token: CancellationToken)
        ensures
            token == self.token(),
    {
        self.token
    }
}

impl GivenToken {
    /// The token.
    pub closed spec fn token(self) -> CancellationToken {
        self.token
    }

    /// Takes the handle that is given.
    pub(crate) fn new(token: CancellationToken) -> (given: GivenToken)
        ensures
            given.token() == token,
    {
        GivenToken { token }
    }

    /// The token.
    pub(crate) fn as_token(&self) -> (token: &CancellationToken)
        ensures
            *token == self.token(),
    {
        &self.token
    }

    /// The token, as any other.
    pub(crate) fn into_token(self) -> (token: CancellationToken)
        ensures
            token == self.token(),
    {
        self.token
    }
}

impl CancelledToken {
    /// The token.
    pub closed spec fn token(self) -> CancellationToken {
        self.token
    }

    /// The token.
    pub(crate) fn as_token(&self) -> (token: &CancellationToken)
        ensures
            *token == self.token(),
    {
        &self.token
    }
}

/// Makes a token with `CancellationToken::new`, which is not cancelled and which
/// shares its state with no other one. That it is so is said by the type of the
/// answer: this is the only place where one is made.
#[verifier::external_body]
pub(crate) fn fresh_token() -> (fresh: FreshToken) {
    FreshToken { token: CancellationToken::new() }
}

/// Cancels the token with `CancellationToken::cancel`, which wakes all tasks that
/// wait for it or for a clone of it. The answer holds that same token; its type
/// says that it was cancelled: this is the only place where one is made.
#[verifier::external_body]
pub(crate) fn cancel(token: CancellationToken) -> (cancelled: CancelledToken)
    ensures
        cancelled.token() == token,
{
    token.cancel();
    CancelledToken { token }
}

} // verus!
