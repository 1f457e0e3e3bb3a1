//! The cancellation token of a running worker. The token comes from
//! `tokio_util`; its handles may be held and cancelled on other threads, so
//! nothing is assumed of what a handle reads.

use tokio_util::sync::CancellationToken;
use vstd::prelude::*;

verus! {

/// `tokio_util::sync::CancellationToken`, carried as an opaque value.
#[verifier::external_type_specification]
#[verifier::external_body]
pub struct ExCancellationToken(CancellationToken);

/// `CancellationToken::new`: a token that is not cancelled and shares its
/// state with nobody yet. The token is opaque here, so nothing is claimed.
#[verifier::external_body]
pub(crate) fn new_token() -> (token: CancellationToken) {
    CancellationToken::new()
}

/// `CancellationToken::clone`: another handle on the same token; cancelling
/// either cancels both. Nothing is claimed.
#[verifier::external_body]
pub(crate) fn share_token(token: &CancellationToken) -> (shared: CancellationToken) {
    token.clone()
}

/// `CancellationToken::cancel`: cancels the token and every handle on it.
#[verifier::external_body]
pub(crate) fn cancel_token(token: &CancellationToken) {
    token.cancel()
}

/// `CancellationToken::is_cancelled`: whether any handle on the token was
/// cancelled so far. Other threads may hold handles, so nothing is claimed
/// of the answer.
#[verifier::external_body]
pub(crate) fn token_is_cancelled(token: &CancellationToken) -> (cancelled: bool) {
    token.is_cancelled()
}

} // verus!
