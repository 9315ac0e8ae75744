//! The cancellation signal of a tunnel session.
//!
//! A session is watched through a `tokio_util::sync::CancellationToken`. The
//! token is shared with the task that waits on the tunnel's process, so its
//! state may change between any two calls made here. Nothing in this module
//! therefore claims what a token holds: the contracts below leave the answer
//! of every query open.

use tokio_util::sync::CancellationToken;
use vstd::prelude::*;

verus! {

/// `tokio_util::sync::CancellationToken`, carried as an opaque value.
#[verifier::external_type_specification]
#[verifier::external_body]
pub struct ExCancellationToken(CancellationToken);

/// `CancellationToken::new`: a fresh token. Nothing is claimed of it.
pub assume_specification[ CancellationToken::new ]() -> (token: CancellationToken);

/// `CancellationToken::is_cancelled`: whether the token has fired. Another
/// task may fire it at any time, so the answer is left open.
pub assume_specification[ CancellationToken::is_cancelled ](token: &CancellationToken) -> (fired:
    bool);

/// `CancellationToken::cancel`: fires the token. It takes a shared reference
/// and returns nothing, so there is nothing to state.
pub assume_specification[ CancellationToken::cancel ](token: &CancellationToken);

/// `CancellationToken::clone`: a second handle on the same signal. Nothing is
/// claimed of how the two handles compare.
pub assume_specification[ <CancellationToken as Clone>::clone ](token: &CancellationToken) -> (twin:
    CancellationToken);

} // verus!
