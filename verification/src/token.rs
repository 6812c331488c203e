//! The cancellation token of `tokio_util`, as far as the plugin uses it.
//!
//! Nothing in this file is proved: it states what the verified code takes on
//! trust from `tokio_util::sync::CancellationToken`.

use tokio_util::sync::CancellationToken;
use vstd::prelude::*;

verus! {

/// `tokio_util::sync::CancellationToken`, a handle to a cancellation state
/// that its clones share. The verified code carries tokens around and never
/// looks inside one.
#[verifier::external_type_specification]
#[verifier::external_body]
pub struct ExCancellationToken(CancellationToken);

/// `CancellationToken::new` makes a token of its own, not yet cancelled.
/// Nothing is claimed of the result.
pub assume_specification[ CancellationToken::new ]() -> (token: CancellationToken)
;

/// `CancellationToken::clone` hands out a second handle to the same
/// cancellation state: cancelling either cancels both, and the crate's own
/// `==` holds between them. The contract says that the copy is the token.
pub assume_specification[ <CancellationToken as Clone>::clone ](token: &CancellationToken) -> (copy:
    CancellationToken)
    ensures
        copy == *token,
;

/// `CancellationToken::cancel` requests cancellation and wakes the tasks that
/// wait for it. It returns nothing, and nothing is claimed of it.
pub assume_specification[ CancellationToken::cancel ](token: &CancellationToken)
;

} // verus!
