//! Whether a submission can be canceled on its own.

use crate::stop_token::StopToken;
use vstd::prelude::*;

verus! {

/// Marks a submission that carries a token of its own.
pub struct Cancelable(pub StopToken);

/// Marks a submission that only the pool as a whole can cancel.
pub struct Uncacelable;

/// What a submission's marker contributes to the job that is built from it.
pub trait CancelationPolicy {
    /// The token the job is to carry, if any.
    spec fn spec_token(&self) -> Option<StopToken>;

    fn token(&self) -> (token: Option<StopToken>)
        ensures
            token == self.spec_token(),
    ;
}

impl CancelationPolicy for Cancelable {
    open spec fn spec_token(&self) -> Option<StopToken> {
        Some(self.0)
    }

    fn token(&self) -> (token: Option<StopToken>) {
        Some(self.0.clone())
    }
}

impl CancelationPolicy for Uncacelable {
    open spec fn spec_token(&self) -> Option<StopToken> {
        None
    }

    fn token(&self) -> (token: Option<StopToken>) {
        None
    }
}

impl Default for Cancelable {
    /// A marker with a fresh token.
    fn default() -> Cancelable {
        Cancelable(StopToken::new())
    }
}

} // verus!
