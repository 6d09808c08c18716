//! Errors of the Valence / session hub.

use vstd::prelude::*;

verus! {

/// Failure of configuration or request-context operations.
///
/// `Internal` is deliberately opaque: the underlying cause (factory failure, actor
/// encoding) stays server-side.
#[derive(Clone, Copy, Debug, PartialEq, Eq)]
pub enum HiggsError {
    /// `Arc<HiggsConfig>` was not provided in the request context.
    ConfigNotInContext,
    /// An internal failure: a missing required builder setting, or a factory error.
    Internal,
}

/// What a call into the Valence factory comes to: its value on success, and the
/// opaque [`HiggsError::Internal`] on any factory failure.
pub open spec fn factory_outcome<V, E>(built: Result<V, E>) -> Result<V, HiggsError> {
    match built {
        Ok(v) => Ok(v),
        Err(_) => Err(HiggsError::Internal),
    }
}

/// Map a factory result to the hub's result type, hiding the factory error behind
/// [`HiggsError::Internal`].
pub fn factory_result<V, E>(built: Result<V, E>) -> (r: Result<V, HiggsError>)
    ensures
        r == factory_outcome(built),
{
    match built {
        Ok(v) => Ok(v),
        Err(_) => Err(HiggsError::Internal),
    }
}

/// A factory success passes its value through unchanged, and every factory failure,
/// whatever its error, becomes the opaque [`HiggsError::Internal`].
pub proof fn lemma_factory_outcome<V, E>(built: Result<V, E>)
    ensures
        built matches Ok(v) ==> factory_outcome(built) == Ok::<V, HiggsError>(v),
        built is Err ==> factory_outcome(built) == Err::<V, HiggsError>(HiggsError::Internal),
{
}

} // verus!
