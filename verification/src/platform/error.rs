//! Errors of the platform context, which adds subsystem accessors to the hub.

use vstd::prelude::*;
use vstd::std_specs::convert::FromSpecImpl;

use crate::higgs_core::error::HiggsError as CoreError;

verus! {

/// Failure of platform configuration, context or subsystem access.
#[derive(Clone, Copy, Debug, PartialEq, Eq)]
pub enum HiggsError {
    /// `Arc<HiggsConfig>` was not provided in the request context.
    ConfigNotInContext,
    /// An internal failure: a missing required builder setting, or a factory error.
    Internal,
    /// A subsystem accessor was called although the host never registered that
    /// subsystem on the builder; carries the subsystem's name.
    SubsystemNotConfigured(&'static str),
}

/// The platform error for a hub error.
pub open spec fn from_core_error(e: CoreError) -> HiggsError {
    match e {
        CoreError::ConfigNotInContext => HiggsError::ConfigNotInContext,
        CoreError::Internal => HiggsError::Internal,
    }
}

/// A hub result with its error lifted to the platform error.
pub open spec fn lift_core_result<T>(r: Result<T, CoreError>) -> Result<T, HiggsError> {
    match r {
        Ok(v) => Ok(v),
        Err(e) => Err(from_core_error(e)),
    }
}

impl From<CoreError> for HiggsError {
    fn from(e: CoreError) -> (r: HiggsError) {
        match e {
            CoreError::ConfigNotInContext => HiggsError::ConfigNotInContext,
            CoreError::Internal => HiggsError::Internal,
        }
    }
}

impl FromSpecImpl<CoreError> for HiggsError {
    open spec fn obeys_from_spec() -> bool {
        true
    }

    open spec fn from_spec(e: CoreError) -> HiggsError {
        from_core_error(e)
    }
}

/// Lift a hub result to the platform error type.
pub fn lift_core<T>(r: Result<T, CoreError>) -> (lifted: Result<T, HiggsError>)
    ensures
        lifted == lift_core_result(r),
{
    match r {
        Ok(v) => Ok(v),
        Err(e) => Err(HiggsError::from(e)),
    }
}

/// Lifting keeps values and maps each hub error to the platform error of the same
/// name.
pub proof fn lemma_lift_core_result<T>(r: Result<T, CoreError>)
    ensures
        r matches Ok(v) ==> lift_core_result(r) == Ok::<T, HiggsError>(v),
        r == Err::<T, CoreError>(CoreError::Internal) ==> lift_core_result(r) == Err::<T, HiggsError>(HiggsError::Internal),
        r == Err::<T, CoreError>(CoreError::ConfigNotInContext) ==> lift_core_result(r) == Err::<T, HiggsError>(HiggsError::ConfigNotInContext),
{
}

} // verus!
