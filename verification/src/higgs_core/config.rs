//! Process-wide hub configuration: the host Valence factory, set once at boot.

use std::sync::Arc;
use vstd::prelude::*;

use crate::higgs_core::error::HiggsError;
use crate::host::Actor;

verus! {

/// Host factory that rebuilds a Valence instance for a given actor.
///
/// Implemented by the host; each request or worker calls it with the actor the
/// request context derived (session user, anonymous, or a system actor).
pub trait HiggsValenceFactory {
    /// The Valence handle the factory builds.
    type Valence;
    /// The factory's failure type.
    type Error;

    /// Build a Valence instance scoped to `actor`.
    fn build(&self, actor: &Actor) -> Result<Self::Valence, Self::Error>;
}

/// `Arc::clone`: another pointer to the same allocation.
///
/// Trusted: std documents that the clone points to the same value.
#[verifier::external_body]
pub fn arc_clone<T>(a: &Arc<T>) -> (r: Arc<T>)
    ensures
        *r == **a,
{
    Arc::clone(a)
}

/// Server-side configuration holding the host Valence factory.
///
/// Constructed once at startup via [`HiggsConfig::builder`] and shared as
/// `Arc<HiggsConfig<F>>`.
pub struct HiggsConfig<F> {
    valence_factory: Arc<F>,
}

impl<F> HiggsConfig<F> {
    /// The factory this configuration was built with.
    pub closed spec fn factory(&self) -> F {
        *self.valence_factory
    }

    /// Start building a [`HiggsConfig`].
    pub fn builder() -> (b: HiggsConfigBuilder<F>)
        ensures
            b.configured_factory() is None,
    {
        HiggsConfigBuilder { valence_factory: None }
    }

    /// The configured Valence factory, used to build request-scoped Valence.
    pub fn valence_factory(&self) -> (f: &Arc<F>)
        ensures
            **f == self.factory(),
    {
        &self.valence_factory
    }
}

/// The factory of a built configuration, or the build error.
pub open spec fn built_factory<F>(r: Result<HiggsConfig<F>, HiggsError>) -> Result<F, HiggsError> {
    match r {
        Ok(c) => Ok(c.factory()),
        Err(e) => Err(e),
    }
}

/// Builder for [`HiggsConfig`]; `valence_factory` is always required.
pub struct HiggsConfigBuilder<F> {
    valence_factory: Option<Arc<F>>,
}

impl<F> HiggsConfigBuilder<F> {
    /// The factory set so far, if any.
    pub closed spec fn configured_factory(&self) -> Option<F> {
        match self.valence_factory {
            Some(f) => Some(*f),
            None => None,
        }
    }

    /// What building from this builder comes to: the factory set last, or
    /// [`HiggsError::Internal`] when none was set.
    pub open spec fn outcome(&self) -> Result<F, HiggsError> {
        match self.configured_factory() {
            Some(f) => Ok(f),
            None => Err(HiggsError::Internal),
        }
    }

    /// Set the Valence factory (required). A later setting replaces an earlier one.
    pub fn valence_factory(self, factory: F) -> (b: HiggsConfigBuilder<F>)
        ensures
            b.configured_factory() == Some(factory),
    {
        HiggsConfigBuilder { valence_factory: Some(Arc::new(factory)) }
    }

    /// Set the Valence factory from an existing `Arc` (required).
    pub fn valence_factory_arc(self, factory: Arc<F>) -> (b: HiggsConfigBuilder<F>)
        ensures
            b.configured_factory() == Some(*factory),
    {
        HiggsConfigBuilder { valence_factory: Some(factory) }
    }

    /// Build the configuration.
    ///
    /// # Errors
    ///
    /// [`HiggsError::Internal`] exactly when no factory was set.
    pub fn build(self) -> (r: Result<HiggsConfig<F>, HiggsError>)
        ensures
            r is Ok <==> self.configured_factory() is Some,
            r matches Ok(c) ==> Some(c.factory()) == self.configured_factory(),
            r matches Err(e) ==> e == HiggsError::Internal,
            built_factory(r) == self.outcome(),
    {
        match self.valence_factory {
            Some(valence_factory) => Ok(HiggsConfig { valence_factory }),
            None => Err(HiggsError::Internal),
        }
    }
}

impl<F> Default for HiggsConfigBuilder<F> {
    /// A builder with no factory set.
    fn default() -> (b: HiggsConfigBuilder<F>)
        ensures
            b.configured_factory() is None,
    {
        HiggsConfigBuilder { valence_factory: None }
    }
}

/// Any sequence of factory settings on a fresh builder: building fails with
/// [`HiggsError::Internal`] when the sequence is empty, and otherwise succeeds with the
/// factory of the last setting.
///
/// `builders[0]` is the fresh builder and `builders[i + 1]` the builder after the
/// `i`-th setting, which put `settings[i]` in place (as `valence_factory` and
/// `valence_factory_arc` both ensure).
pub proof fn lemma_last_factory_setting_wins<F>(
    builders: Seq<HiggsConfigBuilder<F>>,
    settings: Seq<F>,
)
    requires
        builders.len() == settings.len() + 1,
        builders[0].configured_factory() is None,
        forall|i: int|
            0 <= i < settings.len() ==> builders[i + 1].configured_factory() == Some(
                #[trigger] settings[i],
            ),
    ensures
        builders.last().outcome() == (if settings.len() == 0 {
            Err::<F, HiggsError>(HiggsError::Internal)
        } else {
            Ok::<F, HiggsError>(settings.last())
        }),
{
    if settings.len() > 0 {
        let k = settings.len() - 1;
        assert(builders[k + 1].configured_factory() == Some(settings[k]));
    }
}

} // verus!
