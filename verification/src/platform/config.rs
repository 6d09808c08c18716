//! Process-wide platform configuration: the hub Valence factory plus the optional
//! subsystem backends the host registers at boot.

use std::sync::Arc;
use vstd::prelude::*;

use crate::higgs_core::config::{
    arc_clone, HiggsConfig as CoreConfig, HiggsConfigBuilder as CoreBuilder,
};
use crate::higgs_core::error::HiggsError as CoreError;
use crate::platform::error::{lift_core, HiggsError};

verus! {

/// The handle types a host registers for the optional subsystems: the job scheduler,
/// its coordinator backend and script registry, the pub/sub handle, and the work
/// engine's coordinator backend.
pub trait Subsystems {
    /// Job scheduler handle.
    type Scheduler;
    /// Job coordinator backend.
    type ChrononBackend;
    /// Job script registry.
    type ScriptRegistry;
    /// Pub/sub handle.
    type Photon;
    /// Work-engine coordinator backend.
    type BosonBackend;
}

/// What an accessor of a subsystem returns: the registered handle, or
/// [`HiggsError::SubsystemNotConfigured`] naming the subsystem.
pub open spec fn registered<T>(handle: Option<T>, subsystem: &'static str) -> Result<T, HiggsError> {
    match handle {
        Some(h) => Ok(h),
        None => Err(HiggsError::SubsystemNotConfigured(subsystem)),
    }
}

/// An optional `Arc` read as the optional value it points to.
pub open spec fn pointee<T>(a: Option<Arc<T>>) -> Option<T> {
    match a {
        Some(p) => Some(*p),
        None => None,
    }
}

/// `Ok(&**a)` for a registered handle, the named error otherwise.
fn borrow_registered<'a, T>(a: &'a Option<Arc<T>>, subsystem: &'static str) -> (r: Result<&'a T, HiggsError>)
    ensures
        r matches Ok(v) ==> pointee(*a) == Some(*v),
        r is Err ==> pointee(*a) is None && r == Err::<&T, HiggsError>(HiggsError::SubsystemNotConfigured(subsystem)),
{
    match a {
        Some(p) => Ok(&**p),
        None => Err(HiggsError::SubsystemNotConfigured(subsystem)),
    }
}

/// A new `Arc` to a registered handle, the named error otherwise.
fn clone_registered<T>(a: &Option<Arc<T>>, subsystem: &'static str) -> (r: Result<Arc<T>, HiggsError>)
    ensures
        r matches Ok(v) ==> pointee(*a) == Some(*v),
        r is Err ==> pointee(*a) is None && r == Err::<Arc<T>, HiggsError>(HiggsError::SubsystemNotConfigured(subsystem)),
{
    match a {
        Some(p) => Ok(arc_clone(p)),
        None => Err(HiggsError::SubsystemNotConfigured(subsystem)),
    }
}

/// Server-side configuration holding the Valence factory plus optional subsystem
/// backends. Constructed once at startup via [`HiggsConfig::builder`].
pub struct HiggsConfig<F, S: Subsystems> {
    hub: Arc<CoreConfig<F>>,
    scheduler: Option<Arc<S::Scheduler>>,
    chronon_backend: Option<Arc<S::ChrononBackend>>,
    script_registry: Option<Arc<S::ScriptRegistry>>,
    photon: Option<Arc<S::Photon>>,
    boson_backend: Option<Arc<S::BosonBackend>>,
}

impl<F, S: Subsystems> HiggsConfig<F, S> {
    /// The hub configuration inside.
    pub closed spec fn hub_config(&self) -> CoreConfig<F> {
        *self.hub
    }

    /// The registered scheduler, if any.
    pub closed spec fn scheduler_handle(&self) -> Option<S::Scheduler> {
        pointee(self.scheduler)
    }

    /// The registered job coordinator backend, if any.
    pub closed spec fn chronon_backend_handle(&self) -> Option<S::ChrononBackend> {
        pointee(self.chronon_backend)
    }

    /// The registered script registry, if any.
    pub closed spec fn script_registry_handle(&self) -> Option<S::ScriptRegistry> {
        pointee(self.script_registry)
    }

    /// The registered pub/sub handle, if any.
    pub closed spec fn photon_handle(&self) -> Option<S::Photon> {
        pointee(self.photon)
    }

    /// The registered work-engine backend, if any.
    pub closed spec fn boson_backend_handle(&self) -> Option<S::BosonBackend> {
        pointee(self.boson_backend)
    }

    /// Start building a [`HiggsConfig`]: no factory and no subsystem set.
    pub fn builder() -> (b: HiggsConfigBuilder<F, S>)
        ensures
            b.hub_builder().configured_factory() is None,
            b.scheduler_handle() is None,
            b.chronon_backend_handle() is None,
            b.script_registry_handle() is None,
            b.photon_handle() is None,
            b.boson_backend_handle() is None,
    {
        HiggsConfigBuilder {
            hub: CoreConfig::builder(),
            scheduler: None,
            chronon_backend: None,
            script_registry: None,
            photon: None,
            boson_backend: None,
        }
    }

    /// The hub (Valence/session) configuration.
    pub fn core_config(&self) -> (c: &CoreConfig<F>)
        ensures
            *c == self.hub_config(),
    {
        &self.hub
    }

    /// The hub configuration as a new `Arc`.
    pub fn core_arc(&self) -> (c: Arc<CoreConfig<F>>)
        ensures
            *c == self.hub_config(),
    {
        arc_clone(&self.hub)
    }

    /// The configured Valence factory.
    pub fn valence_factory(&self) -> (f: &Arc<F>)
        ensures
            **f == self.hub_config().factory(),
    {
        self.hub.valence_factory()
    }

    /// Scheduler handle; `SubsystemNotConfigured("chronon")` when not registered.
    pub fn scheduler(&self) -> (r: Result<&S::Scheduler, HiggsError>)
        ensures
            r matches Ok(v) ==> self.scheduler_handle() == Some(*v),
            r is Err ==> r == registered::<&S::Scheduler>(None, "chronon") && self.scheduler_handle() is None,
    {
        borrow_registered(&self.scheduler, "chronon")
    }

    /// Job coordinator backend; `SubsystemNotConfigured("chronon")` when not registered.
    pub fn chronon_backend(&self) -> (r: Result<&S::ChrononBackend, HiggsError>)
        ensures
            r matches Ok(v) ==> self.chronon_backend_handle() == Some(*v),
            r is Err ==> r == registered::<&S::ChrononBackend>(None, "chronon") && self.chronon_backend_handle() is None,
    {
        borrow_registered(&self.chronon_backend, "chronon")
    }

    /// Script registry; `SubsystemNotConfigured("chronon")` when not registered.
    pub fn script_registry(&self) -> (r: Result<&S::ScriptRegistry, HiggsError>)
        ensures
            r matches Ok(v) ==> self.script_registry_handle() == Some(*v),
            r is Err ==> r == registered::<&S::ScriptRegistry>(None, "chronon") && self.script_registry_handle() is None,
    {
        borrow_registered(&self.script_registry, "chronon")
    }

    /// Pub/sub handle; `SubsystemNotConfigured("photon")` when not registered.
    pub fn photon(&self) -> (r: Result<&S::Photon, HiggsError>)
        ensures
            r matches Ok(v) ==> self.photon_handle() == Some(*v),
            r is Err ==> r == registered::<&S::Photon>(None, "photon") && self.photon_handle() is None,
    {
        borrow_registered(&self.photon, "photon")
    }

    /// Work-engine backend; `SubsystemNotConfigured("boson")` when not registered.
    pub fn boson_backend(&self) -> (r: Result<&S::BosonBackend, HiggsError>)
        ensures
            r matches Ok(v) ==> self.boson_backend_handle() == Some(*v),
            r is Err ==> r == registered::<&S::BosonBackend>(None, "boson") && self.boson_backend_handle() is None,
    {
        borrow_registered(&self.boson_backend, "boson")
    }

    /// Shared scheduler `Arc`; `SubsystemNotConfigured("chronon")` when not registered.
    pub fn scheduler_arc(&self) -> (r: Result<Arc<S::Scheduler>, HiggsError>)
        ensures
            r matches Ok(v) ==> self.scheduler_handle() == Some(*v),
            r is Err ==> r == registered::<Arc<S::Scheduler>>(None, "chronon") && self.scheduler_handle() is None,
    {
        clone_registered(&self.scheduler, "chronon")
    }

    /// Shared job coordinator backend `Arc`; `SubsystemNotConfigured("chronon")` when
    /// not registered.
    pub fn chronon_backend_arc(&self) -> (r: Result<Arc<S::ChrononBackend>, HiggsError>)
        ensures
            r matches Ok(v) ==> self.chronon_backend_handle() == Some(*v),
            r is Err ==> r == registered::<Arc<S::ChrononBackend>>(None, "chronon") && self.chronon_backend_handle() is None,
    {
        clone_registered(&self.chronon_backend, "chronon")
    }

    /// Shared script registry `Arc`; `SubsystemNotConfigured("chronon")` when not
    /// registered.
    pub fn script_registry_arc(&self) -> (r: Result<Arc<S::ScriptRegistry>, HiggsError>)
        ensures
            r matches Ok(v) ==> self.script_registry_handle() == Some(*v),
            r is Err ==> r == registered::<Arc<S::ScriptRegistry>>(None, "chronon") && self.script_registry_handle() is None,
    {
        clone_registered(&self.script_registry, "chronon")
    }

    /// Shared pub/sub `Arc`; `SubsystemNotConfigured("photon")` when not registered.
    pub fn photon_arc(&self) -> (r: Result<Arc<S::Photon>, HiggsError>)
        ensures
            r matches Ok(v) ==> self.photon_handle() == Some(*v),
            r is Err ==> r == registered::<Arc<S::Photon>>(None, "photon") && self.photon_handle() is None,
    {
        clone_registered(&self.photon, "photon")
    }

    /// Shared work-engine backend `Arc`; `SubsystemNotConfigured("boson")` when not
    /// registered.
    pub fn boson_backend_arc(&self) -> (r: Result<Arc<S::BosonBackend>, HiggsError>)
        ensures
            r matches Ok(v) ==> self.boson_backend_handle() == Some(*v),
            r is Err ==> r == registered::<Arc<S::BosonBackend>>(None, "boson") && self.boson_backend_handle() is None,
    {
        clone_registered(&self.boson_backend, "boson")
    }
}

/// The hub factory of a built platform configuration, or the build error read as
/// the hub's (the only build error is `Internal`).
pub open spec fn built_hub_factory<F, S: Subsystems>(r: Result<HiggsConfig<F, S>, HiggsError>) -> Result<F, CoreError> {
    match r {
        Ok(c) => Ok(c.hub_config().factory()),
        Err(_) => Err(CoreError::Internal),
    }
}

/// Builder for the platform [`HiggsConfig`].
pub struct HiggsConfigBuilder<F, S: Subsystems> {
    hub: CoreBuilder<F>,
    scheduler: Option<Arc<S::Scheduler>>,
    chronon_backend: Option<Arc<S::ChrononBackend>>,
    script_registry: Option<Arc<S::ScriptRegistry>>,
    photon: Option<Arc<S::Photon>>,
    boson_backend: Option<Arc<S::BosonBackend>>,
}

impl<F, S: Subsystems> HiggsConfigBuilder<F, S> {
    /// The hub builder inside.
    pub closed spec fn hub_builder(&self) -> CoreBuilder<F> {
        self.hub
    }

    /// The scheduler set so far, if any.
    pub closed spec fn scheduler_handle(&self) -> Option<S::Scheduler> {
        pointee(self.scheduler)
    }

    /// The job coordinator backend set so far, if any.
    pub closed spec fn chronon_backend_handle(&self) -> Option<S::ChrononBackend> {
        pointee(self.chronon_backend)
    }

    /// The script registry set so far, if any.
    pub closed spec fn script_registry_handle(&self) -> Option<S::ScriptRegistry> {
        pointee(self.script_registry)
    }

    /// The pub/sub handle set so far, if any.
    pub closed spec fn photon_handle(&self) -> Option<S::Photon> {
        pointee(self.photon)
    }

    /// The work-engine backend set so far, if any.
    pub closed spec fn boson_backend_handle(&self) -> Option<S::BosonBackend> {
        pointee(self.boson_backend)
    }

    /// Set the Valence factory (required); the subsystems stay as they were.
    pub fn valence_factory(self, factory: F) -> (b: HiggsConfigBuilder<F, S>)
        ensures
            b.hub_builder().configured_factory() == Some(factory),
            b.scheduler_handle() == self.scheduler_handle(),
            b.chronon_backend_handle() == self.chronon_backend_handle(),
            b.script_registry_handle() == self.script_registry_handle(),
            b.photon_handle() == self.photon_handle(),
            b.boson_backend_handle() == self.boson_backend_handle(),
    {
        HiggsConfigBuilder {
            hub: self.hub.valence_factory(factory),
            scheduler: self.scheduler,
            chronon_backend: self.chronon_backend,
            script_registry: self.script_registry,
            photon: self.photon,
            boson_backend: self.boson_backend,
        }
    }

    /// Set the Valence factory from an existing `Arc` (required); the subsystems stay
    /// as they were.
    pub fn valence_factory_arc(self, factory: Arc<F>) -> (b: HiggsConfigBuilder<F, S>)
        ensures
            b.hub_builder().configured_factory() == Some(*factory),
            b.scheduler_handle() == self.scheduler_handle(),
            b.chronon_backend_handle() == self.chronon_backend_handle(),
            b.script_registry_handle() == self.script_registry_handle(),
            b.photon_handle() == self.photon_handle(),
            b.boson_backend_handle() == self.boson_backend_handle(),
    {
        HiggsConfigBuilder {
            hub: self.hub.valence_factory_arc(factory),
            scheduler: self.scheduler,
            chronon_backend: self.chronon_backend,
            script_registry: self.script_registry,
            photon: self.photon,
            boson_backend: self.boson_backend,
        }
    }

    /// Provide the job subsystem: scheduler, coordinator backend and script registry.
    pub fn chronon(
        self,
        scheduler: Arc<S::Scheduler>,
        backend: Arc<S::ChrononBackend>,
        registry: Arc<S::ScriptRegistry>,
    ) -> (b: HiggsConfigBuilder<F, S>)
        ensures
            b.hub_builder() == self.hub_builder(),
            b.scheduler_handle() == Some(*scheduler),
            b.chronon_backend_handle() == Some(*backend),
            b.script_registry_handle() == Some(*registry),
            b.photon_handle() == self.photon_handle(),
            b.boson_backend_handle() == self.boson_backend_handle(),
    {
        HiggsConfigBuilder {
            hub: self.hub,
            scheduler: Some(scheduler),
            chronon_backend: Some(backend),
            script_registry: Some(registry),
            photon: self.photon,
            boson_backend: self.boson_backend,
        }
    }

    /// Provide the pub/sub subsystem.
    pub fn photon(self, photon: Arc<S::Photon>) -> (b: HiggsConfigBuilder<F, S>)
        ensures
            b.hub_builder() == self.hub_builder(),
            b.scheduler_handle() == self.scheduler_handle(),
            b.chronon_backend_handle() == self.chronon_backend_handle(),
            b.script_registry_handle() == self.script_registry_handle(),
            b.photon_handle() == Some(*photon),
            b.boson_backend_handle() == self.boson_backend_handle(),
    {
        HiggsConfigBuilder {
            hub: self.hub,
            scheduler: self.scheduler,
            chronon_backend: self.chronon_backend,
            script_registry: self.script_registry,
            photon: Some(photon),
            boson_backend: self.boson_backend,
        }
    }

    /// Provide the work-engine subsystem.
    pub fn boson(self, backend: Arc<S::BosonBackend>) -> (b: HiggsConfigBuilder<F, S>)
        ensures
            b.hub_builder() == self.hub_builder(),
            b.scheduler_handle() == self.scheduler_handle(),
            b.chronon_backend_handle() == self.chronon_backend_handle(),
            b.script_registry_handle() == self.script_registry_handle(),
            b.photon_handle() == self.photon_handle(),
            b.boson_backend_handle() == Some(*backend),
    {
        HiggsConfigBuilder {
            hub: self.hub,
            scheduler: self.scheduler,
            chronon_backend: self.chronon_backend,
            script_registry: self.script_registry,
            photon: self.photon,
            boson_backend: Some(backend),
        }
    }

    /// Build the configuration.
    ///
    /// # Errors
    ///
    /// [`HiggsError::Internal`] exactly when no Valence factory was set. On success the
    /// configuration holds that factory and exactly the subsystems that were set.
    pub fn build(self) -> (r: Result<HiggsConfig<F, S>, HiggsError>)
        ensures
            r is Ok <==> self.hub_builder().configured_factory() is Some,
            r matches Err(e) ==> e == HiggsError::Internal,
            built_hub_factory(r) == self.hub_builder().outcome(),
            r matches Ok(c) ==> {
                &&& Some(c.hub_config().factory()) == self.hub_builder().configured_factory()
                &&& c.scheduler_handle() == self.scheduler_handle()
                &&& c.chronon_backend_handle() == self.chronon_backend_handle()
                &&& c.script_registry_handle() == self.script_registry_handle()
                &&& c.photon_handle() == self.photon_handle()
                &&& c.boson_backend_handle() == self.boson_backend_handle()
            },
    {
        let hub = lift_core(self.hub.build());
        match hub {
            Ok(hub) => Ok(
                HiggsConfig {
                    hub: Arc::new(hub),
                    scheduler: self.scheduler,
                    chronon_backend: self.chronon_backend,
                    script_registry: self.script_registry,
                    photon: self.photon,
                    boson_backend: self.boson_backend,
                },
            ),
            Err(e) => Err(e),
        }
    }
}

impl<F, S: Subsystems> Default for HiggsConfigBuilder<F, S> {
    /// A builder with no factory and no subsystem set.
    fn default() -> (b: HiggsConfigBuilder<F, S>)
        ensures
            b.hub_builder().configured_factory() is None,
            b.scheduler_handle() is None,
            b.chronon_backend_handle() is None,
            b.script_registry_handle() is None,
            b.photon_handle() is None,
            b.boson_backend_handle() is None,
    {
        HiggsConfig::<F, S>::builder()
    }
}

/// An accessor of a registered subsystem gives its handle; of an unregistered one,
/// `SubsystemNotConfigured` carrying the name it was asked under.
pub proof fn lemma_registered<T>(handle: Option<T>, subsystem: &'static str)
    ensures
        handle matches Some(h) ==> registered(handle, subsystem) == Ok::<T, HiggsError>(h),
        handle is None ==> registered(handle, subsystem) == Err::<T, HiggsError>(
            HiggsError::SubsystemNotConfigured(subsystem),
        ),
{
}

/// Any sequence of builder calls on a fresh platform builder, each of which either
/// sets the factory or leaves it as it was (subsystem registrations): building fails
/// with `Internal` when no call set a factory, and otherwise succeeds with the factory
/// set last.
///
/// `builders[0]` is the fresh builder and `builders[i + 1]` the builder after the
/// `i`-th call; `settings[i]` is `Some(f)` when that call set factory `f` and `None`
/// when it kept the factory.
pub proof fn lemma_platform_last_factory_setting_wins<F, S: Subsystems>(
    builders: Seq<HiggsConfigBuilder<F, S>>,
    settings: Seq<Option<F>>,
)
    requires
        builders.len() == settings.len() + 1,
        builders[0].hub_builder().configured_factory() is None,
        forall|i: int|
            0 <= i < settings.len() ==> builders[i + 1].hub_builder().configured_factory() == (
            match #[trigger] settings[i] {
                Some(f) => Some(f),
                None => builders[i].hub_builder().configured_factory(),
            }),
    ensures
        builders.last().hub_builder().configured_factory() == last_setting(settings),
    decreases settings.len(),
{
    if settings.len() > 0 {
        let k = settings.len() - 1;
        lemma_platform_last_factory_setting_wins(builders.drop_last(), settings.drop_last());
        assert(builders.drop_last().last() == builders[k]);
        assert(builders[k + 1].hub_builder().configured_factory() == (match settings[k] {
            Some(f) => Some(f),
            None => builders[k].hub_builder().configured_factory(),
        }));
    }
}

/// The factory of the last setting in `settings`, skipping calls that kept it.
pub open spec fn last_setting<F>(settings: Seq<Option<F>>) -> Option<F>
    decreases settings.len(),
{
    if settings.len() == 0 {
        None
    } else {
        match settings.last() {
            Some(f) => Some(f),
            None => last_setting(settings.drop_last()),
        }
    }
}

} // verus!
