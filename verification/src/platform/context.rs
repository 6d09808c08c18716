//! Per-request platform context: the hub request context plus accessors for the
//! subsystem backends registered on the platform configuration.

use std::sync::Arc;
use vstd::prelude::*;

use crate::higgs_core::config::HiggsValenceFactory;
use crate::higgs_core::context::{optional_chars, recorded_user_id, system_operation_name, Higgs as CoreHiggs};
use crate::higgs_core::error::factory_outcome;
use crate::host::{session_actor, Actor, ActorView, HostRequestCtx};
use crate::identity::SessionUserId;
use crate::platform::config::{registered, HiggsConfig, Subsystems};
use crate::platform::error::{lift_core, lift_core_result, HiggsError};

verus! {

/// Per-request application context for server functions, with subsystem accessors.
pub struct Higgs<R, F, S: Subsystems> {
    inner: CoreHiggs<R, F>,
    config: Arc<HiggsConfig<F, S>>,
}

impl<R, F, S: Subsystems> Higgs<R, F, S> {
    /// The hub context inside shares this context's hub configuration.
    #[verifier::type_invariant]
    spec fn shares_hub_config(&self) -> bool {
        self.inner.shared_config() == self.config.hub_config()
    }

    /// The host request this context was assembled from.
    pub closed spec fn request(&self) -> HostRequestCtx<R> {
        self.inner.request()
    }

    /// The platform configuration this context was assembled with.
    pub closed spec fn shared_config(&self) -> HiggsConfig<F, S> {
        *self.config
    }

    /// Assemble context from host request parts and the platform configuration.
    #[must_use]
    pub fn from_parts(host: HostRequestCtx<R>, config: Arc<HiggsConfig<F, S>>) -> (h: Higgs<R, F, S>)
        ensures
            h.request() == host,
            h.shared_config() == *config,
    {
        let inner = CoreHiggs::from_parts(host, config.core_arc());
        Higgs { inner, config }
    }

    /// The underlying host request context.
    pub fn host(&self) -> (host: &HostRequestCtx<R>)
        ensures
            *host == self.request(),
    {
        self.inner.host()
    }

    /// Raw database router without session-scoped privacy; prefer [`Self::valence`]
    /// for user-driven data access.
    pub fn unsafe_database_router(&self) -> (router: &Arc<R>)
        ensures
            *router == self.request().database_router,
    {
        self.inner.unsafe_database_router()
    }

    /// Older name of [`Self::unsafe_database_router`], kept for callers.
    pub fn database_router(&self) -> (router: &Arc<R>)
        ensures
            *router == self.request().database_router,
    {
        self.unsafe_database_router()
    }

    /// Authenticated session user id when present.
    pub fn session_user_id(&self) -> (id: Option<&SessionUserId>)
        ensures
            id is Some <==> self.request().session is Some,
            id matches Some(i) ==> Some(i@) == recorded_user_id(self.request().session),
    {
        self.inner.session_user_id()
    }

    /// The current request's actor.
    pub fn actor(&self) -> (actor: Actor)
        ensures
            actor@ == session_actor(self.request().session),
    {
        self.inner.actor()
    }

    /// The process-wide platform [`HiggsConfig`].
    pub fn config(&self) -> (config: &HiggsConfig<F, S>)
        ensures
            *config == self.shared_config(),
    {
        &self.config
    }

    /// The job scheduler; `SubsystemNotConfigured("chronon")` when not registered.
    pub fn scheduler(&self) -> (r: Result<&S::Scheduler, HiggsError>)
        ensures
            r matches Ok(v) ==> self.shared_config().scheduler_handle() == Some(*v),
            r is Err ==> r == registered::<&S::Scheduler>(None, "chronon")
                && self.shared_config().scheduler_handle() is None,
    {
        self.config.scheduler()
    }

    /// The job coordinator backend; `SubsystemNotConfigured("chronon")` when not
    /// registered.
    pub fn chronon(&self) -> (r: Result<&S::ChrononBackend, HiggsError>)
        ensures
            r matches Ok(v) ==> self.shared_config().chronon_backend_handle() == Some(*v),
            r is Err ==> r == registered::<&S::ChrononBackend>(None, "chronon")
                && self.shared_config().chronon_backend_handle() is None,
    {
        self.config.chronon_backend()
    }

    /// The job script registry; `SubsystemNotConfigured("chronon")` when not registered.
    pub fn script_registry(&self) -> (r: Result<&S::ScriptRegistry, HiggsError>)
        ensures
            r matches Ok(v) ==> self.shared_config().script_registry_handle() == Some(*v),
            r is Err ==> r == registered::<&S::ScriptRegistry>(None, "chronon")
                && self.shared_config().script_registry_handle() is None,
    {
        self.config.script_registry()
    }

    /// Shared job coordinator backend `Arc`; `SubsystemNotConfigured("chronon")` when
    /// not registered.
    pub fn chronon_backend_arc(&self) -> (r: Result<Arc<S::ChrononBackend>, HiggsError>)
        ensures
            r matches Ok(v) ==> self.shared_config().chronon_backend_handle() == Some(*v),
            r is Err ==> r == registered::<Arc<S::ChrononBackend>>(None, "chronon")
                && self.shared_config().chronon_backend_handle() is None,
    {
        self.config.chronon_backend_arc()
    }

    /// The pub/sub backend; `SubsystemNotConfigured("photon")` when not registered.
    pub fn photon(&self) -> (r: Result<&S::Photon, HiggsError>)
        ensures
            r matches Ok(v) ==> self.shared_config().photon_handle() == Some(*v),
            r is Err ==> r == registered::<&S::Photon>(None, "photon")
                && self.shared_config().photon_handle() is None,
    {
        self.config.photon()
    }

    /// The work-engine backend; `SubsystemNotConfigured("boson")` when not registered.
    pub fn boson(&self) -> (r: Result<&S::BosonBackend, HiggsError>)
        ensures
            r matches Ok(v) ==> self.shared_config().boson_backend_handle() == Some(*v),
            r is Err ==> r == registered::<&S::BosonBackend>(None, "boson")
                && self.shared_config().boson_backend_handle() is None,
    {
        self.config.boson_backend()
    }
}

impl<R, F: HiggsValenceFactory, S: Subsystems> Higgs<R, F, S> {
    /// Build Valence via the host-configured factory for the current request actor;
    /// factory failures become [`HiggsError::Internal`].
    pub fn valence(&self) -> (r: Result<F::Valence, HiggsError>)
        ensures
            exists|actor: Actor, built: Result<F::Valence, F::Error>|
                #![trigger call_ensures(F::build, (&self.shared_config().hub_config().factory(), &actor), built)]
                actor@ == session_actor(self.request().session)
                && call_ensures(F::build, (&self.shared_config().hub_config().factory(), &actor), built)
                && r == lift_core_result(factory_outcome(built)),
    {
        proof {
            use_type_invariant(self);
        }
        let inner = self.inner.valence();
        proof {
            let (actor, built) = choose|actor: Actor, built: Result<F::Valence, F::Error>|
                #![trigger call_ensures(F::build, (&self.inner.shared_config().factory(), &actor), built)]
                actor@ == session_actor(self.inner.request().session)
                && call_ensures(F::build, (&self.inner.shared_config().factory(), &actor), built)
                && inner == factory_outcome(built);
            assert(call_ensures(F::build, (&self.shared_config().hub_config().factory(), &actor), built));
        }
        lift_core(inner)
    }

    /// Build Valence scoped to a `System` actor for `operation` (the current operation
    /// name, or `"<unknown>"`). **Not for user-driven work**: the system actor bypasses
    /// privacy policies. Factory failures become [`HiggsError::Internal`].
    pub fn unsafe_system_valence(&self, operation: Option<&str>) -> (r: Result<F::Valence, HiggsError>)
        ensures
            exists|actor: Actor, built: Result<F::Valence, F::Error>|
                #![trigger call_ensures(F::build, (&self.shared_config().hub_config().factory(), &actor), built)]
                actor@ == (ActorView::System {
                    operation: system_operation_name(optional_chars(operation)),
                })
                && (operation matches Some(op) ==> actor@ == (ActorView::System {
                    operation: op@,
                }))
                && (operation is None ==> actor@ == (ActorView::System {
                    operation: "<unknown>"@,
                }))
                && call_ensures(F::build, (&self.shared_config().hub_config().factory(), &actor), built)
                && r == lift_core_result(factory_outcome(built)),
    {
        proof {
            use_type_invariant(self);
        }
        let inner = self.inner.unsafe_system_valence(operation);
        proof {
            let (actor, built) = choose|actor: Actor, built: Result<F::Valence, F::Error>|
                #![trigger call_ensures(F::build, (&self.inner.shared_config().factory(), &actor), built)]
                actor@ == (ActorView::System {
                    operation: system_operation_name(optional_chars(operation)),
                })
                && (operation matches Some(op) ==> actor@ == (ActorView::System {
                    operation: op@,
                }))
                && (operation is None ==> actor@ == (ActorView::System {
                    operation: "<unknown>"@,
                }))
                && call_ensures(F::build, (&self.inner.shared_config().factory(), &actor), built)
                && inner == factory_outcome(built);
            assert(call_ensures(F::build, (&self.shared_config().hub_config().factory(), &actor), built));
        }
        lift_core(inner)
    }
}

} // verus!
