use std::sync::Arc;

use higgs::higgs_core::HiggsValenceFactory;
use higgs::host::{Actor, HostRequestCtx};
use higgs::identity::SessionSnapshot;
use higgs::platform::{Higgs, HiggsConfig, HiggsError, Subsystems};

struct Scheduler(u32);
struct ChrononBackend(u32);
struct ScriptRegistry(u32);
struct Photon(u32);
struct BosonBackend(u32);

struct Backends;

impl Subsystems for Backends {
    type Scheduler = Scheduler;
    type ChrononBackend = ChrononBackend;
    type ScriptRegistry = ScriptRegistry;
    type Photon = Photon;
    type BosonBackend = BosonBackend;
}

struct EchoFactory;

impl HiggsValenceFactory for EchoFactory {
    type Valence = Actor;
    type Error = String;

    fn build(&self, actor: &Actor) -> Result<Actor, String> {
        Ok(actor.clone())
    }
}

struct FailingFactory;

impl HiggsValenceFactory for FailingFactory {
    type Valence = Actor;
    type Error = String;

    fn build(&self, _actor: &Actor) -> Result<Actor, String> {
        Err("backend down".to_string())
    }
}

struct DatabaseRouter;

#[test]
fn platform_build_requires_factory() {
    let result = HiggsConfig::<EchoFactory, Backends>::builder().build();
    assert!(matches!(result, Err(HiggsError::Internal)));
}

#[test]
fn platform_accessors_without_subsystems_fail() {
    let config = HiggsConfig::<EchoFactory, Backends>::builder()
        .valence_factory(EchoFactory)
        .build()
        .expect("factory set");
    assert!(matches!(config.scheduler(), Err(HiggsError::SubsystemNotConfigured("chronon"))));
    assert!(matches!(config.chronon_backend(), Err(HiggsError::SubsystemNotConfigured("chronon"))));
    assert!(matches!(config.script_registry(), Err(HiggsError::SubsystemNotConfigured("chronon"))));
    assert!(matches!(config.photon(), Err(HiggsError::SubsystemNotConfigured("photon"))));
    assert!(matches!(config.boson_backend(), Err(HiggsError::SubsystemNotConfigured("boson"))));
    assert!(matches!(config.scheduler_arc(), Err(HiggsError::SubsystemNotConfigured("chronon"))));
    assert!(matches!(config.chronon_backend_arc(), Err(HiggsError::SubsystemNotConfigured("chronon"))));
    assert!(matches!(config.script_registry_arc(), Err(HiggsError::SubsystemNotConfigured("chronon"))));
    assert!(matches!(config.photon_arc(), Err(HiggsError::SubsystemNotConfigured("photon"))));
    assert!(matches!(config.boson_backend_arc(), Err(HiggsError::SubsystemNotConfigured("boson"))));
}

#[test]
fn platform_accessors_return_registered_handles() {
    let scheduler = Arc::new(Scheduler(1));
    let photon = Arc::new(Photon(4));
    let config = HiggsConfig::<EchoFactory, Backends>::builder()
        .chronon(
            Arc::clone(&scheduler),
            Arc::new(ChrononBackend(2)),
            Arc::new(ScriptRegistry(3)),
        )
        .photon(Arc::clone(&photon))
        .boson(Arc::new(BosonBackend(5)))
        .valence_factory(EchoFactory)
        .build()
        .expect("factory set");
    assert_eq!(config.scheduler().map(|s| s.0).ok(), Some(1));
    assert_eq!(config.chronon_backend().map(|s| s.0).ok(), Some(2));
    assert_eq!(config.script_registry().map(|s| s.0).ok(), Some(3));
    assert_eq!(config.photon().map(|s| s.0).ok(), Some(4));
    assert_eq!(config.boson_backend().map(|s| s.0).ok(), Some(5));
    assert!(Arc::ptr_eq(&config.scheduler_arc().ok().unwrap(), &scheduler));
    assert!(Arc::ptr_eq(&config.photon_arc().ok().unwrap(), &photon));
    assert_eq!(config.chronon_backend_arc().ok().unwrap().0, 2);
    assert_eq!(config.script_registry_arc().ok().unwrap().0, 3);
    assert_eq!(config.boson_backend_arc().ok().unwrap().0, 5);
}

#[test]
fn platform_only_registered_subsystem_is_available() {
    let config = HiggsConfig::<EchoFactory, Backends>::builder()
        .valence_factory(EchoFactory)
        .photon(Arc::new(Photon(9)))
        .build()
        .expect("factory set");
    assert_eq!(config.photon().map(|p| p.0).ok(), Some(9));
    assert!(matches!(config.scheduler(), Err(HiggsError::SubsystemNotConfigured("chronon"))));
    assert!(matches!(config.boson_backend(), Err(HiggsError::SubsystemNotConfigured("boson"))));
}

#[test]
fn platform_core_arc_shares_hub_config() {
    let config = HiggsConfig::<EchoFactory, Backends>::builder()
        .valence_factory(EchoFactory)
        .build()
        .expect("factory set");
    let core = config.core_arc();
    assert!(std::ptr::eq(&*core, config.core_config()));
    assert!(Arc::ptr_eq(core.valence_factory(), config.valence_factory()));
}

fn platform_higgs<F: HiggsValenceFactory>(
    factory: F,
    session: Option<SessionSnapshot>,
) -> Higgs<DatabaseRouter, F, Backends> {
    let config = Arc::new(
        HiggsConfig::<F, Backends>::builder()
            .valence_factory(factory)
            .boson(Arc::new(BosonBackend(7)))
            .build()
            .ok()
            .expect("factory set"),
    );
    let host = HostRequestCtx {
        database_router: Arc::new(DatabaseRouter),
        session,
    };
    Higgs::from_parts(host, config)
}

#[test]
fn platform_context_valence_and_accessors() {
    let higgs = platform_higgs(EchoFactory, Some(SessionSnapshot::new("user:dan", b"h")));
    assert_eq!(
        higgs.valence().ok(),
        Some(Actor::User {
            user_id: "user:dan".to_string()
        })
    );
    assert_eq!(
        higgs.unsafe_system_valence(Some("ops.sweep")).ok(),
        Some(Actor::System {
            operation: "ops.sweep".to_string()
        })
    );
    assert_eq!(higgs.session_user_id().map(String::as_str), Some("user:dan"));
    assert_eq!(higgs.boson().map(|b| b.0).ok(), Some(7));
    assert!(matches!(higgs.photon(), Err(HiggsError::SubsystemNotConfigured("photon"))));
    assert!(matches!(higgs.chronon(), Err(HiggsError::SubsystemNotConfigured("chronon"))));
    assert!(matches!(higgs.scheduler(), Err(HiggsError::SubsystemNotConfigured("chronon"))));
    assert!(matches!(higgs.script_registry(), Err(HiggsError::SubsystemNotConfigured("chronon"))));
    assert!(matches!(
        higgs.chronon_backend_arc(),
        Err(HiggsError::SubsystemNotConfigured("chronon"))
    ));
    assert_eq!(
        Arc::as_ptr(higgs.unsafe_database_router()),
        Arc::as_ptr(&higgs.host().database_router)
    );
    assert!(matches!(higgs.actor(), Actor::User { .. }));
    assert!(higgs.config().boson_backend().is_ok());
}

#[test]
fn platform_context_factory_failure_is_internal() {
    let higgs = platform_higgs(FailingFactory, None);
    assert!(matches!(higgs.valence(), Err(HiggsError::Internal)));
    assert!(matches!(higgs.unsafe_system_valence(None), Err(HiggsError::Internal)));
}

#[test]
fn platform_error_from_core() {
    assert_eq!(
        HiggsError::from(higgs::higgs_core::HiggsError::Internal),
        HiggsError::Internal
    );
    assert_eq!(
        HiggsError::from(higgs::higgs_core::HiggsError::ConfigNotInContext),
        HiggsError::ConfigNotInContext
    );
}
