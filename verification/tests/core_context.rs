use std::sync::{Arc, Mutex};

use higgs::higgs_core::{Higgs, HiggsConfig, HiggsError, HiggsValenceFactory};
use higgs::host::{Actor, HostRequestCtx};
use higgs::identity::SessionSnapshot;

/// Stand-in for the host's database router.
struct DatabaseRouter;

impl DatabaseRouter {
    fn new() -> Self {
        DatabaseRouter
    }
}

/// Records the actor it is asked to build for, then fails.
struct CaptureFactory {
    last_actor: Mutex<Option<Actor>>,
}

impl HiggsValenceFactory for CaptureFactory {
    type Valence = ();
    type Error = String;

    fn build(&self, actor: &Actor) -> Result<(), String> {
        *self
            .last_actor
            .lock()
            .unwrap_or_else(std::sync::PoisonError::into_inner) = Some(actor.clone());
        Err("capture-only factory".to_string())
    }
}

/// Builds a Valence stand-in that remembers its actor.
struct EchoFactory;

impl HiggsValenceFactory for EchoFactory {
    type Valence = Actor;
    type Error = String;

    fn build(&self, actor: &Actor) -> Result<Actor, String> {
        Ok(actor.clone())
    }
}

fn test_higgs(factory: Arc<CaptureFactory>) -> Higgs<DatabaseRouter, CaptureFactory> {
    let config = Arc::new(
        HiggsConfig::builder()
            .valence_factory_arc(factory)
            .build()
            .expect("factory set"),
    );
    let host = HostRequestCtx {
        database_router: Arc::new(DatabaseRouter::new()),
        session: None,
    };
    Higgs::from_parts(host, config)
}

fn echo_higgs(session: Option<SessionSnapshot>) -> Higgs<DatabaseRouter, EchoFactory> {
    let config = Arc::new(
        HiggsConfig::builder()
            .valence_factory(EchoFactory)
            .build()
            .expect("factory set"),
    );
    let host = HostRequestCtx {
        database_router: Arc::new(DatabaseRouter::new()),
        session,
    };
    Higgs::from_parts(host, config)
}

#[test]
fn unsafe_system_valence_with_operation_happy_path() {
    let factory = Arc::new(CaptureFactory {
        last_actor: Mutex::new(None),
    });
    let higgs = test_higgs(factory.clone());

    let err = higgs
        .unsafe_system_valence(Some("ops.create"))
        .expect_err("capture factory");
    assert!(matches!(err, HiggsError::Internal));

    let actor = factory
        .last_actor
        .lock()
        .unwrap_or_else(std::sync::PoisonError::into_inner)
        .clone()
        .expect("factory invoked");
    match actor {
        Actor::System { operation } => assert_eq!(operation, "ops.create"),
        other => panic!("expected System actor, got {other:?}"),
    }
}

#[test]
fn unsafe_database_router_matches_host_happy_path() {
    let factory = Arc::new(CaptureFactory {
        last_actor: Mutex::new(None),
    });
    let higgs = test_higgs(factory);
    let ptr = Arc::as_ptr(higgs.unsafe_database_router());
    assert_eq!(ptr, Arc::as_ptr(&higgs.host().database_router));
    assert_eq!(ptr, Arc::as_ptr(higgs.database_router()));
}

#[test]
fn unsafe_system_valence_without_operation_is_unknown() {
    let higgs = echo_higgs(None);
    let valence = higgs.unsafe_system_valence(None).expect("echo factory");
    assert_eq!(
        valence,
        Actor::System {
            operation: "<unknown>".to_string()
        }
    );
}

#[test]
fn valence_uses_session_actor() {
    let higgs = echo_higgs(Some(SessionSnapshot::new("user:carol", b"h")));
    assert_eq!(
        higgs.valence(),
        Ok(Actor::User {
            user_id: "user:carol".to_string()
        })
    );
    assert_eq!(higgs.session_user_id().map(String::as_str), Some("user:carol"));
    assert_eq!(
        higgs.actor(),
        Actor::User {
            user_id: "user:carol".to_string()
        }
    );
}

#[test]
fn valence_anonymous_without_session() {
    let higgs = echo_higgs(None);
    assert_eq!(higgs.valence(), Ok(Actor::Anonymous));
    assert!(higgs.session_user_id().is_none());
}

#[test]
fn valence_factory_failure_is_internal() {
    let factory = Arc::new(CaptureFactory {
        last_actor: Mutex::new(None),
    });
    let higgs = test_higgs(factory.clone());
    assert_eq!(higgs.valence(), Err(HiggsError::Internal));
    let seen = factory.last_actor.lock().unwrap().clone();
    assert_eq!(seen, Some(Actor::Anonymous));
}

#[test]
fn config_accessor_returns_shared_config() {
    let higgs = echo_higgs(None);
    let config: &HiggsConfig<EchoFactory> = higgs.config();
    assert!(matches!(config.valence_factory().build(&Actor::Anonymous), Ok(Actor::Anonymous)));
}
