use std::sync::Arc;

use higgs::host::{require_session, Actor, HostRequestCtx, SessionRequired};
use higgs::identity::SessionSnapshot;

/// Stand-in for the host's database router: the request context only carries it.
struct DatabaseRouter;

impl DatabaseRouter {
    fn new() -> Self {
        DatabaseRouter
    }
}

#[test]
fn session_snapshot_maps_to_user_actor_happy_path() {
    let ctx = HostRequestCtx {
        database_router: Arc::new(DatabaseRouter::new()),
        session: Some(SessionSnapshot::new("user:alice", b"hash")),
    };
    match ctx.actor() {
        Actor::User { user_id } => assert_eq!(user_id, "user:alice"),
        other => panic!("expected User actor, got {other:?}"),
    }
    assert_eq!(ctx.session_user_id(), Some("user:alice"));
    assert!(ctx.is_authenticated());
}

#[test]
fn missing_session_maps_to_anonymous_actor_happy_path() {
    let ctx = HostRequestCtx {
        database_router: Arc::new(DatabaseRouter::new()),
        session: None,
    };
    assert!(matches!(ctx.actor(), Actor::Anonymous));
    assert!(ctx.session_user_id().is_none());
    assert!(!ctx.is_authenticated());
}

#[test]
fn require_session_returns_snapshot() {
    let snap = SessionSnapshot::new("user:bob", b"h");
    let ctx = HostRequestCtx {
        database_router: Arc::new(DatabaseRouter::new()),
        session: Some(snap.clone()),
    };
    assert_eq!(require_session(ctx), Ok(snap));
}

#[test]
fn require_session_fails_closed_without_session() {
    let ctx = HostRequestCtx {
        database_router: Arc::new(DatabaseRouter::new()),
        session: None,
    };
    let err = require_session(ctx).expect_err("anonymous request must be refused");
    assert_eq!(err, SessionRequired);
    assert_eq!(err.message(), "You must be signed in");
}
