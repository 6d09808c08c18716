//! Per-request hub context: the host request, the session user id and the shared
//! configuration, with Valence built for the request's actor.

use std::sync::Arc;
use vstd::prelude::*;

use crate::higgs_core::config::{HiggsConfig, HiggsValenceFactory};
use crate::higgs_core::error::{factory_outcome, factory_result, HiggsError};
use crate::host::{session_actor, Actor, ActorView, HostRequestCtx};
use crate::identity::SessionUserId;

verus! {

/// The session user id a request context records for `session`.
pub open spec fn recorded_user_id(ctx_session: Option<crate::identity::SessionSnapshot>) -> Option<Seq<char>> {
    match ctx_session {
        Some(s) => Some(s.user_id@),
        None => None,
    }
}

/// The operation name a system actor is minted for: the current operation when one
/// is set, `"<unknown>"` otherwise.
pub open spec fn system_operation_name(operation: Option<Seq<char>>) -> Seq<char> {
    match operation {
        Some(op) => op,
        None => "<unknown>"@,
    }
}

/// `Option<&str>` read as an optional character sequence.
pub open spec fn optional_chars(operation: Option<&str>) -> Option<Seq<char>> {
    match operation {
        Some(op) => Some(op@),
        None => None,
    }
}

/// Per-request application context for server functions.
pub struct Higgs<R, F> {
    host: HostRequestCtx<R>,
    session_user_id: Option<SessionUserId>,
    config: Arc<HiggsConfig<F>>,
}

impl<R, F> Higgs<R, F> {
    /// The recorded session user id always is that of the host request's session.
    #[verifier::type_invariant]
    spec fn session_user_id_matches_host(&self) -> bool {
        match (self.session_user_id, self.host.session) {
            (Some(id), Some(s)) => id@ == s.user_id@,
            (None, None) => true,
            _ => false,
        }
    }

    /// The host request this context was assembled from.
    pub closed spec fn request(&self) -> HostRequestCtx<R> {
        self.host
    }

    /// The shared configuration this context was assembled with.
    pub closed spec fn shared_config(&self) -> HiggsConfig<F> {
        *self.config
    }

    /// Assemble context from an already-extracted host request and config.
    #[must_use]
    pub fn from_parts(host: HostRequestCtx<R>, config: Arc<HiggsConfig<F>>) -> (h: Higgs<R, F>)
        ensures
            h.request() == host,
            h.shared_config() == *config,
    {
        let session_user_id = match &host.session {
            Some(s) => Some(s.user_id.clone()),
            None => None,
        };
        Higgs { host, session_user_id, config }
    }

    /// The underlying host request context (router, session snapshot).
    pub fn host(&self) -> (host: &HostRequestCtx<R>)
        ensures
            *host == self.request(),
    {
        &self.host
    }

    /// Raw database router without session-scoped privacy. Boot/control-plane only;
    /// prefer [`Self::valence`] for user-driven data access.
    pub fn unsafe_database_router(&self) -> (router: &Arc<R>)
        ensures
            *router == self.request().database_router,
    {
        &self.host.database_router
    }

    /// Older name of [`Self::unsafe_database_router`], kept for callers; prefer
    /// `unsafe_database_router`, or [`Self::valence`] for user-driven data access.
    pub fn database_router(&self) -> (router: &Arc<R>)
        ensures
            *router == self.request().database_router,
    {
        self.unsafe_database_router()
    }

    /// Authenticated session user id when middleware inserted a session snapshot.
    pub fn session_user_id(&self) -> (id: Option<&SessionUserId>)
        ensures
            id is Some <==> self.request().session is Some,
            id matches Some(i) ==> Some(i@) == recorded_user_id(self.request().session),
    {
        proof {
            use_type_invariant(self);
        }
        self.session_user_id.as_ref()
    }

    /// The current request's actor (the session user, or `Anonymous`).
    pub fn actor(&self) -> (actor: Actor)
        ensures
            actor@ == session_actor(self.request().session),
    {
        self.host.actor()
    }

    /// The process-wide [`HiggsConfig`] this context was built against.
    pub fn config(&self) -> (config: &HiggsConfig<F>)
        ensures
            *config == self.shared_config(),
    {
        &self.config
    }
}

impl<R, F: HiggsValenceFactory> Higgs<R, F> {
    /// Build Valence via the host-configured factory for the current request actor.
    ///
    /// The factory is handed the session actor (or `Anonymous`); its value is returned
    /// on success, and any factory failure becomes [`HiggsError::Internal`].
    pub fn valence(&self) -> (r: Result<F::Valence, HiggsError>)
        ensures
            exists|actor: Actor, built: Result<F::Valence, F::Error>|
                #![trigger call_ensures(F::build, (&self.shared_config().factory(), &actor), built)]
                actor@ == session_actor(self.request().session)
                && call_ensures(F::build, (&self.shared_config().factory(), &actor), built)
                && r == factory_outcome(built),
    {
        let actor = self.host.actor();
        let factory: &F = &**self.config.valence_factory();
        let built = factory.build(&actor);
        assert(call_ensures(F::build, (factory, &actor), built));
        assert(*factory == self.shared_config().factory());
        factory_result(built)
    }

    /// Build Valence scoped to a `System` actor for `operation` (the current operation
    /// name, or `"<unknown>"` when none is set).
    ///
    /// **Do not use for user-driven work.** The system actor bypasses privacy
    /// policies; prefer [`Self::valence`]. Factory failures become
    /// [`HiggsError::Internal`].
    pub fn unsafe_system_valence(&self, operation: Option<&str>) -> (r: Result<F::Valence, HiggsError>)
        ensures
            exists|actor: Actor, built: Result<F::Valence, F::Error>|
                #![trigger call_ensures(F::build, (&self.shared_config().factory(), &actor), built)]
                actor@ == (ActorView::System {
                    operation: system_operation_name(optional_chars(operation)),
                })
                && (operation matches Some(op) ==> actor@ == (ActorView::System {
                    operation: op@,
                }))
                && (operation is None ==> actor@ == (ActorView::System {
                    operation: "<unknown>"@,
                }))
                && call_ensures(F::build, (&self.shared_config().factory(), &actor), built)
                && r == factory_outcome(built),
    {
        let name = match operation {
            Some(op) => op,
            None => "<unknown>",
        };
        let actor = Actor::System { operation: String::from_str(name) };
        let factory: &F = &**self.config.valence_factory();
        let built = factory.build(&actor);
        assert(call_ensures(F::build, (factory, &actor), built));
        assert(*factory == self.shared_config().factory());
        factory_result(built)
    }
}

/// The system actor's operation is the given operation name, verbatim, and
/// `"<unknown>"` when no name is given.
pub proof fn lemma_system_operation_name_is_verbatim(operation: Option<Seq<char>>)
    ensures
        operation matches Some(op) ==> system_operation_name(operation) == op,
        operation is None ==> system_operation_name(operation) == "<unknown>"@,
{
}

/// A context's recorded session user id and its actor agree: the id is present
/// exactly when the actor is that user, and absent exactly when it is anonymous.
pub proof fn lemma_user_id_agrees_with_actor(session: Option<crate::identity::SessionSnapshot>)
    ensures
        recorded_user_id(session) is Some <==> session_actor(session) is User,
        recorded_user_id(session) is None <==> session_actor(session) is Anonymous,
        recorded_user_id(session) matches Some(id) ==> session_actor(session) == (ActorView::User {
            user_id: id,
        }),
{
}

} // verus!
