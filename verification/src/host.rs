//! Host request context for server functions: the Valence router handle for the
//! request plus the optional session snapshot, mapped to an actor.

use std::sync::Arc;
use vstd::prelude::*;

use crate::identity::SessionSnapshot;

verus! {

/// The caller a Valence instance acts for, as the request context derives it.
///
/// Mirrors the three actor shapes of the data layer: nobody signed in, a signed-in
/// user, or an explicitly minted system actor for one named operation.
#[derive(Clone, Debug, PartialEq, Eq)]
pub enum Actor {
    /// No session: the request is anonymous.
    Anonymous,
    /// A signed-in user, by session user id.
    User {
        /// The session user id.
        user_id: String,
    },
    /// A system actor minted for one operation (bypasses privacy policies).
    System {
        /// The operation the system actor was minted for.
        operation: String,
    },
}

/// An [`Actor`] with its strings read as character sequences.
pub enum ActorView {
    Anonymous,
    User { user_id: Seq<char> },
    System { operation: Seq<char> },
}

impl View for Actor {
    type V = ActorView;

    open spec fn view(&self) -> ActorView {
        match self {
            Actor::Anonymous => ActorView::Anonymous,
            Actor::User { user_id } => ActorView::User { user_id: user_id@ },
            Actor::System { operation } => ActorView::System { operation: operation@ },
        }
    }
}

/// The actor a request acts for: the session's user, or anonymous without a session.
pub open spec fn session_actor(session: Option<SessionSnapshot>) -> ActorView {
    match session {
        Some(s) => ActorView::User { user_id: s.user_id@ },
        None => ActorView::Anonymous,
    }
}

/// Full host request context including the optional session snapshot.
///
/// `R` is the database router type the host extracts for the request; this context
/// only carries it.
pub struct HostRequestCtx<R> {
    /// Database router for the current request.
    pub database_router: Arc<R>,
    /// Session snapshot when auth middleware inserted one; `None` for anonymous requests.
    pub session: Option<SessionSnapshot>,
}

impl<R> HostRequestCtx<R> {
    /// The authenticated session's user id, if any.
    pub fn session_user_id(&self) -> (id: Option<&str>)
        ensures
            id is Some <==> self.session is Some,
            id matches Some(i) ==> i@ == self.session->Some_0.user_id@,
    {
        match &self.session {
            Some(s) => Some(s.user_id.as_str()),
            None => None,
        }
    }

    /// Whether this request carries a session snapshot (i.e. is authenticated).
    pub fn is_authenticated(&self) -> (authenticated: bool)
        ensures
            authenticated == self.session is Some,
    {
        self.session.is_some()
    }

    /// Derive the [`Actor`] from the session (`User`) or lack thereof (`Anonymous`).
    pub fn actor(&self) -> (actor: Actor)
        ensures
            actor@ == session_actor(self.session),
    {
        match &self.session {
            Some(s) => Actor::User { user_id: s.user_id.clone() },
            None => Actor::Anonymous,
        }
    }
}

/// The refusal a request without a session gets where a signed-in session is required.
#[derive(Clone, Copy, Debug, PartialEq, Eq)]
pub struct SessionRequired;

impl SessionRequired {
    /// The client-facing message: `"You must be signed in"`.
    pub fn message(&self) -> (msg: String)
        ensures
            msg@ == "You must be signed in"@,
    {
        String::from_str("You must be signed in")
    }
}

/// Require an authenticated [`SessionSnapshot`] on an extracted request context.
///
/// Fails closed: `Ok` with the session exactly when the request carries one,
/// otherwise [`SessionRequired`].
pub fn require_session<R>(ctx: HostRequestCtx<R>) -> (r: Result<SessionSnapshot, SessionRequired>)
    ensures
        ctx.session matches Some(s) ==> r == Ok::<SessionSnapshot, SessionRequired>(s),
        ctx.session is None ==> r == Err::<SessionSnapshot, SessionRequired>(SessionRequired),
{
    match ctx.session {
        Some(s) => Ok(s),
        None => Err(SessionRequired),
    }
}

/// The request's actor, its session user id and its authentication flag agree: the
/// actor is the session's user exactly when the request is authenticated, with the
/// same user id, and anonymous otherwise.
pub proof fn lemma_actor_agrees_with_session(session: Option<SessionSnapshot>)
    ensures
        session_actor(session) is User <==> session is Some,
        session_actor(session) is Anonymous <==> session is None,
        session matches Some(s) ==> session_actor(session) == (ActorView::User {
            user_id: s.user_id@,
        }),
        !(session_actor(session) is System),
{
}

} // verus!
