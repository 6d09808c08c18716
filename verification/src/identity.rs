//! Session snapshot contract for hosts: the identity a request carries once host
//! middleware has authenticated it, without any concrete user model.

use subtle::ConstantTimeEq;
use vstd::prelude::*;
use vstd::slice::slice_to_vec;

verus! {

/// Stable session user identifier (typically a record id string).
pub type SessionUserId = String;

/// Minimal authenticated session snapshot for host/request layers.
///
/// Host middleware stores this on the request so that request context can derive
/// an actor without importing concrete user models. Prefer [`SessionSnapshot::new`]
/// over [`Default`]: an empty `auth_hash` is rarely meaningful.
#[derive(Clone, Debug, PartialEq, Eq)]
pub struct SessionSnapshot {
    /// The authenticated user's stable session id.
    pub user_id: SessionUserId,
    /// Opaque auth-hash bytes used to invalidate sessions when credentials change.
    pub auth_hash: Vec<u8>,
}

/// Compares two byte strings with `subtle`'s constant-time slice equality
/// (`<[u8] as ConstantTimeEq>::ct_eq`, then `bool::from(Choice)`).
///
/// Trusted: subtle's slice `ct_eq` returns a `Choice` of 0 when the lengths differ and
/// otherwise the conjunction of the byte-wise `ct_eq`s, each 1 exactly when the bytes
/// are equal; `bool::from` maps 1 to `true`. So the result is `true` exactly when the
/// two byte sequences are equal.
#[verifier::external_body]
fn bytes_ct_eq(a: &[u8], b: &[u8]) -> (r: bool)
    ensures
        r == (a@ == b@),
{
    bool::from(a.ct_eq(b))
}

impl SessionSnapshot {
    /// Construct a snapshot from a user id and auth-hash bytes (both copied).
    pub fn new(user_id: &str, auth_hash: &[u8]) -> (snap: SessionSnapshot)
        ensures
            snap.user_id@ == user_id@,
            snap.auth_hash@ == auth_hash@,
    {
        SessionSnapshot { user_id: String::from_str(user_id), auth_hash: slice_to_vec(auth_hash) }
    }

    /// Constant-time equality of auth hashes (same length required).
    ///
    /// Returns `false` when lengths differ; otherwise `true` exactly when every byte
    /// agrees. Hosts that reload the current user hash after a credential change use
    /// this to decide whether a stored session is stale.
    #[must_use]
    pub fn auth_hash_eq(&self, expected: &[u8]) -> (eq: bool)
        ensures
            eq == (self.auth_hash@ == expected@),
    {
        if self.auth_hash.len() != expected.len() {
            return false;
        }
        bytes_ct_eq(self.auth_hash.as_slice(), expected)
    }
}

impl Default for SessionSnapshot {
    /// An empty snapshot: empty user id and empty auth hash.
    fn default() -> (snap: SessionSnapshot)
        ensures
            snap.user_id@ == Seq::<char>::empty(),
            snap.auth_hash@ == Seq::<u8>::empty(),
    {
        SessionSnapshot { user_id: String::new(), auth_hash: Vec::new() }
    }
}

/// Adapter-facing identity contract, implemented by product user types.
///
/// Middleware calls [`SessionIdentity::to_snapshot`] and stores the resulting
/// [`SessionSnapshot`] on authenticated requests.
pub trait SessionIdentity {
    /// The implementor's stable session user id.
    fn session_user_id(&self) -> &SessionUserId;

    /// The implementor's opaque auth-hash bytes.
    fn session_auth_hash(&self) -> &[u8];

    /// Produce a [`SessionSnapshot`] from [`Self::session_user_id`] and
    /// [`Self::session_auth_hash`].
    fn to_snapshot(&self) -> (snap: SessionSnapshot)
        ensures
            exists|id: &SessionUserId, hash: &[u8]|
                #![trigger call_ensures(Self::session_user_id, (self,), id), call_ensures(Self::session_auth_hash, (self,), hash)]
                call_ensures(Self::session_user_id, (self,), id)
                && call_ensures(Self::session_auth_hash, (self,), hash)
                && snap.user_id@ == id@ && snap.auth_hash@ == hash@,
    {
        let id = self.session_user_id();
        let hash = self.session_auth_hash();
        SessionSnapshot::new(id.as_str(), hash)
    }
}

} // verus!
