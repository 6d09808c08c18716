use higgs::identity::{SessionIdentity, SessionSnapshot, SessionUserId};

struct StubUser {
    id: SessionUserId,
    hash: Vec<u8>,
}

impl SessionIdentity for StubUser {
    fn session_user_id(&self) -> &SessionUserId {
        &self.id
    }

    fn session_auth_hash(&self) -> &[u8] {
        &self.hash
    }
}

#[test]
fn snapshot_new_copies_fields_happy_path() {
    let snap = SessionSnapshot::new("user:1", b"abc");
    assert_eq!(snap.user_id, "user:1");
    assert_eq!(snap.auth_hash, b"abc");
}

#[test]
fn session_identity_to_snapshot_happy_path() {
    let user = StubUser {
        id: "user:2".into(),
        hash: b"xyz".to_vec(),
    };
    assert_eq!(user.to_snapshot(), SessionSnapshot::new("user:2", b"xyz"));
}

#[test]
fn auth_hash_eq_happy_path() {
    let snap = SessionSnapshot::new("user:1", b"secret-hash");
    assert!(snap.auth_hash_eq(b"secret-hash"));
}

#[test]
fn auth_hash_eq_sad_mismatch() {
    let snap = SessionSnapshot::new("user:1", b"secret-hash");
    assert!(!snap.auth_hash_eq(b"other-hash"));
    assert!(!snap.auth_hash_eq(b"short"));
}

#[test]
fn auth_hash_eq_same_length_one_byte_differs() {
    let snap = SessionSnapshot::new("user:1", b"abcdef");
    assert!(!snap.auth_hash_eq(b"abcdeg"));
    assert!(!snap.auth_hash_eq(b"Abcdef"));
    assert!(snap.auth_hash_eq(b"abcdef"));
}

#[test]
fn auth_hash_eq_empty_hashes() {
    let snap = SessionSnapshot::new("user:1", b"");
    assert!(snap.auth_hash_eq(b""));
    assert!(!snap.auth_hash_eq(b"x"));
}

#[test]
fn snapshot_default_is_empty() {
    let snap = SessionSnapshot::default();
    assert_eq!(snap.user_id, "");
    assert!(snap.auth_hash.is_empty());
    assert!(snap.auth_hash_eq(b""));
}

#[test]
fn to_snapshot_matches_identity_accessors() {
    let user = StubUser {
        id: "user:3".into(),
        hash: vec![0, 255, 7],
    };
    let snap = user.to_snapshot();
    assert_eq!(&snap.user_id, user.session_user_id());
    assert_eq!(snap.auth_hash.as_slice(), user.session_auth_hash());
    assert!(snap.auth_hash_eq(&[0, 255, 7]));
}
