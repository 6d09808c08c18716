//! Permission-denied payload encode/decode helpers for server functions.
//!
//! Permission failures are encoded into a server-function error message with one of
//! two prefixes, so callers can recover a structured [`PermissionErrorPayload`] with
//! [`parse_permission_error_payload`]. Unrelated messages, and messages whose
//! permission part is empty, parse to `None`.

use vstd::prelude::*;

use crate::higgs_core::text::{
    find_separator, has_prefix, is_white_space, lemma_has_prefix_is_leading_agreement,
    lemma_split_at_leftmost_double_colon, lemma_split_without_double_colon,
    lemma_trimmed_strips_surrounding_white_space, lemma_trimmed_white_space_only,
    split_once_on_separator, starts_with, trim, trimmed,
};

verus! {

/// Message prefix for a denied-permission payload (see [`permission_denied_payload`]).
pub const PERMISSION_DENIED_PREFIX: &'static str = "permission_denied::";

/// Message prefix for a permission-check-failed payload (see
/// [`permission_check_failed_payload`]).
pub const PERMISSION_CHECK_FAILED_PREFIX: &'static str = "permission_check_failed::";

/// The characters of [`PERMISSION_DENIED_PREFIX`].
pub open spec fn denied_prefix() -> Seq<char> {
    PERMISSION_DENIED_PREFIX@
}

/// The characters of [`PERMISSION_CHECK_FAILED_PREFIX`].
pub open spec fn check_failed_prefix() -> Seq<char> {
    PERMISSION_CHECK_FAILED_PREFIX@
}

/// Structured permission failure recovered from a server function error message.
#[derive(Clone, Debug, PartialEq, Eq)]
pub enum PermissionErrorPayload {
    /// The actor was denied the named permission.
    Denied {
        /// Permission name that was denied.
        permission: String,
    },
    /// The permission check itself failed (as opposed to a clean denial).
    CheckFailed {
        /// Permission name that was being checked.
        permission: String,
        /// Client-safe details (may be empty; full detail stays server-side).
        details: String,
    },
}

/// A [`PermissionErrorPayload`] with its strings read as character sequences.
pub enum PermissionErrorView {
    Denied { permission: Seq<char> },
    CheckFailed { permission: Seq<char>, details: Seq<char> },
}

impl View for PermissionErrorPayload {
    type V = PermissionErrorView;

    open spec fn view(&self) -> PermissionErrorView {
        match self {
            PermissionErrorPayload::Denied { permission } => PermissionErrorView::Denied {
                permission: permission@,
            },
            PermissionErrorPayload::CheckFailed { permission, details } =>
                PermissionErrorView::CheckFailed { permission: permission@, details: details@ },
        }
    }
}

impl DeepView for PermissionErrorPayload {
    type V = PermissionErrorView;

    open spec fn deep_view(&self) -> PermissionErrorView {
        self@
    }
}

/// The encoded message for a denied `permission`.
pub open spec fn denied_message(permission: Seq<char>) -> Seq<char> {
    denied_prefix() + permission
}

/// The encoded (client-facing) message for a failed check of `permission`.
pub open spec fn check_failed_message(permission: Seq<char>) -> Seq<char> {
    check_failed_prefix() + permission
}

/// What [`parse_permission_error_payload`] recovers from `message`:
///
/// - after the denied prefix, the trimmed rest is the permission, when not empty;
/// - otherwise, after the check-failed prefix, the rest is split at its first `"::"`:
///   the trimmed part before it is the permission (when not empty) and the trimmed
///   part after it (empty when there is no separator) the details;
/// - anything else is `None`.
pub open spec fn parse_permission_error(message: Seq<char>) -> Option<PermissionErrorView> {
    let denied = trimmed(message.skip(denied_prefix().len() as int));
    let rest = message.skip(check_failed_prefix().len() as int);
    let parts = split_once_on_separator(rest);
    if has_prefix(message, denied_prefix()) && denied.len() > 0 {
        Some(PermissionErrorView::Denied { permission: denied })
    } else if has_prefix(message, check_failed_prefix()) && trimmed(parts.0).len() > 0 {
        Some(
            PermissionErrorView::CheckFailed {
                permission: trimmed(parts.0),
                details: trimmed(parts.1),
            },
        )
    } else {
        None
    }
}

/// Encode a denied-permission payload for `permission` as an error message string.
pub fn permission_denied_payload(permission: &str) -> (msg: String)
    ensures
        msg@ == denied_message(permission@),
{
    let mut msg = String::from_str(PERMISSION_DENIED_PREFIX);
    msg.append(permission);
    msg
}

/// Encode a permission-check-failed payload.
///
/// `details` are for server-side logs only and are **not** part of the client-facing
/// string: the message is the check-failed prefix followed by `permission`.
pub fn permission_check_failed_payload(permission: &str, details: &str) -> (msg: String)
    ensures
        msg@ == check_failed_message(permission@),
{
    let mut msg = String::from_str(PERMISSION_CHECK_FAILED_PREFIX);
    msg.append(permission);
    msg
}

/// `s` from character position `from` to its end.
fn suffix_from(s: &str, from: usize) -> (r: &str)
    requires
        from <= s@.len(),
    ensures
        r@ == s@.skip(from as int),
{
    let n = s.unicode_len();
    let r = s.substring_char(from, n);
    assert(r@ =~= s@.skip(from as int));
    r
}

/// Recover a [`PermissionErrorPayload`] from a server function error message, if it was
/// encoded by [`permission_denied_payload`] or [`permission_check_failed_payload`].
pub fn parse_permission_error_payload(message: &str) -> (payload: Option<PermissionErrorPayload>)
    ensures
        payload.deep_view() == parse_permission_error(message@),
{
    if starts_with(message, PERMISSION_DENIED_PREFIX) {
        let rest = suffix_from(message, PERMISSION_DENIED_PREFIX.unicode_len());
        let permission = trim(rest);
        if permission.unicode_len() > 0 {
            return Some(PermissionErrorPayload::Denied { permission: String::from_str(permission) });
        }
    }
    if starts_with(message, PERMISSION_CHECK_FAILED_PREFIX) {
        let rest = suffix_from(message, PERMISSION_CHECK_FAILED_PREFIX.unicode_len());
        let n = rest.unicode_len();
        let (before, after) = match find_separator(rest) {
            Some(i) => {
                let before = rest.substring_char(0, i);
                let after = rest.substring_char(i + 2, n);
                assert(before@ =~= rest@.take(i as int));
                assert(after@ =~= rest@.skip(i + 2));
                (before, after)
            },
            None => {
                let empty = rest.substring_char(n, n);
                assert(empty@ =~= Seq::<char>::empty());
                (rest, empty)
            },
        };
        assert(before@ == split_once_on_separator(rest@).0);
        assert(after@ == split_once_on_separator(rest@).1);
        let permission = trim(before);
        let details = trim(after);
        if permission.unicode_len() > 0 {
            return Some(
                PermissionErrorPayload::CheckFailed {
                    permission: String::from_str(permission),
                    details: String::from_str(details),
                },
            );
        }
    }
    None
}

} // verus!

verus! {

proof fn lemma_prefixes_exclusive(message: Seq<char>)
    ensures
        !(has_prefix(message, denied_prefix()) && has_prefix(message, check_failed_prefix())),
{
    reveal_strlit("permission_denied::");
    reveal_strlit("permission_check_failed::");
    if has_prefix(message, denied_prefix()) && has_prefix(message, check_failed_prefix()) {
        assert(message.take(denied_prefix().len() as int)[11] == 'd');
        assert(message.take(check_failed_prefix().len() as int)[11] == 'c');
    }
}

/// Encoding a denial and parsing it back gives the denial of the trimmed permission,
/// and nothing when the trimmed permission is empty. In particular a permission that
/// is non-empty and has no surrounding whitespace comes back unchanged.
pub proof fn lemma_denied_payload_round_trip(permission: Seq<char>)
    ensures
        parse_permission_error(denied_message(permission)) == (if trimmed(permission).len() > 0 {
            Some(PermissionErrorView::Denied { permission: trimmed(permission) })
        } else {
            None
        }),
{
    let m = denied_message(permission);
    assert(m.take(denied_prefix().len() as int) =~= denied_prefix());
    assert(m.skip(denied_prefix().len() as int) =~= permission);
    lemma_prefixes_exclusive(m);
}

/// Encoding a failed check and parsing it back gives the check failure whose
/// permission is the trimmed text before the first `"::"` of the encoded permission
/// and whose details are the trimmed text after it (empty when there is none); a
/// permission with no separator and no surrounding whitespace comes back unchanged
/// with empty details. An empty trimmed permission parses to nothing.
pub proof fn lemma_check_failed_payload_round_trip(permission: Seq<char>)
    ensures
        parse_permission_error(check_failed_message(permission)) == ({
            let parts = split_once_on_separator(permission);
            if trimmed(parts.0).len() > 0 {
                Some(
                    PermissionErrorView::CheckFailed {
                        permission: trimmed(parts.0),
                        details: trimmed(parts.1),
                    },
                )
            } else {
                None
            }
        }),
{
    let m = check_failed_message(permission);
    assert(m.take(check_failed_prefix().len() as int) =~= check_failed_prefix());
    assert(m.skip(check_failed_prefix().len() as int) =~= permission);
    lemma_prefixes_exclusive(m);
}

/// A message that starts with neither payload prefix parses to nothing.
pub proof fn lemma_unrelated_message_parses_to_none(message: Seq<char>)
    requires
        !has_prefix(message, denied_prefix()),
        !has_prefix(message, check_failed_prefix()),
    ensures
        parse_permission_error(message) is None,
{
}

/// The two prefixes are the literal texts `"permission_denied::"` and
/// `"permission_check_failed::"`, trailing `"::"` included.
pub proof fn lemma_prefix_texts()
    ensures
        denied_prefix() == "permission_denied::"@,
        check_failed_prefix() == "permission_check_failed::"@,
        denied_prefix().len() == 19,
        check_failed_prefix().len() == 25,
        forall|p: Seq<char>| #[trigger] denied_message(p) == "permission_denied::"@ + p,
        forall|p: Seq<char>| #[trigger] check_failed_message(p) == "permission_check_failed::"@ + p,
{
    reveal_strlit("permission_denied::");
    reveal_strlit("permission_check_failed::");
}

/// A message parses to a payload only when it begins with one of the two full
/// prefixes, their trailing `"::"` included: the denied prefix for a denial, the
/// check-failed prefix for a check failure.
pub proof fn lemma_parse_requires_full_prefix(message: Seq<char>)
    ensures
        parse_permission_error(message) matches Some(PermissionErrorView::Denied { .. }) ==> (
        message.len() >= 19 && message.take(19) == "permission_denied::"@),
        parse_permission_error(message) matches Some(PermissionErrorView::CheckFailed { .. }) ==> (
        message.len() >= 25 && message.take(25) == "permission_check_failed::"@),
{
    lemma_prefix_texts();
    lemma_has_prefix_is_leading_agreement(message, denied_prefix());
    lemma_has_prefix_is_leading_agreement(message, check_failed_prefix());
    if message.len() >= 19 && has_prefix(message, denied_prefix()) {
        assert(message.take(19) =~= "permission_denied::"@);
    }
    if message.len() >= 25 && has_prefix(message, check_failed_prefix()) {
        assert(message.take(25) =~= "permission_check_failed::"@);
    }
}

/// A denial of a permission that neither starts nor ends with whitespace (for
/// instance any name whose first and last characters are ASCII letters or digits)
/// comes back unchanged, whatever whitespace surrounds it in the message.
pub proof fn lemma_denied_round_trip_keeps_name(before: Seq<char>, permission: Seq<char>, after: Seq<char>)
    requires
        forall|i: int| 0 <= i < before.len() ==> is_white_space(#[trigger] before[i]),
        forall|i: int| 0 <= i < after.len() ==> is_white_space(#[trigger] after[i]),
        permission.len() > 0,
        !is_white_space(permission[0]),
        !is_white_space(permission.last()),
    ensures
        parse_permission_error(denied_message(before + permission + after)) == Some(
            PermissionErrorView::Denied { permission },
        ),
{
    lemma_trimmed_strips_surrounding_white_space(before, permission, after);
    lemma_denied_payload_round_trip(before + permission + after);
}

/// A denial whose permission part is whitespace only parses to nothing.
pub proof fn lemma_denied_white_space_only_is_none(w: Seq<char>)
    requires
        forall|i: int| 0 <= i < w.len() ==> is_white_space(#[trigger] w[i]),
    ensures
        parse_permission_error(denied_message(w)) is None,
{
    lemma_trimmed_white_space_only(w);
    lemma_denied_payload_round_trip(w);
}

/// A failed check of a permission that contains no two adjacent `':'` characters and
/// neither starts nor ends with whitespace comes back as that permission with empty
/// details: a single `':'` inside the name never splits it.
pub proof fn lemma_check_failed_round_trip_keeps_name(permission: Seq<char>)
    requires
        permission.len() > 0,
        !is_white_space(permission[0]),
        !is_white_space(permission.last()),
        forall|j: int|
            0 <= j && j + 1 < permission.len() ==> !(#[trigger] permission[j] == ':'
                && permission[j + 1] == ':'),
    ensures
        parse_permission_error(check_failed_message(permission)) == Some(
            PermissionErrorView::CheckFailed { permission, details: Seq::<char>::empty() },
        ),
{
    lemma_split_without_double_colon(permission);
    let e = Seq::<char>::empty();
    assert(e + permission + e =~= permission);
    lemma_trimmed_strips_surrounding_white_space(e, permission, e);
    lemma_trimmed_white_space_only(e);
    lemma_check_failed_payload_round_trip(permission);
}

/// A failed check written as `permission "::" details`, where the permission has no
/// `"::"` of its own, does not end in `':'` and has no surrounding whitespace, parses
/// to that permission and the trimmed details.
pub proof fn lemma_check_failed_with_details(permission: Seq<char>, details: Seq<char>)
    requires
        permission.len() > 0,
        !is_white_space(permission[0]),
        !is_white_space(permission.last()),
        permission.last() != ':',
        forall|j: int|
            0 <= j && j + 1 < permission.len() ==> !(#[trigger] permission[j] == ':'
                && permission[j + 1] == ':'),
    ensures
        parse_permission_error(check_failed_message(permission + "::"@ + details)) == Some(
            PermissionErrorView::CheckFailed { permission, details: trimmed(details) },
        ),
{
    reveal_strlit("::");
    let s = permission + "::"@ + details;
    let k = permission.len() as int;
    assert(s[k] == ':' && s[k + 1] == ':');
    assert forall|j: int| 0 <= j < k implies !(#[trigger] s[j] == ':' && s[j + 1] == ':') by {
        if j + 1 < k {
            assert(s[j] == permission[j] && s[j + 1] == permission[j + 1]);
        } else {
            assert(s[j] == permission.last());
        }
    }
    lemma_split_at_leftmost_double_colon(s, k);
    assert(s.take(k) =~= permission);
    assert(s.skip(k + 2) =~= details);
    let e = Seq::<char>::empty();
    assert(e + permission + e =~= permission);
    lemma_trimmed_strips_surrounding_white_space(e, permission, e);
    lemma_check_failed_payload_round_trip(s);
}

} // verus!
