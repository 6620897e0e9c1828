//! Access control: bucket visibility and write permission, the two
//! independent gates consulted before any backend call, and the laws that
//! hold of them.

use vstd::prelude::*;

use crate::config::Config;
use crate::config::UserConfig;
use crate::config::UserRole;
use crate::config::spec_bucket_allowed;
use crate::config::spec_can_write;
use crate::config::spec_patterns_allow;
use crate::config::spec_role_can_write;
use crate::error::AppError;
use crate::text::seq_contains_str;

verus! {

/// Resolved caller carried through a request: the username and the name of
/// its role.
#[derive(Clone, Debug)]
pub struct AuthState {
    pub username: String,
    pub role: String,
}

/// Display name of a role, as carried in [`AuthState`].
pub open spec fn spec_role_name(role: UserRole) -> Seq<char> {
    match role {
        UserRole::Admin => "Admin"@,
        UserRole::User => "User"@,
        UserRole::Readonly => "Readonly"@,
    }
}

impl UserRole {
    /// Name of this role.
    pub fn name(&self) -> (s: String)
        ensures
            s@ == spec_role_name(*self),
    {
        match self {
            UserRole::Admin => String::from_str("Admin"),
            UserRole::User => String::from_str("User"),
            UserRole::Readonly => String::from_str("Readonly"),
        }
    }
}

/// Message of a visibility denial for `bucket`.
pub open spec fn spec_bucket_denied_msg(bucket: Seq<char>) -> Seq<char> {
    "Not allowed to access bucket: "@ + bucket
}

/// Bucket-visibility gate: passes exactly when the identity's pattern set
/// reaches the bucket; denies with a reason naming the bucket.
pub fn check_bucket_access(config: &Config, username: &str, bucket: &str) -> (r: Result<
    (),
    AppError,
>)
    ensures
        r is Ok <==> spec_bucket_allowed(*config, username@, bucket@),
        r is Err ==> r->Err_0 == AppError::Unauthorized(r->Err_0->Unauthorized_0)
            && r->Err_0->Unauthorized_0@ == spec_bucket_denied_msg(bucket@),
{
    if !config.is_bucket_allowed(username, bucket) {
        let mut msg = String::from_str("Not allowed to access bucket: ");
        msg.append(bucket);
        return Err(AppError::Unauthorized(msg));
    }
    Ok(())
}

/// Write-permission gate: passes exactly when the identity's role may
/// mutate; the denial reason is generic on purpose, so that a caller
/// cannot tell a Readonly role from an unknown username.
pub fn check_write_permission(config: &Config, username: &str) -> (r: Result<(), AppError>)
    ensures
        r is Ok <==> spec_can_write(*config, username@),
        r is Err ==> r->Err_0 == AppError::Unauthorized(r->Err_0->Unauthorized_0)
            && r->Err_0->Unauthorized_0@ == "Write permission denied"@,
{
    if !config.can_write(username) {
        return Err(AppError::Unauthorized(String::from_str("Write permission denied")));
    }
    Ok(())
}

/// Full authorization decision for one operation: visibility always, and
/// write permission additionally for mutating operations.
pub open spec fn spec_authorized(
    c: Config,
    username: Seq<char>,
    bucket: Seq<char>,
    mutating: bool,
) -> bool {
    spec_bucket_allowed(c, username, bucket) && (mutating ==> spec_can_write(c, username))
}

/// Policy evaluation for one operation: the visibility gate, then — for
/// mutating operations only — the write gate. Either failure carries the
/// gate's own denial.
pub fn authorize(config: &Config, username: &str, bucket: &str, mutating: bool) -> (r: Result<
    (),
    AppError,
>)
    ensures
        r is Ok <==> spec_authorized(*config, username@, bucket@, mutating),
        r is Err ==> r->Err_0 == AppError::Unauthorized(r->Err_0->Unauthorized_0),
        r is Err ==> r->Err_0->Unauthorized_0@ == if !spec_bucket_allowed(
            *config,
            username@,
            bucket@,
        ) {
            spec_bucket_denied_msg(bucket@)
        } else {
            "Write permission denied"@
        },
{
    let visible = check_bucket_access(config, username, bucket);
    match visible {
        Err(e) => Err(e),
        Ok(()) => {
            if mutating {
                check_write_permission(config, username)
            } else {
                Ok(())
            }
        },
    }
}

/// Law: an identity whose pattern set holds the wildcard pattern sees
/// every bucket.
pub proof fn lemma_wildcard_allows_every_bucket(u: UserConfig, bucket: Seq<char>)
    requires
        seq_contains_str(u.allowed_buckets@, "*"@),
    ensures
        spec_patterns_allow(u, bucket),
{
}

/// Law: an identity whose pattern set holds neither the wildcard pattern
/// nor the bucket's exact name is denied that bucket.
pub proof fn lemma_exact_patterns_deny_other_bucket(u: UserConfig, bucket: Seq<char>)
    requires
        !seq_contains_str(u.allowed_buckets@, "*"@),
        !seq_contains_str(u.allowed_buckets@, bucket),
    ensures
        !spec_patterns_allow(u, bucket),
{
}

/// Law: an identity whose pattern set holds the wildcard pattern is
/// granted visibility into every bucket under the configuration.
pub proof fn lemma_wildcard_identity_sees_every_bucket(
    c: Config,
    username: Seq<char>,
    bucket: Seq<char>,
    i: int,
)
    requires
        crate::config::spec_user_index(c.users@, username) == Some(i),
        0 <= i < c.users@.len(),
        seq_contains_str(c.users@[i].user.allowed_buckets@, "*"@),
    ensures
        spec_bucket_allowed(c, username, bucket),
{
}

/// Law: an identity whose pattern set names exactly some other buckets is
/// denied any bucket it does not name, under the configuration.
pub proof fn lemma_exact_identity_denied_other_bucket(
    c: Config,
    username: Seq<char>,
    bucket: Seq<char>,
    i: int,
)
    requires
        crate::config::spec_user_index(c.users@, username) == Some(i),
        0 <= i < c.users@.len(),
        !seq_contains_str(c.users@[i].user.allowed_buckets@, "*"@),
        !seq_contains_str(c.users@[i].user.allowed_buckets@, bucket),
    ensures
        !spec_bucket_allowed(c, username, bucket),
{
}

/// Law: a Readonly identity is never authorized to write, whatever its
/// bucket visibility.
pub proof fn lemma_readonly_never_writes(
    c: Config,
    username: Seq<char>,
    bucket: Seq<char>,
    i: int,
)
    requires
        crate::config::spec_user_index(c.users@, username) == Some(i),
        0 <= i < c.users@.len(),
        c.users@[i].user.role is Readonly,
    ensures
        !spec_authorized(c, username, bucket, true),
{
}

/// Law: for an Admin or User identity, write authorization follows bucket
/// visibility alone.
pub proof fn lemma_admin_user_write_follows_visibility(
    c: Config,
    username: Seq<char>,
    bucket: Seq<char>,
    i: int,
)
    requires
        crate::config::spec_user_index(c.users@, username) == Some(i),
        0 <= i < c.users@.len(),
        spec_role_can_write(c.users@[i].user.role),
    ensures
        spec_authorized(c, username, bucket, true) == spec_bucket_allowed(c, username, bucket),
{
}

} // verus!
