//! Load-time configuration: backend accounts, caller identities, server
//! settings. Immutable after construction; every lookup is a pure scan.

use vstd::prelude::*;

use crate::text::seq_contains_str;
use crate::text::str_eq;
use crate::text::vec_contains_str;

verus! {

/// One backend storage account: where to reach it, how to sign, and the
/// buckets it owns.
pub struct AccountConfig {
    pub endpoint_url: String,
    pub region: String,
    pub access_key_id: String,
    pub secret_access_key: String,
    pub buckets: Vec<String>,
}

/// An account together with its registry identifier.
pub struct AccountEntry {
    pub id: String,
    pub account: AccountConfig,
}

/// Role of a caller; gates write permission only.
#[derive(Clone, Copy, Debug, PartialEq, Eq, Structural)]
pub enum UserRole {
    Admin,
    User,
    Readonly,
}

/// One caller identity: the pre-shared key it presents, its role, and the
/// bucket patterns it may see (exact names or the wildcard pattern).
pub struct UserConfig {
    pub api_key: String,
    pub role: UserRole,
    pub allowed_buckets: Vec<String>,
}

/// An identity together with its unique username.
pub struct UserEntry {
    pub username: String,
    pub user: UserConfig,
}

/// Bind address for the HTTP front.
pub struct ServerConfig {
    pub port: u16,
    pub host: String,
}

/// Whole gateway configuration, built once at startup.
pub struct Config {
    pub accounts: Vec<AccountEntry>,
    pub users: Vec<UserEntry>,
    pub server: ServerConfig,
    pub max_file_size: u64,
}

/// Whether this account's owned-bucket list names `bucket`.
pub open spec fn spec_owns_bucket(e: AccountEntry, bucket: Seq<char>) -> bool {
    seq_contains_str(e.account.buckets@, bucket)
}

/// Index of the first account claiming `bucket`, scanning in registry order.
pub open spec fn spec_account_index(accounts: Seq<AccountEntry>, bucket: Seq<char>) -> Option<
    int,
>
    decreases accounts.len(),
{
    if accounts.len() == 0 {
        None
    } else if spec_owns_bucket(accounts[0], bucket) {
        Some(0int)
    } else {
        match spec_account_index(accounts.drop_first(), bucket) {
            Some(i) => Some(i + 1),
            None => None,
        }
    }
}

/// `i` points at an account claiming `bucket` and no earlier account does.
pub open spec fn is_first_account_match(
    accounts: Seq<AccountEntry>,
    bucket: Seq<char>,
    i: int,
) -> bool {
    &&& 0 <= i < accounts.len()
    &&& spec_owns_bucket(accounts[i], bucket)
    &&& forall|j: int| 0 <= j < i ==> !spec_owns_bucket(accounts[j], bucket)
}

/// The first-match characterization and the recursive index definition
/// agree: a first match at `i` forces the resolved index to be `i`.
pub proof fn lemma_account_index_agrees(accounts: Seq<AccountEntry>, bucket: Seq<char>, i: int)
    requires
        is_first_account_match(accounts, bucket, i),
    ensures
        spec_account_index(accounts, bucket) == Some(i),
    decreases accounts.len(),
{
    if i == 0 {
    } else {
        assert(!spec_owns_bucket(accounts[0], bucket));
        assert(is_first_account_match(accounts.drop_first(), bucket, i - 1)) by {
            assert(forall|j: int|
                0 <= j < i - 1 ==> accounts.drop_first()[j] == accounts[j + 1]);
        }
        lemma_account_index_agrees(accounts.drop_first(), bucket, i - 1);
    }
}

/// When no account claims `bucket`, resolution yields nothing.
pub proof fn lemma_account_index_none(accounts: Seq<AccountEntry>, bucket: Seq<char>)
    requires
        forall|j: int| 0 <= j < accounts.len() ==> !spec_owns_bucket(accounts[j], bucket),
    ensures
        spec_account_index(accounts, bucket) is None,
    decreases accounts.len(),
{
    if accounts.len() > 0 {
        assert(forall|j: int|
            0 <= j < accounts.drop_first().len() ==> accounts.drop_first()[j] == accounts[j
                + 1]);
        lemma_account_index_none(accounts.drop_first(), bucket);
    }
}

/// Law: resolving a bucket is a pure function of the registry and the
/// bucket name. Any two indices that both satisfy the first-match
/// characterization — as any two results of `find_account_for_bucket` on
/// the same registry and bucket do — are the same index, hence name the
/// same account.
pub proof fn lemma_resolve_account_deterministic(
    accounts: Seq<AccountEntry>,
    bucket: Seq<char>,
    i1: int,
    i2: int,
)
    requires
        is_first_account_match(accounts, bucket, i1),
        is_first_account_match(accounts, bucket, i2),
    ensures
        i1 == i2,
{
}

/// Index of the first identity whose username reads as `username`.
pub open spec fn spec_user_index(users: Seq<UserEntry>, username: Seq<char>) -> Option<int>
    decreases users.len(),
{
    if users.len() == 0 {
        None
    } else if users[0].username@ == username {
        Some(0int)
    } else {
        match spec_user_index(users.drop_first(), username) {
            Some(i) => Some(i + 1),
            None => None,
        }
    }
}

/// Index of the first identity presenting `api_key`.
pub open spec fn spec_user_key_index(users: Seq<UserEntry>, api_key: Seq<char>) -> Option<int>
    decreases users.len(),
{
    if users.len() == 0 {
        None
    } else if users[0].user.api_key@ == api_key {
        Some(0int)
    } else {
        match spec_user_key_index(users.drop_first(), api_key) {
            Some(i) => Some(i + 1),
            None => None,
        }
    }
}

/// Whether this identity's pattern set reaches `bucket`: the wildcard
/// pattern reaches every bucket, an exact pattern only its own name.
pub open spec fn spec_patterns_allow(u: UserConfig, bucket: Seq<char>) -> bool {
    seq_contains_str(u.allowed_buckets@, "*"@) || seq_contains_str(u.allowed_buckets@, bucket)
}

/// Whether this role may mutate: Admin and User may, Readonly never.
pub open spec fn spec_role_can_write(role: UserRole) -> bool {
    role is Admin || role is User
}

/// Bucket visibility for a username under this configuration.
pub open spec fn spec_bucket_allowed(c: Config, username: Seq<char>, bucket: Seq<char>) -> bool {
    match spec_user_index(c.users@, username) {
        Some(i) => spec_patterns_allow(c.users@[i].user, bucket),
        None => false,
    }
}

/// Write permission for a username under this configuration.
pub open spec fn spec_can_write(c: Config, username: Seq<char>) -> bool {
    match spec_user_index(c.users@, username) {
        Some(i) => spec_role_can_write(c.users@[i].user.role),
        None => false,
    }
}

impl Config {
    /// Resolve the account owning `bucket`: the first account, in registry
    /// order, whose owned-bucket list names it, or nothing when no account
    /// claims it.
    pub fn find_account_for_bucket(&self, bucket: &str) -> (r: Option<(&String, &AccountConfig)>)
        ensures
            match r {
                Some(found) => {
                    let idx = spec_account_index(self.accounts@, bucket@);
                    &&& idx is Some
                    &&& found.0@ == self.accounts@[idx->Some_0].id@
                    &&& *found.1 == self.accounts@[idx->Some_0].account
                },
                None => spec_account_index(self.accounts@, bucket@) is None,
            },
    {
        let mut i: usize = 0;
        while i < self.accounts.len()
            invariant
                0 <= i <= self.accounts@.len(),
                forall|j: int| 0 <= j < i ==> !spec_owns_bucket(self.accounts@[j], bucket@),
            decreases self.accounts@.len() - i,
        {
            let entry = &self.accounts[i];
            if vec_contains_str(&entry.account.buckets, bucket) {
                proof {
                    lemma_account_index_agrees(self.accounts@, bucket@, i as int);
                }
                return Some((&entry.id, &entry.account));
            }
            i = i + 1;
        }
        proof {
            lemma_account_index_none(self.accounts@, bucket@);
        }
        None
    }

    /// Resolve an identity from a presented API key: the first identity
    /// whose key matches, or nothing when none does.
    pub fn find_user_by_api_key(&self, api_key: &str) -> (r: Option<(&String, &UserConfig)>)
        ensures
            match r {
                Some(found) => {
                    let idx = spec_user_key_index(self.users@, api_key@);
                    &&& idx is Some
                    &&& found.0@ == self.users@[idx->Some_0].username@
                    &&& *found.1 == self.users@[idx->Some_0].user
                },
                None => spec_user_key_index(self.users@, api_key@) is None,
            },
    {
        let mut i: usize = 0;
        while i < self.users.len()
            invariant
                0 <= i <= self.users@.len(),
                forall|j: int| 0 <= j < i ==> self.users@[j].user.api_key@ != api_key@,
            decreases self.users@.len() - i,
        {
            let entry = &self.users[i];
            if str_eq(entry.user.api_key.as_str(), api_key) {
                proof {
                    lemma_user_key_index_agrees(self.users@, api_key@, i as int);
                }
                return Some((&entry.username, &entry.user));
            }
            i = i + 1;
        }
        proof {
            lemma_user_key_index_none(self.users@, api_key@);
        }
        None
    }

    /// Bucket visibility: true exactly when the username is known and its
    /// pattern set holds the wildcard pattern or the exact bucket name.
    pub fn is_bucket_allowed(&self, username: &str, bucket: &str) -> (r: bool)
        ensures
            r == spec_bucket_allowed(*self, username@, bucket@),
    {
        match self.find_user(username) {
            Some(user) => {
                let wild = vec_contains_str(&user.allowed_buckets, "*");
                if wild {
                    true
                } else {
                    vec_contains_str(&user.allowed_buckets, bucket)
                }
            },
            None => false,
        }
    }

    /// Write permission: true exactly when the username is known and its
    /// role is Admin or User; Readonly and unknown usernames never write.
    pub fn can_write(&self, username: &str) -> (r: bool)
        ensures
            r == spec_can_write(*self, username@),
    {
        match self.find_user(username) {
            Some(user) => matches!(user.role, UserRole::Admin | UserRole::User),
            None => false,
        }
    }

    /// Identity of `username`: the first entry carrying it, if any.
    fn find_user(&self, username: &str) -> (r: Option<&UserConfig>)
        ensures
            match r {
                Some(user) => {
                    let idx = spec_user_index(self.users@, username@);
                    &&& idx is Some
                    &&& *user == self.users@[idx->Some_0].user
                },
                None => spec_user_index(self.users@, username@) is None,
            },
    {
        let mut i: usize = 0;
        while i < self.users.len()
            invariant
                0 <= i <= self.users@.len(),
                forall|j: int| 0 <= j < i ==> self.users@[j].username@ != username@,
            decreases self.users@.len() - i,
        {
            let entry = &self.users[i];
            if str_eq(entry.username.as_str(), username) {
                proof {
                    lemma_user_index_agrees(self.users@, username@, i as int);
                }
                return Some(&entry.user);
            }
            i = i + 1;
        }
        proof {
            lemma_user_index_none(self.users@, username@);
        }
        None
    }
}

/// A username match at `i` with no earlier match forces the resolved index.
proof fn lemma_user_index_agrees(users: Seq<UserEntry>, username: Seq<char>, i: int)
    requires
        0 <= i < users.len(),
        users[i].username@ == username,
        forall|j: int| 0 <= j < i ==> users[j].username@ != username,
    ensures
        spec_user_index(users, username) == Some(i),
    decreases users.len(),
{
    if i > 0 {
        assert(forall|j: int| 0 <= j < users.drop_first().len() ==> users.drop_first()[j] == users[j + 1]);
        lemma_user_index_agrees(users.drop_first(), username, i - 1);
    }
}

/// When no entry carries the username, lookup yields nothing.
proof fn lemma_user_index_none(users: Seq<UserEntry>, username: Seq<char>)
    requires
        forall|j: int| 0 <= j < users.len() ==> users[j].username@ != username,
    ensures
        spec_user_index(users, username) is None,
    decreases users.len(),
{
    if users.len() > 0 {
        assert(forall|j: int| 0 <= j < users.drop_first().len() ==> users.drop_first()[j] == users[j + 1]);
        lemma_user_index_none(users.drop_first(), username);
    }
}

/// An API-key match at `i` with no earlier match forces the resolved index.
proof fn lemma_user_key_index_agrees(users: Seq<UserEntry>, api_key: Seq<char>, i: int)
    requires
        0 <= i < users.len(),
        users[i].user.api_key@ == api_key,
        forall|j: int| 0 <= j < i ==> users[j].user.api_key@ != api_key,
    ensures
        spec_user_key_index(users, api_key) == Some(i),
    decreases users.len(),
{
    if i > 0 {
        assert(forall|j: int| 0 <= j < users.drop_first().len() ==> users.drop_first()[j] == users[j + 1]);
        lemma_user_key_index_agrees(users.drop_first(), api_key, i - 1);
    }
}

/// When no entry presents the key, lookup yields nothing.
proof fn lemma_user_key_index_none(users: Seq<UserEntry>, api_key: Seq<char>)
    requires
        forall|j: int| 0 <= j < users.len() ==> users[j].user.api_key@ != api_key,
    ensures
        spec_user_key_index(users, api_key) is None,
    decreases users.len(),
{
    if users.len() > 0 {
        assert(forall|j: int| 0 <= j < users.drop_first().len() ==> users.drop_first()[j] == users[j + 1]);
        lemma_user_key_index_none(users.drop_first(), api_key);
    }
}

} // verus!
