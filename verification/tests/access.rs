use s3_proxy::auth::{authorize, check_bucket_access, check_write_permission};
use s3_proxy::config::{
    AccountConfig, AccountEntry, Config, ServerConfig, UserConfig, UserEntry, UserRole,
};
use s3_proxy::error::AppError;

fn account(id: &str, buckets: &[&str]) -> AccountEntry {
    AccountEntry {
        id: id.to_string(),
        account: AccountConfig {
            endpoint_url: format!("https://{}.example.test", id),
            region: "us-east-1".to_string(),
            access_key_id: "AKID".to_string(),
            secret_access_key: "SECRET".to_string(),
            buckets: buckets.iter().map(|b| b.to_string()).collect(),
        },
    }
}

fn user(name: &str, key: &str, role: UserRole, patterns: &[&str]) -> UserEntry {
    UserEntry {
        username: name.to_string(),
        user: UserConfig {
            api_key: key.to_string(),
            role,
            allowed_buckets: patterns.iter().map(|p| p.to_string()).collect(),
        },
    }
}

fn config() -> Config {
    Config {
        accounts: vec![
            account("acct-a", &["pub-bucket", "shared-bucket"]),
            account("acct-b", &["priv-bucket", "shared-bucket"]),
        ],
        users: vec![
            user("alice", "KA", UserRole::Admin, &["*"]),
            user("bob", "KB", UserRole::User, &["b1"]),
            user("carol", "KC", UserRole::Readonly, &["priv-bucket"]),
        ],
        server: ServerConfig {
            port: 9000,
            host: "127.0.0.1".to_string(),
        },
        max_file_size: 104857600,
    }
}

#[test]
fn wildcard_pattern_sees_every_bucket() {
    let c = config();
    assert!(c.is_bucket_allowed("alice", "pub-bucket"));
    assert!(c.is_bucket_allowed("alice", "b1"));
    assert!(c.is_bucket_allowed("alice", "never-configured"));
}

#[test]
fn exact_pattern_denies_every_other_bucket() {
    let c = config();
    assert!(c.is_bucket_allowed("bob", "b1"));
    assert!(!c.is_bucket_allowed("bob", "b2"));
    assert!(!c.is_bucket_allowed("bob", "pub-bucket"));
}

#[test]
fn unknown_username_sees_nothing() {
    let c = config();
    assert!(!c.is_bucket_allowed("mallory", "pub-bucket"));
}

#[test]
fn admin_and_user_can_write_readonly_cannot() {
    let c = config();
    assert!(c.can_write("alice"));
    assert!(c.can_write("bob"));
    assert!(!c.can_write("carol"));
    assert!(!c.can_write("mallory"));
}

#[test]
fn bucket_access_denial_names_the_bucket() {
    let c = config();
    let r = check_bucket_access(&c, "bob", "b2");
    assert!(matches!(r, Err(AppError::Unauthorized(m)) if m == "Not allowed to access bucket: b2"));
    assert!(check_bucket_access(&c, "bob", "b1").is_ok());
}

#[test]
fn write_denial_is_generic() {
    let c = config();
    let denied = check_write_permission(&c, "carol");
    let unknown = check_write_permission(&c, "mallory");
    match (denied, unknown) {
        (Err(AppError::Unauthorized(a)), Err(AppError::Unauthorized(b))) => {
            assert_eq!(a, "Write permission denied");
            assert_eq!(a, b);
        }
        other => panic!("expected two generic denials, got {:?}", other),
    }
}

#[test]
fn readonly_write_is_denied_despite_visibility() {
    let c = config();
    assert!(c.is_bucket_allowed("carol", "priv-bucket"));
    let r = authorize(&c, "carol", "priv-bucket", true);
    assert!(matches!(r, Err(AppError::Unauthorized(m)) if m == "Write permission denied"));
    assert!(authorize(&c, "carol", "priv-bucket", false).is_ok());
}

#[test]
fn write_follows_visibility_for_writable_roles() {
    let c = config();
    assert!(authorize(&c, "alice", "anything", true).is_ok());
    assert!(authorize(&c, "bob", "b1", true).is_ok());
    let r = authorize(&c, "bob", "b2", true);
    assert!(matches!(r, Err(AppError::Unauthorized(m)) if m == "Not allowed to access bucket: b2"));
}

#[test]
fn account_resolution_finds_the_owner() {
    let c = config();
    let (id, acct) = c.find_account_for_bucket("priv-bucket").unwrap();
    assert_eq!(id, "acct-b");
    assert_eq!(acct.endpoint_url, "https://acct-b.example.test");
}

#[test]
fn account_resolution_is_deterministic_and_first_wins() {
    let c = config();
    let first = c.find_account_for_bucket("shared-bucket").unwrap().0.clone();
    let second = c.find_account_for_bucket("shared-bucket").unwrap().0.clone();
    assert_eq!(first, "acct-a");
    assert_eq!(first, second);
}

#[test]
fn unknown_bucket_resolves_to_nothing() {
    let c = config();
    assert!(c.find_account_for_bucket("ghost-bucket").is_none());
}

#[test]
fn identity_resolution_by_api_key() {
    let c = config();
    let (name, u) = c.find_user_by_api_key("KB").unwrap();
    assert_eq!(name, "bob");
    assert_eq!(u.role, UserRole::User);
    assert!(c.find_user_by_api_key("K1").is_none());
}

#[test]
fn role_names_match_their_variants() {
    assert_eq!(UserRole::Admin.name(), "Admin");
    assert_eq!(UserRole::User.name(), "User");
    assert_eq!(UserRole::Readonly.name(), "Readonly");
}

#[test]
fn default_ceiling_is_one_hundred_mebibytes() {
    assert_eq!(s3_proxy::default_max_file_size(), 104857600);
}
