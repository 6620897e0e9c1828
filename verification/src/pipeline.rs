//! Per-request orchestration: validation, identity resolution, rate
//! limiting, authorization, and account resolution, in that strict order.
//! Any failing stage short-circuits with its own error before any backend
//! work; the rate-limiter recording is the only mutation on the way.

use vstd::prelude::*;

use crate::auth::AuthState;
use crate::auth::authorize;
use crate::auth::spec_bucket_denied_msg;
use crate::auth::spec_role_name;
use crate::config::Config;
use crate::config::spec_account_index;
use crate::config::spec_bucket_allowed;
use crate::config::spec_can_write;
use crate::config::spec_user_key_index;
use crate::error::AppError;
use crate::rate::RateLimiter;
use crate::rate::spec_limited;
use crate::rate::spec_rate_step;
use crate::text::str_eq;
use crate::validate::HttpMethod;
use crate::validate::Operation;
use crate::validate::spec_parse_path;
use crate::validate::spec_size_exceeded;
use crate::validate::spec_size_msg;
use crate::validate::validate_request;

verus! {

/// The credential a request presented: none at all, a header value that
/// is not readable text, or an opaque key. A malformed credential is
/// treated exactly like an unknown one, so a caller cannot tell them
/// apart.
#[derive(Debug)]
pub enum Credential {
    Missing,
    Malformed,
    Key(String),
}

/// A request that passed every admission stage: who the caller is, the
/// operation to run, and the account that owns the target bucket.
#[derive(Debug)]
pub struct AdmittedRequest {
    pub auth: AuthState,
    pub account_id: String,
    pub op: Operation,
}

/// Whether the path decomposes into a shape the method can serve: a bare
/// bucket or bucket-and-key for reads, bucket-and-key for writes.
pub open spec fn spec_shape_ok(method: HttpMethod, p: Seq<char>) -> bool {
    match spec_parse_path(p) {
        None => false,
        Some(pr) => !(method is Put && pr.1 is None),
    }
}

/// User index the presented credential resolves to, if any.
pub open spec fn spec_cred_user(c: Config, cred: Credential) -> Option<int> {
    match cred {
        Credential::Key(k) => spec_user_key_index(c.users@, k@),
        _ => None,
    }
}

/// Run one request through every admission stage, in order: payload-size
/// ceiling, path shape, credential extraction, identity lookup, rate
/// limiting, bucket visibility, write permission for mutating operations,
/// and bucket-to-account resolution. The first failing stage decides the
/// error; the rate limiter records the request exactly when validation
/// and identity resolution have passed and the caller is under its cap.
pub fn admit_request(
    config: &Config,
    limiter: &mut RateLimiter,
    method: HttpMethod,
    path: &str,
    content_length: Option<u64>,
    credential: &Credential,
    now_ms: u64,
) -> (r: Result<AdmittedRequest, AppError>)
    requires
        old(limiter).wf(),
    ensures
        final(limiter).wf(),
        ({
            let se = spec_size_exceeded(method, content_length, config.max_file_size);
            let shaped = spec_shape_ok(method, path@);
            let uidx = spec_cred_user(*config, *credential);
            &&& r is Ok ==> {
                let username = config.users@[uidx->Some_0].username@;
                let bucket = spec_parse_path(path@)->Some_0.0;
                &&& !se
                &&& shaped
                &&& uidx is Some
                &&& !spec_limited(old(limiter).window_of(username), now_ms)
                &&& spec_bucket_allowed(*config, username, bucket)
                &&& (method is Put ==> spec_can_write(*config, username))
                &&& spec_account_index(config.accounts@, bucket) is Some
            }
            &&& se ==> {
                &&& r is Err
                &&& r->Err_0 is InvalidRequest
                &&& r->Err_0->InvalidRequest_0@ == spec_size_msg(
                    content_length->0,
                    config.max_file_size,
                )
                &&& *final(limiter) == *old(limiter)
            }
            &&& !se && !shaped ==> {
                &&& r is Err
                &&& r->Err_0 is InvalidRequest
                &&& r->Err_0->InvalidRequest_0@ == "Invalid path format"@
                &&& *final(limiter) == *old(limiter)
            }
            &&& !se && shaped && credential is Missing ==> {
                &&& r is Err
                &&& r->Err_0 is Unauthorized
                &&& r->Err_0->Unauthorized_0@ == "No API key provided"@
                &&& *final(limiter) == *old(limiter)
            }
            &&& !se && shaped && !(credential is Missing) && uidx is None ==> {
                &&& r is Err
                &&& r->Err_0 is Unauthorized
                &&& r->Err_0->Unauthorized_0@ == "Invalid API key"@
                &&& *final(limiter) == *old(limiter)
            }
            &&& !se && shaped && uidx is Some ==> {
                let username = config.users@[uidx->Some_0].username@;
                let role = config.users@[uidx->Some_0].user.role;
                let pr = spec_parse_path(path@)->Some_0;
                let bucket = pr.0;
                let limited = spec_limited(old(limiter).window_of(username), now_ms);
                &&& final(limiter).window_of(username) == spec_rate_step(
                    old(limiter).window_of(username),
                    now_ms,
                )
                &&& forall|u: Seq<char>| u != username ==> final(limiter).window_of(u) == old(
                    limiter,
                ).window_of(u)
                &&& limited ==> {
                    &&& r is Err
                    &&& r->Err_0 is InvalidRequest
                    &&& r->Err_0->InvalidRequest_0@ == "Rate limit exceeded"@
                }
                &&& !limited && !spec_bucket_allowed(*config, username, bucket) ==> {
                    &&& r is Err
                    &&& r->Err_0 is Unauthorized
                    &&& r->Err_0->Unauthorized_0@ == spec_bucket_denied_msg(bucket)
                }
                &&& !limited && spec_bucket_allowed(*config, username, bucket) && (method is Put
                    && !spec_can_write(*config, username)) ==> {
                    &&& r is Err
                    &&& r->Err_0 is Unauthorized
                    &&& r->Err_0->Unauthorized_0@ == "Write permission denied"@
                }
                &&& !limited && spec_bucket_allowed(*config, username, bucket) && (method is Put
                    ==> spec_can_write(*config, username)) ==> {
                    match spec_account_index(config.accounts@, bucket) {
                        None => {
                            &&& r is Err
                            &&& r->Err_0 is BucketNotFound
                            &&& r->Err_0->BucketNotFound_0@ == bucket
                        },
                        Some(ai) => {
                            &&& r is Ok
                            &&& r->Ok_0.account_id@ == config.accounts@[ai].id@
                            &&& r->Ok_0.auth.username@ == username
                            &&& r->Ok_0.auth.role@ == spec_role_name(role)
                            &&& match (method, pr.1) {
                                (HttpMethod::Get, Option::<Seq<char>>::None) => r->Ok_0.op
                                    matches Operation::List { bucket: b } && b@ == bucket,
                                (HttpMethod::Get, Option::<Seq<char>>::Some(k)) => r->Ok_0.op
                                    matches Operation::Get { bucket: b, key } && b@ == bucket
                                    && key@ == k,
                                (HttpMethod::Put, Option::<Seq<char>>::Some(k)) => r->Ok_0.op
                                    matches Operation::Put { bucket: b, key } && b@ == bucket
                                    && key@ == k,
                                (HttpMethod::Put, Option::<Seq<char>>::None) => false,
                            }
                        },
                    }
                }
            }
        }),
{
    let op = match validate_request(config.max_file_size, method, path, content_length) {
        Err(e) => {
            return Err(e);
        },
        Ok(op) => op,
    };
    let key = match credential {
        Credential::Missing => {
            return Err(AppError::Unauthorized(String::from_str("No API key provided")));
        },
        Credential::Malformed => {
            return Err(AppError::Unauthorized(String::from_str("Invalid API key")));
        },
        Credential::Key(k) => k,
    };
    let (username, user) = match config.find_user_by_api_key(key.as_str()) {
        None => {
            return Err(AppError::Unauthorized(String::from_str("Invalid API key")));
        },
        Some(found) => found,
    };
    if limiter.is_rate_limited(username.as_str(), now_ms) {
        return Err(AppError::InvalidRequest(String::from_str("Rate limit exceeded")));
    }
    match authorize(config, username.as_str(), op.bucket().as_str(), op.mutating()) {
        Err(e) => {
            return Err(e);
        },
        Ok(()) => {},
    }
    let account_id: String = match config.find_account_for_bucket(op.bucket().as_str()) {
        None => {
            return Err(AppError::BucketNotFound(op.bucket().clone()));
        },
        Some(found) => found.0.clone(),
    };
    let auth = AuthState { username: username.clone(), role: user.role.name() };
    Ok(AdmittedRequest { auth, account_id, op })
}

/// Turn a failed backend object fetch into the gateway's error: the
/// backend's key-not-found fault becomes `ObjectNotFound` for the
/// requested bucket and key, anything else a `BackendFault` carrying the
/// formatted detail.
pub fn map_get_object_error(no_such_key: bool, bucket: &str, key: &str, detail: String) -> (e:
    AppError)
    ensures
        no_such_key ==> (e matches AppError::ObjectNotFound(b, k) && b@ == bucket@ && k@ == key@),
        !no_such_key ==> e == AppError::BackendFault(detail),
{
    if no_such_key {
        AppError::ObjectNotFound(bucket.to_owned(), key.to_owned())
    } else {
        AppError::BackendFault(detail)
    }
}

/// The fixed security header set injected on every response: content-type
/// sniffing prevention, frame-embedding denial, the XSS-protection hint,
/// and strict transport security.
pub open spec fn spec_security_headers() -> Seq<(Seq<char>, Seq<char>)> {
    seq![
        ("X-Content-Type-Options"@, "nosniff"@),
        ("X-Frame-Options"@, "DENY"@),
        ("X-XSS-Protection"@, "1; mode=block"@),
        ("Strict-Transport-Security"@, "max-age=31536000; includeSubDomains"@),
    ]
}

/// The security headers, as name-value pairs in injection order.
pub fn security_headers() -> (h: Vec<(String, String)>)
    ensures
        h@.len() == spec_security_headers().len(),
        forall|i: int|
            0 <= i < h@.len() ==> (#[trigger] h@[i]).0@ == spec_security_headers()[i].0
                && h@[i].1@ == spec_security_headers()[i].1,
{
    let mut h: Vec<(String, String)> = Vec::new();
    h.push((String::from_str("X-Content-Type-Options"), String::from_str("nosniff")));
    h.push((String::from_str("X-Frame-Options"), String::from_str("DENY")));
    h.push((String::from_str("X-XSS-Protection"), String::from_str("1; mode=block")));
    h.push(
        (
            String::from_str("Strict-Transport-Security"),
            String::from_str("max-age=31536000; includeSubDomains"),
        ),
    );
    h
}

/// One line of a header log: the name, then the value — replaced by a
/// fixed marker for the credential header, so the key never appears in a
/// log, and by an invalid-value marker where the value was not readable
/// text.
pub open spec fn spec_redacted_line(name: Seq<char>, value: Option<Seq<char>>) -> Seq<char> {
    name + ": "@ + (if name == "x-api-key"@ {
        "***REDACTED***"@
    } else {
        match value {
            Some(v) => v,
            None => "***INVALID***"@,
        }
    }) + "\n"@
}

/// The header log of a request, one redacted line per header, in order.
pub open spec fn spec_redacted(headers: Seq<(String, Option<String>)>) -> Seq<char>
    decreases headers.len(),
{
    if headers.len() == 0 {
        Seq::empty()
    } else {
        spec_redacted(headers.drop_last()) + spec_redacted_line(
            headers.last().0@,
            match headers.last().1 {
                Some(v) => Some(v@),
                None => None,
            },
        )
    }
}

/// Render request headers for the log with the credential header
/// redacted; a `None` value stands for a header whose value was not
/// readable text.
pub fn redact_headers(headers: &Vec<(String, Option<String>)>) -> (s: String)
    ensures
        s@ == spec_redacted(headers@),
{
    let mut s = String::new();
    let mut i: usize = 0;
    while i < headers.len()
        invariant
            0 <= i <= headers@.len(),
            s@ == spec_redacted(headers@.subrange(0, i as int)),
        decreases headers@.len() - i,
    {
        let pair = &headers[i];
        s.append(pair.0.as_str());
        s.append(": ");
        if str_eq(pair.0.as_str(), "x-api-key") {
            s.append("***REDACTED***");
        } else {
            match &pair.1 {
                Some(v) => s.append(v.as_str()),
                None => s.append("***INVALID***"),
            }
        }
        s.append("\n");
        proof {
            let sub = headers@.subrange(0, i + 1);
            assert(sub.drop_last() =~= headers@.subrange(0, i as int));
            assert(sub.last() == headers@[i as int]);
            assert(s@ =~= spec_redacted(sub));
        }
        i = i + 1;
    }
    proof {
        assert(headers@.subrange(0, headers@.len() as int) =~= headers@);
    }
    s
}

} // verus!
