//! Structural request validation: the payload-size ceiling for mutating
//! operations and the shape of the request path. Pure functions of the
//! request; both run before any identity or routing work.

use vstd::prelude::*;

use crate::digits::dec_rep;
use crate::digits::u64_to_dec;
use crate::error::AppError;

verus! {

/// HTTP methods the gateway serves.
#[derive(Clone, Copy, Debug, PartialEq, Eq, Structural)]
pub enum HttpMethod {
    Get,
    Put,
}

/// A validated logical operation, carrying its decoded path segments. The
/// key is the whole remainder of the path after the bucket, slashes and
/// all.
#[derive(Clone, Debug)]
pub enum Operation {
    List { bucket: String },
    Get { bucket: String, key: String },
    Put { bucket: String, key: String },
}

impl Operation {
    /// Bucket the operation addresses.
    pub open spec fn spec_bucket(&self) -> Seq<char> {
        match self {
            Operation::List { bucket } => bucket@,
            Operation::Get { bucket, .. } => bucket@,
            Operation::Put { bucket, .. } => bucket@,
        }
    }

    /// Whether the operation mutates backend state.
    pub open spec fn spec_mutating(&self) -> bool {
        self is Put
    }

    /// Bucket the operation addresses.
    pub fn bucket(&self) -> (b: &String)
        ensures
            b@ == self.spec_bucket(),
    {
        match self {
            Operation::List { bucket } => bucket,
            Operation::Get { bucket, .. } => bucket,
            Operation::Put { bucket, .. } => bucket,
        }
    }

    /// Whether the operation mutates backend state.
    pub fn mutating(&self) -> (m: bool)
        ensures
            m == self.spec_mutating(),
    {
        matches!(self, Operation::Put { .. })
    }
}

/// Index of the first occurrence of `c` in `s`.
pub open spec fn spec_char_index(s: Seq<char>, c: char) -> Option<int>
    decreases s.len(),
{
    if s.len() == 0 {
        None
    } else if s[0] == c {
        Some(0int)
    } else {
        match spec_char_index(s.drop_first(), c) {
            Some(i) => Some(i + 1),
            None => None,
        }
    }
}

/// Decomposition of a request path: the leading separator stripped, then
/// a bucket segment and optionally a key, the key being the whole
/// remainder after the first interior separator. Empty segments and a
/// missing leading separator are rejected.
pub open spec fn spec_parse_path(p: Seq<char>) -> Option<(Seq<char>, Option<Seq<char>>)> {
    if p.len() == 0 || p[0] != '/' {
        None
    } else {
        let rest = p.subrange(1, p.len() as int);
        if rest.len() == 0 {
            None
        } else {
            match spec_char_index(rest, '/') {
                None => Some((rest, None)),
                Some(i) => {
                    if i == 0 || i + 1 >= rest.len() {
                        None
                    } else {
                        Some((rest.subrange(0, i), Some(rest.subrange(i + 1, rest.len() as int))))
                    }
                },
            }
        }
    }
}

/// Whether a declared payload length breaks the ceiling: only mutating
/// requests that declare a length can.
pub open spec fn spec_size_exceeded(
    method: HttpMethod,
    content_length: Option<u64>,
    max_file_size: u64,
) -> bool {
    method is Put && content_length is Some && content_length->0 > max_file_size
}

/// Message of a size-ceiling rejection, naming the offending length and
/// the limit.
pub open spec fn spec_size_msg(length: u64, max_file_size: u64) -> Seq<char> {
    "File size "@ + dec_rep(length as nat) + " exceeds maximum allowed size of "@ + dec_rep(
        max_file_size as nat,
    ) + " bytes"@
}

/// A match of `c` at `i` with no earlier match forces the found index.
proof fn lemma_char_index_agrees(s: Seq<char>, c: char, i: int)
    requires
        0 <= i < s.len(),
        s[i] == c,
        forall|j: int| 0 <= j < i ==> s[j] != c,
    ensures
        spec_char_index(s, c) == Some(i),
    decreases s.len(),
{
    if i > 0 {
        assert(forall|j: int| 0 <= j < s.drop_first().len() ==> s.drop_first()[j] == s[j + 1]);
        lemma_char_index_agrees(s.drop_first(), c, i - 1);
    }
}

/// When `c` occurs nowhere in `s`, there is no index to find.
proof fn lemma_char_index_none(s: Seq<char>, c: char)
    requires
        forall|j: int| 0 <= j < s.len() ==> s[j] != c,
    ensures
        spec_char_index(s, c) is None,
    decreases s.len(),
{
    if s.len() > 0 {
        assert(forall|j: int| 0 <= j < s.drop_first().len() ==> s.drop_first()[j] == s[j + 1]);
        lemma_char_index_none(s.drop_first(), c);
    }
}

/// The rejection every malformed path earns.
fn invalid_path_error() -> (e: AppError)
    ensures
        e is InvalidRequest,
        e->InvalidRequest_0@ == "Invalid path format"@,
{
    AppError::InvalidRequest(String::from_str("Invalid path format"))
}

/// Decompose a request path into bucket and optional key, per
/// [`spec_parse_path`].
pub fn parse_path(path: &str) -> (r: Result<(String, Option<String>), AppError>)
    ensures
        match spec_parse_path(path@) {
            Some(pr) => {
                &&& r is Ok
                &&& r->Ok_0.0@ == pr.0
                &&& match pr.1 {
                    Some(k) => r->Ok_0.1 is Some && r->Ok_0.1->0@ == k,
                    None => r->Ok_0.1 is None,
                }
            },
            None => {
                &&& r is Err
                &&& r->Err_0 is InvalidRequest
                &&& r->Err_0->InvalidRequest_0@ == "Invalid path format"@
            },
        },
{
    let n: usize = path.unicode_len();
    if n == 0 {
        return Err(invalid_path_error());
    }
    if path.get_char(0) != '/' {
        return Err(invalid_path_error());
    }
    if n == 1 {
        proof {
            assert(path@.subrange(1, n as int).len() == 0);
        }
        return Err(invalid_path_error());
    }
    let ghost rest = path@.subrange(1, n as int);
    let mut i: usize = 1;
    while i < n
        invariant
            1 <= i <= n,
            n == path@.len(),
            rest == path@.subrange(1, n as int),
            path@[0] == '/',
            forall|j: int| 1 <= j < i ==> path@[j] != '/',
        decreases n - i,
    {
        if path.get_char(i) == '/' {
            proof {
                assert(forall|j: int| 0 <= j < i - 1 ==> rest[j] == path@[j + 1]);
                assert(rest[i - 1] == path@[i as int]);
                lemma_char_index_agrees(rest, '/', i - 1);
            }
            if i == 1 {
                return Err(invalid_path_error());
            }
            if i + 1 >= n {
                return Err(invalid_path_error());
            }
            let bucket: String = path.substring_char(1, i).to_owned();
            let key: String = path.substring_char(i + 1, n).to_owned();
            proof {
                assert(bucket@ =~= rest.subrange(0, i - 1));
                assert(key@ =~= rest.subrange(i as int, rest.len() as int));
            }
            return Ok((bucket, Some(key)));
        }
        i = i + 1;
    }
    proof {
        assert(forall|j: int| 0 <= j < rest.len() ==> rest[j] == path@[j + 1]);
        lemma_char_index_none(rest, '/');
    }
    let bucket: String = path.substring_char(1, n).to_owned();
    proof {
        assert(bucket@ =~= rest);
    }
    Ok((bucket, None))
}

/// Structural validation of one request: the size ceiling for mutating
/// operations first, then the path shape, which also fixes the logical
/// operation. Listing takes a bare bucket, object reads and writes take a
/// bucket and a key; a write without a key has the wrong shape.
pub fn validate_request(
    max_file_size: u64,
    method: HttpMethod,
    path: &str,
    content_length: Option<u64>,
) -> (r: Result<Operation, AppError>)
    ensures
        spec_size_exceeded(method, content_length, max_file_size) ==> {
            &&& r is Err
            &&& r->Err_0 is InvalidRequest
            &&& r->Err_0->InvalidRequest_0@ == spec_size_msg(content_length->0, max_file_size)
        },
        !spec_size_exceeded(method, content_length, max_file_size) ==> match spec_parse_path(
            path@,
        ) {
            None => {
                &&& r is Err
                &&& r->Err_0 is InvalidRequest
                &&& r->Err_0->InvalidRequest_0@ == "Invalid path format"@
            },
            Some(pr) => match (method, pr.1) {
                (HttpMethod::Get, Option::<Seq<char>>::None) => {
                    &&& r is Ok
                    &&& r->Ok_0 matches Operation::List { bucket } && bucket@ == pr.0
                },
                (HttpMethod::Get, Option::<Seq<char>>::Some(k)) => {
                    &&& r is Ok
                    &&& r->Ok_0 matches Operation::Get { bucket, key } && bucket@ == pr.0 && key@
                        == k
                },
                (HttpMethod::Put, Option::<Seq<char>>::Some(k)) => {
                    &&& r is Ok
                    &&& r->Ok_0 matches Operation::Put { bucket, key } && bucket@ == pr.0 && key@
                        == k
                },
                (HttpMethod::Put, Option::<Seq<char>>::None) => {
                    &&& r is Err
                    &&& r->Err_0 is InvalidRequest
                    &&& r->Err_0->InvalidRequest_0@ == "Invalid path format"@
                },
            },
        },
{
    if matches!(method, HttpMethod::Put) {
        if let Some(length) = content_length {
            if length > max_file_size {
                let mut msg = String::from_str("File size ");
                let length_dec = u64_to_dec(length);
                msg.append(length_dec.as_str());
                msg.append(" exceeds maximum allowed size of ");
                let max_dec = u64_to_dec(max_file_size);
                msg.append(max_dec.as_str());
                msg.append(" bytes");
                proof {
                    assert(msg@ =~= spec_size_msg(length, max_file_size));
                }
                return Err(AppError::InvalidRequest(msg));
            }
        }
    }
    match parse_path(path) {
        Err(e) => Err(e),
        Ok((bucket, maybe_key)) => match (method, maybe_key) {
            (HttpMethod::Get, None) => Ok(Operation::List { bucket }),
            (HttpMethod::Get, Some(key)) => Ok(Operation::Get { bucket, key }),
            (HttpMethod::Put, Some(key)) => Ok(Operation::Put { bucket, key }),
            (HttpMethod::Put, None) => Err(invalid_path_error()),
        },
    }
}

} // verus!
