use s3_proxy::error::AppError;
use s3_proxy::validate::{parse_path, validate_request, HttpMethod, Operation};

fn invalid_path(r: Result<(String, Option<String>), AppError>) -> bool {
    matches!(r, Err(AppError::InvalidRequest(m)) if m == "Invalid path format")
}

#[test]
fn single_segment_path_is_a_list_request() {
    let r = parse_path("/mybucket").unwrap();
    assert_eq!(r.0, "mybucket");
    assert!(r.1.is_none());
}

#[test]
fn two_segment_path_keeps_slashes_in_the_key() {
    let r = parse_path("/mybucket/a/b").unwrap();
    assert_eq!(r.0, "mybucket");
    assert_eq!(r.1.as_deref(), Some("a/b"));
}

#[test]
fn simple_object_path_splits_bucket_and_key() {
    let r = parse_path("/bucket/key.txt").unwrap();
    assert_eq!(r.0, "bucket");
    assert_eq!(r.1.as_deref(), Some("key.txt"));
}

#[test]
fn empty_path_fails_validation() {
    assert!(invalid_path(parse_path("")));
}

#[test]
fn bare_separator_fails_validation() {
    assert!(invalid_path(parse_path("/")));
}

#[test]
fn path_without_leading_separator_fails_validation() {
    assert!(invalid_path(parse_path("bucket/key")));
}

#[test]
fn empty_bucket_segment_fails_validation() {
    assert!(invalid_path(parse_path("//key")));
}

#[test]
fn empty_key_segment_fails_validation() {
    assert!(invalid_path(parse_path("/bucket/")));
}

#[test]
fn get_on_bare_bucket_validates_as_list() {
    let op = validate_request(100, HttpMethod::Get, "/b", None).unwrap();
    assert!(matches!(op, Operation::List { bucket } if bucket == "b"));
}

#[test]
fn get_on_bucket_and_key_validates_as_get() {
    let op = validate_request(100, HttpMethod::Get, "/b/k", None).unwrap();
    assert!(matches!(op, Operation::Get { bucket, key } if bucket == "b" && key == "k"));
}

#[test]
fn put_on_bucket_and_key_validates_as_put() {
    let op = validate_request(100, HttpMethod::Put, "/b/k", Some(100)).unwrap();
    assert!(matches!(op, Operation::Put { bucket, key } if bucket == "b" && key == "k"));
}

#[test]
fn put_without_key_fails_validation() {
    let r = validate_request(100, HttpMethod::Put, "/b", None);
    assert!(matches!(r, Err(AppError::InvalidRequest(m)) if m == "Invalid path format"));
}

#[test]
fn oversized_put_is_rejected_with_both_numbers() {
    let r = validate_request(104857600, HttpMethod::Put, "/b/k", Some(104857601));
    match r {
        Err(AppError::InvalidRequest(m)) => assert_eq!(
            m,
            "File size 104857601 exceeds maximum allowed size of 104857600 bytes"
        ),
        other => panic!("expected a size rejection, got {:?}", other),
    }
}

#[test]
fn put_at_the_ceiling_passes() {
    let r = validate_request(104857600, HttpMethod::Put, "/b/k", Some(104857600));
    assert!(r.is_ok());
}

#[test]
fn get_ignores_declared_length() {
    let r = validate_request(100, HttpMethod::Get, "/b/k", Some(1000));
    assert!(r.is_ok());
}

#[test]
fn put_without_declared_length_passes_the_size_gate() {
    let r = validate_request(100, HttpMethod::Put, "/b/k", None);
    assert!(r.is_ok());
}

#[test]
fn size_gate_runs_before_the_path_gate() {
    let r = validate_request(100, HttpMethod::Put, "/not a valid path at all//", Some(101));
    assert!(matches!(r, Err(AppError::InvalidRequest(m)) if m.starts_with("File size")));
}
