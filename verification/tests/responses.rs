use s3_proxy::digits::u64_to_dec;
use s3_proxy::error::AppError;
use s3_proxy::listing::{aggregate_pages, format_xml_content, render_list_xml, ObjectEntry};
use s3_proxy::pipeline::{redact_headers, security_headers};

fn entry(key: &str, size: u64, modified: &str) -> ObjectEntry {
    ObjectEntry {
        key: key.to_string(),
        size,
        last_modified: modified.to_string(),
    }
}

#[test]
fn decimal_rendering_is_exact() {
    assert_eq!(u64_to_dec(0), "0");
    assert_eq!(u64_to_dec(7), "7");
    assert_eq!(u64_to_dec(42), "42");
    assert_eq!(u64_to_dec(104857600), "104857600");
    assert_eq!(u64_to_dec(u64::MAX), "18446744073709551615");
}

#[test]
fn statuses_follow_the_taxonomy() {
    assert_eq!(AppError::Unauthorized("m".into()).status_code(), 401);
    assert_eq!(AppError::InvalidRequest("m".into()).status_code(), 400);
    assert_eq!(AppError::BucketNotFound("b".into()).status_code(), 404);
    assert_eq!(AppError::ObjectNotFound("b".into(), "k".into()).status_code(), 404);
    assert_eq!(AppError::BackendFault("m".into()).status_code(), 500);
    assert_eq!(AppError::InternalFault("m".into()).status_code(), 500);
}

#[test]
fn error_body_is_json_with_matching_status() {
    let e = AppError::InvalidRequest("Rate limit exceeded".to_string());
    assert_eq!(
        e.body_json(),
        "{\"error\": \"Rate limit exceeded\", \"status\": 400}"
    );
    let e = AppError::BucketNotFound("b1".to_string());
    assert_eq!(
        e.body_json(),
        "{\"error\": \"Bucket not found: b1\", \"status\": 404}"
    );
}

#[test]
fn aggregation_keeps_every_entry_in_page_order() {
    let pages = vec![
        vec![entry("a", 1, "t1"), entry("b", 2, "t2")],
        vec![entry("c", 3, "t3")],
        vec![],
        vec![entry("d", 4, "t4")],
    ];
    let all = aggregate_pages(pages);
    assert_eq!(all.len(), 4);
    let keys: Vec<&str> = all.iter().map(|o| o.key.as_str()).collect();
    assert_eq!(keys, vec!["a", "b", "c", "d"]);
}

#[test]
fn aggregation_of_no_pages_is_empty() {
    let all = aggregate_pages(Vec::new());
    assert!(all.is_empty());
}

#[test]
fn xml_block_renders_each_field() {
    let objects = vec![entry("file.txt", 12, "2024-01-01T00:00:00Z")];
    let xml = format_xml_content(&objects);
    assert_eq!(
        xml,
        "        <Contents>\n            <Key>file.txt</Key>\n            <Size>12</Size>\n            <LastModified>2024-01-01T00:00:00Z</LastModified>\n        </Contents>"
    );
}

#[test]
fn xml_blocks_are_joined_by_line_breaks() {
    let objects = vec![entry("a", 1, "t1"), entry("b", 2, "t2")];
    let xml = format_xml_content(&objects);
    assert_eq!(xml.matches("<Contents>").count(), 2);
    assert!(xml.contains("</Contents>\n        <Contents>"));
}

#[test]
fn listing_document_has_declaration_name_and_prefix() {
    let objects = vec![entry("docs/a.txt", 5, "t")];
    let xml = render_list_xml("mybucket", "docs/", &objects);
    assert_eq!(
        xml,
        "<?xml version=\"1.0\" encoding=\"UTF-8\"?>\n<ListBucketResult>\n    <Name>mybucket</Name>\n    <Prefix>docs/</Prefix>\n        <Contents>\n            <Key>docs/a.txt</Key>\n            <Size>5</Size>\n            <LastModified>t</LastModified>\n        </Contents>\n</ListBucketResult>"
    );
}

#[test]
fn security_header_set_is_fixed_and_complete() {
    let h = security_headers();
    assert_eq!(h.len(), 4);
    assert_eq!(h[0], ("X-Content-Type-Options".to_string(), "nosniff".to_string()));
    assert_eq!(h[1], ("X-Frame-Options".to_string(), "DENY".to_string()));
    assert_eq!(h[2], ("X-XSS-Protection".to_string(), "1; mode=block".to_string()));
    assert_eq!(
        h[3],
        (
            "Strict-Transport-Security".to_string(),
            "max-age=31536000; includeSubDomains".to_string()
        )
    );
}

#[test]
fn credential_header_never_reaches_the_log() {
    let headers = vec![
        ("host".to_string(), Some("gateway.example.test".to_string())),
        ("x-api-key".to_string(), Some("SECRET-VALUE".to_string())),
        ("x-trace".to_string(), None),
    ];
    let log = redact_headers(&headers);
    assert_eq!(
        log,
        "host: gateway.example.test\nx-api-key: ***REDACTED***\nx-trace: ***INVALID***\n"
    );
    assert!(!log.contains("SECRET-VALUE"));
}
