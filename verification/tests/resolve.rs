use googlebooks_rs::errors::AppError;
use googlebooks_rs::models::GoogleApiErrorDetail;
use googlebooks_rs::models::GoogleApiErrorItem;
use googlebooks_rs::resolve::classify_error;
use googlebooks_rs::resolve::resolve;

#[test]
fn test_resolve_success_payload() {
    let body = br#"{"kind":"books#volumes","totalItems":1,"items":[{"id":"abc","etag":"tag1","volumeInfo":{"title":"La Conquete du Pain"}}]}"#;
    let response = resolve(200, body).unwrap();
    assert_eq!(response.kind, "books#volumes");
    assert_eq!(response.total_items, 1);
    let items = response.items.unwrap();
    assert_eq!(items.len(), 1);
    assert_eq!(items[0].id, "abc");
    assert_eq!(items[0].etag, "tag1");
    assert_eq!(items[0].volume_info.title, "La Conquete du Pain");
    // A missing printType decodes to the documented empty-string default.
    assert_eq!(items[0].volume_info.print_type, "");
}

#[test]
fn test_resolve_success_full_fields() {
    let body = br#"{"kind":"books#volumes","totalItems":2,"items":[{"id":"x","etag":"e","kind":"books#volume","selfLink":"https://example.org/v/x","volumeInfo":{"title":"T","subtitle":"S","authors":["A1","A2"],"publisher":"P","publishedDate":"2001","description":"D","industryIdentifiers":[{"type":"ISBN_13","identifier":"9782348054693"}],"pageCount":123,"printType":"BOOK","categories":["C"],"imageLinks":{"smallThumbnail":"st","thumbnail":"t"}}}]}"#;
    let response = resolve(200, body).unwrap();
    assert_eq!(response.total_items, 2);
    let items = response.items.unwrap();
    let info = &items[0].volume_info;
    assert_eq!(items[0].kind.as_deref(), Some("books#volume"));
    assert_eq!(items[0].self_link.as_deref(), Some("https://example.org/v/x"));
    assert_eq!(info.subtitle.as_deref(), Some("S"));
    assert_eq!(info.authors.as_ref().unwrap(), &vec!["A1".to_string(), "A2".to_string()]);
    assert_eq!(info.publisher.as_deref(), Some("P"));
    assert_eq!(info.published_date.as_deref(), Some("2001"));
    assert_eq!(info.description.as_deref(), Some("D"));
    let ids = info.industry_identifiers.as_ref().unwrap();
    assert_eq!(ids[0].identifier, "9782348054693");
    assert_eq!(ids[0].identifier_type, "ISBN_13");
    assert_eq!(info.page_count, Some(123));
    assert_eq!(info.print_type, "BOOK");
    assert_eq!(info.categories.as_ref().unwrap(), &vec!["C".to_string()]);
    let links = info.image_links.as_ref().unwrap();
    assert_eq!(links.small_thumbnail.as_deref(), Some("st"));
    assert_eq!(links.thumbnail.as_deref(), Some("t"));
}

#[test]
fn test_resolve_rate_limit() {
    let body = br#"{"error":{"code":429,"message":"Quota exceeded"}}"#;
    let result = resolve(429, body);
    match result {
        Err(AppError::RateLimitExceeded { message }) => assert_eq!(message, "Quota exceeded"),
        other => panic!("expected a rate-limit error, got {:?}", other),
    }
}

#[test]
fn test_resolve_remote_error_without_reason() {
    let body = br#"{"error":{"code":404,"message":"Not Found"}}"#;
    let result = resolve(404, body);
    match result {
        Err(AppError::GoogleApi { code, message, reason }) => {
            assert_eq!(code, 404);
            assert_eq!(message, "Not Found");
            assert_eq!(reason, None);
        },
        other => panic!("expected a remote error, got {:?}", other),
    }
}

#[test]
fn test_resolve_remote_error_with_reason() {
    let body = br#"{"error":{"code":403,"message":"Denied","status":"PERMISSION_DENIED","errors":[{"message":"Denied","domain":"global","reason":"forbidden"},{"message":"x","domain":"y","reason":"z"}]}}"#;
    let result = resolve(403, body);
    match result {
        Err(AppError::GoogleApi { code, message, reason }) => {
            assert_eq!(code, 403);
            assert_eq!(message, "Denied");
            assert_eq!(reason.as_deref(), Some("forbidden"));
        },
        other => panic!("expected a remote error, got {:?}", other),
    }
}

#[test]
fn test_resolve_malformed_success_body() {
    let body = b"not json";
    let result = resolve(200, body);
    match result {
        Err(AppError::DeserializeJson { message }) => assert_eq!(message, "not json"),
        other => panic!("expected a deserialization error, got {:?}", other),
    }
}

#[test]
fn test_resolve_wrong_schema_on_success_status() {
    // Valid JSON, but not the success payload schema.
    let body = br#"{"error":{"code":404,"message":"Not Found"}}"#;
    let result = resolve(200, body);
    assert!(matches!(result, Err(AppError::DeserializeJson { .. })));
}

#[test]
fn test_resolve_malformed_envelope() {
    // Valid JSON, but not the error envelope schema.
    let body = br#"{"kind":"books#volumes","totalItems":0}"#;
    let result = resolve(500, body);
    assert!(matches!(result, Err(AppError::DeserializeJson { .. })));
}

#[test]
fn test_resolve_status_class_bounds() {
    let body = br#"{"kind":"books#volumes","totalItems":0}"#;
    assert!(resolve(204, body).is_ok());
    assert!(resolve(299, body).is_ok());
    assert!(resolve(300, body).is_err());
    assert!(resolve(199, body).is_err());
}

#[test]
fn test_classify_error_empty_list_has_no_reason() {
    let detail = GoogleApiErrorDetail {
        code: 500,
        message: "boom".to_string(),
        status: None,
        errors: Some(vec![]),
    };
    match classify_error(detail) {
        AppError::GoogleApi { code, message, reason } => {
            assert_eq!(code, 500);
            assert_eq!(message, "boom");
            assert_eq!(reason, None);
        },
        other => panic!("expected a remote error, got {:?}", other),
    }
}

#[test]
fn test_classify_error_rate_limit_ignores_reasons() {
    let detail = GoogleApiErrorDetail {
        code: 429,
        message: "slow down".to_string(),
        status: None,
        errors: Some(vec![GoogleApiErrorItem {
            message: "m".to_string(),
            domain: "d".to_string(),
            reason: "rateLimitExceeded".to_string(),
        }]),
    };
    match classify_error(detail) {
        AppError::RateLimitExceeded { message } => assert_eq!(message, "slow down"),
        other => panic!("expected a rate-limit error, got {:?}", other),
    }
}
