use googlebooks_rs::errors::AppError;
use googlebooks_rs::queries::build_volume_url;
use googlebooks_rs::queries::PrintType;
use googlebooks_rs::queries::Projection;
use googlebooks_rs::queries::VolumeQuery;

#[test]
fn test_isbn_query() {
    let query = VolumeQuery::isbn("9782348054693");
    assert_eq!(query.q, "isbn:9782348054693");
}

#[test]
fn test_title_query() {
    let query = VolumeQuery::title("Test");
    assert_eq!(query.q, "intitle:Test");
}

#[test]
fn test_subject_query() {
    let query = VolumeQuery::subject("Yolo");
    assert_eq!(query.q, "subject:Yolo");
}

#[test]
fn test_publisher_query() {
    let query = VolumeQuery::publisher("poche");
    assert_eq!(query.q, "inpublisher:poche");
}

#[test]
fn test_author_query() {
    let query = VolumeQuery::author("emma goldmann");
    assert_eq!(query.q, "inauthor:emma goldmann");
}

#[test]
fn test_chained_queries() {
    let query = VolumeQuery::title("la conquete du pain")
        .and_author("Pierre Koprotkine")
        .max_results(10);

    assert!(query.q.contains("intitle:la conquete du pain"));
    assert!(query.q.contains("inauthor:Pierre Koprotkine"));
    assert_eq!(query.max_results, Some(10));
}

#[test]
fn test_build_url() {
    let query = VolumeQuery::isbn("123456789")
        .max_results(5)
        .lang_restrict("fr".to_string());

    let url = query
        .build_url("https://www.googleapis.com", None)
        .unwrap();
    println!("{:?}", url.as_str());

    assert!(url.as_str().contains("q=isbn%3A123456789"));
    assert!(url.as_str().contains("maxResults=5"));
    assert!(url.as_str().contains("langRestrict=fr"));
}

#[test]
fn test_lccn_query() {
    let query = VolumeQuery::lccn("Yolo");
    assert_eq!(query.q, "lccn:Yolo");
}

#[test]
fn test_projection_display() {
    assert_eq!(Projection::Full.query_value(), "full");
    assert_eq!(Projection::Lite.query_value(), "lite");
}

#[test]
fn test_print_type_display() {
    assert_eq!(PrintType::Books.query_value(), "books");
    assert_eq!(PrintType::All.query_value(), "all");
    assert_eq!(PrintType::Magazines.query_value(), "magazines");
}

#[test]
fn test_oclc_query() {
    let query = VolumeQuery::oclc("42");
    assert_eq!(query.q, "oclc:42");
}

#[test]
fn test_new_query_keeps_seed() {
    let query = VolumeQuery::new("the housemaid").unwrap();
    assert_eq!(query.q, "the housemaid");
    assert_eq!(query.max_results, None);
    assert_eq!(query.start_index, None);
}

#[test]
fn test_new_query_rejects_empty_seed() {
    let result = VolumeQuery::new("");
    assert!(matches!(result, Err(AppError::InvalidArgument { .. })));
}

#[test]
fn test_chain_keeps_left_to_right_order() {
    let query = VolumeQuery::title("A").and_author("B");
    assert_eq!(query.q, "intitle:A inauthor:B");
}

#[test]
fn test_build_url_all_parameters_in_fixed_order() {
    let query = VolumeQuery::isbn("123")
        .max_results(5)
        .start_index(2)
        .lang_restrict("fr".to_string())
        .projection(Projection::Lite)
        .print_type(PrintType::Books);
    let url = query
        .build_url("https://www.googleapis.com", Some("KEY"))
        .unwrap();
    let expected = "https://www.googleapis.com/books/v1/volumes?q=isbn%3A123&maxResults=5&startIndex=2&langRestrict=fr&projection=lite&printType=books&key=KEY";
    assert_eq!(url, expected);
}

#[test]
fn test_build_url_param_relative_order() {
    let query = VolumeQuery::isbn("9782348054693").max_results(5);
    let url = query
        .build_url("https://www.googleapis.com", None)
        .unwrap();
    let q_pos = url.find("q=isbn%3A9782348054693").unwrap();
    let max_pos = url.find("maxResults=5").unwrap();
    assert!(q_pos < max_pos);
}

#[test]
fn test_build_url_idempotent() {
    let query = VolumeQuery::author("Victor Hugo")
        .lang_restrict("fr".to_string())
        .max_results(20);
    let first = query.build_url("https://www.googleapis.com", Some("k")).unwrap();
    let second = query.build_url("https://www.googleapis.com", Some("k")).unwrap();
    assert_eq!(first, second);
    assert_eq!(first.as_bytes(), second.as_bytes());
}

#[test]
fn test_build_url_rejects_invalid_base() {
    let query = VolumeQuery::isbn("123");
    let result = query.build_url("", None);
    assert!(matches!(result, Err(AppError::UrlConstruction { .. })));
}

#[test]
fn test_setters_overwrite_and_commute() {
    let overwritten = VolumeQuery::isbn("1").max_results(5).max_results(7);
    assert_eq!(overwritten.max_results, Some(7));

    let one = VolumeQuery::isbn("1")
        .max_results(3)
        .lang_restrict("en".to_string())
        .build_url("https://www.googleapis.com", None)
        .unwrap();
    let other = VolumeQuery::isbn("1")
        .lang_restrict("en".to_string())
        .max_results(3)
        .build_url("https://www.googleapis.com", None)
        .unwrap();
    assert_eq!(one, other);
}

#[test]
fn test_build_url_encodes_non_ascii() {
    let query = VolumeQuery::title("café");
    let url = query
        .build_url("https://www.googleapis.com", None)
        .unwrap();
    assert!(url.contains("q=intitle%3Acaf%C3%A9"));
}

#[test]
fn test_build_url_passes_negative_max_results_through() {
    let query = VolumeQuery::isbn("1").max_results(-1);
    let url = query
        .build_url("https://www.googleapis.com", None)
        .unwrap();
    assert!(url.contains("maxResults=-1"));
}

#[test]
fn test_build_url_renders_extreme_start_index() {
    let query = VolumeQuery::isbn("1").start_index(i32::MIN);
    let url = query
        .build_url("https://www.googleapis.com", None)
        .unwrap();
    assert!(url.contains("startIndex=-2147483648"));
}

#[test]
fn test_build_volume_url() {
    let url = build_volume_url("https://www.googleapis.com", "zyTCAlFPjgYC").unwrap();
    assert_eq!(url, "https://www.googleapis.com/books/v1/volumes/zyTCAlFPjgYC");
}

#[test]
fn test_build_volume_url_keeps_path_characters() {
    let url = build_volume_url("https://www.googleapis.com", "a:b,c").unwrap();
    assert_eq!(url, "https://www.googleapis.com/books/v1/volumes/a:b,c");
}

#[test]
fn test_build_volume_url_escapes_non_path_characters() {
    let url = build_volume_url("https://www.googleapis.com", "a b/c").unwrap();
    assert_eq!(url, "https://www.googleapis.com/books/v1/volumes/a%20b%2Fc");
}

#[test]
fn test_build_volume_url_rejects_empty_id() {
    let result = build_volume_url("https://www.googleapis.com", "");
    assert!(matches!(result, Err(AppError::InvalidArgument { .. })));
}
