use possum::listing::parse_listing;

#[test]
fn test_parse_listing_collects_rfilenames_in_order() {
    let body = r#"{"siblings":[{"rfilename":"config.json"},{"rfilename":"model.safetensors"}]}"#;
    let files = parse_listing(true, body, "test/model").unwrap();
    assert_eq!(files, vec!["config.json", "model.safetensors"]);
}

// A response without `siblings` lists no files and is not an error.
#[test]
fn test_parse_listing_missing_siblings_is_empty() {
    let files = parse_listing(true, r#"{"other_field":"value"}"#, "test/model").unwrap();
    assert_eq!(files, Vec::<String>::new());
}

#[test]
fn test_parse_listing_empty_siblings_is_empty() {
    let files = parse_listing(true, r#"{"siblings":[]}"#, "test/model").unwrap();
    assert_eq!(files, Vec::<String>::new());
}

// `siblings` of the wrong shape lists no files either.
#[test]
fn test_parse_listing_non_array_siblings_is_empty() {
    let files = parse_listing(true, r#"{"siblings":"none"}"#, "test/model").unwrap();
    assert_eq!(files, Vec::<String>::new());
}

// Elements without a string `rfilename` are passed over, not an error.
#[test]
fn test_parse_listing_skips_malformed_siblings() {
    let body = r#"{"siblings":[{"rfilename":"a.txt"},{"size":3},{"rfilename":7},"x",{"rfilename":"b.txt"}]}"#;
    let files = parse_listing(true, body, "test/model").unwrap();
    assert_eq!(files, vec!["a.txt", "b.txt"]);
}

// A non-success status fails the listing and names the repository.
#[test]
fn test_parse_listing_failure_status() {
    let err = parse_listing(false, "", "test/model").unwrap_err();
    assert_eq!(err.repository, "test/model");
    assert_eq!(err.message(), "Failed to list files for test/model");
}

// A body that is not JSON is fatal to the listing too.
#[test]
fn test_parse_listing_body_not_json() {
    let err = parse_listing(true, "not json at all", "test/model").unwrap_err();
    assert_eq!(err.repository, "test/model");
}
