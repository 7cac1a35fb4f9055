use possum::revisions::{extract_branch_names, parse_branches_from_json};
use possum::search::extract_model_ids;

#[test]
fn test_parse_branches_from_json() {
    let json = r#"{
            "branches": [
                {"name": "main"},
                {"name": "gptq-4bit-64g-actorder_True"},
                {"name": "develop"}
            ]
        }"#;

    let branches = parse_branches_from_json(json).unwrap();
    assert_eq!(
        branches,
        vec!["main", "gptq-4bit-64g-actorder_True", "develop"]
    );
}

#[test]
fn test_parse_branches_empty_array() {
    let json = r#"{"branches": []}"#;
    let branches = parse_branches_from_json(json).unwrap();
    assert_eq!(branches, Vec::<String>::new());
}

#[test]
fn test_parse_branches_no_branches_field() {
    let json = r#"{"other_field": "value"}"#;
    let branches = parse_branches_from_json(json).unwrap();
    assert_eq!(branches, Vec::<String>::new());
}

#[test]
fn test_parse_branches_invalid_json() {
    let json = r#"{"branches": [{"invalid": "no name field"}]}"#;
    let branches = parse_branches_from_json(json).unwrap();
    assert_eq!(branches, Vec::<String>::new());
}

#[test]
fn test_parse_branches_malformed_text() {
    assert!(parse_branches_from_json("{not json").is_err());
}

#[test]
fn test_extract_branch_names_from_document() {
    let doc: serde_json::Value =
        serde_json::from_str(r#"{"branches":[{"name":"main"},{"commit":"abc"}]}"#).unwrap();
    assert_eq!(extract_branch_names(&doc), vec!["main"]);
}

#[test]
fn test_extract_model_ids_from_array() {
    let doc: serde_json::Value = serde_json::from_str(
        r#"[{"modelId":"TheBloke/Llama-2-7B-Chat-GPTQ"},{"modelId":"TheBloke/Llama-2-13B-Chat-GPTQ"},{"likes":3}]"#,
    )
    .unwrap();
    let ids = extract_model_ids(&doc).unwrap();
    assert_eq!(
        ids,
        vec![
            "TheBloke/Llama-2-7B-Chat-GPTQ",
            "TheBloke/Llama-2-13B-Chat-GPTQ"
        ]
    );
}

// A search response that is not an array announces no repositories.
#[test]
fn test_extract_model_ids_not_an_array() {
    let doc: serde_json::Value = serde_json::from_str(r#"{"error":"busy"}"#).unwrap();
    assert!(extract_model_ids(&doc).is_none());
}
