use possum::filter::{filter_files, has_modern_weights, should_ignore_file};

#[test]
fn test_should_ignore_file_no_safetensors() {
    assert!(!should_ignore_file("model.bin", false));
    assert!(!should_ignore_file("model.pt", false));
    assert!(!should_ignore_file("model.safetensors", false));
}

#[test]
fn test_should_ignore_file_with_safetensors() {
    assert!(should_ignore_file("model.bin", true));
    assert!(should_ignore_file("model.pt", true));
    assert!(should_ignore_file("pytorch_model.bin", true));
    assert!(!should_ignore_file("model.safetensors", true));
    assert!(!should_ignore_file("config.json", true));
}

#[test]
fn test_should_ignore_file_patterns() {
    assert!(should_ignore_file("anything.pt", true));
    assert!(should_ignore_file("anything.bin", true));
    assert!(!should_ignore_file("anything.safetensors", true));
    assert!(!should_ignore_file("model.json", true));
}

#[test]
fn test_has_modern_weights_detection() {
    let with: Vec<String> = vec![
        "config.json".to_string(),
        "model.safetensors".to_string(),
    ];
    assert!(has_modern_weights(&with));

    // The prefix and the suffix must both be there.
    let without: Vec<String> = vec![
        "model.bin".to_string(),
        "weights.safetensors".to_string(),
    ];
    assert!(!has_modern_weights(&without));

    let empty: Vec<String> = vec![];
    assert!(!has_modern_weights(&empty));
}

// With a modern weights file present, every legacy weight file is dropped
// and everything else is kept, in order.
#[test]
fn test_filter_files_with_modern_weights() {
    let files: Vec<String> = vec![
        "pytorch_model.bin".to_string(),
        "model.safetensors".to_string(),
        "rng_state.pt".to_string(),
        "config.json".to_string(),
    ];
    let kept = filter_files(&files);
    assert_eq!(kept, vec!["model.safetensors", "config.json"]);
}

// Without a modern weights file, nothing is dropped, whatever the extension.
#[test]
fn test_filter_files_without_modern_weights() {
    let files: Vec<String> = vec![
        "pytorch_model.bin".to_string(),
        "rng_state.pt".to_string(),
        "config.json".to_string(),
    ];
    let kept = filter_files(&files);
    assert_eq!(kept, files);
}
