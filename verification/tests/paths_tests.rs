use mark_us_down::paths::{is_candidate_path, is_document_path, next_document_index, url_to_path};

#[test]
fn recognized_extensions_are_md_markdown_and_txt() {
    assert!(is_document_path("notes.md"));
    assert!(is_document_path("notes.markdown"));
    assert!(is_document_path("notes.txt"));
}

#[test]
fn extension_match_is_exact_and_case_sensitive() {
    assert!(!is_document_path("notes.MD"));
    assert!(!is_document_path("notes.Markdown"));
    assert!(!is_document_path("notes.md.bak"));
    assert!(!is_document_path("notes.text"));
    assert!(!is_document_path("mdfile"));
    assert!(!is_document_path(""));
    assert!(is_document_path(".md"));
}

#[test]
fn a_candidate_must_also_exist_on_disk() {
    assert!(is_candidate_path("notes.md", true));
    assert!(!is_candidate_path("notes.md", false));
    assert!(!is_candidate_path("notes.exe", true));
}

#[test]
fn file_urls_lose_their_scheme_prefix() {
    assert_eq!(url_to_path("file:///home/me/a.md"), "/home/me/a.md");
    assert_eq!(url_to_path("/home/me/a.md"), "/home/me/a.md");
    assert_eq!(url_to_path("file://"), "");
    assert_eq!(url_to_path("http://x/a.md"), "http://x/a.md");
    assert_eq!(url_to_path("file:/x"), "file:/x");
}

#[test]
fn dropped_files_are_scanned_in_order_for_the_first_document() {
    let paths = vec![
        "image.png".to_string(),
        "doc.md".to_string(),
        "other.txt".to_string(),
    ];
    assert_eq!(next_document_index(&paths, 0), Some(1));
    assert_eq!(next_document_index(&paths, 2), Some(2));
    assert_eq!(next_document_index(&paths, 3), None);
    assert_eq!(next_document_index(&vec!["a.exe".to_string()], 0), None);
}
