use promptivd::text::{add_snippet_template, decimal_string, is_blank, trim};

#[test]
fn test_add_snippet_template() {
    let content = "Hello world";
    let path = Some("/test/file.txt");

    let result = add_snippet_template(content, path);
    assert!(result.contains("Snippet from /test/file.txt:"));
    assert!(result.contains("Hello world"));
    assert!(result.ends_with("---\n"));
}

#[test]
fn test_add_snippet_template_no_path() {
    let content = "Hello world";
    let result = add_snippet_template(content, None);
    assert!(result.contains("Snippet from <stdin>:"));
}

#[test]
fn snippet_trims_content_exactly() {
    let result = add_snippet_template("  \n hi there \t\n", Some("a.txt"));
    assert_eq!(result, "Snippet from a.txt:\nhi there\n---\n");
}

#[test]
fn trim_matches_std_on_unicode_space() {
    let s = "\u{3000}\u{a0} mixed\u{2009}text \u{85}";
    assert_eq!(trim(s), s.trim());
    assert_eq!(trim("   "), "");
    assert_eq!(trim(""), "");
    assert_eq!(trim("x"), "x");
}

#[test]
fn blank_text_is_only_white_space() {
    assert!(is_blank(""));
    assert!(is_blank(" \t\n\u{2028}"));
    assert!(!is_blank("  a "));
}

#[test]
fn decimal_rendering() {
    assert_eq!(decimal_string(0), "0");
    assert_eq!(decimal_string(2000), "2000");
    assert_eq!(decimal_string(u64::MAX), u64::MAX.to_string());
}
