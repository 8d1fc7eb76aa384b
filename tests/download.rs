use vaultfs::{content_disposition, sanitize_filename, MAX_FILENAME_CHARS};

#[test]
fn sanitize_keeps_plain_ascii() {
    assert_eq!(sanitize_filename("report-2024.pdf"), "report-2024.pdf");
}

#[test]
fn sanitize_drops_quotes_backslashes_and_controls() {
    assert_eq!(sanitize_filename("a\"b\\c\nd\re\tf\u{7f}g\u{85}h"), "abcdefgh");
}

#[test]
fn sanitize_replaces_non_ascii() {
    assert_eq!(sanitize_filename("résumé 日本.txt"), "r_sum_ __.txt");
}

#[test]
fn sanitize_truncates_to_limit() {
    let long: String = std::iter::repeat('x').take(300).collect();
    let out = sanitize_filename(&long);
    assert_eq!(out.chars().count(), MAX_FILENAME_CHARS);
    assert_eq!(MAX_FILENAME_CHARS, 255);
}

#[test]
fn sanitize_counts_limit_after_removal() {
    let mut name = String::new();
    for _ in 0..100 {
        name.push('"');
    }
    for _ in 0..255 {
        name.push('y');
    }
    name.push('z');
    let out = sanitize_filename(&name);
    assert_eq!(out.len(), 255);
    assert!(out.chars().all(|c| c == 'y'));
}

#[test]
fn sanitize_empty_name() {
    assert_eq!(sanitize_filename(""), "");
}

#[test]
fn disposition_quotes_sanitized_name() {
    assert_eq!(
        content_disposition("my \"file\".txt"),
        "attachment; filename=\"my file.txt\""
    );
}
