use paperless_ngx_tools::correspondent::{name_matches, resolve_by_id, resolve_by_name, Correspondent};
use paperless_ngx_tools::errors::PaperlessToolError;

fn corr(id: i32, name: &str, document_count: i32) -> Correspondent {
    Correspondent { id, name: name.to_owned(), document_count }
}

#[test]
fn name_matching_folds_ascii_case() {
    assert!(name_matches("Acme", "acme"));
    assert!(name_matches("ACME", "aCmE"));
    assert!(name_matches("", ""));
    assert!(!name_matches("Acme", "Acme Inc"));
    assert!(!name_matches("Acme", "Acmf"));
}

#[test]
fn resolution_unique_exact_match() {
    let candidates = vec![corr(1, "Acme", 4), corr(2, "Acme Inc", 0), corr(3, "Zenith", 2)];
    let c = resolve_by_name(&candidates, "acme").unwrap();
    assert_eq!(c.id, 1);
    assert_eq!(c.name, "Acme");
    assert_eq!(c.document_count, 4);
}

#[test]
fn resolution_two_exact_matches_is_ambiguous() {
    let candidates = vec![corr(1, "Acme", 0), corr(2, "Acme", 1)];
    match resolve_by_name(&candidates, "Acme") {
        Err(PaperlessToolError::Ambiguous { matches }) => assert_eq!(matches, 2),
        other => panic!("expected Ambiguous, got {:?}", other),
    }
}

#[test]
fn resolution_case_folded_duplicates_are_ambiguous() {
    let candidates = vec![corr(1, "ACME", 0), corr(2, "acme", 1), corr(3, "AcMe", 2)];
    match resolve_by_name(&candidates, "Acme") {
        Err(PaperlessToolError::Ambiguous { matches }) => assert_eq!(matches, 3),
        other => panic!("expected Ambiguous, got {:?}", other),
    }
}

#[test]
fn resolution_of_missing_name_is_not_found() {
    let candidates = vec![corr(1, "Acme", 0)];
    assert!(matches!(
        resolve_by_name(&candidates, "Nonexistent"),
        Err(PaperlessToolError::NotFound)
    ));
    let empty: Vec<Correspondent> = Vec::new();
    assert!(matches!(
        resolve_by_name(&empty, "Acme"),
        Err(PaperlessToolError::NotFound)
    ));
}

#[test]
fn substring_candidates_alone_do_not_resolve() {
    // The server's filtered listing may hold substring matches; none of
    // them is exact, so resolution fails rather than picking the first.
    let candidates = vec![corr(1, "Acme Inc", 0), corr(2, "Acme Ltd", 1)];
    assert!(matches!(
        resolve_by_name(&candidates, "Acme"),
        Err(PaperlessToolError::NotFound)
    ));
}

#[test]
fn resolution_by_id() {
    let r = resolve_by_id(Some(corr(9, "Acme", 1))).unwrap();
    assert_eq!(r.id, 9);
    assert!(matches!(resolve_by_id(None), Err(PaperlessToolError::NotFound)));
}
