use paperless_ngx_tools::config::{effective_config, Config};
use paperless_ngx_tools::documents::{document_ids, Document, PageCollector};

fn doc(id: i32, title: &str) -> Document {
    Document {
        id,
        title: title.to_owned(),
        tags: Vec::new(),
        correspondent_id: None,
    }
}

#[test]
fn collector_keeps_server_order_across_pages() {
    let mut collector: PageCollector<i32> = PageCollector::new();
    assert!(!collector.finished);
    collector.push_page(vec![1, 2, 3], true);
    assert!(!collector.finished);
    collector.push_page(vec![4, 5], true);
    collector.push_page(vec![6], false);
    assert!(collector.finished);
    assert_eq!(collector.into_items(), vec![1, 2, 3, 4, 5, 6]);
}

#[test]
fn collector_handles_a_single_empty_page() {
    let mut collector: PageCollector<i32> = PageCollector::new();
    collector.push_page(Vec::new(), false);
    assert!(collector.finished);
    assert!(collector.into_items().is_empty());
}

#[test]
fn collector_works_for_full_records_too() {
    let mut collector: PageCollector<Document> = PageCollector::new();
    collector.push_page(vec![doc(1, "invoice"), doc(2, "receipt")], true);
    collector.push_page(vec![doc(3, "contract")], false);
    let docs = collector.into_items();
    assert_eq!(docs.len(), 3);
    assert_eq!(docs[2].title, "contract");
}

#[test]
fn document_ids_projects_in_order() {
    let docs = vec![doc(31, "a"), doc(7, "b"), doc(19, "c")];
    assert_eq!(document_ids(&docs), vec![31, 7, 19]);
    let none: Vec<Document> = Vec::new();
    assert!(document_ids(&none).is_empty());
}

#[test]
fn config_overrides_apply_per_field() {
    let loaded = Config { url: "https://stored.example".to_owned(), auth: "stored-token".to_owned() };
    let effective = effective_config(
        loaded,
        Some("https://flag.example".to_owned()),
        None,
    );
    assert_eq!(effective.url, "https://flag.example");
    assert_eq!(effective.auth, "stored-token");

    let loaded = Config { url: "https://stored.example".to_owned(), auth: "stored-token".to_owned() };
    let effective = effective_config(loaded, None, Some("flag-token".to_owned()));
    assert_eq!(effective.url, "https://stored.example");
    assert_eq!(effective.auth, "flag-token");
}
