use ruostepurkki::history::{GeminiHistory, TextPage};

fn page(s: &str) -> TextPage {
    TextPage::Plain(s.to_string())
}

#[test]
fn history_branch_truncation() {
    let mut h = GeminiHistory::new();
    h.insert("A".to_string(), page("a"));
    h.insert("B".to_string(), page("b"));
    h.insert("C".to_string(), page("c"));
    assert_eq!(h.get_current_url(), Some("C".to_string()));
    assert!(h.go_back());
    assert!(h.go_back());
    assert_eq!(h.get_current_url(), Some("A".to_string()));
    h.insert("D".to_string(), page("d"));
    assert_eq!(h.visited(), vec!["A".to_string(), "D".to_string()]);
    assert_eq!(h.get_current_url(), Some("D".to_string()));
    assert!(h.go_back());
    assert_eq!(h.get_current_url(), Some("A".to_string()));
    assert!(!h.go_back());
    assert_eq!(h.get_current_url(), Some("A".to_string()));
    assert!(h.go_forwards());
    assert_eq!(h.get_current_url(), Some("D".to_string()));
    assert!(!h.go_forwards());
    assert_eq!(h.get_current_url(), Some("D".to_string()));
}

#[test]
fn history_empty_boundaries() {
    let mut h = GeminiHistory::new();
    assert_eq!(h.get_current_url(), None);
    assert!(!h.go_back());
    assert!(!h.go_forwards());
    assert_eq!(h.get_current_url(), None);
}

#[test]
fn history_cache_exact_keys() {
    let mut h = GeminiHistory::new();
    h.insert("gemini://a/".to_string(), page("one"));
    h.insert("gemini://a/".to_string(), page("two"));
    match h.get_from_cache(&"gemini://a/".to_string()) {
        Some(TextPage::Plain(s)) => assert_eq!(s, "two"),
        _ => panic!("missing page"),
    }
    assert!(h.get_from_cache(&"gemini://a".to_string()).is_none());
    assert!(h.go_back());
    assert_eq!(h.get_current_url(), Some("gemini://a/".to_string()));
}
