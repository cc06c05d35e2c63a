use light::bookmarks::{add, remove, Bookmark};

#[test]
fn add_bookmark() {
    let mut bm = Vec::new();
    add(&mut bm, "Test", "https://example.com");
    assert_eq!(bm.len(), 1);
    assert_eq!(bm[0].name, "Test");
}

#[test]
fn add_duplicate_is_noop() {
    let mut bm = Vec::new();
    add(&mut bm, "Test", "https://example.com");
    add(&mut bm, "Test 2", "https://example.com");
    assert_eq!(bm.len(), 1);
}

#[test]
fn remove_bookmark() {
    let mut bm = vec![Bookmark {
        name: "Test".to_string(),
        url: "https://example.com".to_string(),
    }];
    remove(&mut bm, "https://example.com");
    assert!(bm.is_empty());
}

#[test]
fn remove_keeps_order_of_others() {
    let mk = |n: &str, u: &str| Bookmark { name: n.to_string(), url: u.to_string() };
    let mut bm = vec![mk("A", "https://a"), mk("B", "https://b"), mk("C", "https://c")];
    remove(&mut bm, "https://b");
    assert_eq!(bm, vec![mk("A", "https://a"), mk("C", "https://c")]);
    remove(&mut bm, "https://zzz");
    assert_eq!(bm.len(), 2);
}

#[test]
fn remove_then_add_restores() {
    let mut bm = Vec::new();
    add(&mut bm, "A", "https://a");
    add(&mut bm, "B", "https://b");
    remove(&mut bm, "https://b");
    assert_eq!(bm.len(), 1);
    assert_eq!(bm[0].url, "https://a");
}
