use light::tab::TabManager;

#[test]
fn create_tab_returns_unique_ids() {
    let mut mgr = TabManager::new();
    let id1 = mgr.create_tab("https://a.com");
    let id2 = mgr.create_tab("https://b.com");
    assert_ne!(id1, id2);
}

#[test]
fn create_tab_sets_active_to_new_tab() {
    let mut mgr = TabManager::new();
    mgr.create_tab("https://a.com");
    let id2 = mgr.create_tab("https://b.com");
    assert_eq!(mgr.active_id(), Some(id2));
}

#[test]
fn active_tab_returns_correct_tab() {
    let mut mgr = TabManager::new();
    let id = mgr.create_tab("https://example.com");
    let tab = mgr.active_tab().unwrap();
    assert_eq!(tab.id, id);
    assert_eq!(tab.url, "https://example.com");
    assert_eq!(tab.title, "New Tab");
}

#[test]
fn close_tab_returns_new_active() {
    let mut mgr = TabManager::new();
    let id1 = mgr.create_tab("https://a.com");
    let id2 = mgr.create_tab("https://b.com");
    let new_active = mgr.close_tab(id2);
    assert_eq!(new_active, Some(id1));
}

#[test]
fn close_last_tab_returns_none() {
    let mut mgr = TabManager::new();
    let id = mgr.create_tab("https://a.com");
    let result = mgr.close_tab(id);
    assert_eq!(result, None);
    assert!(mgr.is_empty());
}

#[test]
fn close_active_tab_activates_previous() {
    let mut mgr = TabManager::new();
    let id1 = mgr.create_tab("https://a.com");
    mgr.create_tab("https://b.com");
    mgr.create_tab("https://c.com");
    mgr.set_active(id1);
    let new_active = mgr.close_tab(id1);
    assert!(new_active.is_some());
    assert!(mgr.active_tab().is_some());
}

#[test]
fn set_active_changes_active_tab() {
    let mut mgr = TabManager::new();
    let id1 = mgr.create_tab("https://a.com");
    mgr.create_tab("https://b.com");
    mgr.set_active(id1);
    assert_eq!(mgr.active_id(), Some(id1));
}

#[test]
fn reorder_moves_tab() {
    let mut mgr = TabManager::new();
    let id1 = mgr.create_tab("https://a.com");
    mgr.create_tab("https://b.com");
    let id3 = mgr.create_tab("https://c.com");
    mgr.reorder(2, 0);
    assert_eq!(mgr.tabs()[0].id, id3);
    assert_eq!(mgr.tabs()[1].id, id1);
}

#[test]
fn update_title_changes_title() {
    let mut mgr = TabManager::new();
    let id = mgr.create_tab("https://example.com");
    mgr.update_title(id, "Example".to_string());
    assert_eq!(mgr.active_tab().unwrap().title, "Example");
}

#[test]
fn update_url_changes_url() {
    let mut mgr = TabManager::new();
    let id = mgr.create_tab("https://example.com");
    mgr.update_url(id, "https://other.com".to_string());
    assert_eq!(mgr.active_tab().unwrap().url, "https://other.com");
}

#[test]
fn set_loading_changes_state() {
    let mut mgr = TabManager::new();
    let id = mgr.create_tab("https://example.com");
    mgr.set_loading(id, true);
    assert!(mgr.active_tab().unwrap().is_loading);
    mgr.set_loading(id, false);
    assert!(!mgr.active_tab().unwrap().is_loading);
}

#[test]
fn close_unknown_tab_changes_nothing() {
    let mut mgr = TabManager::new();
    let id1 = mgr.create_tab("https://a.com");
    let id2 = mgr.create_tab("https://b.com");
    assert_eq!(mgr.close_tab(light::tab::TabId(99)), Some(id2));
    assert_eq!(mgr.tabs().len(), 2);
    assert_eq!(mgr.tabs()[0].id, id1);
}

#[test]
fn close_tab_before_active_keeps_active_tab() {
    let mut mgr = TabManager::new();
    let id1 = mgr.create_tab("https://a.com");
    let _id2 = mgr.create_tab("https://b.com");
    let id3 = mgr.create_tab("https://c.com");
    assert_eq!(mgr.close_tab(id1), Some(id3));
}

#[test]
fn close_middle_active_tab_selects_following() {
    let mut mgr = TabManager::new();
    mgr.create_tab("https://a.com");
    let id2 = mgr.create_tab("https://b.com");
    let id3 = mgr.create_tab("https://c.com");
    mgr.set_active(id2);
    assert_eq!(mgr.close_tab(id2), Some(id3));
}

#[test]
fn ids_are_not_reused_after_close() {
    let mut mgr = TabManager::new();
    let id1 = mgr.create_tab("https://a.com");
    mgr.close_tab(id1);
    let id2 = mgr.create_tab("https://b.com");
    assert_ne!(id1, id2);
}

#[test]
fn reorder_keeps_active_tab_and_ignores_bad_positions() {
    let mut mgr = TabManager::new();
    let id1 = mgr.create_tab("https://a.com");
    let id2 = mgr.create_tab("https://b.com");
    let id3 = mgr.create_tab("https://c.com");
    mgr.set_active(id1);
    mgr.reorder(0, 2);
    let ids: Vec<_> = mgr.tabs().iter().map(|t| t.id).collect();
    assert_eq!(ids, vec![id2, id3, id1]);
    assert_eq!(mgr.active_id(), Some(id1));
    mgr.reorder(0, 3);
    assert_eq!(mgr.tabs()[0].id, id2);
}

#[test]
fn favicon_and_unknown_updates() {
    let mut mgr = TabManager::new();
    let id = mgr.create_tab("https://a.com");
    mgr.update_favicon(id, "https://a.com/favicon.ico".to_string());
    assert_eq!(mgr.active_tab().unwrap().favicon, "https://a.com/favicon.ico");
    mgr.update_title(light::tab::TabId(7), "x".to_string());
    assert_eq!(mgr.active_tab().unwrap().title, "New Tab");
    assert!(mgr.can_open_tab());
}

#[test]
fn empty_manager_has_no_active_tab() {
    let mgr = TabManager::new();
    assert!(mgr.is_empty());
    assert!(mgr.active_tab().is_none());
    assert_eq!(mgr.active_id(), None);
}

#[test]
fn closed_tab_ids_are_not_reused() {
    let mut mgr = TabManager::new();
    let a = mgr.create_tab("https://a.com");
    let b = mgr.create_tab("https://b.com");
    mgr.close_tab(b);
    mgr.close_tab(a);
    let c = mgr.create_tab("https://c.com");
    assert_ne!(c, a);
    assert_ne!(c, b);
    assert_eq!(c.0, 2);
}
