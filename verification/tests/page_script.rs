use light::page_script::{decimal_text, page_script};

#[test]
fn decimal_text_matches_format() {
    for n in [0u64, 7, 9, 10, 42, 100, 12345, u64::MAX] {
        assert_eq!(decimal_text(n), format!("{}", n));
    }
}

#[test]
fn page_script_names_its_tab() {
    let s = page_script(42);
    assert!(s.contains("tab_id: 42,"));
    assert!(s.contains("if (k === 'w') msg.id = 42;"));
    assert!(s.contains("(function() {"));
    assert!(!s.contains("{{"));
    assert!(!s.contains("tab_id_val"));
}
