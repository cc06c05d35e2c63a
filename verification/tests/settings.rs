use light::settings::Settings;

#[test]
fn default_settings_has_url() {
    let s = Settings::default();
    assert!(!s.default_url.is_empty());
}

#[test]
fn default_home_page_is_duckduckgo() {
    assert_eq!(Settings::default().default_url, "https://start.duckduckgo.com");
}
