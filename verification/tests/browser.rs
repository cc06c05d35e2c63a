use light::bookmarks::Bookmark;
use light::browser::{
    Bounds, Browser, Effect, Page, NAV_BAR_HEIGHT, SIDEBAR_WIDTH_COMPACT, SIDEBAR_WIDTH_EXPANDED,
};
use light::ipc::{AppToChrome, BookmarkInfo, ChromeToApp, TabInfo};
use light::keys::Shortcut;
use light::tab::TabId;

fn browser() -> Browser {
    Browser::new(Vec::new(), "https://home.example".to_string(), 1280, 800)
}

fn content() -> Bounds {
    Bounds { x: 44, y: 38, width: 1236, height: 762 }
}

#[test]
fn start_opens_home_page_and_sends_bookmarks() {
    let mut b = Browser::new(
        vec![Bookmark { name: "A".to_string(), url: "https://a.com".to_string() }],
        "https://home.example".to_string(),
        1280,
        800,
    );
    let effects = b.start();
    assert_eq!(
        effects,
        vec![
            Effect::CreateWebview {
                tab: TabId(0),
                url: "https://home.example".to_string(),
                bounds: content(),
            },
            Effect::SendToChrome {
                message: AppToChrome::TabCreated {
                    id: 0,
                    title: "New Tab".to_string(),
                    url: "https://home.example".to_string(),
                },
            },
            Effect::SendToChrome {
                message: AppToChrome::Bookmarks {
                    bookmarks: vec![BookmarkInfo {
                        name: "A".to_string(),
                        url: "https://a.com".to_string(),
                    }],
                },
            },
        ]
    );
    assert_eq!(b.tabs.active_id(), Some(TabId(0)));
}

#[test]
fn new_tab_hides_previous_one() {
    let mut b = browser();
    b.start();
    let effects = b.handle_message(ChromeToApp::NewTab);
    assert_eq!(effects[0], Effect::CreateWebview {
        tab: TabId(1),
        url: "https://home.example".to_string(),
        bounds: content(),
    });
    assert_eq!(effects[1], Effect::SetVisible { tab: TabId(0), visible: false });
    assert_eq!(b.tabs.active_id(), Some(TabId(1)));
}

#[test]
fn navigate_normalizes_and_loads_in_active_tab() {
    let mut b = browser();
    b.start();
    let effects = b.handle_message(ChromeToApp::Navigate { url: " example.com ".to_string() });
    assert_eq!(
        effects,
        vec![
            Effect::Navigate { tab: TabId(0), url: "https://example.com".to_string() },
            Effect::SendToChrome {
                message: AppToChrome::TabUpdated {
                    id: 0,
                    title: "New Tab".to_string(),
                    url: "https://example.com".to_string(),
                    favicon: String::new(),
                    is_loading: true,
                },
            },
        ]
    );
    assert_eq!(b.tabs.active_tab().unwrap().url, "https://example.com");
}

#[test]
fn navigate_to_light_address_is_treated_as_web_address() {
    let mut b = browser();
    b.start();
    let effects = b.handle_message(ChromeToApp::Navigate { url: "light://bookmarks".to_string() });
    assert_eq!(effects[0], Effect::Navigate {
        tab: TabId(0),
        url: "https://light://bookmarks".to_string(),
    });
}

#[test]
fn navigate_without_tabs_does_nothing() {
    let mut b = browser();
    let effects = b.handle_message(ChromeToApp::Navigate { url: "example.com".to_string() });
    assert!(effects.is_empty());
    assert!(b.tabs.is_empty());
}

#[test]
fn open_settings_draws_settings_page() {
    let mut b = browser();
    b.start();
    let effects = b.handle_message(ChromeToApp::OpenSettings);
    assert_eq!(
        effects,
        vec![
            Effect::CreateWebview { tab: TabId(1), url: "about:blank".to_string(), bounds: content() },
            Effect::SetVisible { tab: TabId(0), visible: false },
            Effect::SendToChrome {
                message: AppToChrome::TabCreated {
                    id: 1,
                    title: "New Tab".to_string(),
                    url: "light://settings".to_string(),
                },
            },
            Effect::ShowPage { tab: TabId(1), page: Page::Settings },
            Effect::SendToChrome {
                message: AppToChrome::TabUpdated {
                    id: 1,
                    title: "Settings".to_string(),
                    url: "light://settings".to_string(),
                    favicon: String::new(),
                    is_loading: false,
                },
            },
            Effect::SetWindowTitle { title: "Settings".to_string() },
        ]
    );
    let tab = b.tabs.active_tab().unwrap();
    assert_eq!(tab.title, "Settings");
    assert_eq!(tab.url, "light://settings");
}

#[test]
fn page_info_is_ignored_for_internal_pages() {
    let mut b = browser();
    b.start();
    b.handle_message(ChromeToApp::OpenSettings);
    let effects = b.handle_message(ChromeToApp::PageInfo {
        tab_id: 1,
        title: "about:blank".to_string(),
        url: "about:blank".to_string(),
        favicon: "x.ico".to_string(),
    });
    assert!(effects.is_empty());
    assert_eq!(b.tabs.active_tab().unwrap().title, "Settings");
}

#[test]
fn page_info_updates_tab_and_window_title() {
    let mut b = browser();
    b.start();
    let effects = b.handle_message(ChromeToApp::PageInfo {
        tab_id: 0,
        title: "Home".to_string(),
        url: "https://home.example/".to_string(),
        favicon: "https://home.example/favicon.ico".to_string(),
    });
    assert_eq!(
        effects,
        vec![
            Effect::SendToChrome {
                message: AppToChrome::TabUpdated {
                    id: 0,
                    title: "Home".to_string(),
                    url: "https://home.example/".to_string(),
                    favicon: "https://home.example/favicon.ico".to_string(),
                    is_loading: false,
                },
            },
            Effect::SetWindowTitle { title: "Home".to_string() },
        ]
    );
    let effects = b.handle_message(ChromeToApp::PageInfo {
        tab_id: 0,
        title: "Home 2".to_string(),
        url: "https://home.example/2".to_string(),
        favicon: String::new(),
    });
    assert_eq!(
        effects[0],
        Effect::SendToChrome {
            message: AppToChrome::TabUpdated {
                id: 0,
                title: "Home 2".to_string(),
                url: "https://home.example/2".to_string(),
                favicon: "https://home.example/favicon.ico".to_string(),
                is_loading: false,
            },
        }
    );
}

#[test]
fn switch_tab_shows_new_tab_and_titles_window() {
    let mut b = browser();
    b.start();
    b.handle_message(ChromeToApp::NewTab);
    let effects = b.handle_message(ChromeToApp::SwitchTab { id: 0 });
    assert_eq!(
        effects,
        vec![
            Effect::SetVisible { tab: TabId(1), visible: false },
            Effect::SetVisible { tab: TabId(0), visible: true },
            Effect::SendToChrome { message: AppToChrome::ActiveTabChanged { id: 0 } },
            Effect::SetWindowTitle { title: "Light".to_string() },
        ]
    );
    assert_eq!(b.tabs.active_id(), Some(TabId(0)));
}

#[test]
fn close_tab_message_shows_next_tab() {
    let mut b = browser();
    b.start();
    b.handle_message(ChromeToApp::NewTab);
    let effects = b.handle_message(ChromeToApp::CloseTab { id: 1 });
    assert_eq!(
        effects,
        vec![
            Effect::CloseWebview { tab: TabId(1) },
            Effect::SendToChrome { message: AppToChrome::TabClosed { id: 1 } },
            Effect::SetVisible { tab: TabId(0), visible: true },
            Effect::SendToChrome { message: AppToChrome::ActiveTabChanged { id: 0 } },
        ]
    );
}

#[test]
fn close_shortcut_on_last_tab_quits() {
    let mut b = browser();
    b.start();
    let effects = b.handle_shortcut(Shortcut::CloseTab);
    assert_eq!(effects.last(), Some(&Effect::Quit));
    assert!(b.tabs.is_empty());
}

#[test]
fn close_shortcut_with_two_tabs_keeps_running() {
    let mut b = browser();
    b.start();
    b.handle_shortcut(Shortcut::NewTab);
    let effects = b.handle_shortcut(Shortcut::CloseTab);
    assert!(!effects.contains(&Effect::Quit));
    assert_eq!(b.tabs.tabs().len(), 1);
}

#[test]
fn reload_and_history_act_on_active_tab() {
    let mut b = browser();
    b.start();
    assert_eq!(b.handle_message(ChromeToApp::Reload), vec![Effect::Reload { tab: TabId(0) }]);
    assert_eq!(b.handle_message(ChromeToApp::GoBack), vec![Effect::GoBack { tab: TabId(0) }]);
    assert_eq!(b.handle_message(ChromeToApp::GoForward), vec![Effect::GoForward { tab: TabId(0) }]);
    assert_eq!(b.handle_shortcut(Shortcut::Reload), vec![Effect::Reload { tab: TabId(0) }]);
    assert_eq!(b.handle_shortcut(Shortcut::FocusAddressBar), vec![Effect::FocusAddressBar]);
}

#[test]
fn reorder_sends_all_tabs() {
    let mut b = browser();
    b.start();
    b.handle_message(ChromeToApp::NewTab);
    let effects = b.handle_message(ChromeToApp::ReorderTab { from: 1, to: 0 });
    let tab = |id: u64| TabInfo {
        id,
        title: "New Tab".to_string(),
        url: "https://home.example".to_string(),
        favicon: String::new(),
        is_loading: false,
    };
    assert_eq!(
        effects,
        vec![Effect::SendToChrome {
            message: AppToChrome::AllTabs { tabs: vec![tab(1), tab(0)], active_id: 1 },
        }]
    );
}

#[test]
fn bookmarks_are_saved_only_when_changed() {
    let mut b = browser();
    let first = b.handle_message(ChromeToApp::AddBookmark {
        name: "A".to_string(),
        url: "https://a.com".to_string(),
    });
    assert_eq!(first[0], Effect::SaveBookmarks);
    let second = b.handle_message(ChromeToApp::AddBookmark {
        name: "B".to_string(),
        url: "https://a.com".to_string(),
    });
    assert_eq!(second.len(), 1);
    assert_eq!(b.bookmarks.len(), 1);
    assert_eq!(b.bookmarks[0].name, "A");
    let third = b.handle_message(ChromeToApp::RemoveBookmark { url: "https://a.com".to_string() });
    assert_eq!(
        third,
        vec![
            Effect::SaveBookmarks,
            Effect::SendToChrome { message: AppToChrome::Bookmarks { bookmarks: vec![] } },
        ]
    );
    assert!(b.bookmarks.is_empty());
}

#[test]
fn save_settings_changes_home_page() {
    let mut b = browser();
    let effects = b.handle_message(ChromeToApp::SaveSettings { default_url: "https://x.org".to_string() });
    assert_eq!(effects, vec![Effect::SaveSettings { default_url: "https://x.org".to_string() }]);
    let effects = b.handle_message(ChromeToApp::NewTab);
    assert_eq!(effects[0], Effect::CreateWebview {
        tab: TabId(0),
        url: "https://x.org".to_string(),
        bounds: content(),
    });
}

#[test]
fn toggle_bookmarks_bar_does_nothing() {
    let mut b = browser();
    b.start();
    assert!(b.handle_message(ChromeToApp::ToggleBookmarksBar).is_empty());
}

#[test]
fn resize_places_every_webview() {
    let mut b = browser();
    b.start();
    b.handle_message(ChromeToApp::NewTab);
    let effects = b.resize(1000, 600);
    let c = Bounds { x: 44, y: 38, width: 956, height: 562 };
    assert_eq!(
        effects,
        vec![
            Effect::SetBounds { tab: TabId(0), bounds: c },
            Effect::SetBounds { tab: TabId(1), bounds: c },
            Effect::SetSidebarBounds { bounds: Bounds { x: 0, y: 0, width: 44, height: 600 } },
            Effect::SetNavbarBounds { bounds: Bounds { x: 44, y: 0, width: 956, height: 38 } },
        ]
    );
}

#[test]
fn tiny_window_gives_empty_page_area() {
    let mut b = browser();
    b.resize(10, 20);
    let c = b.content_bounds();
    assert_eq!(c, Bounds { x: SIDEBAR_WIDTH_COMPACT, y: NAV_BAR_HEIGHT, width: 0, height: 0 });
}

#[test]
fn toggle_sidebar_expands_and_relays_out() {
    let mut b = browser();
    b.start();
    let effects = b.handle_message(ChromeToApp::ToggleSidebar);
    assert_eq!(b.sidebar_width, SIDEBAR_WIDTH_EXPANDED);
    assert_eq!(
        effects,
        vec![
            Effect::SetSidebarCompact { compact: false },
            Effect::SetBounds {
                tab: TabId(0),
                bounds: Bounds { x: 220, y: 38, width: 1060, height: 762 },
            },
            Effect::SetSidebarBounds { bounds: Bounds { x: 0, y: 0, width: 220, height: 800 } },
            Effect::SetNavbarBounds { bounds: Bounds { x: 220, y: 0, width: 1060, height: 38 } },
        ]
    );
    let effects = b.handle_message(ChromeToApp::ToggleSidebar);
    assert_eq!(b.sidebar_width, SIDEBAR_WIDTH_COMPACT);
    assert_eq!(effects[0], Effect::SetSidebarCompact { compact: true });
}

#[test]
fn open_url_opens_tab_without_normalizing() {
    let mut b = browser();
    let effects = b.handle_message(ChromeToApp::OpenUrl { url: "example.com".to_string() });
    assert_eq!(effects[0], Effect::CreateWebview {
        tab: TabId(0),
        url: "example.com".to_string(),
        bounds: content(),
    });
}

#[test]
fn focus_and_drag_are_passed_on() {
    let mut b = browser();
    assert_eq!(b.handle_message(ChromeToApp::FocusAddressBar), vec![Effect::FocusAddressBar]);
    assert_eq!(b.handle_message(ChromeToApp::DragWindow), vec![Effect::DragWindow]);
}

#[test]
fn only_tab_opening_messages_take_an_id() {
    assert!(Browser::opens_tab(&ChromeToApp::NewTab));
    assert!(Browser::opens_tab(&ChromeToApp::OpenSettings));
    assert!(Browser::opens_tab(&ChromeToApp::OpenUrl { url: "x".to_string() }));
    assert!(!Browser::opens_tab(&ChromeToApp::Navigate { url: "x".to_string() }));
    assert!(!Browser::opens_tab(&ChromeToApp::CloseTab { id: 0 }));
}

#[test]
fn close_tab_message_on_last_tab_quits() {
    let mut b = browser();
    b.start();
    let effects = b.handle_message(ChromeToApp::CloseTab { id: 0 });
    assert_eq!(
        effects,
        vec![
            Effect::CloseWebview { tab: TabId(0) },
            Effect::SendToChrome { message: AppToChrome::TabClosed { id: 0 } },
            Effect::Quit,
        ]
    );
    assert!(b.tabs.is_empty());
}

#[test]
fn close_tab_message_for_unknown_tab_keeps_running() {
    let mut b = browser();
    b.start();
    let effects = b.handle_message(ChromeToApp::CloseTab { id: 7 });
    assert!(!effects.contains(&Effect::Quit));
    assert_eq!(b.tabs.tabs().len(), 1);
}

#[test]
fn new_tab_focuses_address_bar() {
    let mut b = browser();
    b.start();
    let effects = b.handle_message(ChromeToApp::NewTab);
    assert_eq!(effects.last(), Some(&Effect::FocusAddressBar));
    assert_eq!(
        effects[effects.len() - 2],
        Effect::SendToChrome {
            message: AppToChrome::TabCreated {
                id: 1,
                title: "New Tab".to_string(),
                url: "https://home.example".to_string(),
            },
        }
    );
    let effects = b.handle_shortcut(Shortcut::NewTab);
    assert_eq!(effects.last(), Some(&Effect::FocusAddressBar));
    assert_eq!(b.tabs.active_id(), Some(TabId(2)));
}
