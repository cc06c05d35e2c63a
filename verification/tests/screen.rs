use std::collections::BTreeSet;

use light::browser::{Browser, Effect};
use light::ipc::ChromeToApp;
use light::keys::Shortcut;

#[derive(Default)]
struct Screen {
    webviews: BTreeSet<u64>,
    visible: BTreeSet<u64>,
}

impl Screen {
    fn apply(&mut self, effects: &[Effect]) {
        for e in effects {
            match e {
                Effect::CreateWebview { tab, .. } => {
                    self.webviews.insert(tab.0);
                    self.visible.insert(tab.0);
                }
                Effect::CloseWebview { tab } => {
                    self.webviews.remove(&tab.0);
                    self.visible.remove(&tab.0);
                }
                Effect::SetVisible { tab, visible } => {
                    if self.webviews.contains(&tab.0) {
                        if *visible {
                            self.visible.insert(tab.0);
                        } else {
                            self.visible.remove(&tab.0);
                        }
                    }
                }
                _ => {}
            }
        }
    }

    fn shows(&self, b: &Browser) -> bool {
        let ids: BTreeSet<u64> = b.tabs.tabs().iter().map(|t| t.id.0).collect();
        let active: BTreeSet<u64> = b.tabs.active_id().map(|t| t.0).into_iter().collect();
        self.webviews == ids && self.visible == active
    }
}

#[test]
fn screen_follows_a_session() {
    let mut b = Browser::new(Vec::new(), "https://home".to_string(), 800, 600);
    let mut s = Screen::default();
    s.apply(&b.start());
    assert!(s.shows(&b));
    let steps = vec![
        ChromeToApp::NewTab,
        ChromeToApp::OpenUrl { url: "https://x".to_string() },
        ChromeToApp::SwitchTab { id: 0 },
        ChromeToApp::ReorderTab { from: 0, to: 2 },
        ChromeToApp::CloseTab { id: 1 },
        ChromeToApp::OpenSettings,
        ChromeToApp::CloseTab { id: 3 },
        ChromeToApp::Navigate { url: "example.com".to_string() },
        ChromeToApp::ToggleSidebar,
        ChromeToApp::CloseTab { id: 42 },
    ];
    for msg in steps {
        let effects = b.handle_message(msg);
        s.apply(&effects);
        assert!(s.shows(&b));
    }
    s.apply(&b.handle_shortcut(Shortcut::NewTab));
    assert!(s.shows(&b));
    while !b.tabs.is_empty() {
        s.apply(&b.handle_shortcut(Shortcut::CloseTab));
        assert!(s.shows(&b));
    }
    assert!(s.webviews.is_empty());
}

#[test]
fn switching_to_an_unknown_tab_hides_the_active_one() {
    let mut b = Browser::new(Vec::new(), "https://home".to_string(), 800, 600);
    let mut s = Screen::default();
    s.apply(&b.start());
    s.apply(&b.handle_message(ChromeToApp::SwitchTab { id: 9 }));
    assert_eq!(b.tabs.active_id().map(|t| t.0), Some(0));
    assert!(s.visible.is_empty());
}
