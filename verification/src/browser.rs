//! The browser's decisions: how it answers a message from its chrome, a
//! keyboard shortcut or a resized window. Each answer is the next state of
//! the browser and the list of effects that the program carrying out the
//! window, the webviews and the files on disk performs, in order.

use vstd::prelude::*;
use crate::bookmarks::{self, has_url, added, removed, entries, Bookmark, BookmarkEntry};
use crate::ipc::{AppToChrome, BookmarkInfo, ChromeToApp, ChromeUpdate, TabInfo, TabSummary};
use crate::keys::Shortcut;
use crate::tab::{Tab, TabId, TabManager, TabState, TabsModel};
use crate::text::{same_text, starts_with, to_owned_string};
use crate::url::{normalize_url, normalized};

verus! {

/// Width of the sidebar that lists the tabs, when compact.
pub const SIDEBAR_WIDTH_COMPACT: u32 = 44;

/// Width of the sidebar that lists the tabs, when expanded.
pub const SIDEBAR_WIDTH_EXPANDED: u32 = 220;

/// Height of the navigation bar above the page.
pub const NAV_BAR_HEIGHT: u32 = 38;

/// A rectangle of the window, in logical pixels.
#[derive(Debug, Clone, Copy, PartialEq, Eq, Structural)]
pub struct Bounds {
    pub x: u32,
    pub y: u32,
    pub width: u32,
    pub height: u32,
}

/// A page that the browser draws itself, under a `light://` address.
#[derive(Debug, Clone, Copy, PartialEq, Eq, Structural)]
pub enum Page {
    Settings,
    Bookmarks,
}

/// What the program around the browser is asked to do.
#[derive(Debug, PartialEq)]
pub enum Effect {
    /// Make a webview for the tab, loading `url`, placed at `bounds`.
    CreateWebview { tab: TabId, url: String, bounds: Bounds },
    /// Drop the webview of the tab.
    CloseWebview { tab: TabId },
    /// Show or hide the webview of the tab.
    SetVisible { tab: TabId, visible: bool },
    /// Place the webview of the tab.
    SetBounds { tab: TabId, bounds: Bounds },
    /// Place the sidebar.
    SetSidebarBounds { bounds: Bounds },
    /// Place the navigation bar.
    SetNavbarBounds { bounds: Bounds },
    /// Tell the sidebar whether it is drawn compact.
    SetSidebarCompact { compact: bool },
    /// Load `url` in the webview of the tab.
    Navigate { tab: TabId, url: String },
    /// Go back in the history of the tab.
    GoBack { tab: TabId },
    /// Go forward in the history of the tab.
    GoForward { tab: TabId },
    /// Reload the page of the tab.
    Reload { tab: TabId },
    /// Load the HTML of an internal page into the webview of the tab.
    ShowPage { tab: TabId, page: Page },
    /// Put the keyboard focus in the address bar.
    FocusAddressBar,
    /// Send a message to the sidebar and the navigation bar.
    SendToChrome { message: AppToChrome },
    /// Set the title of the window.
    SetWindowTitle { title: String },
    /// Let the user drag the window.
    DragWindow,
    /// Write the bookmarks to disk.
    SaveBookmarks,
    /// Write the settings to disk with the home page set to `default_url`.
    SaveSettings { default_url: String },
    /// End the program.
    Quit,
}

/// An effect as a mathematical value.
pub enum Action {
    CreateWebview { tab: u64, url: Seq<char>, bounds: Bounds },
    CloseWebview { tab: u64 },
    SetVisible { tab: u64, visible: bool },
    SetBounds { tab: u64, bounds: Bounds },
    SetSidebarBounds { bounds: Bounds },
    SetNavbarBounds { bounds: Bounds },
    SetSidebarCompact { compact: bool },
    Navigate { tab: u64, url: Seq<char> },
    GoBack { tab: u64 },
    GoForward { tab: u64 },
    Reload { tab: u64 },
    ShowPage { tab: u64, page: Page },
    FocusAddressBar,
    SendToChrome { message: ChromeUpdate },
    SetWindowTitle { title: Seq<char> },
    DragWindow,
    SaveBookmarks,
    SaveSettings { default_url: Seq<char> },
    Quit,
}

impl View for Effect {
    type V = Action;

    open spec fn view(&self) -> Action {
        match self {
            Effect::CreateWebview { tab, url, bounds } => Action::CreateWebview {
                tab: tab.0,
                url: url@,
                bounds: *bounds,
            },
            Effect::CloseWebview { tab } => Action::CloseWebview { tab: tab.0 },
            Effect::SetVisible { tab, visible } => Action::SetVisible {
                tab: tab.0,
                visible: *visible,
            },
            Effect::SetBounds { tab, bounds } => Action::SetBounds { tab: tab.0, bounds: *bounds },
            Effect::SetSidebarBounds { bounds } => Action::SetSidebarBounds { bounds: *bounds },
            Effect::SetNavbarBounds { bounds } => Action::SetNavbarBounds { bounds: *bounds },
            Effect::SetSidebarCompact { compact } => Action::SetSidebarCompact {
                compact: *compact,
            },
            Effect::Navigate { tab, url } => Action::Navigate { tab: tab.0, url: url@ },
            Effect::GoBack { tab } => Action::GoBack { tab: tab.0 },
            Effect::GoForward { tab } => Action::GoForward { tab: tab.0 },
            Effect::Reload { tab } => Action::Reload { tab: tab.0 },
            Effect::ShowPage { tab, page } => Action::ShowPage { tab: tab.0, page: *page },
            Effect::FocusAddressBar => Action::FocusAddressBar,
            Effect::SendToChrome { message } => Action::SendToChrome { message: message@ },
            Effect::SetWindowTitle { title } => Action::SetWindowTitle { title: title@ },
            Effect::DragWindow => Action::DragWindow,
            Effect::SaveBookmarks => Action::SaveBookmarks,
            Effect::SaveSettings { default_url } => Action::SaveSettings {
                default_url: default_url@,
            },
            Effect::Quit => Action::Quit,
        }
    }
}

/// A list of effects as values.
pub open spec fn actions(effects: Seq<Effect>) -> Seq<Action> {
    effects.map_values(|e: Effect| e@)
}

/// `a - b`, or 0 when `b` is larger.
pub open spec fn saturating_sub(a: u32, b: u32) -> u32 {
    if a >= b {
        (a - b) as u32
    } else {
        0
    }
}

/// The title the window shows for a tab titled `title`.
pub open spec fn window_title_for(title: Seq<char>) -> Seq<char> {
    if title.len() == 0 || title == "New Tab"@ {
        "Light"@
    } else {
        title
    }
}

/// Whether `url` is the address of a page the browser draws itself.
pub open spec fn is_internal(url: Seq<char>) -> bool {
    "light://"@.is_prefix_of(url)
}

/// What a new webview loads for a tab opened on `url`: internal pages are
/// drawn into a blank page later.
pub open spec fn webview_url(url: Seq<char>) -> Seq<char> {
    if is_internal(url) {
        "about:blank"@
    } else {
        url
    }
}

/// The internal page at `url`, if there is one.
pub open spec fn page_at(url: Seq<char>) -> Option<Page> {
    if url == "light://settings"@ {
        Some(Page::Settings)
    } else if url == "light://bookmarks"@ {
        Some(Page::Bookmarks)
    } else {
        None
    }
}

/// The tab title of an internal page.
pub open spec fn page_title(page: Page) -> Seq<char> {
    match page {
        Page::Settings => "Settings"@,
        Page::Bookmarks => "Bookmarks"@,
    }
}

/// A tab as the chrome lists it.
pub open spec fn summary(t: TabState) -> TabSummary {
    TabSummary { id: t.id, title: t.title, url: t.url, favicon: t.favicon, is_loading: t.is_loading }
}

/// The actions that hide the webview of the tab that was active, if any.
pub open spec fn hide_tab(active: Option<u64>) -> Seq<Action> {
    match active {
        Some(o) => seq![Action::SetVisible { tab: o, visible: false }],
        None => seq![],
    }
}

/// Whether answering `msg` opens a tab, which takes a fresh id.
pub open spec fn message_opens_tab(msg: ChromeToApp) -> bool {
    ||| msg is NewTab
    ||| msg is OpenSettings
    ||| msg is OpenUrl
}

/// The browser as a mathematical value.
pub struct BrowserModel {
    pub tabs: TabsModel,
    pub bookmarks: Seq<BookmarkEntry>,
    pub default_url: Seq<char>,
    pub sidebar_width: u32,
    pub window_width: u32,
    pub window_height: u32,
}

impl BrowserModel {
    pub open spec fn wf(self) -> bool {
        self.tabs.wf()
    }

    /// Whether a tab can still be opened.
    pub open spec fn can_open(self) -> bool {
        self.tabs.next_id < u64::MAX
    }

    pub open spec fn with_tabs(self, tabs: TabsModel) -> BrowserModel {
        BrowserModel { tabs, ..self }
    }

    pub open spec fn with_bookmarks(self, bookmarks: Seq<BookmarkEntry>) -> BrowserModel {
        BrowserModel { bookmarks, ..self }
    }

    /// Where the page of a tab goes: right of the sidebar, below the
    /// navigation bar.
    pub open spec fn content_bounds(self) -> Bounds {
        Bounds {
            x: self.sidebar_width,
            y: NAV_BAR_HEIGHT,
            width: saturating_sub(self.window_width, self.sidebar_width),
            height: saturating_sub(self.window_height, NAV_BAR_HEIGHT),
        }
    }

    /// Where the sidebar goes: the left edge, full height.
    pub open spec fn sidebar_bounds(self) -> Bounds {
        Bounds { x: 0, y: 0, width: self.sidebar_width, height: self.window_height }
    }

    /// Where the navigation bar goes: the top, right of the sidebar.
    pub open spec fn navbar_bounds(self) -> Bounds {
        Bounds {
            x: self.sidebar_width,
            y: 0,
            width: saturating_sub(self.window_width, self.sidebar_width),
            height: NAV_BAR_HEIGHT,
        }
    }

    /// Setting the window title after the active tab, if there is one.
    pub open spec fn title_actions(self) -> Seq<Action> {
        if self.tabs.active < self.tabs.tabs.len() {
            seq![
                Action::SetWindowTitle {
                    title: window_title_for(self.tabs.tabs[self.tabs.active as int].title),
                },
            ]
        } else {
            seq![]
        }
    }

    /// The message that tells the chrome the bookmarks.
    pub open spec fn bookmarks_update(self) -> ChromeUpdate {
        ChromeUpdate::Bookmarks { bookmarks: self.bookmarks }
    }

    /// The message that tells the chrome all tabs and the active one (0 when
    /// there is none).
    pub open spec fn all_tabs_update(self) -> ChromeUpdate {
        ChromeUpdate::AllTabs {
            tabs: self.tabs.tabs.map_values(|t: TabState| summary(t)),
            active_id: match self.tabs.active_id() {
                Some(i) => i,
                None => 0,
            },
        }
    }

    /// Opening a tab on `url`: a webview for it, the previously active one
    /// hidden, the chrome told.
    pub open spec fn opened(self, url: Seq<char>) -> (BrowserModel, Seq<Action>) {
        let id = self.tabs.next_id as u64;
        (
            self.with_tabs(self.tabs.created(url)),
            seq![
                Action::CreateWebview {
                    tab: id,
                    url: webview_url(url),
                    bounds: self.content_bounds(),
                },
            ] + hide_tab(self.tabs.active_id()) + seq![
                Action::SendToChrome {
                    message: ChromeUpdate::TabCreated { id, title: "New Tab"@, url },
                },
            ],
        )
    }

    /// Closing the tab `id`: its webview dropped, the chrome told, and the
    /// tab that is then active shown.
    pub open spec fn closing(self, id: u64) -> (BrowserModel, Seq<Action>) {
        let after = self.with_tabs(self.tabs.closed(id));
        (
            after,
            seq![
                Action::CloseWebview { tab: id },
                Action::SendToChrome { message: ChromeUpdate::TabClosed { id } },
            ] + match after.tabs.active_id() {
                Some(n) => seq![
                    Action::SetVisible { tab: n, visible: true },
                    Action::SendToChrome { message: ChromeUpdate::ActiveTabChanged { id: n } },
                ],
                None => seq![],
            },
        )
    }

    /// A request to close the tab `id`, from the chrome or the keyboard: the
    /// tab closed, and the program ended when that was the last tab.
    pub open spec fn close_requested(self, id: u64) -> (BrowserModel, Seq<Action>) {
        let c = self.closing(id);
        (
            c.0,
            c.1 + if self.tabs.tabs.len() > 0 && c.0.tabs.tabs.len() == 0 {
                seq![Action::Quit]
            } else {
                seq![]
            },
        )
    }

    /// A new tab asked for by the user: opened on the home page, with the
    /// keyboard focus put in the address bar.
    pub open spec fn new_tab(self) -> (BrowserModel, Seq<Action>) {
        let o = self.opened(self.default_url);
        (o.0, o.1 + seq![Action::FocusAddressBar])
    }

    /// Switching to the tab `id`: the old active webview hidden, the new one
    /// shown, the chrome and the window title told.
    pub open spec fn switching(self, id: u64) -> (BrowserModel, Seq<Action>) {
        let after = self.with_tabs(self.tabs.activated(id));
        (
            after,
            hide_tab(self.tabs.active_id()) + seq![
                Action::SetVisible { tab: id, visible: true },
                Action::SendToChrome { message: ChromeUpdate::ActiveTabChanged { id } },
            ] + after.title_actions(),
        )
    }

    /// Drawing the internal page at `url` in the active tab (opening a tab
    /// first when there is none); other addresses are ignored.
    pub open spec fn showing(self, url: Seq<char>) -> (BrowserModel, Seq<Action>) {
        match page_at(url) {
            None => (self, seq![]),
            Some(page) => {
                let first = if self.tabs.tabs.len() == 0 {
                    self.opened(url)
                } else {
                    (self, seq![])
                };
                let b1 = first.0;
                match b1.tabs.active_id() {
                    None => first,
                    Some(id) => {
                        let b2 = b1.with_tabs(
                            b1.tabs.retitled(id, page_title(page)).relocated(id, url),
                        );
                        (
                            b2,
                            first.1 + seq![
                                Action::ShowPage { tab: id, page },
                                Action::SendToChrome {
                                    message: ChromeUpdate::TabUpdated {
                                        id,
                                        title: page_title(page),
                                        url,
                                        favicon: Seq::empty(),
                                        is_loading: false,
                                    },
                                },
                            ] + b2.title_actions(),
                        )
                    },
                }
            },
        }
    }

    /// The active tab acted on by `action`, if there is an active tab.
    pub open spec fn on_active(self, action: spec_fn(u64) -> Action) -> Seq<Action> {
        match self.tabs.active_id() {
            Some(id) => seq![action(id)],
            None => seq![],
        }
    }

    /// Loading the address-bar input `input` in the active tab.
    pub open spec fn navigating(self, input: Seq<char>) -> (BrowserModel, Seq<Action>) {
        let url = normalized(input);
        if is_internal(url) {
            self.showing(url)
        } else {
            match self.tabs.active_id() {
                None => (self, seq![]),
                Some(id) => {
                    let b1 = self.with_tabs(self.tabs.relocated(id, url));
                    (
                        b1,
                        seq![
                            Action::Navigate { tab: id, url },
                            Action::SendToChrome {
                                message: ChromeUpdate::TabUpdated {
                                    id,
                                    title: b1.tabs.tabs[b1.tabs.active as int].title,
                                    url,
                                    favicon: b1.tabs.tabs[b1.tabs.active as int].favicon,
                                    is_loading: true,
                                },
                            },
                        ],
                    )
                },
            }
        }
    }

    /// The tab `id` as it stands, if there is one.
    pub open spec fn tab_with_id(self, id: u64) -> Option<TabState> {
        if self.tabs.has_id(id) {
            Some(self.tabs.tabs[self.tabs.index_of(id)])
        } else {
            None
        }
    }

    /// Taking in what a page reports of itself: title, URL and favicon (an
    /// empty favicon leaves the tab's as it was), unless the tab shows an
    /// internal page.
    pub open spec fn page_info(self, id: u64, title: Seq<char>, url: Seq<char>, favicon: Seq<char>) -> (
        BrowserModel,
        Seq<Action>,
    ) {
        let current = match self.tab_with_id(id) {
            Some(t) => t.url,
            None => Seq::empty(),
        };
        if is_internal(current) {
            (self, seq![])
        } else {
            let b1 = self.with_tabs(self.tabs.retitled(id, title).relocated(id, url));
            let b2 = if favicon.len() > 0 {
                b1.with_tabs(b1.tabs.with_favicon(id, favicon))
            } else {
                b1
            };
            let shown = match b2.tab_with_id(id) {
                Some(t) => t.favicon,
                None => Seq::empty(),
            };
            (
                b2,
                seq![
                    Action::SendToChrome {
                        message: ChromeUpdate::TabUpdated {
                            id,
                            title,
                            url,
                            favicon: shown,
                            is_loading: false,
                        },
                    },
                ] + if b2.tabs.active_id() == Some(id) {
                    b2.title_actions()
                } else {
                    seq![]
                },
            )
        }
    }

    /// Placing every webview, the sidebar and the navigation bar.
    pub open spec fn layout_actions(self) -> Seq<Action> {
        self.tabs.tabs.map_values(
            |t: TabState| Action::SetBounds { tab: t.id, bounds: self.content_bounds() },
        ) + seq![
            Action::SetSidebarBounds { bounds: self.sidebar_bounds() },
            Action::SetNavbarBounds { bounds: self.navbar_bounds() },
        ]
    }

    /// The sidebar switched between compact and expanded, and everything
    /// placed anew.
    pub open spec fn sidebar_toggled(self) -> (BrowserModel, Seq<Action>) {
        let width = if self.sidebar_width == SIDEBAR_WIDTH_COMPACT {
            SIDEBAR_WIDTH_EXPANDED
        } else {
            SIDEBAR_WIDTH_COMPACT
        };
        let b1 = BrowserModel { sidebar_width: width, ..self };
        (
            b1,
            seq![Action::SetSidebarCompact { compact: width == SIDEBAR_WIDTH_COMPACT }]
                + b1.layout_actions(),
        )
    }

    /// The browser's answer to a message from its chrome.
    pub open spec fn handled(self, msg: ChromeToApp) -> (BrowserModel, Seq<Action>) {
        match msg {
            ChromeToApp::Navigate { url } => self.navigating(url@),
            ChromeToApp::NewTab => self.new_tab(),
            ChromeToApp::CloseTab { id } => self.close_requested(id),
            ChromeToApp::SwitchTab { id } => self.switching(id),
            ChromeToApp::GoBack => (self, self.on_active(|t: u64| Action::GoBack { tab: t })),
            ChromeToApp::GoForward => (self, self.on_active(|t: u64| Action::GoForward { tab: t })),
            ChromeToApp::Reload => (self, self.on_active(|t: u64| Action::Reload { tab: t })),
            ChromeToApp::ReorderTab { from, to } => {
                let b1 = self.with_tabs(self.tabs.reordered(from as int, to as int));
                (b1, seq![Action::SendToChrome { message: b1.all_tabs_update() }])
            },
            ChromeToApp::AddBookmark { name, url } => {
                let b1 = self.with_bookmarks(added(self.bookmarks, name@, url@));
                (
                    b1,
                    if has_url(self.bookmarks, url@) {
                        seq![]
                    } else {
                        seq![Action::SaveBookmarks]
                    } + seq![Action::SendToChrome { message: b1.bookmarks_update() }],
                )
            },
            ChromeToApp::RemoveBookmark { url } => {
                let b1 = self.with_bookmarks(removed(self.bookmarks, url@));
                (
                    b1,
                    seq![
                        Action::SaveBookmarks,
                        Action::SendToChrome { message: b1.bookmarks_update() },
                    ],
                )
            },
            ChromeToApp::ToggleBookmarksBar => (self, seq![]),
            ChromeToApp::OpenSettings => {
                let first = self.opened("light://settings"@);
                let second = first.0.showing("light://settings"@);
                (second.0, first.1 + second.1)
            },
            ChromeToApp::SaveSettings { default_url } => (
                BrowserModel { default_url: default_url@, ..self },
                seq![Action::SaveSettings { default_url: default_url@ }],
            ),
            ChromeToApp::PageInfo { tab_id, title, url, favicon } => self.page_info(
                tab_id,
                title@,
                url@,
                favicon@,
            ),
            ChromeToApp::ToggleSidebar => self.sidebar_toggled(),
            ChromeToApp::OpenUrl { url } => self.opened(url@),
            ChromeToApp::FocusAddressBar => (self, seq![Action::FocusAddressBar]),
            ChromeToApp::DragWindow => (self, seq![Action::DragWindow]),
        }
    }

    /// The browser's answer to a keyboard shortcut.
    pub open spec fn shortcut(self, s: Shortcut) -> (BrowserModel, Seq<Action>) {
        match s {
            Shortcut::NewTab => self.new_tab(),
            Shortcut::CloseTab => match self.tabs.active_id() {
                None => (self, seq![]),
                Some(id) => self.close_requested(id),
            },
            Shortcut::FocusAddressBar => (self, seq![Action::FocusAddressBar]),
            Shortcut::Reload => (self, self.on_active(|t: u64| Action::Reload { tab: t })),
        }
    }

    /// The window resized to `width` by `height`: every webview placed anew.
    pub open spec fn resized(self, width: u32, height: u32) -> (BrowserModel, Seq<Action>) {
        let b1 = BrowserModel { window_width: width, window_height: height, ..self };
        (b1, b1.layout_actions())
    }

    /// Starting up: a tab on the home page, and the bookmarks sent to the
    /// chrome.
    pub open spec fn started(self) -> (BrowserModel, Seq<Action>) {
        let first = self.opened(self.default_url);
        (first.0, first.1 + seq![Action::SendToChrome { message: first.0.bookmarks_update() }])
    }
}

/// The sidebar, the navigation bar and the page area tile the window: side
/// by side and one above the other, with no gap, when the window is at least
/// as wide as the sidebar and as tall as the navigation bar.
pub proof fn law_layout_tiles_window(b: BrowserModel)
    requires
        b.window_width >= b.sidebar_width,
        b.window_height >= NAV_BAR_HEIGHT,
    ensures
        b.sidebar_bounds().x == 0,
        b.sidebar_bounds().width + b.content_bounds().width == b.window_width,
        b.navbar_bounds().x == b.sidebar_bounds().width,
        b.navbar_bounds().width == b.content_bounds().width,
        b.navbar_bounds().height + b.content_bounds().height == b.window_height,
        b.content_bounds().x == b.navbar_bounds().x,
        b.content_bounds().y == b.navbar_bounds().height,
        b.sidebar_bounds().height == b.window_height,
{
}

/// Toggling the sidebar twice gives back its width, and each toggle places
/// every webview for the new width.
pub proof fn law_sidebar_toggle_twice_restores(b: BrowserModel)
    requires
        b.sidebar_width == SIDEBAR_WIDTH_COMPACT || b.sidebar_width == SIDEBAR_WIDTH_EXPANDED,
    ensures
        b.sidebar_toggled().0.sidebar_toggled().0 == b,
        b.sidebar_toggled().0.sidebar_width != b.sidebar_width,
        b.sidebar_toggled().1.len() == b.tabs.tabs.len() + 3,
{
}

/// What a page reports of itself never overwrites a tab that shows an
/// internal page.
pub proof fn law_page_info_spares_internal_pages(
    b: BrowserModel,
    id: u64,
    title: Seq<char>,
    url: Seq<char>,
    favicon: Seq<char>,
)
    requires
        b.tabs.has_id(id),
        is_internal(b.tabs.tabs[b.tabs.index_of(id)].url),
    ensures
        b.page_info(id, title, url, favicon) == (b, Seq::<Action>::empty()),
{
}

/// What the user types in the address bar is always loaded in the active
/// tab as a web address: it never becomes an internal `light://` page.
pub proof fn law_navigation_is_never_internal(b: BrowserModel, input: Seq<char>)
    requires
        b.wf(),
    ensures
        !is_internal(normalized(input)),
        b.navigating(input).0.tabs.tabs.len() == b.tabs.tabs.len(),
{
    let u = normalized(input);
    crate::url::lemma_normalized_has_scheme(input);
    reveal_strlit("light://");
    reveal_strlit("about:");
    reveal_strlit("http://");
    reveal_strlit("https://");
    if "about:"@.is_prefix_of(u) {
        assert(u[0] == u.subrange(0, 6)[0]);
    } else if "http://"@.is_prefix_of(u) {
        assert(u[0] == u.subrange(0, 7)[0]);
    } else {
        assert(u[0] == u.subrange(0, 8)[0]);
    }
    assert(u[0] == 'a' || u[0] == 'h');
    if is_internal(u) {
        assert(u[0] == u.subrange(0, 8)[0]);
    }
    if b.tabs.active_id() is Some {
        let id = b.tabs.active_id().unwrap();
        assert(b.tabs.tabs[b.tabs.active as int].id == id);
        crate::tab::lemma_index_of_id(b.tabs.tabs, b.tabs.active as int);
    }
}

/// A new tab, asked for by the chrome or by the keyboard, opens on the home
/// page, gets a fresh id, becomes active, is announced to the chrome after its
/// webview is made, and then has the keyboard focus put in the address bar.
pub proof fn law_new_tab_opens_home_page(b: BrowserModel)
    requires
        b.wf(),
        b.can_open(),
    ensures
        b.shortcut(Shortcut::NewTab) == b.handled(ChromeToApp::NewTab),
        b.handled(ChromeToApp::NewTab).0.tabs == b.tabs.created(b.default_url),
        b.handled(ChromeToApp::NewTab).0.tabs.active_id() == Some(b.tabs.next_id as u64),
        b.handled(ChromeToApp::NewTab).1[0] == (Action::CreateWebview {
            tab: b.tabs.next_id as u64,
            url: webview_url(b.default_url),
            bounds: b.content_bounds(),
        }),
        ({
            let acts = b.handled(ChromeToApp::NewTab).1;
            &&& acts[acts.len() - 2] == (Action::SendToChrome {
                message: ChromeUpdate::TabCreated {
                    id: b.tabs.next_id as u64,
                    title: "New Tab"@,
                    url: b.default_url,
                },
            })
            &&& acts.last() == Action::FocusAddressBar
        }),
{
    let c = b.tabs.created(b.default_url);
    assert(c.tabs[b.tabs.tabs.len() as int].id == b.tabs.next_id as u64);
}

/// A saved home page is the one the next new tab opens.
pub proof fn law_saved_home_page_is_used(b: BrowserModel, url: String)
    requires
        b.wf(),
        b.can_open(),
    ensures
        ({
            let saved = b.handled(ChromeToApp::SaveSettings { default_url: url }).0;
            &&& saved.default_url == url@
            &&& saved.handled(ChromeToApp::NewTab).0.tabs == b.tabs.created(url@)
        }),
{
}

/// Switching to an open tab shows its webview, hides the one that was
/// active before, and makes it the active tab.
pub proof fn law_switch_shows_only_target(b: BrowserModel, id: u64)
    requires
        b.wf(),
        b.tabs.has_id(id),
        b.tabs.active_id() is Some,
    ensures
        b.switching(id).0.tabs.active_id() == Some(id),
        b.switching(id).1[0] == (Action::SetVisible {
            tab: b.tabs.active_id().unwrap(),
            visible: false,
        }),
        b.switching(id).1[1] == (Action::SetVisible { tab: id, visible: true }),
{
}

/// Closing the last tab ends the program, whether the chrome asks for it or
/// the keyboard shortcut does; closing any other tab does not, and asking to
/// close a tab that is not open neither closes anything nor ends the program.
pub proof fn law_closing_last_tab_quits(b: BrowserModel, id: u64)
    requires
        b.wf(),
    ensures
        b.tabs.has_id(id) ==> (b.handled(ChromeToApp::CloseTab { id }).1.last() == Action::Quit
            <==> b.tabs.tabs.len() == 1),
        b.tabs.has_id(id) ==> b.handled(ChromeToApp::CloseTab { id }).0.tabs.tabs.len()
            == b.tabs.tabs.len() - 1,
        !b.tabs.has_id(id) ==> b.handled(ChromeToApp::CloseTab { id }).0 == b
            && !b.handled(ChromeToApp::CloseTab { id }).1.contains(Action::Quit),
        b.tabs.active_id() == Some(id) ==> b.shortcut(Shortcut::CloseTab) == b.handled(
            ChromeToApp::CloseTab { id },
        ),
{
    let c = b.closing(id);
    let acts = b.handled(ChromeToApp::CloseTab { id }).1;
    if b.tabs.has_id(id) {
        crate::tab::law_close_removes_only_that_tab(b.tabs, id);
        if b.tabs.tabs.len() != 1 {
            let n = c.0.tabs.active_id().unwrap();
            assert(acts.last() == Action::SendToChrome {
                message: ChromeUpdate::ActiveTabChanged { id: n },
            });
        }
    } else {
        crate::tab::law_close_unknown_is_noop(b.tabs, id);
        assert(b.with_tabs(b.tabs) == b);
        if acts.contains(Action::Quit) {
            let k = choose|k: int| 0 <= k < acts.len() && acts[k] == Action::Quit;
            assert(acts[k] != Action::Quit);
        }
    }
}

/// Adding a bookmark that was not there and then removing it leaves the
/// bookmarks as they were; both are written to disk.
pub proof fn law_bookmark_add_then_remove(b: BrowserModel, name: String, url: String, url2: String)
    requires
        !has_url(b.bookmarks, url@),
        url2@ == url@,
    ensures
        ({
            let b1 = b.handled(ChromeToApp::AddBookmark { name, url }).0;
            let a1 = b.handled(ChromeToApp::AddBookmark { name, url }).1;
            let b2 = b1.handled(ChromeToApp::RemoveBookmark { url: url2 }).0;
            &&& a1[0] == Action::SaveBookmarks
            &&& b2.bookmarks == b.bookmarks
        }),
{
    bookmarks::law_remove_undoes_add(b.bookmarks, name@, url@);
}

/// The list of all tabs sent to the chrome names, as active, the tab at the
/// active position (0 when there is no tab), and lists every tab in order.
pub proof fn law_all_tabs_names_active(b: BrowserModel)
    requires
        b.wf(),
    ensures
        b.all_tabs_update() matches ChromeUpdate::AllTabs { tabs, active_id } && {
            &&& tabs.len() == b.tabs.tabs.len()
            &&& forall|i: int| 0 <= i < tabs.len() ==> (#[trigger] tabs[i]).id == b.tabs.tabs[i].id
            &&& b.tabs.tabs.len() > 0 ==> active_id == b.tabs.tabs[b.tabs.active as int].id
            &&& b.tabs.tabs.len() == 0 ==> active_id == 0
        },
{
}

/// Dragging a tab to a new place sends the chrome one message, the new list
/// of all tabs, which names as active the tab that was active before the
/// move.
pub proof fn law_reorder_keeps_active_in_chrome(b: BrowserModel, from: usize, to: usize)
    requires
        b.wf(),
        from < b.tabs.tabs.len(),
        to < b.tabs.tabs.len(),
    ensures
        ({
            let acts = b.handled(ChromeToApp::ReorderTab { from, to }).1;
            &&& acts.len() == 1
            &&& acts[0] matches Action::SendToChrome {
                message: ChromeUpdate::AllTabs { tabs, active_id },
            } && tabs.len() == b.tabs.tabs.len() && Some(active_id) == b.tabs.active_id()
        }),
{
    crate::tab::law_reorder_permutes(b.tabs, from as int, to as int);
    crate::tab::lemma_reordered(b.tabs, from as int, to as int);
}

/// A page that reports itself from the active tab, when that tab does not
/// show an internal page, retitles the window after the reported title,
/// whatever URL comes with it; a page in a tab in the background never
/// touches the window title.
pub proof fn law_page_info_retitles_window(
    b: BrowserModel,
    id: u64,
    title: Seq<char>,
    url: Seq<char>,
    favicon: Seq<char>,
)
    requires
        b.wf(),
    ensures
        b.tabs.active_id() == Some(id) && !is_internal(b.tabs.tabs[b.tabs.active as int].url)
            ==> b.page_info(id, title, url, favicon).1.last() == (Action::SetWindowTitle {
            title: window_title_for(title),
        }),
        b.tabs.active_id() != Some(id) ==> forall|i: int|
            0 <= i < b.page_info(id, title, url, favicon).1.len() ==> !(#[trigger] b.page_info(
                id,
                title,
                url,
                favicon,
            ).1[i] is SetWindowTitle),
{
    let m = b.tabs;
    crate::screen::lemma_field_updates_keep(m, id, title);
    let m1 = m.retitled(id, title);
    crate::screen::lemma_field_updates_keep(m1, id, url);
    let m2 = m1.relocated(id, url);
    crate::screen::lemma_field_updates_keep(m2, id, favicon);
    if b.tabs.active_id() == Some(id) {
        let a = m.active as int;
        crate::tab::lemma_index_of_id(m.tabs, a);
        crate::tab::lemma_index_of_id(m1.tabs, a);
        crate::tab::lemma_index_of_id(m2.tabs, a);
        assert(m1.tabs[a].title == title);
        assert(m2.tabs[a].title == title);
        let m3 = m2.with_favicon(id, favicon);
        assert(m3.tabs[a].title == title);
    } else {
        let acts = b.page_info(id, title, url, favicon).1;
        assert forall|i: int| 0 <= i < acts.len() implies !(#[trigger] acts[i] is SetWindowTitle) by {
            assert(i == 0);
        }
    }
}

/// Address-bar input is loaded, normalised, in the active tab: that tab's
/// URL becomes the normalised input, its webview is sent there, the chrome
/// is told, and no other tab and no active position changes. With no tab
/// open, the input is dropped.
pub proof fn law_navigation_loads_in_active_tab(b: BrowserModel, input: Seq<char>)
    requires
        b.wf(),
    ensures
        b.tabs.tabs.len() == 0 ==> b.navigating(input).0 == b && b.navigating(input).1.len() == 0,
        b.tabs.tabs.len() > 0 ==> ({
            let a = b.tabs.active as int;
            let (b1, acts) = b.navigating(input);
            &&& acts.len() == 2
            &&& acts[0] == (Action::Navigate { tab: b.tabs.tabs[a].id, url: normalized(input) })
            &&& acts[1] is SendToChrome
            &&& b1.tabs.active == b.tabs.active
            &&& b1.tabs.tabs.len() == b.tabs.tabs.len()
            &&& b1.tabs.tabs[a].url == normalized(input)
            &&& b1.tabs.tabs[a].id == b.tabs.tabs[a].id
            &&& b1.tabs.tabs[a].title == b.tabs.tabs[a].title
            &&& forall|i: int| 0 <= i < b.tabs.tabs.len() && i != a ==> b1.tabs.tabs[i]
                == #[trigger] b.tabs.tabs[i]
        }),
{
    law_navigation_is_never_internal(b, input);
    if b.tabs.tabs.len() > 0 {
        crate::tab::lemma_index_of_id(b.tabs.tabs, b.tabs.active as int);
    }
}

/// What a page reports of itself lands in its tab: the tab takes the
/// reported title and URL, and the reported favicon unless that is empty,
/// in which case it keeps its own; the chrome is told exactly those values.
/// No other tab changes, and neither does the active position.
pub proof fn law_page_info_updates_tab(
    b: BrowserModel,
    id: u64,
    title: Seq<char>,
    url: Seq<char>,
    favicon: Seq<char>,
)
    requires
        b.wf(),
        b.tabs.has_id(id),
        !is_internal(b.tabs.tabs[b.tabs.index_of(id)].url),
    ensures
        ({
            let k = b.tabs.index_of(id);
            let old_tab = b.tabs.tabs[k];
            let (b1, acts) = b.page_info(id, title, url, favicon);
            let shown = if favicon.len() > 0 {
                favicon
            } else {
                old_tab.favicon
            };
            &&& b1.tabs.tabs.len() == b.tabs.tabs.len()
            &&& b1.tabs.active == b.tabs.active
            &&& b1.tabs.tabs[k].id == id
            &&& b1.tabs.tabs[k].title == title
            &&& b1.tabs.tabs[k].url == url
            &&& b1.tabs.tabs[k].favicon == shown
            &&& forall|i: int| 0 <= i < b.tabs.tabs.len() && i != k ==> b1.tabs.tabs[i]
                == #[trigger] b.tabs.tabs[i]
            &&& acts[0] == (Action::SendToChrome {
                message: ChromeUpdate::TabUpdated { id, title, url, favicon: shown, is_loading: false },
            })
        }),
{
    let m = b.tabs;
    let k = m.index_of(id);
    crate::tab::lemma_index_of_id(m.tabs, k);
    crate::screen::lemma_field_updates_keep(m, id, title);
    let m1 = m.retitled(id, title);
    crate::tab::lemma_index_of_id(m1.tabs, k);
    crate::screen::lemma_field_updates_keep(m1, id, url);
    let m2 = m1.relocated(id, url);
    crate::tab::lemma_index_of_id(m2.tabs, k);
    crate::screen::lemma_field_updates_keep(m2, id, favicon);
    let m3 = m2.with_favicon(id, favicon);
    crate::tab::lemma_index_of_id(m3.tabs, k);
}

/// Switching to an open tab retitles the window after that tab.
pub proof fn law_switch_retitles_window(b: BrowserModel, id: u64)
    requires
        b.wf(),
        b.tabs.has_id(id),
    ensures
        b.switching(id).1.last() == (Action::SetWindowTitle {
            title: window_title_for(b.tabs.tabs[b.tabs.index_of(id)].title),
        }),
{
    let k = b.tabs.index_of(id);
    crate::tab::lemma_index_of_id(b.tabs.tabs, k);
}

/// Adding a bookmark tells the chrome the bookmarks as they stand after the
/// add, which hold the new URL; removing one tells it the bookmarks as they
/// stand after the removal, which no longer hold the URL.
pub proof fn law_bookmark_changes_reach_chrome(b: BrowserModel, name: String, url: String)
    ensures
        ({
            let (b1, acts) = b.handled(ChromeToApp::AddBookmark { name, url });
            &&& b1.bookmarks == added(b.bookmarks, name@, url@)
            &&& acts.last() == (Action::SendToChrome {
                message: ChromeUpdate::Bookmarks { bookmarks: added(b.bookmarks, name@, url@) },
            })
            &&& has_url(added(b.bookmarks, name@, url@), url@)
        }),
        ({
            let (b1, acts) = b.handled(ChromeToApp::RemoveBookmark { url });
            &&& b1.bookmarks == removed(b.bookmarks, url@)
            &&& acts.last() == (Action::SendToChrome {
                message: ChromeUpdate::Bookmarks { bookmarks: removed(b.bookmarks, url@) },
            })
            &&& !has_url(removed(b.bookmarks, url@), url@)
        }),
{
    bookmarks::law_add_bookmarks_url(b.bookmarks, name@, url@);
    bookmarks::law_remove_unbookmarks(b.bookmarks, url@, seq!['x'] + url@);
}

/// The state the browser keeps besides its window and webviews.
pub struct Browser {
    pub tabs: TabManager,
    pub bookmarks: Vec<Bookmark>,
    pub default_url: String,
    pub sidebar_width: u32,
    pub window_width: u32,
    pub window_height: u32,
}

impl View for Browser {
    type V = BrowserModel;

    open spec fn view(&self) -> BrowserModel {
        BrowserModel {
            tabs: self.tabs@,
            bookmarks: entries(self.bookmarks@),
            default_url: self.default_url@,
            sidebar_width: self.sidebar_width,
            window_width: self.window_width,
            window_height: self.window_height,
        }
    }
}

/// Appends `e` to `effects`.
fn emit(effects: &mut Vec<Effect>, e: Effect)
    ensures
        actions(final(effects)@) == actions(old(effects)@).push(e@),
{
    let ghost before = effects@;
    effects.push(e);
    assert(actions(effects@) =~= actions(before).push(e@));
}

impl Browser {
    /// A browser without tabs, with the given bookmarks and home page, in a
    /// window of the given size; the sidebar is compact.
    pub fn new(bookmarks: Vec<Bookmark>, default_url: String, window_width: u32, window_height: u32) -> (r: Self)
        ensures
            r@ == (BrowserModel {
                tabs: TabsModel { tabs: Seq::empty(), active: 0, next_id: 0 },
                bookmarks: entries(bookmarks@),
                default_url: default_url@,
                sidebar_width: SIDEBAR_WIDTH_COMPACT,
                window_width,
                window_height,
            }),
            r@.wf(),
    {
        Browser {
            tabs: TabManager::new(),
            bookmarks,
            default_url,
            sidebar_width: SIDEBAR_WIDTH_COMPACT,
            window_width,
            window_height,
        }
    }

    /// Where the page of a tab goes.
    pub fn content_bounds(&self) -> (r: Bounds)
        ensures
            r == self@.content_bounds(),
    {
        Bounds {
            x: self.sidebar_width,
            y: NAV_BAR_HEIGHT,
            width: self.window_width.saturating_sub(self.sidebar_width),
            height: self.window_height.saturating_sub(NAV_BAR_HEIGHT),
        }
    }

    /// Where the sidebar goes.
    pub fn sidebar_bounds(&self) -> (r: Bounds)
        ensures
            r == self@.sidebar_bounds(),
    {
        Bounds { x: 0, y: 0, width: self.sidebar_width, height: self.window_height }
    }

    /// Where the navigation bar goes.
    pub fn navbar_bounds(&self) -> (r: Bounds)
        ensures
            r == self@.navbar_bounds(),
    {
        Bounds {
            x: self.sidebar_width,
            y: 0,
            width: self.window_width.saturating_sub(self.sidebar_width),
            height: NAV_BAR_HEIGHT,
        }
    }

    /// The message that tells the chrome the bookmarks.
    fn bookmarks_message(&self) -> (m: AppToChrome)
        ensures
            m@ == self@.bookmarks_update(),
    {
        let mut list: Vec<BookmarkInfo> = Vec::new();
        let n = self.bookmarks.len();
        let mut i: usize = 0;
        while i < n
            invariant
                n == self.bookmarks@.len(),
                i <= n,
                list@.map_values(|b: BookmarkInfo| b@) =~= entries(self.bookmarks@).take(i as int),
            decreases n - i,
        {
            let b = &self.bookmarks[i];
            let ghost before = list@;
            list.push(BookmarkInfo { name: b.name.clone(), url: b.url.clone() });
            assert(list@.map_values(|b: BookmarkInfo| b@) =~= before.map_values(|b: BookmarkInfo| b@).push(entries(self.bookmarks@)[i as int]));
            assert(entries(self.bookmarks@).take(i + 1) =~= entries(self.bookmarks@).take(i as int).push(entries(self.bookmarks@)[i as int]));
            i = i + 1;
        }
        assert(entries(self.bookmarks@).take(n as int) =~= entries(self.bookmarks@));
        AppToChrome::Bookmarks { bookmarks: list }
    }

    /// The message that tells the chrome all tabs and the active one.
    fn all_tabs_message(&self) -> (m: AppToChrome)
        ensures
            m@ == self@.all_tabs_update(),
    {
        let tabs = self.tabs.tabs();
        let mut list: Vec<TabInfo> = Vec::new();
        let n = tabs.len();
        let ghost want = self@.tabs.tabs.map_values(|t: TabState| summary(t));
        let mut i: usize = 0;
        while i < n
            invariant
                n == tabs@.len(),
                crate::tab::tab_states(tabs@) == self@.tabs.tabs,
                want == self@.tabs.tabs.map_values(|t: TabState| summary(t)),
                i <= n,
                list@.map_values(|t: TabInfo| t@) =~= want.take(i as int),
            decreases n - i,
        {
            let t = &tabs[i];
            let ghost before = list@;
            list.push(
                TabInfo {
                    id: t.id.0,
                    title: t.title.clone(),
                    url: t.url.clone(),
                    favicon: t.favicon.clone(),
                    is_loading: t.is_loading,
                },
            );
            assert(self@.tabs.tabs[i as int] == tabs@[i as int]@);
            assert(list@.map_values(|t: TabInfo| t@) =~= before.map_values(|t: TabInfo| t@).push(want[i as int]));
            assert(want.take(i + 1) =~= want.take(i as int).push(want[i as int]));
            i = i + 1;
        }
        assert(want.take(n as int) =~= want);
        let active_id = match self.tabs.active_id() {
            Some(id) => id.0,
            None => 0,
        };
        AppToChrome::AllTabs { tabs: list, active_id }
    }

    /// Emits the window title after the active tab.
    fn emit_title(&self, effects: &mut Vec<Effect>)
        ensures
            actions(final(effects)@) == actions(old(effects)@) + self@.title_actions(),
    {
        if let Some(tab) = self.tabs.active_tab() {
            let title = if tab.title.as_str().unicode_len() == 0 || same_text(tab.title.as_str(), "New Tab") {
                String::from_str("Light")
            } else {
                tab.title.clone()
            };
            emit(effects, Effect::SetWindowTitle { title });
        }
        assert(actions(effects@) =~= actions(old(effects)@) + self@.title_actions());
    }

    /// Opens a tab on `url`, emitting what that takes.
    fn open_tab(&mut self, url: &str, effects: &mut Vec<Effect>)
        requires
            old(self)@.wf(),
            old(self)@.can_open(),
        ensures
            final(self)@ == old(self)@.opened(url@).0,
            actions(final(effects)@) == actions(old(effects)@) + old(self)@.opened(url@).1,
            final(self)@.wf(),
    {
        let old_active = self.tabs.active_id();
        let id = self.tabs.create_tab(url);
        let bounds = self.content_bounds();
        let webview_url = if starts_with(url, "light://") {
            String::from_str("about:blank")
        } else {
            to_owned_string(url)
        };
        emit(effects, Effect::CreateWebview { tab: id, url: webview_url, bounds });
        if let Some(old_id) = old_active {
            emit(effects, Effect::SetVisible { tab: old_id, visible: false });
        }
        emit(
            effects,
            Effect::SendToChrome {
                message: AppToChrome::TabCreated {
                    id: id.0,
                    title: String::from_str("New Tab"),
                    url: to_owned_string(url),
                },
            },
        );
        assert(actions(effects@) =~= actions(old(effects)@) + old(self)@.opened(url@).1);
    }

    /// Closes the tab `id`, emitting what that takes.
    fn close(&mut self, id: TabId, effects: &mut Vec<Effect>)
        requires
            old(self)@.wf(),
        ensures
            final(self)@ == old(self)@.closing(id.0).0,
            actions(final(effects)@) == actions(old(effects)@) + old(self)@.closing(id.0).1,
            final(self)@.wf(),
    {
        emit(effects, Effect::CloseWebview { tab: id });
        let new_active = self.tabs.close_tab(id);
        emit(effects, Effect::SendToChrome { message: AppToChrome::TabClosed { id: id.0 } });
        if let Some(new_id) = new_active {
            emit(effects, Effect::SetVisible { tab: new_id, visible: true });
            emit(
                effects,
                Effect::SendToChrome { message: AppToChrome::ActiveTabChanged { id: new_id.0 } },
            );
        }
        assert(actions(effects@) =~= actions(old(effects)@) + old(self)@.closing(id.0).1);
    }

    /// Closes the tab `id` at the user's request, ending the program when it
    /// was the last tab.
    fn close_on_request(&mut self, id: TabId, effects: &mut Vec<Effect>)
        requires
            old(self)@.wf(),
        ensures
            final(self)@ == old(self)@.close_requested(id.0).0,
            actions(final(effects)@) == actions(old(effects)@) + old(self)@.close_requested(
                id.0,
            ).1,
            final(self)@.wf(),
    {
        let had_tabs = !self.tabs.is_empty();
        self.close(id, effects);
        if had_tabs && self.tabs.is_empty() {
            emit(effects, Effect::Quit);
        }
        assert(actions(effects@) =~= actions(old(effects)@) + old(self)@.close_requested(id.0).1);
    }

    /// Opens a tab on the home page and puts the focus in the address bar.
    fn open_new_tab(&mut self, effects: &mut Vec<Effect>)
        requires
            old(self)@.wf(),
            old(self)@.can_open(),
        ensures
            final(self)@ == old(self)@.new_tab().0,
            actions(final(effects)@) == actions(old(effects)@) + old(self)@.new_tab().1,
            final(self)@.wf(),
    {
        let url = self.default_url.clone();
        self.open_tab(url.as_str(), effects);
        emit(effects, Effect::FocusAddressBar);
        assert(actions(effects@) =~= actions(old(effects)@) + old(self)@.new_tab().1);
    }

    /// Makes the tab `id` active, emitting what that takes.
    fn switch(&mut self, id: TabId, effects: &mut Vec<Effect>)
        requires
            old(self)@.wf(),
        ensures
            final(self)@ == old(self)@.switching(id.0).0,
            actions(final(effects)@) == actions(old(effects)@) + old(self)@.switching(id.0).1,
            final(self)@.wf(),
    {
        let old_active = self.tabs.active_id();
        self.tabs.set_active(id);
        if let Some(old_id) = old_active {
            emit(effects, Effect::SetVisible { tab: old_id, visible: false });
        }
        emit(effects, Effect::SetVisible { tab: id, visible: true });
        emit(effects, Effect::SendToChrome { message: AppToChrome::ActiveTabChanged { id: id.0 } });
        self.emit_title(effects);
        assert(actions(effects@) =~= actions(old(effects)@) + old(self)@.switching(id.0).1);
    }

    /// Draws the internal page at `url` in the active tab, opening a tab when
    /// there is none; other addresses are ignored.
    fn show_internal(&mut self, url: &str, effects: &mut Vec<Effect>)
        requires
            old(self)@.wf(),
            old(self)@.can_open() || old(self)@.tabs.tabs.len() > 0,
        ensures
            final(self)@ == old(self)@.showing(url@).0,
            actions(final(effects)@) == actions(old(effects)@) + old(self)@.showing(url@).1,
            final(self)@.wf(),
    {
        let page = if same_text(url, "light://settings") {
            Page::Settings
        } else if same_text(url, "light://bookmarks") {
            Page::Bookmarks
        } else {
            return;
        };
        if self.tabs.is_empty() {
            self.open_tab(url, effects);
        }
        if let Some(id) = self.tabs.active_id() {
            emit(effects, Effect::ShowPage { tab: id, page });
            let title = match page {
                Page::Settings => String::from_str("Settings"),
                Page::Bookmarks => String::from_str("Bookmarks"),
            };
            self.tabs.update_title(id, title.clone());
            self.tabs.update_url(id, to_owned_string(url));
            emit(
                effects,
                Effect::SendToChrome {
                    message: AppToChrome::TabUpdated {
                        id: id.0,
                        title,
                        url: to_owned_string(url),
                        favicon: String::new(),
                        is_loading: false,
                    },
                },
            );
            self.emit_title(effects);
        }
        assert(actions(effects@) =~= actions(old(effects)@) + old(self)@.showing(url@).1);
    }
    /// Loads address-bar input in the active tab.
    fn navigate(&mut self, input: &str, effects: &mut Vec<Effect>)
        requires
            old(self)@.wf(),
        ensures
            final(self)@ == old(self)@.navigating(input@).0,
            actions(final(effects)@) == actions(old(effects)@) + old(self)@.navigating(input@).1,
            final(self)@.wf(),
    {
        let url = normalize_url(input);
        if starts_with(url.as_str(), "light://") {
            proof {
                law_navigation_is_never_internal(self@, input@);
            }
            self.show_internal(url.as_str(), effects);
        } else if let Some(id) = self.tabs.active_id() {
            emit(effects, Effect::Navigate { tab: id, url: url.clone() });
            self.tabs.update_url(id, url.clone());
            let (title, favicon) = match self.tabs.active_tab() {
                Some(t) => (t.title.clone(), t.favicon.clone()),
                None => (String::new(), String::new()),
            };
            emit(
                effects,
                Effect::SendToChrome {
                    message: AppToChrome::TabUpdated {
                        id: id.0,
                        title,
                        url,
                        favicon,
                        is_loading: true,
                    },
                },
            );
            assert(actions(effects@) =~= actions(old(effects)@) + old(self)@.navigating(input@).1);
        }
    }

    /// The tab `id`, if there is one.
    fn find_tab(&self, id: u64) -> (r: Option<&Tab>)
        requires
            self@.wf(),
        ensures
            match r {
                Some(t) => self@.tab_with_id(id) == Some(t@),
                None => self@.tab_with_id(id) is None,
            },
    {
        let tabs = self.tabs.tabs();
        let n = tabs.len();
        let mut i: usize = 0;
        while i < n
            invariant
                n == tabs@.len(),
                crate::tab::tab_states(tabs@) == self@.tabs.tabs,
                crate::tab::unique_ids(self@.tabs.tabs),
                i <= n,
                forall|k: int| 0 <= k < i ==> self@.tabs.tabs[k].id != id,
            decreases n - i,
        {
            assert(self@.tabs.tabs[i as int] == tabs@[i as int]@);
            if tabs[i].id.0 == id {
                proof {
                    crate::tab::lemma_index_of_id(self@.tabs.tabs, i as int);
                }
                return Some(&tabs[i]);
            }
            i = i + 1;
        }
        None
    }

    /// Takes in the title, URL and favicon that the page of tab `tab_id`
    /// reports.
    fn take_page_info(
        &mut self,
        tab_id: u64,
        title: String,
        url: String,
        favicon: String,
        effects: &mut Vec<Effect>,
    )
        requires
            old(self)@.wf(),
        ensures
            final(self)@ == old(self)@.page_info(tab_id, title@, url@, favicon@).0,
            actions(final(effects)@) == actions(old(effects)@) + old(self)@.page_info(
                tab_id,
                title@,
                url@,
                favicon@,
            ).1,
            final(self)@.wf(),
    {
        let id = TabId(tab_id);
        let internal = match self.find_tab(tab_id) {
            Some(t) => starts_with(t.url.as_str(), "light://"),
            None => false,
        };
        proof {
            reveal_strlit("light://");
        }
        if internal {
            return;
        }
        self.tabs.update_title(id, title.clone());
        self.tabs.update_url(id, url.clone());
        if favicon.as_str().unicode_len() > 0 {
            self.tabs.update_favicon(id, favicon);
        }
        let shown = match self.find_tab(tab_id) {
            Some(t) => t.favicon.clone(),
            None => String::new(),
        };
        emit(
            effects,
            Effect::SendToChrome {
                message: AppToChrome::TabUpdated {
                    id: tab_id,
                    title,
                    url,
                    favicon: shown,
                    is_loading: false,
                },
            },
        );
        let is_active = match self.tabs.active_id() {
            Some(a) => a.0 == tab_id,
            None => false,
        };
        if is_active {
            self.emit_title(effects);
        }
        assert(actions(effects@) =~= actions(old(effects)@) + old(self)@.page_info(
            tab_id,
            title@,
            url@,
            favicon@,
        ).1);
    }

    /// Emits the placing of every webview, the sidebar and the navigation
    /// bar.
    fn emit_layout(&self, effects: &mut Vec<Effect>)
        ensures
            actions(final(effects)@) == actions(old(effects)@) + self@.layout_actions(),
    {
        let bounds = self.content_bounds();
        let tabs = self.tabs.tabs();
        let n = tabs.len();
        let ghost want = self@.tabs.tabs.map_values(
            |t: TabState| Action::SetBounds { tab: t.id, bounds },
        );
        let mut i: usize = 0;
        while i < n
            invariant
                n == tabs@.len(),
                crate::tab::tab_states(tabs@) == self@.tabs.tabs,
                want == self@.tabs.tabs.map_values(
                    |t: TabState| Action::SetBounds { tab: t.id, bounds },
                ),
                i <= n,
                actions(effects@) =~= actions(old(effects)@) + want.take(i as int),
            decreases n - i,
        {
            assert(self@.tabs.tabs[i as int] == tabs@[i as int]@);
            emit(effects, Effect::SetBounds { tab: tabs[i].id, bounds });
            assert(want.take(i + 1) =~= want.take(i as int).push(want[i as int]));
            i = i + 1;
        }
        assert(want.take(n as int) =~= want);
        let sidebar = self.sidebar_bounds();
        emit(effects, Effect::SetSidebarBounds { bounds: sidebar });
        let navbar = self.navbar_bounds();
        emit(effects, Effect::SetNavbarBounds { bounds: navbar });
        assert(actions(effects@) =~= actions(old(effects)@) + self@.layout_actions());
    }

    /// Whether answering `msg` opens a tab.
    pub fn opens_tab(msg: &ChromeToApp) -> (r: bool)
        ensures
            r == message_opens_tab(*msg),
    {
        match msg {
            ChromeToApp::NewTab | ChromeToApp::OpenSettings | ChromeToApp::OpenUrl { .. } => true,
            _ => false,
        }
    }

    /// Answers a message from the chrome: changes the browser's state and
    /// returns the effects to carry out, in order.
    pub fn handle_message(&mut self, msg: ChromeToApp) -> (effects: Vec<Effect>)
        requires
            old(self)@.wf(),
            message_opens_tab(msg) ==> old(self)@.can_open(),
        ensures
            final(self)@ == old(self)@.handled(msg).0,
            actions(effects@) == old(self)@.handled(msg).1,
            final(self)@.wf(),
    {
        let ghost answer = self@.handled(msg);
        let mut effects: Vec<Effect> = Vec::new();
        assert(actions(effects@) =~= Seq::<Action>::empty());
        match msg {
            ChromeToApp::Navigate { url } => {
                self.navigate(url.as_str(), &mut effects);
                assert(actions(effects@) =~= answer.1);
            },
            ChromeToApp::NewTab => {
                self.open_new_tab(&mut effects);
                assert(actions(effects@) =~= answer.1);
            },
            ChromeToApp::CloseTab { id } => {
                self.close_on_request(TabId(id), &mut effects);
                assert(actions(effects@) =~= answer.1);
            },
            ChromeToApp::SwitchTab { id } => {
                self.switch(TabId(id), &mut effects);
                assert(actions(effects@) =~= answer.1);
            },
            ChromeToApp::GoBack => {
                if let Some(id) = self.tabs.active_id() {
                    emit(&mut effects, Effect::GoBack { tab: id });
                }
                assert(actions(effects@) =~= answer.1);
            },
            ChromeToApp::GoForward => {
                if let Some(id) = self.tabs.active_id() {
                    emit(&mut effects, Effect::GoForward { tab: id });
                }
                assert(actions(effects@) =~= answer.1);
            },
            ChromeToApp::Reload => {
                if let Some(id) = self.tabs.active_id() {
                    emit(&mut effects, Effect::Reload { tab: id });
                }
                assert(actions(effects@) =~= answer.1);
            },
            ChromeToApp::ReorderTab { from, to } => {
                self.tabs.reorder(from, to);
                let message = self.all_tabs_message();
                emit(&mut effects, Effect::SendToChrome { message });
                assert(actions(effects@) =~= answer.1);
            },
            ChromeToApp::AddBookmark { name, url } => {
                let before = self.bookmarks.len();
                let ghost old_list = self.bookmarks@;
                bookmarks::add(&mut self.bookmarks, name.as_str(), url.as_str());
                assert(entries(old_list).len() == old_list.len());
                assert(entries(self.bookmarks@).len() == self.bookmarks@.len());
                if self.bookmarks.len() != before {
                    emit(&mut effects, Effect::SaveBookmarks);
                }
                let message = self.bookmarks_message();
                emit(&mut effects, Effect::SendToChrome { message });
                assert(actions(effects@) =~= answer.1);
            },
            ChromeToApp::RemoveBookmark { url } => {
                bookmarks::remove(&mut self.bookmarks, url.as_str());
                emit(&mut effects, Effect::SaveBookmarks);
                let message = self.bookmarks_message();
                emit(&mut effects, Effect::SendToChrome { message });
                assert(actions(effects@) =~= answer.1);
            },
            ChromeToApp::ToggleSidebar => {
                self.sidebar_width = if self.sidebar_width == SIDEBAR_WIDTH_COMPACT {
                    SIDEBAR_WIDTH_EXPANDED
                } else {
                    SIDEBAR_WIDTH_COMPACT
                };
                let compact = self.sidebar_width == SIDEBAR_WIDTH_COMPACT;
                emit(&mut effects, Effect::SetSidebarCompact { compact });
                self.emit_layout(&mut effects);
                assert(actions(effects@) =~= answer.1);
            },
            ChromeToApp::OpenUrl { url } => {
                self.open_tab(url.as_str(), &mut effects);
                assert(actions(effects@) =~= answer.1);
            },
            ChromeToApp::FocusAddressBar => {
                emit(&mut effects, Effect::FocusAddressBar);
                assert(actions(effects@) =~= answer.1);
            },
            ChromeToApp::DragWindow => {
                emit(&mut effects, Effect::DragWindow);
                assert(actions(effects@) =~= answer.1);
            },
            ChromeToApp::ToggleBookmarksBar => {
                assert(actions(effects@) =~= answer.1);
            },
            ChromeToApp::OpenSettings => {
                self.open_tab("light://settings", &mut effects);
                self.show_internal("light://settings", &mut effects);
                assert(actions(effects@) =~= answer.1);
            },
            ChromeToApp::SaveSettings { default_url } => {
                emit(&mut effects, Effect::SaveSettings { default_url: default_url.clone() });
                self.default_url = default_url;
                assert(actions(effects@) =~= answer.1);
            },
            ChromeToApp::PageInfo { tab_id, title, url, favicon } => {
                self.take_page_info(tab_id, title, url, favicon, &mut effects);
                assert(actions(effects@) =~= answer.1);
            },
        }
        assert(actions(effects@) =~= answer.1);
        effects
    }
    /// Answers a keyboard shortcut: changes the browser's state and returns
    /// the effects to carry out, in order.
    pub fn handle_shortcut(&mut self, shortcut: Shortcut) -> (effects: Vec<Effect>)
        requires
            old(self)@.wf(),
            shortcut == Shortcut::NewTab ==> old(self)@.can_open(),
        ensures
            final(self)@ == old(self)@.shortcut(shortcut).0,
            actions(effects@) == old(self)@.shortcut(shortcut).1,
            final(self)@.wf(),
    {
        let ghost answer = self@.shortcut(shortcut);
        let mut effects: Vec<Effect> = Vec::new();
        assert(actions(effects@) =~= Seq::<Action>::empty());
        match shortcut {
            Shortcut::NewTab => {
                self.open_new_tab(&mut effects);
                assert(actions(effects@) =~= answer.1);
            },
            Shortcut::CloseTab => {
                if let Some(id) = self.tabs.active_id() {
                    self.close_on_request(id, &mut effects);
                }
                assert(actions(effects@) =~= answer.1);
            },
            Shortcut::FocusAddressBar => {
                emit(&mut effects, Effect::FocusAddressBar);
                assert(actions(effects@) =~= answer.1);
            },
            Shortcut::Reload => {
                if let Some(id) = self.tabs.active_id() {
                    emit(&mut effects, Effect::Reload { tab: id });
                }
                assert(actions(effects@) =~= answer.1);
            },
        }
        effects
    }

    /// Takes in the new size of the window and returns the effects that
    /// place every webview anew.
    pub fn resize(&mut self, width: u32, height: u32) -> (effects: Vec<Effect>)
        ensures
            final(self)@ == old(self)@.resized(width, height).0,
            actions(effects@) == old(self)@.resized(width, height).1,
    {
        self.window_width = width;
        self.window_height = height;
        let mut effects: Vec<Effect> = Vec::new();
        assert(actions(effects@) =~= Seq::<Action>::empty());
        self.emit_layout(&mut effects);
        assert(actions(effects@) =~= old(self)@.resized(width, height).1);
        effects
    }

    /// Starts the browser: opens a tab on the home page and sends the
    /// bookmarks to the chrome.
    pub fn start(&mut self) -> (effects: Vec<Effect>)
        requires
            old(self)@.wf(),
            old(self)@.can_open(),
        ensures
            final(self)@ == old(self)@.started().0,
            actions(effects@) == old(self)@.started().1,
            final(self)@.wf(),
    {
        let mut effects: Vec<Effect> = Vec::new();
        assert(actions(effects@) =~= Seq::<Action>::empty());
        let url = self.default_url.clone();
        self.open_tab(url.as_str(), &mut effects);
        let message = self.bookmarks_message();
        emit(&mut effects, Effect::SendToChrome { message });
        assert(actions(effects@) =~= old(self)@.started().1);
        effects
    }
}

} // verus!
