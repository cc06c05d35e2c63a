//! The messages exchanged between the browser and its chrome (the sidebar and
//! navigation bar webviews). The chrome sends JSON objects tagged by `type`;
//! the browser answers with JavaScript calls of `handleMessage`.

use vstd::prelude::*;
use crate::bookmarks::BookmarkEntry;

verus! {

/// Messages sent from the chrome webviews to the browser.
#[derive(Debug, PartialEq)]
pub enum ChromeToApp {
    Navigate { url: String },
    NewTab,
    CloseTab { id: u64 },
    SwitchTab { id: u64 },
    GoBack,
    GoForward,
    Reload,
    ReorderTab { from: usize, to: usize },
    AddBookmark { name: String, url: String },
    RemoveBookmark { url: String },
    ToggleBookmarksBar,
    OpenSettings,
    SaveSettings { default_url: String },
    PageInfo { tab_id: u64, title: String, url: String, favicon: String },
    ToggleSidebar,
    OpenUrl { url: String },
    FocusAddressBar,
    DragWindow,
}

/// Messages sent from the browser to the chrome webviews.
#[derive(Debug, PartialEq)]
pub enum AppToChrome {
    TabCreated { id: u64, title: String, url: String },
    TabClosed { id: u64 },
    TabUpdated { id: u64, title: String, url: String, favicon: String, is_loading: bool },
    ActiveTabChanged { id: u64 },
    AllTabs { tabs: Vec<TabInfo>, active_id: u64 },
    Bookmarks { bookmarks: Vec<BookmarkInfo> },
}

/// A bookmark as the chrome shows it.
#[derive(Debug, PartialEq)]
pub struct BookmarkInfo {
    pub name: String,
    pub url: String,
}

/// A tab as the chrome shows it.
#[derive(Debug, PartialEq)]
pub struct TabInfo {
    pub id: u64,
    pub title: String,
    pub url: String,
    pub favicon: String,
    pub is_loading: bool,
}

/// A tab as the chrome shows it, as a mathematical value.
pub struct TabSummary {
    pub id: u64,
    pub title: Seq<char>,
    pub url: Seq<char>,
    pub favicon: Seq<char>,
    pub is_loading: bool,
}

impl View for TabInfo {
    type V = TabSummary;

    open spec fn view(&self) -> TabSummary {
        TabSummary {
            id: self.id,
            title: self.title@,
            url: self.url@,
            favicon: self.favicon@,
            is_loading: self.is_loading,
        }
    }
}

impl View for BookmarkInfo {
    type V = BookmarkEntry;

    open spec fn view(&self) -> BookmarkEntry {
        BookmarkEntry { name: self.name@, url: self.url@ }
    }
}

/// A message to the chrome, as a mathematical value.
pub enum ChromeUpdate {
    TabCreated { id: u64, title: Seq<char>, url: Seq<char> },
    TabClosed { id: u64 },
    TabUpdated { id: u64, title: Seq<char>, url: Seq<char>, favicon: Seq<char>, is_loading: bool },
    ActiveTabChanged { id: u64 },
    AllTabs { tabs: Seq<TabSummary>, active_id: u64 },
    Bookmarks { bookmarks: Seq<BookmarkEntry> },
}

impl View for AppToChrome {
    type V = ChromeUpdate;

    open spec fn view(&self) -> ChromeUpdate {
        match self {
            AppToChrome::TabCreated { id, title, url } => ChromeUpdate::TabCreated {
                id: *id,
                title: title@,
                url: url@,
            },
            AppToChrome::TabClosed { id } => ChromeUpdate::TabClosed { id: *id },
            AppToChrome::TabUpdated { id, title, url, favicon, is_loading } => ChromeUpdate::TabUpdated {
                id: *id,
                title: title@,
                url: url@,
                favicon: favicon@,
                is_loading: *is_loading,
            },
            AppToChrome::ActiveTabChanged { id } => ChromeUpdate::ActiveTabChanged { id: *id },
            AppToChrome::AllTabs { tabs, active_id } => ChromeUpdate::AllTabs {
                tabs: tabs@.map_values(|t: TabInfo| t@),
                active_id: *active_id,
            },
            AppToChrome::Bookmarks { bookmarks } => ChromeUpdate::Bookmarks {
                bookmarks: bookmarks@.map_values(|b: BookmarkInfo| b@),
            },
        }
    }
}

/// The JavaScript expression that hands the JSON text `json` of a message to
/// the chrome's `handleMessage`.
pub fn js_call(json: &str) -> (r: String)
    ensures
        r@ == "handleMessage("@ + json@ + ")"@,
{
    let mut r = String::from_str("handleMessage(");
    r.append(json);
    r.append(")");
    r
}

} // verus!
