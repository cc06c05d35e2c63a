//! What the window shows: which tabs have a webview and which webviews are
//! visible, as the effects of the browser change it. Each tab has a webview
//! of its own, and only the active tab's webview is shown.

use vstd::prelude::*;
use crate::browser::{hide_tab, message_opens_tab, Action, BrowserModel};
use crate::ipc::ChromeToApp;
use crate::keys::Shortcut;
use crate::tab::{lemma_with_tab_wf, TabState, TabsModel};

verus! {

/// The tabs that have a webview, and the tabs whose webview is visible.
pub struct Screen {
    pub webviews: Set<u64>,
    pub visible: Set<u64>,
}

/// The screen after one effect: a new webview is visible, a closed one is
/// gone, and showing or hiding applies only to a tab that has a webview.
pub open spec fn after_action(s: Screen, a: Action) -> Screen {
    match a {
        Action::CreateWebview { tab, .. } => Screen {
            webviews: s.webviews.insert(tab),
            visible: s.visible.insert(tab),
        },
        Action::CloseWebview { tab } => Screen {
            webviews: s.webviews.remove(tab),
            visible: s.visible.remove(tab),
        },
        Action::SetVisible { tab, visible } => if s.webviews.contains(tab) {
            Screen {
                webviews: s.webviews,
                visible: if visible {
                    s.visible.insert(tab)
                } else {
                    s.visible.remove(tab)
                },
            }
        } else {
            s
        },
        _ => s,
    }
}

/// The screen after a list of effects, in order.
pub open spec fn after_actions(s: Screen, acts: Seq<Action>) -> Screen
    decreases acts.len(),
{
    if acts.len() == 0 {
        s
    } else {
        after_action(after_actions(s, acts.drop_last()), acts.last())
    }
}

/// Whether an effect changes what the window shows.
pub open spec fn touches_screen(a: Action) -> bool {
    ||| a is CreateWebview
    ||| a is CloseWebview
    ||| a is SetVisible
}

/// The ids of the open tabs.
pub open spec fn tab_ids(m: TabsModel) -> Set<u64> {
    Set::new(|id: u64| m.has_id(id))
}

/// The tabs whose webview should be visible: the active one alone.
pub open spec fn shown_ids(m: TabsModel) -> Set<u64> {
    match m.active_id() {
        Some(a) => set![a],
        None => Set::empty(),
    }
}

/// The screen shows the browser's tabs: one webview per open tab, and only
/// the active tab's webview visible.
pub open spec fn shows(b: BrowserModel, s: Screen) -> bool {
    &&& s.webviews == tab_ids(b.tabs)
    &&& s.visible == shown_ids(b.tabs)
}

/// Effects run one list after another act as the joined list.
pub proof fn lemma_after_concat(s: Screen, a: Seq<Action>, b: Seq<Action>)
    ensures
        after_actions(s, a + b) == after_actions(after_actions(s, a), b),
    decreases b.len(),
{
    if b.len() == 0 {
        assert(a + b =~= a);
    } else {
        lemma_after_concat(s, a, b.drop_last());
        assert((a + b).drop_last() =~= a + b.drop_last());
    }
}

/// A single effect acts as itself.
pub proof fn lemma_after_single(s: Screen, x: Action)
    ensures
        after_actions(s, seq![x]) == after_action(s, x),
{
    assert(seq![x].drop_last() =~= Seq::<Action>::empty());
    assert(after_actions(s, seq![x].drop_last()) == s);
    assert(seq![x].last() == x);
}

/// Effects that do not touch the screen leave it as it is.
pub proof fn lemma_after_inert(s: Screen, acts: Seq<Action>)
    requires
        forall|i: int| 0 <= i < acts.len() ==> !touches_screen(#[trigger] acts[i]),
    ensures
        after_actions(s, acts) == s,
    decreases acts.len(),
{
    if acts.len() > 0 {
        assert(!touches_screen(acts[acts.len() - 1]));
        lemma_after_inert(s, acts.drop_last());
    }
}

/// Changing a tab's fields keeps the ids of the open tabs and the active
/// tab.
pub proof fn lemma_with_tab_keeps_ids(m: TabsModel, id: u64, t: TabState)
    requires
        m.wf(),
        m.has_id(id) ==> t.id == id,
    ensures
        tab_ids(m.with_tab(id, t)) == tab_ids(m),
        m.with_tab(id, t).active_id() == m.active_id(),
{
    let r = m.with_tab(id, t);
    if m.has_id(id) {
        let k = m.index_of(id);
        assert forall|x: u64| r.has_id(x) == m.has_id(x) by {
            if r.has_id(x) {
                let j = choose|j: int| 0 <= j < r.tabs.len() && r.tabs[j].id == x;
                assert(m.tabs[j].id == x);
            }
            if m.has_id(x) {
                let j = choose|j: int| 0 <= j < m.tabs.len() && m.tabs[j].id == x;
                assert(r.tabs[j].id == x);
            }
        }
        assert(tab_ids(r) =~= tab_ids(m));
    }
}

/// Setting a tab's title, URL or favicon keeps the invariant, the ids of
/// the open tabs and the active tab.
pub proof fn lemma_field_updates_keep(m: TabsModel, id: u64, text: Seq<char>)
    requires
        m.wf(),
    ensures
        m.retitled(id, text).wf(),
        tab_ids(m.retitled(id, text)) == tab_ids(m),
        m.retitled(id, text).active_id() == m.active_id(),
        m.relocated(id, text).wf(),
        tab_ids(m.relocated(id, text)) == tab_ids(m),
        m.relocated(id, text).active_id() == m.active_id(),
        m.with_favicon(id, text).wf(),
        tab_ids(m.with_favicon(id, text)) == tab_ids(m),
        m.with_favicon(id, text).active_id() == m.active_id(),
{
    let t = m.tabs[m.index_of(id)];
    if m.has_id(id) {
        assert(t.id == id);
    }
    let a = TabState { id: t.id, title: text, url: t.url, favicon: t.favicon, is_loading: t.is_loading };
    let b = TabState { id: t.id, title: t.title, url: text, favicon: t.favicon, is_loading: t.is_loading };
    let c = TabState { id: t.id, title: t.title, url: t.url, favicon: text, is_loading: t.is_loading };
    lemma_with_tab_wf(m, id, a);
    lemma_with_tab_keeps_ids(m, id, a);
    lemma_with_tab_wf(m, id, b);
    lemma_with_tab_keeps_ids(m, id, b);
    lemma_with_tab_wf(m, id, c);
    lemma_with_tab_keeps_ids(m, id, c);
}

/// A tab opened on `url` gets a webview of its own, shown in place of the one
/// that was active.
pub proof fn lemma_opened_shows(b: BrowserModel, s: Screen, url: Seq<char>)
    requires
        b.wf(),
        b.can_open(),
        shows(b, s),
    ensures
        shows(b.opened(url).0, after_actions(s, b.opened(url).1)),
{
    let id = b.tabs.next_id as u64;
    let (b1, acts) = b.opened(url);
    crate::tab::law_created_tab_is_fresh_and_active(b.tabs, url);
    let create = seq![acts[0]];
    let hide = hide_tab(b.tabs.active_id());
    let send = seq![acts[acts.len() - 1]];
    assert(acts =~= create + hide + send);
    lemma_after_concat(s, create + hide, send);
    lemma_after_concat(s, create, hide);
    lemma_after_single(s, acts[0]);
    let s1 = after_action(s, acts[0]);
    let s2 = after_actions(s1, hide);
    match b.tabs.active_id() {
        Some(o) => {
            lemma_after_single(s1, hide[0]);
            assert(o != id) by {
                assert(b.tabs.tabs[b.tabs.active as int].id < b.tabs.next_id);
            }
            assert(s2.visible =~= set![id]);
        },
        None => {
            assert(s2 == s1);
            assert(s2.visible =~= set![id]);
        },
    }
    lemma_after_inert(s2, send);
    assert forall|x: u64| b1.tabs.has_id(x) == (b.tabs.has_id(x) || x == id) by {
        if b1.tabs.has_id(x) {
            let j = choose|j: int| 0 <= j < b1.tabs.tabs.len() && b1.tabs.tabs[j].id == x;
            if j < b.tabs.tabs.len() {
                assert(b.tabs.tabs[j].id == x);
            }
        }
        if b.tabs.has_id(x) {
            let j = choose|j: int| 0 <= j < b.tabs.tabs.len() && b.tabs.tabs[j].id == x;
            assert(b1.tabs.tabs[j].id == x);
        }
        if x == id {
            assert(b1.tabs.tabs[b.tabs.tabs.len() as int].id == x);
        }
    }
    assert(tab_ids(b1.tabs) =~= s2.webviews);
}

/// Closing a tab that is not the active one keeps the active tab.
pub proof fn lemma_close_other_keeps_active(m: TabsModel, id: u64)
    requires
        m.wf(),
        m.has_id(id),
        m.active_id() != Some(id),
    ensures
        m.closed(id).active_id() == m.active_id(),
{
    let idx = m.index_of(id);
    assert(m.tabs[idx].id == id);
}

/// Closing a tab drops its webview and shows the tab that is then active.
pub proof fn lemma_closing_shows(b: BrowserModel, s: Screen, id: u64)
    requires
        b.wf(),
        shows(b, s),
    ensures
        shows(b.closing(id).0, after_actions(s, b.closing(id).1)),
{
    let (b1, acts) = b.closing(id);
    crate::tab::lemma_closed_wf(b.tabs, id);
    let first = seq![acts[0], acts[1]];
    let rest = acts.subrange(2, acts.len() as int);
    assert(acts =~= first + rest);
    lemma_after_concat(s, first, rest);
    assert(first =~= seq![acts[0]] + seq![acts[1]]);
    lemma_after_concat(s, seq![acts[0]], seq![acts[1]]);
    lemma_after_single(s, acts[0]);
    let s1 = after_action(s, acts[0]);
    lemma_after_single(s1, acts[1]);
    assert(after_actions(s, first) == s1);
    if b.tabs.has_id(id) {
        let idx = b.tabs.index_of(id);
        let rem = b.tabs.tabs.remove(idx);
        assert forall|x: u64| b1.tabs.has_id(x) == (b.tabs.has_id(x) && x != id) by {
            if b1.tabs.has_id(x) {
                let j = choose|j: int| 0 <= j < b1.tabs.tabs.len() && b1.tabs.tabs[j].id == x;
                if j < idx {
                    assert(b.tabs.tabs[j].id == x);
                } else {
                    assert(b.tabs.tabs[j + 1].id == x);
                }
            }
            if b.tabs.has_id(x) && x != id {
                let j = choose|j: int| 0 <= j < b.tabs.tabs.len() && b.tabs.tabs[j].id == x;
                if j < idx {
                    assert(b1.tabs.tabs[j].id == x);
                } else {
                    assert(j != idx);
                    assert(b1.tabs.tabs[j - 1].id == x);
                }
            }
        }
        assert(s1.webviews =~= tab_ids(b1.tabs));
        if b.tabs.active_id() == Some(id) {
            assert(s1.visible =~= Set::<u64>::empty());
        } else {
            lemma_close_other_keeps_active(b.tabs, id);
            assert(s1.visible =~= shown_ids(b.tabs));
        }
    } else {
        assert(!s.webviews.contains(id));
        assert(s1.webviews =~= s.webviews);
        assert(s1.visible =~= s.visible);
    }
    match b1.tabs.active_id() {
        Some(n) => {
            assert(b1.tabs.tabs[b1.tabs.active as int].id == n);
            assert(b1.tabs.has_id(n));
            assert(s1.webviews.contains(n));
            assert(rest =~= seq![rest[0]] + seq![rest[1]]);
            lemma_after_concat(s1, seq![rest[0]], seq![rest[1]]);
            lemma_after_single(s1, rest[0]);
            let s2 = after_action(s1, rest[0]);
            lemma_after_single(s2, rest[1]);
            assert(s2.visible =~= set![n]);
        },
        None => {
            assert(rest =~= Seq::<Action>::empty());
            if b.tabs.active_id() != Some(id) && b.tabs.has_id(id) {
                lemma_close_other_keeps_active(b.tabs, id);
            }
            assert(b1.tabs.tabs.len() == 0);
            assert(s1.visible =~= Set::<u64>::empty());
        },
    }
}

/// Switching to an open tab shows its webview alone.
pub proof fn lemma_switching_shows(b: BrowserModel, s: Screen, id: u64)
    requires
        b.wf(),
        shows(b, s),
        b.tabs.has_id(id),
    ensures
        shows(b.switching(id).0, after_actions(s, b.switching(id).1)),
{
    let (b1, acts) = b.switching(id);
    crate::tab::law_activate_selects(b.tabs, id);
    let old = b.tabs.active_id().unwrap();
    assert(b.tabs.tabs[b.tabs.active as int].id == old);
    let hide = hide_tab(b.tabs.active_id());
    let mid = seq![acts[1], acts[2]];
    let title = b1.title_actions();
    assert(acts =~= hide + mid + title);
    lemma_after_concat(s, hide + mid, title);
    lemma_after_concat(s, hide, mid);
    lemma_after_single(s, hide[0]);
    let s1 = after_action(s, hide[0]);
    assert(s1.visible =~= Set::<u64>::empty());
    assert(mid =~= seq![acts[1]] + seq![acts[2]]);
    lemma_after_concat(s1, seq![acts[1]], seq![acts[2]]);
    lemma_after_single(s1, acts[1]);
    let s2 = after_action(s1, acts[1]);
    lemma_after_single(s2, acts[2]);
    assert(s2.visible =~= set![id]);
    lemma_after_inert(s2, title);
    assert(tab_ids(b1.tabs) =~= tab_ids(b.tabs));
}

/// Drawing an internal page opens at most one tab and leaves the screen
/// showing the tabs.
pub proof fn lemma_showing_shows(b: BrowserModel, s: Screen, url: Seq<char>)
    requires
        b.wf(),
        b.can_open() || b.tabs.tabs.len() > 0,
        shows(b, s),
    ensures
        shows(b.showing(url).0, after_actions(s, b.showing(url).1)),
        b.showing(url).0.wf(),
{
    match crate::browser::page_at(url) {
        None => {
            assert(b.showing(url).1 =~= Seq::<Action>::empty());
        },
        Some(page) => {
            let first = if b.tabs.tabs.len() == 0 {
                b.opened(url)
            } else {
                (b, Seq::<Action>::empty())
            };
            if b.tabs.tabs.len() == 0 {
                lemma_opened_shows(b, s, url);
                crate::tab::lemma_created_wf(b.tabs, url);
            } else {
                assert(after_actions(s, first.1) == s);
            }
            let b1 = first.0;
            let s1 = after_actions(s, first.1);
            match b1.tabs.active_id() {
                None => {},
                Some(id) => {
                    let m1 = b1.tabs.retitled(id, crate::browser::page_title(page));
                    lemma_field_updates_keep(b1.tabs, id, crate::browser::page_title(page));
                    lemma_field_updates_keep(m1, id, url);
                    let b2 = b.showing(url).0;
                    let rest = b.showing(url).1.subrange(first.1.len() as int, b.showing(url).1.len() as int);
                    assert(b.showing(url).1 =~= first.1 + rest);
                    lemma_after_concat(s, first.1, rest);
                    assert forall|i: int| 0 <= i < rest.len() implies !touches_screen(#[trigger] rest[i]) by {
                        if i >= 2 {
                            assert(rest[i] == b2.title_actions()[i - 2]);
                        }
                    }
                    lemma_after_inert(s1, rest);
                },
            }
        },
    }
}

/// Moving a tab keeps the ids of the open tabs.
pub proof fn lemma_reordered_keeps_ids(m: TabsModel, from: int, to: int)
    requires
        m.wf(),
    ensures
        tab_ids(m.reordered(from, to)) == tab_ids(m),
        m.reordered(from, to).active_id() == m.active_id(),
        m.reordered(from, to).wf(),
{
    if 0 <= from < m.tabs.len() && 0 <= to < m.tabs.len() {
        crate::tab::law_reorder_permutes(m, from, to);
        crate::tab::lemma_reordered(m, from, to);
        let r = m.reordered(from, to);
        assert forall|x: u64| r.has_id(x) == m.has_id(x) by {
            if m.has_id(x) {
                let j = choose|j: int| 0 <= j < m.tabs.len() && m.tabs[j].id == x;
                assert(r.tabs[crate::tab::moved_index(j, from, to)].id == x);
            }
            if r.has_id(x) {
                let k = choose|k: int| 0 <= k < r.tabs.len() && r.tabs[k].id == x;
                let j = crate::tab::unmoved_index(k, from, to);
                assert(crate::tab::moved_index(j, from, to) == k);
                assert(m.tabs[j].id == x);
            }
        }
        assert(tab_ids(r) =~= tab_ids(m));
    }
}

/// A close request keeps the screen in step: ending the program touches no
/// webview.
pub proof fn lemma_close_requested_shows(b: BrowserModel, s: Screen, id: u64)
    requires
        b.wf(),
        shows(b, s),
    ensures
        shows(b.close_requested(id).0, after_actions(s, b.close_requested(id).1)),
{
    let c = b.closing(id);
    lemma_closing_shows(b, s, id);
    let tail = if b.tabs.tabs.len() > 0 && c.0.tabs.tabs.len() == 0 {
        seq![Action::Quit]
    } else {
        Seq::<Action>::empty()
    };
    lemma_after_concat(s, c.1, tail);
    lemma_after_inert(after_actions(s, c.1), tail);
}

/// A new tab keeps the screen in step: focusing the address bar touches no
/// webview.
pub proof fn lemma_new_tab_shows(b: BrowserModel, s: Screen)
    requires
        b.wf(),
        b.can_open(),
        shows(b, s),
    ensures
        shows(b.new_tab().0, after_actions(s, b.new_tab().1)),
{
    let o = b.opened(b.default_url);
    lemma_opened_shows(b, s, b.default_url);
    let tail = seq![Action::FocusAddressBar];
    lemma_after_concat(s, o.1, tail);
    lemma_after_inert(after_actions(s, o.1), tail);
}

/// Placing the webviews anew does not change which exist or which are shown.
pub proof fn lemma_layout_inert(b: BrowserModel, s: Screen)
    ensures
        after_actions(s, b.layout_actions()) == s,
{
    let acts = b.layout_actions();
    let n = b.tabs.tabs.len();
    assert forall|i: int| 0 <= i < acts.len() implies !touches_screen(#[trigger] acts[i]) by {
        if i < n {
            assert(acts[i] == (Action::SetBounds { tab: b.tabs.tabs[i].id, bounds: b.content_bounds() }));
        }
    }
    lemma_after_inert(s, acts);
}

/// Whatever message the chrome sends, the window goes on showing one
/// webview per open tab with only the active one visible; the one exception
/// is a request to switch to a tab that does not exist, which hides the
/// active tab.
pub proof fn law_screen_follows_messages(b: BrowserModel, s: Screen, msg: ChromeToApp)
    requires
        b.wf(),
        message_opens_tab(msg) ==> b.can_open(),
        shows(b, s),
        msg matches ChromeToApp::SwitchTab { id } ==> b.tabs.has_id(id),
    ensures
        shows(b.handled(msg).0, after_actions(s, b.handled(msg).1)),
{
    match msg {
        ChromeToApp::Navigate { url } => {
            let u = crate::url::normalized(url@);
            crate::browser::law_navigation_is_never_internal(b, url@);
            match b.tabs.active_id() {
                None => {
                    lemma_after_inert(s, b.handled(msg).1);
                },
                Some(id) => {
                    lemma_field_updates_keep(b.tabs, id, u);
                    lemma_after_inert(s, b.handled(msg).1);
                },
            }
        },
        ChromeToApp::NewTab => {
            lemma_new_tab_shows(b, s);
        },
        ChromeToApp::CloseTab { id } => {
            lemma_close_requested_shows(b, s, id);
        },
        ChromeToApp::SwitchTab { id } => {
            lemma_switching_shows(b, s, id);
        },
        ChromeToApp::ReorderTab { from, to } => {
            lemma_reordered_keeps_ids(b.tabs, from as int, to as int);
            lemma_after_inert(s, b.handled(msg).1);
        },
        ChromeToApp::OpenSettings => {
            let first = b.opened("light://settings"@);
            lemma_opened_shows(b, s, "light://settings"@);
            crate::tab::lemma_created_wf(b.tabs, "light://settings"@);
            lemma_showing_shows(first.0, after_actions(s, first.1), "light://settings"@);
            lemma_after_concat(s, first.1, first.0.showing("light://settings"@).1);
        },
        ChromeToApp::PageInfo { tab_id, title, url, favicon } => {
            let current = match b.tab_with_id(tab_id) {
                Some(t) => t.url,
                None => Seq::empty(),
            };
            if !crate::browser::is_internal(current) {
                lemma_field_updates_keep(b.tabs, tab_id, title@);
                let m1 = b.tabs.retitled(tab_id, title@);
                lemma_field_updates_keep(m1, tab_id, url@);
                let m2 = m1.relocated(tab_id, url@);
                lemma_field_updates_keep(m2, tab_id, favicon@);
                let b2 = b.handled(msg).0;
                let acts = b.handled(msg).1;
                assert forall|i: int| 0 <= i < acts.len() implies !touches_screen(#[trigger] acts[i]) by {
                    if i >= 1 {
                        assert(acts[i] == b2.title_actions()[i - 1]);
                    }
                }
            }
            lemma_after_inert(s, b.handled(msg).1);
        },
        ChromeToApp::ToggleSidebar => {
            let b1 = b.handled(msg).0;
            let acts = b.handled(msg).1;
            let head = seq![acts[0]];
            assert(acts =~= head + b1.layout_actions());
            lemma_after_concat(s, head, b1.layout_actions());
            lemma_after_single(s, acts[0]);
            lemma_layout_inert(b1, s);
        },
        ChromeToApp::OpenUrl { url } => {
            lemma_opened_shows(b, s, url@);
        },
        _ => {
            lemma_after_inert(s, b.handled(msg).1);
        },
    }
}

/// Whatever shortcut is pressed, the window goes on showing one webview per
/// open tab with only the active one visible.
pub proof fn law_screen_follows_shortcuts(b: BrowserModel, s: Screen, shortcut: Shortcut)
    requires
        b.wf(),
        shortcut == Shortcut::NewTab ==> b.can_open(),
        shows(b, s),
    ensures
        shows(b.shortcut(shortcut).0, after_actions(s, b.shortcut(shortcut).1)),
{
    match shortcut {
        Shortcut::NewTab => {
            lemma_new_tab_shows(b, s);
        },
        Shortcut::CloseTab => {
            match b.tabs.active_id() {
                None => {
                    lemma_after_inert(s, b.shortcut(shortcut).1);
                },
                Some(id) => {
                    lemma_close_requested_shows(b, s, id);
                },
            }
        },
        _ => {
            lemma_after_inert(s, b.shortcut(shortcut).1);
        },
    }
}

/// Resizing the window changes no webview's existence or visibility.
pub proof fn law_screen_follows_resize(b: BrowserModel, s: Screen, width: u32, height: u32)
    requires
        shows(b, s),
    ensures
        shows(b.resized(width, height).0, after_actions(s, b.resized(width, height).1)),
{
    lemma_layout_inert(b.resized(width, height).0, s);
}

/// Starting with no webviews, the browser shows exactly its first tab.
pub proof fn law_start_shows_first_tab(b: BrowserModel)
    requires
        b.wf(),
        b.can_open(),
        b.tabs.tabs.len() == 0,
    ensures
        shows(
            b.started().0,
            after_actions(Screen { webviews: Set::empty(), visible: Set::empty() }, b.started().1),
        ),
{
    let s = Screen { webviews: Set::empty(), visible: Set::empty() };
    assert(s.webviews =~= tab_ids(b.tabs));
    assert(s.visible =~= shown_ids(b.tabs));
    let first = b.opened(b.default_url);
    lemma_opened_shows(b, s, b.default_url);
    let tail = seq![b.started().1.last()];
    assert(b.started().1 =~= first.1 + tail);
    lemma_after_concat(s, first.1, tail);
    lemma_after_inert(after_actions(s, first.1), tail);
}

} // verus!
