//! The tabs of the browser window: their order, which one is active, and the
//! ids that name them.

use vstd::prelude::*;

verus! {

/// Names a tab for as long as the tab lives; an id is never handed out twice.
#[derive(Debug, Clone, Copy, PartialEq, Eq, Hash, Structural)]
pub struct TabId(pub u64);

/// One tab: what it shows and whether its page is loading.
#[derive(Debug, Clone)]
pub struct Tab {
    pub id: TabId,
    pub title: String,
    pub url: String,
    pub favicon: String,
    pub is_loading: bool,
}

/// A tab as a mathematical value.
pub struct TabState {
    pub id: u64,
    pub title: Seq<char>,
    pub url: Seq<char>,
    pub favicon: Seq<char>,
    pub is_loading: bool,
}

impl View for Tab {
    type V = TabState;

    open spec fn view(&self) -> TabState {
        TabState {
            id: self.id.0,
            title: self.title@,
            url: self.url@,
            favicon: self.favicon@,
            is_loading: self.is_loading,
        }
    }
}

/// The value that an optional tab id carries.
pub open spec fn id_value(o: Option<TabId>) -> Option<u64> {
    match o {
        Some(t) => Some(t.0),
        None => None,
    }
}

/// The tabs of a window, in order, seen as values.
pub open spec fn tab_states(tabs: Seq<Tab>) -> Seq<TabState> {
    tabs.map_values(|t: Tab| t@)
}

/// Whether some tab in `tabs` has the id `id`.
pub open spec fn contains_id(tabs: Seq<TabState>, id: u64) -> bool {
    exists|i: int| 0 <= i < tabs.len() && tabs[i].id == id
}

/// The position of the tab with id `id` (meaningful when there is one).
pub open spec fn index_of_id(tabs: Seq<TabState>, id: u64) -> int {
    choose|i: int| 0 <= i < tabs.len() && tabs[i].id == id
}

/// No two tabs share an id.
pub open spec fn unique_ids(tabs: Seq<TabState>) -> bool {
    forall|i: int, j: int|
        0 <= i < tabs.len() && 0 <= j < tabs.len() && i != j ==> tabs[i].id != tabs[j].id
}

/// Where the tab at position `p` stands after the tab at `from` has been
/// moved to `to`.
pub open spec fn moved_index(p: int, from: int, to: int) -> int {
    if p == from {
        to
    } else {
        let q = if p > from {
            p - 1
        } else {
            p
        };
        if q >= to {
            q + 1
        } else {
            q
        }
    }
}

/// The position from which a move of `from` to `to` brings a tab to `p`.
pub open spec fn unmoved_index(p: int, from: int, to: int) -> int {
    if p == to {
        from
    } else {
        let q = if p > to {
            p - 1
        } else {
            p
        };
        if q >= from {
            q + 1
        } else {
            q
        }
    }
}

/// A newly opened tab.
pub open spec fn new_tab(id: u64, url: Seq<char>) -> TabState {
    TabState { id, title: "New Tab"@, url, favicon: Seq::empty(), is_loading: false }
}

/// The tabs of a window as values: their order, the position of the active
/// tab, and the id the next new tab gets.
pub struct TabsModel {
    pub tabs: Seq<TabState>,
    pub active: nat,
    pub next_id: nat,
}

impl TabsModel {
    /// Ids are unique and all below `next_id`; the active position is a
    /// tab's, or 0 when there are no tabs.
    pub open spec fn wf(self) -> bool {
        &&& unique_ids(self.tabs)
        &&& forall|i: int| 0 <= i < self.tabs.len() ==> self.tabs[i].id < self.next_id
        &&& self.next_id <= u64::MAX
        &&& if self.tabs.len() == 0 {
            self.active == 0
        } else {
            self.active < self.tabs.len()
        }
    }

    pub open spec fn has_id(self, id: u64) -> bool {
        contains_id(self.tabs, id)
    }

    pub open spec fn index_of(self, id: u64) -> int {
        index_of_id(self.tabs, id)
    }

    /// The id of the active tab, if there is a tab.
    pub open spec fn active_id(self) -> Option<u64> {
        if self.active < self.tabs.len() {
            Some(self.tabs[self.active as int].id)
        } else {
            None
        }
    }

    /// A new tab on `url` appended and made active.
    pub open spec fn created(self, url: Seq<char>) -> TabsModel {
        TabsModel {
            tabs: self.tabs.push(new_tab(self.next_id as u64, url)),
            active: self.tabs.len(),
            next_id: self.next_id + 1,
        }
    }

    /// The tab `id` removed; the active position follows its tab, or falls on
    /// the tab that took the removed one's place, or on the last tab.
    pub open spec fn closed(self, id: u64) -> TabsModel {
        if !self.has_id(id) {
            self
        } else {
            let idx = self.index_of(id);
            let rest = self.tabs.remove(idx);
            TabsModel {
                tabs: rest,
                active: if rest.len() == 0 {
                    self.active
                } else if self.active >= rest.len() {
                    (rest.len() - 1) as nat
                } else if self.active > idx {
                    (self.active - 1) as nat
                } else {
                    self.active
                },
                next_id: self.next_id,
            }
        }
    }

    /// The tab `id` made active, if there is one.
    pub open spec fn activated(self, id: u64) -> TabsModel {
        if self.has_id(id) {
            TabsModel { tabs: self.tabs, active: self.index_of(id) as nat, next_id: self.next_id }
        } else {
            self
        }
    }

    /// The tab at `from` moved to `to`, the active tab staying active; nothing
    /// changes when either position is out of range.
    pub open spec fn reordered(self, from: int, to: int) -> TabsModel {
        if from < 0 || to < 0 || from >= self.tabs.len() || to >= self.tabs.len() {
            self
        } else {
            TabsModel {
                tabs: self.tabs.remove(from).insert(to, self.tabs[from]),
                active: moved_index(self.active as int, from, to) as nat,
                next_id: self.next_id,
            }
        }
    }

    /// The tab `id`, if there is one, replaced by `t`.
    pub open spec fn with_tab(self, id: u64, t: TabState) -> TabsModel {
        if self.has_id(id) {
            TabsModel {
                tabs: self.tabs.update(self.index_of(id), t),
                active: self.active,
                next_id: self.next_id,
            }
        } else {
            self
        }
    }

    /// The tab `id` with its title set to `title`.
    pub open spec fn retitled(self, id: u64, title: Seq<char>) -> TabsModel {
        let t = self.tabs[self.index_of(id)];
        self.with_tab(
            id,
            TabState { id: t.id, title, url: t.url, favicon: t.favicon, is_loading: t.is_loading },
        )
    }

    /// The tab `id` with its URL set to `url`.
    pub open spec fn relocated(self, id: u64, url: Seq<char>) -> TabsModel {
        let t = self.tabs[self.index_of(id)];
        self.with_tab(
            id,
            TabState { id: t.id, title: t.title, url, favicon: t.favicon, is_loading: t.is_loading },
        )
    }

    /// The tab `id` with its favicon set to `favicon`.
    pub open spec fn with_favicon(self, id: u64, favicon: Seq<char>) -> TabsModel {
        let t = self.tabs[self.index_of(id)];
        self.with_tab(
            id,
            TabState { id: t.id, title: t.title, url: t.url, favicon, is_loading: t.is_loading },
        )
    }

    /// The tab `id` with its loading state set to `loading`.
    pub open spec fn with_loading(self, id: u64, loading: bool) -> TabsModel {
        let t = self.tabs[self.index_of(id)];
        self.with_tab(
            id,
            TabState { id: t.id, title: t.title, url: t.url, favicon: t.favicon, is_loading: loading },
        )
    }
}

/// In a sequence of unique ids, the tab at `k` is the one found for its id.
pub proof fn lemma_index_of_id(tabs: Seq<TabState>, k: int)
    requires
        unique_ids(tabs),
        0 <= k < tabs.len(),
    ensures
        contains_id(tabs, tabs[k].id),
        index_of_id(tabs, tabs[k].id) == k,
{
    assert(tabs[k].id == tabs[k].id);
}

/// Opening a tab keeps the invariant.
pub proof fn lemma_created_wf(m: TabsModel, url: Seq<char>)
    requires
        m.wf(),
        m.next_id < u64::MAX,
    ensures
        m.created(url).wf(),
{
}

/// Closing a tab keeps the invariant.
pub proof fn lemma_closed_wf(m: TabsModel, id: u64)
    requires
        m.wf(),
    ensures
        m.closed(id).wf(),
{
    if m.has_id(id) {
        let idx = m.index_of(id);
        let rest = m.tabs.remove(idx);
        assert forall|i: int| 0 <= i < rest.len() implies rest[i] == if i < idx {
            m.tabs[i]
        } else {
            m.tabs[i + 1]
        } by {}
    }
}

/// Changing one tab's fields, its id kept, keeps the invariant.
pub proof fn lemma_with_tab_wf(m: TabsModel, id: u64, t: TabState)
    requires
        m.wf(),
        m.has_id(id) ==> t.id == id,
    ensures
        m.with_tab(id, t).wf(),
{
    if m.has_id(id) {
        let k = m.index_of(id);
        let r = m.with_tab(id, t);
        assert forall|i: int, j: int|
            0 <= i < r.tabs.len() && 0 <= j < r.tabs.len() && i != j implies r.tabs[i].id
            != r.tabs[j].id by {
            if i == k {
                assert(m.tabs[k].id == id);
            }
            if j == k {
                assert(m.tabs[k].id == id);
            }
        }
    }
}

/// Moving a tab keeps every tab, each at its new position, and the invariant.
pub proof fn lemma_reordered(m: TabsModel, from: int, to: int)
    requires
        m.wf(),
        0 <= from < m.tabs.len(),
        0 <= to < m.tabs.len(),
    ensures
        m.reordered(from, to).wf(),
        m.reordered(from, to).tabs.len() == m.tabs.len(),
        forall|i: int|
            0 <= i < m.tabs.len() ==> 0 <= #[trigger] moved_index(i, from, to) < m.tabs.len()
                && m.reordered(from, to).tabs[moved_index(i, from, to)] == m.tabs[i],
        forall|i: int, j: int|
            0 <= i < m.tabs.len() && 0 <= j < m.tabs.len() && i != j ==> moved_index(i, from, to)
                != moved_index(j, from, to),
{
    let r = m.reordered(from, to);
    let n = m.tabs.len();
    assert forall|i: int| 0 <= i < n implies 0 <= #[trigger] moved_index(i, from, to) < n
        && r.tabs[moved_index(i, from, to)] == m.tabs[i] by {}
    assert forall|a: int, b: int| 0 <= a < n && 0 <= b < n && a != b implies r.tabs[a].id
        != r.tabs[b].id by {
        let ja = unmoved_index(a, from, to);
        let jb = unmoved_index(b, from, to);
        assert(moved_index(ja, from, to) == a);
        assert(moved_index(jb, from, to) == b);
        assert(r.tabs[a] == m.tabs[ja]);
        assert(r.tabs[b] == m.tabs[jb]);
    }
    assert forall|i: int| 0 <= i < n implies r.tabs[i].id < r.next_id by {
        let j = unmoved_index(i, from, to);
        assert(moved_index(j, from, to) == i);
        assert(r.tabs[i] == m.tabs[j]);
    }
}

/// A new tab gets an id that no open tab has, and it becomes the active tab;
/// ids only grow, so an id is never handed out again.
pub proof fn law_created_tab_is_fresh_and_active(m: TabsModel, url: Seq<char>)
    requires
        m.wf(),
        m.next_id < u64::MAX,
    ensures
        !m.has_id(m.next_id as u64),
        m.created(url).has_id(m.next_id as u64),
        m.created(url).active_id() == Some(m.next_id as u64),
        m.created(url).next_id > m.next_id,
        m.created(url).tabs.len() == m.tabs.len() + 1,
{
    let c = m.created(url);
    assert(c.tabs[m.tabs.len() as int].id == m.next_id as u64);
}

/// Two tabs opened one after the other get different ids.
pub proof fn law_created_ids_differ(m: TabsModel, url1: Seq<char>, url2: Seq<char>)
    requires
        m.wf(),
        m.next_id + 1 < u64::MAX,
    ensures
        m.created(url1).active_id() != m.created(url1).created(url2).active_id(),
{
    let c1 = m.created(url1);
    let c2 = c1.created(url2);
    assert(c1.tabs[m.tabs.len() as int].id == m.next_id as u64);
    assert(c2.tabs[c1.tabs.len() as int].id == c1.next_id as u64);
}

/// Closing the tab that was just opened gives back the tabs as they were.
pub proof fn law_close_undoes_create(m: TabsModel, url: Seq<char>)
    requires
        m.wf(),
        m.next_id < u64::MAX,
    ensures
        m.created(url).closed(m.next_id as u64).tabs == m.tabs,
        m.created(url).closed(m.next_id as u64).next_id == m.next_id + 1,
{
    let c = m.created(url);
    lemma_created_wf(m, url);
    lemma_index_of_id(c.tabs, m.tabs.len() as int);
    assert(c.tabs.remove(m.tabs.len() as int) =~= m.tabs);
}

/// Closing a tab removes exactly that tab, keeps the order of the others, and
/// leaves a tab active unless none is left.
pub proof fn law_close_removes_only_that_tab(m: TabsModel, id: u64)
    requires
        m.wf(),
        m.has_id(id),
    ensures
        !m.closed(id).has_id(id),
        m.closed(id).tabs == m.tabs.remove(m.index_of(id)),
        m.closed(id).active_id() is None <==> m.tabs.len() == 1,
        m.closed(id).active_id() matches Some(a) ==> m.closed(id).has_id(a) && a != id,
{
    lemma_closed_wf(m, id);
    let idx = m.index_of(id);
    let c = m.closed(id);
    if c.has_id(id) {
        let k = choose|k: int| 0 <= k < c.tabs.len() && c.tabs[k].id == id;
        if k < idx {
            assert(c.tabs[k] == m.tabs[k]);
        } else {
            assert(c.tabs[k] == m.tabs[k + 1]);
        }
    }
    if c.active_id() is Some {
        let a = c.tabs[c.active as int];
        assert(contains_id(c.tabs, a.id));
    }
}

/// Closing an id that no tab has changes nothing.
pub proof fn law_close_unknown_is_noop(m: TabsModel, id: u64)
    requires
        !m.has_id(id),
    ensures
        m.closed(id) == m,
{
}

/// Activating an open tab makes it the active one and changes nothing else.
pub proof fn law_activate_selects(m: TabsModel, id: u64)
    requires
        m.wf(),
        m.has_id(id),
    ensures
        m.activated(id).active_id() == Some(id),
        m.activated(id).tabs == m.tabs,
        m.activated(id).next_id == m.next_id,
{
}

/// Moving a tab rearranges the tabs without losing or adding any, and the
/// active tab stays active.
pub proof fn law_reorder_permutes(m: TabsModel, from: int, to: int)
    requires
        m.wf(),
        0 <= from < m.tabs.len(),
        0 <= to < m.tabs.len(),
    ensures
        m.reordered(from, to).tabs.len() == m.tabs.len(),
        m.reordered(from, to).tabs[to] == m.tabs[from],
        forall|i: int|
            0 <= i < m.tabs.len() ==> m.reordered(from, to).tabs[#[trigger] moved_index(
                i,
                from,
                to,
            )] == m.tabs[i],
        m.reordered(from, to).tabs.to_multiset() == m.tabs.to_multiset(),
        m.reordered(from, to).active_id() == m.active_id(),
{
    lemma_reordered(m, from, to);
    assert(moved_index(from, from, to) == to);
    assert(moved_index(m.active as int, from, to) == moved_index(m.active as int, from, to));
    let x = m.tabs[from];
    let rest = m.tabs.remove(from);
    let r = m.reordered(from, to).tabs;
    assert(r.remove(to) =~= rest);
    assert(r[to] == x);
    broadcast use vstd::seq_lib::group_to_multiset_ensures, vstd::multiset::group_multiset_axioms;
    assert(r.to_multiset().remove(x) == rest.to_multiset());
    assert(m.tabs.to_multiset().remove(x) == rest.to_multiset());
    assert(r.contains(x));
    assert(m.tabs.contains(x));
    assert(r.to_multiset() =~= m.tabs.to_multiset());
}

/// Changing a tab's title touches that tab's title alone.
pub proof fn law_retitle_touches_one(m: TabsModel, id: u64, title: Seq<char>)
    requires
        m.wf(),
        m.has_id(id),
    ensures
        m.retitled(id, title).tabs.len() == m.tabs.len(),
        m.retitled(id, title).tabs[m.index_of(id)].title == title,
        m.retitled(id, title).tabs[m.index_of(id)].id == id,
        m.retitled(id, title).tabs[m.index_of(id)].url == m.tabs[m.index_of(id)].url,
        forall|i: int|
            0 <= i < m.tabs.len() && i != m.index_of(id) ==> m.retitled(id, title).tabs[i]
                == m.tabs[i],
        m.retitled(id, title).active == m.active,
        m.retitled(id, title).next_id == m.next_id,
{
}

/// Closing a tab decides which tab is active next: when another tab was
/// active it stays active; when the closed tab was active, the tab that
/// followed it takes over, or, when it was the last in the list, the one
/// before it.
pub proof fn law_close_picks_next_active(m: TabsModel, id: u64)
    requires
        m.wf(),
        m.has_id(id),
        m.tabs.len() > 1,
    ensures
        m.active_id() != Some(id) ==> m.closed(id).active_id() == m.active_id(),
        m.active_id() == Some(id) && m.index_of(id) + 1 < m.tabs.len() ==> m.closed(id).active_id()
            == Some(m.tabs[m.index_of(id) + 1].id),
        m.active_id() == Some(id) && m.index_of(id) + 1 == m.tabs.len() ==> m.closed(id).active_id()
            == Some(m.tabs[m.index_of(id) - 1].id),
{
    let idx = m.index_of(id);
    let rest = m.tabs.remove(idx);
    assert(0 <= idx < m.tabs.len() && m.tabs[idx].id == id);
    assert(rest.len() == m.tabs.len() - 1);
    assert forall|i: int| 0 <= i < rest.len() implies #[trigger] rest[i] == if i < idx {
        m.tabs[i]
    } else {
        m.tabs[i + 1]
    } by {}
    let a = m.active as int;
    if a != idx {
        assert(m.tabs[a].id != id);
    }
}

/// A call that changes the tabs, as a value: one for each method of
/// `TabManager` that takes `&mut self`.
pub enum TabCall {
    Create { url: Seq<char> },
    Close { id: u64 },
    Activate { id: u64 },
    Reorder { from: int, to: int },
    Retitle { id: u64, title: Seq<char> },
    Relocate { id: u64, url: Seq<char> },
    SetFavicon { id: u64, favicon: Seq<char> },
    SetLoading { id: u64, loading: bool },
}

impl TabsModel {
    /// The tabs after the call `c`.
    pub open spec fn after_call(self, c: TabCall) -> TabsModel {
        match c {
            TabCall::Create { url } => self.created(url),
            TabCall::Close { id } => self.closed(id),
            TabCall::Activate { id } => self.activated(id),
            TabCall::Reorder { from, to } => self.reordered(from, to),
            TabCall::Retitle { id, title } => self.retitled(id, title),
            TabCall::Relocate { id, url } => self.relocated(id, url),
            TabCall::SetFavicon { id, favicon } => self.with_favicon(id, favicon),
            TabCall::SetLoading { id, loading } => self.with_loading(id, loading),
        }
    }
}

/// The tabs after the calls `cs`, made in order on `m`.
pub open spec fn after_calls(m: TabsModel, cs: Seq<TabCall>) -> TabsModel
    decreases cs.len(),
{
    if cs.len() == 0 {
        m
    } else {
        after_calls(m, cs.drop_last()).after_call(cs.last())
    }
}

/// The ids that the calls `cs`, made in order on `m`, hand out: one for each
/// tab they create.
pub open spec fn issued_ids(m: TabsModel, cs: Seq<TabCall>) -> Seq<u64>
    decreases cs.len(),
{
    if cs.len() == 0 {
        Seq::empty()
    } else {
        let before = issued_ids(m, cs.drop_last());
        match cs.last() {
            TabCall::Create { .. } => before.push(after_calls(m, cs.drop_last()).next_id as u64),
            _ => before,
        }
    }
}

/// Every call keeps the tabs well formed, the creation of a tab only while
/// an id is left to give.
pub proof fn lemma_after_call_wf(m: TabsModel, c: TabCall)
    requires
        m.wf(),
        c is Create ==> m.next_id < u64::MAX,
    ensures
        m.after_call(c).wf(),
        m.after_call(c).next_id == if c is Create {
            m.next_id + 1
        } else {
            m.next_id
        },
{
    match c {
        TabCall::Create { url } => lemma_created_wf(m, url),
        TabCall::Close { id } => lemma_closed_wf(m, id),
        TabCall::Activate { id } => {
            if m.has_id(id) {
                assert(0 <= m.index_of(id) < m.tabs.len());
            }
        },
        TabCall::Reorder { from, to } => {
            if 0 <= from < m.tabs.len() && 0 <= to < m.tabs.len() {
                lemma_reordered(m, from, to);
            }
        },
        TabCall::Retitle { id, title } => {
            let t = m.tabs[m.index_of(id)];
            lemma_with_tab_wf(
                m,
                id,
                TabState { id: t.id, title, url: t.url, favicon: t.favicon, is_loading: t.is_loading },
            );
        },
        TabCall::Relocate { id, url } => {
            let t = m.tabs[m.index_of(id)];
            lemma_with_tab_wf(
                m,
                id,
                TabState { id: t.id, title: t.title, url, favicon: t.favicon, is_loading: t.is_loading },
            );
        },
        TabCall::SetFavicon { id, favicon } => {
            let t = m.tabs[m.index_of(id)];
            lemma_with_tab_wf(
                m,
                id,
                TabState { id: t.id, title: t.title, url: t.url, favicon, is_loading: t.is_loading },
            );
        },
        TabCall::SetLoading { id, loading } => {
            let t = m.tabs[m.index_of(id)];
            lemma_with_tab_wf(
                m,
                id,
                TabState { id: t.id, title: t.title, url: t.url, favicon: t.favicon, is_loading: loading },
            );
        },
    }
}

/// An id is never handed out twice: over any calls on a well-formed set of
/// tabs, while ids are left to give, the ids handed out rise strictly, and
/// each lies at or above the starting `next_id`, so it differs from every id
/// the tabs held before, closed tabs included, and from every id handed out
/// before it. The next id to give lies above all of them.
pub proof fn law_ids_never_reused(m: TabsModel, cs: Seq<TabCall>)
    requires
        m.wf(),
        m.next_id + issued_ids(m, cs).len() <= u64::MAX,
    ensures
        after_calls(m, cs).wf(),
        after_calls(m, cs).next_id == m.next_id + issued_ids(m, cs).len(),
        forall|i: int, j: int|
            0 <= i < j < issued_ids(m, cs).len() ==> issued_ids(m, cs)[i] < issued_ids(m, cs)[j],
        forall|i: int|
            0 <= i < issued_ids(m, cs).len() ==> m.next_id <= #[trigger] issued_ids(m, cs)[i]
                < after_calls(m, cs).next_id,
        forall|i: int, k: int|
            0 <= i < issued_ids(m, cs).len() && 0 <= k < m.tabs.len() ==> #[trigger] issued_ids(
                m,
                cs,
            )[i] != #[trigger] m.tabs[k].id,
    decreases cs.len(),
{
    if cs.len() > 0 {
        let rest = cs.drop_last();
        let prev = after_calls(m, rest);
        assert(issued_ids(m, rest).len() <= issued_ids(m, cs).len());
        law_ids_never_reused(m, rest);
        lemma_after_call_wf(prev, cs.last());
    }
}

/// The open tabs of a window, in order, with one of them active.
pub struct TabManager {
    tabs: Vec<Tab>,
    active: usize,
    next_id: u64,
}

impl View for TabManager {
    type V = TabsModel;

    closed spec fn view(&self) -> TabsModel {
        TabsModel {
            tabs: tab_states(self.tabs@),
            active: self.active as nat,
            next_id: self.next_id as nat,
        }
    }
}

impl TabManager {
    /// A window without tabs.
    pub fn new() -> (r: Self)
        ensures
            r@ == (TabsModel { tabs: Seq::empty(), active: 0, next_id: 0 }),
            r@.wf(),
    {
        let r = TabManager { tabs: Vec::new(), active: 0, next_id: 0 };
        assert(r@.tabs =~= Seq::<TabState>::empty());
        r
    }

    /// Opens a tab on `url` after the others and makes it active; returns its id.
    pub fn create_tab(&mut self, url: &str) -> (id: TabId)
        requires
            old(self)@.wf(),
            old(self)@.next_id < u64::MAX,
        ensures
            id.0 == old(self)@.next_id,
            final(self)@ == old(self)@.created(url@),
            final(self)@.wf(),
    {
        let id = TabId(self.next_id);
        self.next_id = self.next_id + 1;
        let ghost before = self.tabs@;
        self.tabs.push(
            Tab {
                id,
                title: String::from_str("New Tab"),
                url: String::from_str(url),
                favicon: String::new(),
                is_loading: false,
            },
        );
        self.active = self.tabs.len() - 1;
        proof {
            assert(tab_states(self.tabs@) =~= tab_states(before).push(new_tab(id.0, url@)));
            lemma_created_wf(old(self)@, url@);
        }
        id
    }

    /// The position of the tab `id`, if there is one.
    fn find_index(&self, id: TabId) -> (r: Option<usize>)
        requires
            unique_ids(self@.tabs),
        ensures
            match r {
                Some(i) => self@.has_id(id.0) && i == self@.index_of(id.0) && i < self@.tabs.len(),
                None => !self@.has_id(id.0),
            },
    {
        let n = self.tabs.len();
        let mut i: usize = 0;
        while i < n
            invariant
                n == self.tabs@.len(),
                n == self@.tabs.len(),
                unique_ids(self@.tabs),
                i <= n,
                forall|k: int| 0 <= k < i ==> self@.tabs[k].id != id.0,
            decreases n - i,
        {
            if self.tabs[i].id.0 == id.0 {
                proof {
                    lemma_index_of_id(self@.tabs, i as int);
                }
                return Some(i);
            }
            i = i + 1;
        }
        None
    }

    /// Closes the tab `id` and returns the id of the tab that is then active,
    /// or `None` when no tab is left; an unknown id changes nothing.
    pub fn close_tab(&mut self, id: TabId) -> (r: Option<TabId>)
        requires
            old(self)@.wf(),
        ensures
            final(self)@ == old(self)@.closed(id.0),
            final(self)@.wf(),
            id_value(r) == final(self)@.active_id(),
    {
        proof {
            lemma_closed_wf(self@, id.0);
        }
        let idx = match self.find_index(id) {
            Some(i) => i,
            None => {
                return self.active_id();
            },
        };
        let ghost before = self.tabs@;
        self.tabs.remove(idx);
        proof {
            assert(tab_states(self.tabs@) =~= tab_states(before).remove(idx as int));
        }
        if self.tabs.len() == 0 {
            return None;
        }
        if self.active >= self.tabs.len() {
            self.active = self.tabs.len() - 1;
        } else if self.active > idx {
            self.active = self.active - 1;
        }
        self.active_id()
    }

    /// The active tab, if there is one.
    pub fn active_tab(&self) -> (r: Option<&Tab>)
        ensures
            match r {
                Some(t) => self@.active < self@.tabs.len() && t@ == self@.tabs[self@.active as int],
                None => self@.active >= self@.tabs.len(),
            },
    {
        if self.active < self.tabs.len() {
            Some(&self.tabs[self.active])
        } else {
            None
        }
    }

    /// Makes the tab `id` active; an unknown id changes nothing.
    pub fn set_active(&mut self, id: TabId)
        requires
            old(self)@.wf(),
        ensures
            final(self)@ == old(self)@.activated(id.0),
            final(self)@.wf(),
    {
        if let Some(idx) = self.find_index(id) {
            self.active = idx;
        }
    }

    /// Moves the tab at position `from` to position `to`, keeping the active
    /// tab active; out-of-range positions change nothing.
    pub fn reorder(&mut self, from: usize, to: usize)
        requires
            old(self)@.wf(),
        ensures
            final(self)@ == old(self)@.reordered(from as int, to as int),
            final(self)@.wf(),
    {
        if from >= self.tabs.len() || to >= self.tabs.len() {
            return;
        }
        let ghost m = self@;
        proof {
            lemma_reordered(m, from as int, to as int);
        }
        let active_id = self.active_id();
        let ghost before = self.tabs@;
        let tab = self.tabs.remove(from);
        let ghost middle = self.tabs@;
        self.tabs.insert(to, tab);
        proof {
            assert(tab_states(middle) =~= tab_states(before).remove(from as int));
            assert(tab_states(self.tabs@) =~= m.tabs.remove(from as int).insert(
                to as int,
                m.tabs[from as int],
            ));
        }
        if let Some(id) = active_id {
            if let Some(idx) = self.find_index(id) {
                proof {
                    let p = moved_index(m.active as int, from as int, to as int);
                    lemma_index_of_id(self@.tabs, p);
                }
                self.active = idx;
            }
        }
    }

    /// Sets the title of the tab `id`; an unknown id changes nothing.
    pub fn update_title(&mut self, id: TabId, title: String)
        requires
            old(self)@.wf(),
        ensures
            final(self)@ == old(self)@.retitled(id.0, title@),
            final(self)@.wf(),
    {
        if let Some(idx) = self.find_index(id) {
            let ghost before = self.tabs@;
            let mut t = self.tabs.remove(idx);
            t.title = title;
            self.tabs.insert(idx, t);
            proof {
                assert(tab_states(self.tabs@) =~= tab_states(before).update(idx as int, t@));
                lemma_with_tab_wf(old(self)@, id.0, t@);
            }
        }
    }

    /// Sets the URL of the tab `id`; an unknown id changes nothing.
    pub fn update_url(&mut self, id: TabId, url: String)
        requires
            old(self)@.wf(),
        ensures
            final(self)@ == old(self)@.relocated(id.0, url@),
            final(self)@.wf(),
    {
        if let Some(idx) = self.find_index(id) {
            let ghost before = self.tabs@;
            let mut t = self.tabs.remove(idx);
            t.url = url;
            self.tabs.insert(idx, t);
            proof {
                assert(tab_states(self.tabs@) =~= tab_states(before).update(idx as int, t@));
                lemma_with_tab_wf(old(self)@, id.0, t@);
            }
        }
    }

    /// Sets the favicon of the tab `id`; an unknown id changes nothing.
    pub fn update_favicon(&mut self, id: TabId, favicon: String)
        requires
            old(self)@.wf(),
        ensures
            final(self)@ == old(self)@.with_favicon(id.0, favicon@),
            final(self)@.wf(),
    {
        if let Some(idx) = self.find_index(id) {
            let ghost before = self.tabs@;
            let mut t = self.tabs.remove(idx);
            t.favicon = favicon;
            self.tabs.insert(idx, t);
            proof {
                assert(tab_states(self.tabs@) =~= tab_states(before).update(idx as int, t@));
                lemma_with_tab_wf(old(self)@, id.0, t@);
            }
        }
    }

    /// Sets whether the page of the tab `id` is loading; an unknown id changes
    /// nothing.
    pub fn set_loading(&mut self, id: TabId, loading: bool)
        requires
            old(self)@.wf(),
        ensures
            final(self)@ == old(self)@.with_loading(id.0, loading),
            final(self)@.wf(),
    {
        if let Some(idx) = self.find_index(id) {
            let ghost before = self.tabs@;
            let mut t = self.tabs.remove(idx);
            t.is_loading = loading;
            self.tabs.insert(idx, t);
            proof {
                assert(tab_states(self.tabs@) =~= tab_states(before).update(idx as int, t@));
                lemma_with_tab_wf(old(self)@, id.0, t@);
            }
        }
    }

    /// The tabs in order.
    pub fn tabs(&self) -> (r: &[Tab])
        ensures
            tab_states(r@) == self@.tabs,
    {
        self.tabs.as_slice()
    }

    /// The id of the active tab, if there is one.
    pub fn active_id(&self) -> (r: Option<TabId>)
        ensures
            id_value(r) == self@.active_id(),
    {
        if self.active < self.tabs.len() {
            Some(self.tabs[self.active].id)
        } else {
            None
        }
    }

    /// Whether another tab can be opened: ids are not yet used up.
    pub fn can_open_tab(&self) -> (r: bool)
        ensures
            r == (self@.next_id < u64::MAX),
    {
        self.next_id < u64::MAX
    }

    /// Whether there are no tabs.
    pub fn is_empty(&self) -> (r: bool)
        ensures
            r == (self@.tabs.len() == 0),
    {
        self.tabs.len() == 0
    }
}

} // verus!
