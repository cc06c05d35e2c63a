//! The user's bookmarks: a list of named URLs in which no URL occurs twice.

use vstd::prelude::*;
use crate::text::{same_text, to_owned_string};

verus! {

/// A saved page.
#[derive(Debug, Clone, PartialEq)]
pub struct Bookmark {
    pub name: String,
    pub url: String,
}

/// A bookmark as a mathematical value.
pub struct BookmarkEntry {
    pub name: Seq<char>,
    pub url: Seq<char>,
}

impl View for Bookmark {
    type V = BookmarkEntry;

    open spec fn view(&self) -> BookmarkEntry {
        BookmarkEntry { name: self.name@, url: self.url@ }
    }
}

/// A list of bookmarks as values.
pub open spec fn entries(bookmarks: Seq<Bookmark>) -> Seq<BookmarkEntry> {
    bookmarks.map_values(|b: Bookmark| b@)
}

/// Whether some bookmark is for `url`.
pub open spec fn has_url(s: Seq<BookmarkEntry>, url: Seq<char>) -> bool {
    exists|i: int| 0 <= i < s.len() && s[i].url == url
}

/// No URL is bookmarked twice.
pub open spec fn unique_urls(s: Seq<BookmarkEntry>) -> bool {
    forall|i: int, j: int| 0 <= i < s.len() && 0 <= j < s.len() && i != j ==> s[i].url != s[j].url
}

/// The bookmarks with `name` for `url` appended, unless `url` is already
/// bookmarked.
pub open spec fn added(s: Seq<BookmarkEntry>, name: Seq<char>, url: Seq<char>) -> Seq<BookmarkEntry> {
    if has_url(s, url) {
        s
    } else {
        s.push(BookmarkEntry { name, url })
    }
}

/// Whether a bookmark is for some other URL than `url`.
pub open spec fn keeps(url: Seq<char>) -> spec_fn(BookmarkEntry) -> bool {
    |b: BookmarkEntry| b.url != url
}

/// The bookmarks without those for `url`, the others in their order.
pub open spec fn removed(s: Seq<BookmarkEntry>, url: Seq<char>) -> Seq<BookmarkEntry> {
    s.filter(keeps(url))
}

/// Removing `url` from bookmarks that do not hold it changes nothing.
pub proof fn lemma_removed_absent(s: Seq<BookmarkEntry>, url: Seq<char>)
    requires
        !has_url(s, url),
    ensures
        removed(s, url) == s,
    decreases s.len(),
{
    reveal(Seq::filter);
    if s.len() > 0 {
        assert(!has_url(s.drop_last(), url)) by {
            if has_url(s.drop_last(), url) {
                let k = choose|k: int| 0 <= k < s.drop_last().len() && s.drop_last()[k].url == url;
                assert(s[k].url == url);
            }
        }
        lemma_removed_absent(s.drop_last(), url);
        assert(s[s.len() - 1].url != url);
        assert(s.drop_last().push(s.last()) =~= s);
    }
}

/// What is left after removing `url` are bookmarks of `s`, none for `url`,
/// and every bookmark of `s` for another URL.
pub proof fn lemma_removed_contents(s: Seq<BookmarkEntry>, url: Seq<char>)
    ensures
        !has_url(removed(s, url), url),
        forall|e: BookmarkEntry| #[trigger]
            removed(s, url).contains(e) <==> s.contains(e) && e.url != url,
{
    broadcast use vstd::seq_lib::group_filter_ensures;

    let r = removed(s, url);
    if has_url(r, url) {
        let k = choose|k: int| 0 <= k < r.len() && r[k].url == url;
        s.lemma_filter_pred(keeps(url), k);
    }
    assert forall|e: BookmarkEntry| #[trigger] r.contains(e) implies s.contains(e) && e.url != url by {
        s.lemma_filter_contains_rev(keeps(url), e);
        let k = choose|k: int| 0 <= k < r.len() && r[k] == e;
        s.lemma_filter_pred(keeps(url), k);
    }
    assert forall|e: BookmarkEntry| s.contains(e) && e.url != url implies #[trigger] r.contains(e) by {
        let k = choose|k: int| 0 <= k < s.len() && s[k] == e;
        s.lemma_filter_contains(keeps(url), k);
    }
}

/// Adding never puts a URL in twice.
pub proof fn law_add_keeps_urls_unique(s: Seq<BookmarkEntry>, name: Seq<char>, url: Seq<char>)
    requires
        unique_urls(s),
    ensures
        unique_urls(added(s, name, url)),
{
}

/// After adding, the URL is bookmarked; a URL that was bookmarked already
/// leaves the bookmarks as they were, the first name kept.
pub proof fn law_add_bookmarks_url(s: Seq<BookmarkEntry>, name: Seq<char>, url: Seq<char>)
    ensures
        has_url(added(s, name, url), url),
        has_url(s, url) ==> added(s, name, url) == s,
        !has_url(s, url) ==> added(s, name, url).last() == (BookmarkEntry { name, url }),
{
    if !has_url(s, url) {
        assert(added(s, name, url)[s.len() as int].url == url);
    }
}

/// After removing, no bookmark is for the URL, and the bookmarks for other
/// URLs are all still there.
pub proof fn law_remove_unbookmarks(s: Seq<BookmarkEntry>, url: Seq<char>, other: Seq<char>)
    requires
        other != url,
    ensures
        !has_url(removed(s, url), url),
        has_url(removed(s, url), other) == has_url(s, other),
{
    lemma_removed_contents(s, url);
    let r = removed(s, url);
    if has_url(s, other) {
        let k = choose|k: int| 0 <= k < s.len() && s[k].url == other;
        assert(s.contains(s[k]));
        assert(r.contains(s[k]));
    }
    if has_url(r, other) {
        let k = choose|k: int| 0 <= k < r.len() && r[k].url == other;
        assert(r.contains(r[k]));
    }
}

/// Removing a URL that was just added gives back the bookmarks as they were.
pub proof fn law_remove_undoes_add(s: Seq<BookmarkEntry>, name: Seq<char>, url: Seq<char>)
    requires
        !has_url(s, url),
    ensures
        removed(added(s, name, url), url) == s,
{
    reveal(Seq::filter);
    let a = added(s, name, url);
    assert(a.drop_last() =~= s);
    lemma_removed_absent(s, url);
}

/// Removing never puts a URL in twice.
pub proof fn law_remove_keeps_urls_unique(s: Seq<BookmarkEntry>, url: Seq<char>)
    requires
        unique_urls(s),
    ensures
        unique_urls(removed(s, url)),
    decreases s.len(),
{
    reveal(Seq::filter);
    if s.len() > 0 {
        let d = s.drop_last();
        law_remove_keeps_urls_unique(d, url);
        lemma_removed_contents(d, url);
        let r = removed(s, url);
        let rd = removed(d, url);
        if s.last().url != url {
            assert(r == rd.push(s.last()));
            assert forall|i: int, j: int|
                0 <= i < r.len() && 0 <= j < r.len() && i != j implies r[i].url != r[j].url by {
                if i == rd.len() && j < rd.len() {
                    assert(rd.contains(rd[j]));
                    let k = choose|k: int| 0 <= k < d.len() && d[k] == rd[j];
                    assert(s[k] == d[k]);
                } else if j == rd.len() && i < rd.len() {
                    assert(rd.contains(rd[i]));
                    let k = choose|k: int| 0 <= k < d.len() && d[k] == rd[i];
                    assert(s[k] == d[k]);
                }
            }
        }
    }
}

/// Removing twice removes no more than removing once.
pub proof fn law_remove_idempotent(s: Seq<BookmarkEntry>, url: Seq<char>)
    ensures
        removed(removed(s, url), url) == removed(s, url),
{
    lemma_removed_contents(s, url);
    lemma_removed_absent(removed(s, url), url);
}

/// Bookmarks `url` under `name`, unless it is bookmarked already.
pub fn add(bookmarks: &mut Vec<Bookmark>, name: &str, url: &str)
    ensures
        entries(final(bookmarks)@) == added(entries(old(bookmarks)@), name@, url@),
{
    let n = bookmarks.len();
    let mut i: usize = 0;
    while i < n
        invariant
            n == bookmarks@.len(),
            i <= n,
            bookmarks@ == old(bookmarks)@,
            forall|k: int| 0 <= k < i ==> bookmarks@[k].url@ != url@,
        decreases n - i,
    {
        if same_text(bookmarks[i].url.as_str(), url) {
            assert(entries(bookmarks@)[i as int].url == url@);
            return;
        }
        i = i + 1;
    }
    let ghost before = bookmarks@;
    bookmarks.push(Bookmark { name: to_owned_string(name), url: to_owned_string(url) });
    assert(entries(bookmarks@) =~= entries(before).push(BookmarkEntry { name: name@, url: url@ }));
}

/// Removes every bookmark for `url`.
pub fn remove(bookmarks: &mut Vec<Bookmark>, url: &str)
    ensures
        entries(final(bookmarks)@) == removed(entries(old(bookmarks)@), url@),
{
    let ghost s = entries(bookmarks@);
    let mut i: usize = bookmarks.len();
    assert(s.skip(i as int).filter(keeps(url@)) =~= Seq::<BookmarkEntry>::empty()) by {
        reveal(Seq::filter);
    }
    assert(s.take(i as int) =~= s);
    while i > 0
        invariant
            i <= s.len(),
            i <= bookmarks@.len(),
            s == entries(old(bookmarks)@),
            entries(bookmarks@) =~= s.take(i as int) + s.skip(i as int).filter(keeps(url@)),
        decreases i,
    {
        let j = i - 1;
        assert(s.skip(j as int) =~= seq![s[j as int]] + s.skip(i as int));
        proof {
            s.skip(i as int).lemma_filter_prepend(s[j as int], keeps(url@));
        }
        assert(entries(bookmarks@)[j as int] == s[j as int]);
        if same_text(bookmarks[j].url.as_str(), url) {
            let ghost before = bookmarks@;
            bookmarks.remove(j);
            assert(entries(bookmarks@) =~= entries(before).remove(j as int));
            assert(s.take(i as int) =~= s.take(j as int).push(s[j as int]));
        } else {
            assert(s.take(i as int) =~= s.take(j as int) + seq![s[j as int]]);
        }
        i = j;
    }
    assert(s.skip(0) =~= s);
}

} // verus!
