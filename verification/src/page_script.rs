//! The script that every page webview runs: it reports the page's title, URL
//! and favicon to the browser and forwards the browser's keyboard shortcuts.

use vstd::prelude::*;

verus! {

/// The script up to the first place of the tab id.
pub const PAGE_SCRIPT_HEAD: &'static str = r#"
                (function() {
                    // Page title/URL/favicon tracking (debounced)
                    let lastTitle = '';
                    let lastUrl = '';
                    let lastFavicon = '';
                    let debounceTimer = null;
                    function getFavicon() {
                        var link = document.querySelector("link[rel~='icon']")
                            || document.querySelector("link[rel='shortcut icon']");
                        if (link) return link.href;
                        return location.origin + '/favicon.ico';
                    }
                    function sendUpdate() {
                        var fav = getFavicon();
                        if (document.title !== lastTitle || location.href !== lastUrl || fav !== lastFavicon) {
                            lastTitle = document.title;
                            lastUrl = location.href;
                            lastFavicon = fav;
                            window.ipc.postMessage(JSON.stringify({
                                type: 'PageInfo',
                                tab_id: "#;

/// The script between the two places of the tab id.
pub const PAGE_SCRIPT_MIDDLE: &'static str = r#",
                                title: document.title,
                                url: location.href,
                                favicon: fav
                            }));
                        }
                    }
                    function debouncedCheck() {
                        if (debounceTimer) clearTimeout(debounceTimer);
                        debounceTimer = setTimeout(sendUpdate, 300);
                    }
                    // Watch for title changes
                    var titleEl = document.querySelector('title');
                    if (titleEl) {
                        new MutationObserver(debouncedCheck).observe(titleEl, {childList: true, characterData: true, subtree: true});
                    }
                    // Watch for new <title> or <link rel=icon> being added
                    new MutationObserver(function(mutations) {
                        for (var m of mutations) {
                            for (var n of m.addedNodes) {
                                if (n.tagName === 'TITLE' || (n.tagName === 'LINK' && n.rel && n.rel.includes('icon'))) {
                                    debouncedCheck();
                                    if (n.tagName === 'TITLE') {
                                        new MutationObserver(debouncedCheck).observe(n, {childList: true, characterData: true, subtree: true});
                                    }
                                    return;
                                }
                            }
                        }
                    }).observe(document.head || document.documentElement, {childList: true});
                    // SPA navigation detection
                    window.addEventListener('popstate', debouncedCheck);
                    window.addEventListener('hashchange', debouncedCheck);
                    // Initial check
                    window.addEventListener('load', sendUpdate);
                    setTimeout(sendUpdate, 500);

                    // Keyboard shortcuts (Cmd/Ctrl + T/W/L/R)
                    document.addEventListener('keydown', function(e) {
                        if (e.metaKey || e.ctrlKey) {
                            var k = e.key.toLowerCase();
                            if (k === 't' || k === 'w' || k === 'l' || k === 'r') {
                                e.preventDefault();
                                var msg = {type: k === 't' ? 'NewTab' : k === 'w' ? 'CloseTab' : k === 'l' ? 'FocusAddressBar' : 'Reload'};
                                if (k === 'w') msg.id = "#;

/// The script after the second place of the tab id.
pub const PAGE_SCRIPT_TAIL: &'static str = r#";
                                window.ipc.postMessage(JSON.stringify(msg));
                            }
                        }
                    });
                })();
                "#;

/// The decimal digit for `d` (below ten).
pub open spec fn digit_char(d: nat) -> char {
    if d == 0 {
        '0'
    } else if d == 1 {
        '1'
    } else if d == 2 {
        '2'
    } else if d == 3 {
        '3'
    } else if d == 4 {
        '4'
    } else if d == 5 {
        '5'
    } else if d == 6 {
        '6'
    } else if d == 7 {
        '7'
    } else if d == 8 {
        '8'
    } else {
        '9'
    }
}

/// `n` written in decimal, without leading zeros.
pub open spec fn decimal(n: nat) -> Seq<char>
    decreases n,
{
    if n < 10 {
        seq![digit_char(n)]
    } else {
        decimal(n / 10) + seq![digit_char(n % 10)]
    }
}

/// The one-character text of the digit `d`.
fn digit_text(d: u64) -> (r: &'static str)
    requires
        d < 10,
    ensures
        r@ == seq![digit_char(d as nat)],
{
    proof {
        reveal_strlit("0");
        reveal_strlit("1");
        reveal_strlit("2");
        reveal_strlit("3");
        reveal_strlit("4");
        reveal_strlit("5");
        reveal_strlit("6");
        reveal_strlit("7");
        reveal_strlit("8");
        reveal_strlit("9");
    }
    let r = if d == 0 {
        "0"
    } else if d == 1 {
        "1"
    } else if d == 2 {
        "2"
    } else if d == 3 {
        "3"
    } else if d == 4 {
        "4"
    } else if d == 5 {
        "5"
    } else if d == 6 {
        "6"
    } else if d == 7 {
        "7"
    } else if d == 8 {
        "8"
    } else {
        "9"
    };
    assert(r@ =~= seq![digit_char(d as nat)]);
    r
}

/// `n` written in decimal, as `format!("{}", n)` writes it.
pub fn decimal_text(n: u64) -> (r: String)
    ensures
        r@ == decimal(n as nat),
    decreases n,
{
    if n < 10 {
        String::from_str(digit_text(n))
    } else {
        let mut r = decimal_text(n / 10);
        r.append(digit_text(n % 10));
        r
    }
}

/// The script for the webview of tab `tab_id`.
pub fn page_script(tab_id: u64) -> (r: String)
    ensures
        r@ == PAGE_SCRIPT_HEAD@ + decimal(tab_id as nat) + PAGE_SCRIPT_MIDDLE@ + decimal(
            tab_id as nat,
        ) + PAGE_SCRIPT_TAIL@,
{
    let id = decimal_text(tab_id);
    let mut r = String::from_str(PAGE_SCRIPT_HEAD);
    r.append(id.as_str());
    r.append(PAGE_SCRIPT_MIDDLE);
    r.append(id.as_str());
    r.append(PAGE_SCRIPT_TAIL);
    r
}

} // verus!
