//! Turning what the user typed into the address bar into a URL.

use vstd::prelude::*;
use crate::text::{lemma_trim_ends, lemma_trim_fixed, starts_with, trim, trim_whitespace};

verus! {

/// Whether `t` already names a scheme that is loaded as it stands.
pub open spec fn has_own_scheme(t: Seq<char>) -> bool {
    ||| "about:"@.is_prefix_of(t)
    ||| "http://"@.is_prefix_of(t)
    ||| "https://"@.is_prefix_of(t)
}

/// Whether `t` names the local machine, which is reached over plain HTTP.
pub open spec fn is_local_host(t: Seq<char>) -> bool {
    ||| "localhost"@.is_prefix_of(t)
    ||| "127.0.0.1"@.is_prefix_of(t)
}

/// The URL that address-bar input stands for: the input without surrounding
/// white space, with `http://` put before a local host and `https://` before
/// anything that does not start with `about:`, `http://` or `https://`.
pub open spec fn normalized(input: Seq<char>) -> Seq<char> {
    let t = trim(input);
    if has_own_scheme(t) {
        t
    } else if is_local_host(t) {
        "http://"@ + t
    } else {
        "https://"@ + t
    }
}

/// Each result carries a scheme of its own (or is an `about:` page).
pub proof fn lemma_normalized_has_scheme(input: Seq<char>)
    ensures
        has_own_scheme(normalized(input)),
{
    let t = trim(input);
    assert("http://"@.is_prefix_of("http://"@ + t)) by {
        assert(("http://"@ + t).subrange(0, "http://"@.len() as int) =~= "http://"@);
    }
    assert("https://"@.is_prefix_of("https://"@ + t)) by {
        assert(("https://"@ + t).subrange(0, "https://"@.len() as int) =~= "https://"@);
    }
}

/// No result starts or ends with white space.
pub proof fn lemma_normalized_is_trimmed(input: Seq<char>)
    ensures
        trim(normalized(input)) == normalized(input),
{
    let t = trim(input);
    lemma_trim_ends(input);
    reveal_strlit("http://");
    reveal_strlit("https://");
    let r = normalized(input);
    if !has_own_scheme(t) {
        let p = if is_local_host(t) { "http://"@ } else { "https://"@ };
        assert(r == p + t);
        assert(r[0] == 'h');
        if t.len() == 0 {
            assert(r =~= p);
            assert(r.last() == '/');
        } else {
            assert(r.last() == t.last());
        }
    }
    lemma_trim_fixed(r);
}

/// Normalising a normalised URL changes nothing.
pub proof fn lemma_normalize_idempotent(input: Seq<char>)
    ensures
        normalized(normalized(input)) == normalized(input),
{
    lemma_normalized_has_scheme(input);
    lemma_normalized_is_trimmed(input);
}

/// Input naming the local machine (it starts, once trimmed, with
/// `localhost` or `127.0.0.1`) is reached over plain HTTP: it becomes
/// `http://` followed by the trimmed input.
pub proof fn law_local_host_gets_http(input: Seq<char>)
    requires
        "localhost"@.is_prefix_of(trim(input)) || "127.0.0.1"@.is_prefix_of(trim(input)),
    ensures
        normalized(input) == "http://"@ + trim(input),
{
    let t = trim(input);
    reveal_strlit("localhost");
    reveal_strlit("127.0.0.1");
    reveal_strlit("about:");
    reveal_strlit("http://");
    reveal_strlit("https://");
    if "localhost"@.is_prefix_of(t) {
        assert(t.subrange(0, 9)[0] == t[0]);
    } else {
        assert(t.subrange(0, 9)[0] == t[0]);
    }
    assert(t[0] == 'l' || t[0] == '1');
    assert(!"about:"@.is_prefix_of(t)) by {
        if "about:"@.is_prefix_of(t) {
            assert(t.subrange(0, "about:"@.len() as int)[0] == t[0]);
        }
    }
    assert(!"http://"@.is_prefix_of(t)) by {
        if "http://"@.is_prefix_of(t) {
            assert(t.subrange(0, "http://"@.len() as int)[0] == t[0]);
        }
    }
    assert(!"https://"@.is_prefix_of(t)) by {
        if "https://"@.is_prefix_of(t) {
            assert(t.subrange(0, "https://"@.len() as int)[0] == t[0]);
        }
    }
}

/// Input that already starts, once trimmed, with `about:`, `http://` or
/// `https://` is kept as trimmed; any other input that does not name the
/// local machine gets `https://` put before it.
pub proof fn law_scheme_kept_or_https_added(input: Seq<char>)
    ensures
        ("about:"@.is_prefix_of(trim(input)) || "http://"@.is_prefix_of(trim(input))
            || "https://"@.is_prefix_of(trim(input))) ==> normalized(input) == trim(input),
        !("about:"@.is_prefix_of(trim(input)) || "http://"@.is_prefix_of(trim(input))
            || "https://"@.is_prefix_of(trim(input)) || "localhost"@.is_prefix_of(trim(input))
            || "127.0.0.1"@.is_prefix_of(trim(input))) ==> normalized(input) == "https://"@ + trim(
            input,
        ),
{
}

/// Normalises address-bar input into a URL.
pub fn normalize_url(input: &str) -> (r: String)
    ensures
        r@ == normalized(input@),
{
    let trimmed = trim_whitespace(input);
    let t = trimmed.as_str();
    if starts_with(t, "about:") {
        return trimmed;
    }
    if starts_with(t, "http://") || starts_with(t, "https://") {
        return trimmed;
    }
    if starts_with(t, "localhost") || starts_with(t, "127.0.0.1") {
        let mut r = String::from_str("http://");
        r.append(t);
        return r;
    }
    let mut r = String::from_str("https://");
    r.append(t);
    r
}

} // verus!
