//! Registry hosts of image references and registry credentials.

use vstd::prelude::*;
use vstd::string::StringExecFns;

use crate::oci::reference::Reference;
use crate::text::{
    lemma_ascii_trimmed_text,
    after_last, all_ascii_whitespace, ascii_lowercase, ascii_trimmed, ascii_uppercase, lacks_ascii_upper,
    lemma_ascii_uppercase_then_lowercase, lemma_lacks_ascii_upper_subrange, lemma_lowercase_prefixed,
    lemma_trim_end_char_prefix, lemma_trimmed_ends, lemma_trimmed_prefixed, has_suffix, before_first, contains_char,
    has_prefix, is_ascii_text, is_ascii_whitespace, lacks_char, lemma_ascii_lowercase_idempotent,
    lemma_ascii_trimmed_is_ascii, lemma_lowercase_trim_commute,
    lemma_trim_ignores_surrounding_whitespace, lowercased_text, prefix_before_first,
    std_to_lowercase, std_trim, str_equal, strip_prefix, suffix_after_last, trim_end_char,
    trim_end_matches_char, trimmed_text,
};

verus! {

//--------------------------------------------------------------------------------------------------
// Registry hosts
//--------------------------------------------------------------------------------------------------

/// `s` without a leading `https://` or `http://`.
pub open spec fn without_scheme(s: Seq<char>) -> Seq<char> {
    if has_prefix(s, "https://"@) {
        s.subrange("https://"@.len() as int, s.len() as int)
    } else if has_prefix(s, "http://"@) {
        s.subrange("http://"@.len() as int, s.len() as int)
    } else {
        s
    }
}

/// A registry host that is already trimmed and lowercased, without scheme and
/// without trailing slashes.
pub open spec fn normal_host_keep_index(lowered: Seq<char>) -> Seq<char> {
    trim_end_char(without_scheme(lowered), '/')
}

/// The normal form of a registry host that is already trimmed and lowercased:
/// no scheme, no trailing slashes, and `index.docker.io` written as `docker.io`.
pub open spec fn normal_host(lowered: Seq<char>) -> Seq<char> {
    let t = normal_host_keep_index(lowered);
    if t == "index.docker.io"@ {
        "docker.io"@
    } else {
        t
    }
}

/// The normal form of a registry host as written by a user.
pub open spec fn normalized_registry_host(host: Seq<char>) -> Seq<char> {
    normal_host(lowercased_text(trimmed_text(host)))
}

/// Normalize a registry host for consistent lookups.
///
/// This ensures we store and resolve credentials under the same key.
pub fn normalize_registry_host(host: &str) -> (r: String)
    ensures
        r@ == normalized_registry_host(host@),
        is_ascii_text(host@) ==> r@ == normal_host(ascii_lowercase(ascii_trimmed(host@))),
{
    proof {
        if is_ascii_text(host@) {
            lemma_ascii_trimmed_is_ascii(host@);
        }
    }
    proof {
        if is_ascii_text(host@) {
            lemma_ascii_trimmed_text(host@);
        }
    }
    let lowered = std_to_lowercase(std_trim(host));
    let s = lowered.as_str();
    let stripped: &str = match strip_prefix(s, "https://") {
        Some(rest) => rest,
        None => match strip_prefix(s, "http://") {
            Some(rest) => rest,
            None => s,
        },
    };
    let t = trim_end_matches_char(stripped, '/');
    if str_equal(t, "index.docker.io") {
        String::from_str("docker.io")
    } else {
        String::from_str(t)
    }
}

/// An ASCII registry host is the same key however it is spelled: in any case
/// of its letters, and with any whitespace around it.
pub proof fn lemma_registry_host_spelling(pre: Seq<char>, host: Seq<char>, post: Seq<char>)
    requires
        is_ascii_text(host),
        all_ascii_whitespace(pre),
        all_ascii_whitespace(post),
    ensures
        is_ascii_text(ascii_lowercase(host)),
        is_ascii_text(pre + host + post),
        normal_host(ascii_lowercase(ascii_trimmed(ascii_lowercase(host)))) == normal_host(
            ascii_lowercase(ascii_trimmed(host)),
        ),
        normal_host(ascii_lowercase(ascii_trimmed(pre + host + post))) == normal_host(
            ascii_lowercase(ascii_trimmed(host)),
        ),
{
    lemma_ascii_lowercase_idempotent(host);
    lemma_lowercase_trim_commute(host);
    lemma_ascii_lowercase_idempotent(ascii_trimmed(host));
    lemma_trim_ignores_surrounding_whitespace(pre, host, post);
    let all = pre + host + post;
    assert forall|i: int| 0 <= i < all.len() implies (#[trigger] all[i] as u32) < 128 by {
        if i < pre.len() {
            assert(all[i] == pre[i] && is_ascii_whitespace(pre[i]));
        } else if i < pre.len() + host.len() {
            assert(all[i] == host[i - pre.len()]);
        } else {
            assert(all[i] == post[i - pre.len() - host.len()]);
            assert(is_ascii_whitespace(post[i - pre.len() - host.len()]));
        }
    }
}

/// The key of a host that already is in normal form as far as letters go: no
/// uppercase letter and no trailing `/`.
pub open spec fn is_host_key_form(k: Seq<char>) -> bool {
    lacks_ascii_upper(k) && !has_suffix(k, "/"@)
}

proof fn lemma_host_key_form(lowered: Seq<char>)
    requires
        lacks_ascii_upper(lowered),
    ensures
        is_host_key_form(normal_host_keep_index(lowered)),
        is_host_key_form(normal_host(lowered)),
{
    reveal_strlit("https://");
    reveal_strlit("http://");
    reveal_strlit("/");
    reveal_strlit("docker.io");
    let w = without_scheme(lowered);
    if has_prefix(lowered, "https://"@) {
        lemma_lacks_ascii_upper_subrange(lowered, 8, lowered.len() as int);
    } else if has_prefix(lowered, "http://"@) {
        lemma_lacks_ascii_upper_subrange(lowered, 7, lowered.len() as int);
    }
    lemma_trim_end_char_prefix(w, '/');
    let t = trim_end_char(w, '/');
    lemma_lacks_ascii_upper_subrange(w, 0, t.len() as int);
    if t.len() > 0 {
        assert(t.subrange(t.len() - 1, t.len() as int)[0] == t.last());
    }
    let d = "docker.io"@;
    assert(d.len() == 9);
    assert(d.subrange(8, 9)[0] == d[8]);
    assert forall|i: int| 0 <= i < d.len() implies !('A' <= #[trigger] d[i] && d[i] <= 'Z') by {
        assert(d =~= seq!['d', 'o', 'c', 'k', 'e', 'r', '.', 'i', 'o']);
    }
}

/// The key of an ASCII registry host does not depend on the case in which the
/// host is written, has no uppercase letter, and does not end with `/`; this
/// holds with `index.docker.io` written as `docker.io` and kept as it is alike.
pub proof fn lemma_registry_host_case(h: Seq<char>)
    requires
        is_ascii_text(h),
    ensures
        is_ascii_text(ascii_uppercase(h)),
        normal_host(ascii_lowercase(ascii_trimmed(ascii_uppercase(h)))) == normal_host(
            ascii_lowercase(ascii_trimmed(h)),
        ),
        normal_host_keep_index(ascii_lowercase(ascii_trimmed(ascii_uppercase(h))))
            == normal_host_keep_index(ascii_lowercase(ascii_trimmed(h))),
        is_host_key_form(normal_host(ascii_lowercase(ascii_trimmed(h)))),
        is_host_key_form(normal_host_keep_index(ascii_lowercase(ascii_trimmed(h)))),
{
    lemma_ascii_uppercase_then_lowercase(h);
    lemma_lowercase_trim_commute(ascii_uppercase(h));
    lemma_lowercase_trim_commute(h);
    lemma_ascii_uppercase_then_lowercase(ascii_trimmed(h));
    lemma_host_key_form(ascii_lowercase(ascii_trimmed(h)));
}

/// An ASCII registry host written with `https://` or `http://` before it is the
/// same key as the host written alone, where the host has no surrounding
/// whitespace and no scheme of its own.
pub proof fn lemma_registry_host_scheme(h: Seq<char>)
    requires
        is_ascii_text(h),
        ascii_trimmed(h) == h,
        !has_prefix(ascii_lowercase(h), "https://"@),
        !has_prefix(ascii_lowercase(h), "http://"@),
    ensures
        is_ascii_text("https://"@ + h),
        is_ascii_text("http://"@ + h),
        normal_host(ascii_lowercase(ascii_trimmed("https://"@ + h))) == normal_host(
            ascii_lowercase(ascii_trimmed(h)),
        ),
        normal_host(ascii_lowercase(ascii_trimmed("http://"@ + h))) == normal_host(
            ascii_lowercase(ascii_trimmed(h)),
        ),
        normal_host_keep_index(ascii_lowercase(ascii_trimmed("https://"@ + h)))
            == normal_host_keep_index(ascii_lowercase(ascii_trimmed(h))),
        normal_host_keep_index(ascii_lowercase(ascii_trimmed("http://"@ + h)))
            == normal_host_keep_index(ascii_lowercase(ascii_trimmed(h))),
{
    reveal_strlit("https://");
    reveal_strlit("http://");
    let s1 = "https://"@;
    let s2 = "http://"@;
    assert(s1 =~= seq!['h', 't', 't', 'p', 's', ':', '/', '/']);
    assert(s2 =~= seq!['h', 't', 't', 'p', ':', '/', '/']);
    if h.len() > 0 {
        lemma_trimmed_ends(h);
    }
    lemma_trimmed_prefixed(s1, h);
    lemma_trimmed_prefixed(s2, h);
    assert(ascii_lowercase(s1) =~= s1);
    assert(ascii_lowercase(s2) =~= s2);
    lemma_lowercase_prefixed(s1, h);
    lemma_lowercase_prefixed(s2, h);
    let l = ascii_lowercase(h);
    assert forall|i: int| 0 <= i < (s1 + h).len() implies (#[trigger] (s1 + h)[i] as u32) < 128 by {
        if i >= 8 {
            assert((s1 + h)[i] == h[i - 8]);
        }
    }
    assert forall|i: int| 0 <= i < (s2 + h).len() implies (#[trigger] (s2 + h)[i] as u32) < 128 by {
        if i >= 7 {
            assert((s2 + h)[i] == h[i - 7]);
        }
    }
    assert((s1 + l).subrange(0, 8) =~= s1);
    assert((s1 + l).subrange(8, (s1 + l).len() as int) =~= l);
    if has_prefix(s2 + l, s1) {
        assert((s2 + l).subrange(0, 8)[4] == s1[4]);
        assert((s2 + l)[4] == s2[4]);
    }
    assert((s2 + l).subrange(0, 7) =~= s2);
    assert((s2 + l).subrange(7, (s2 + l).len() as int) =~= l);
    assert(without_scheme(s1 + l) == l);
    assert(without_scheme(s2 + l) == l);
    assert(without_scheme(l) == l);
}

/// The first path segment of a reference names a registry host when it holds a
/// dot or a colon, or is `localhost`.
pub open spec fn names_host(first: Seq<char>) -> bool {
    !lacks_char(first, '.') || !lacks_char(first, ':') || first == "localhost"@
}

/// The registry host that a reference text designates, given the default
/// registry for references without one.
pub open spec fn host_of_reference_text(text: Seq<char>, default_registry: Seq<char>) -> Seq<char> {
    let first = before_first(text, '/');
    if names_host(first) {
        first
    } else {
        default_registry
    }
}

/// The registry of a reference is its first path segment where that segment
/// names a host, by a port (`host:port`), a domain (a dot) or `localhost`,
/// whatever the default registry; otherwise it is the default registry.
pub proof fn lemma_reference_host(text: Seq<char>, default_registry: Seq<char>, other_default: Seq<char>)
    ensures
        contains_colon(before_first(text, '/')) ==> host_of_reference_text(text, default_registry) == before_first(
            text,
            '/',
        ),
        !lacks_char(before_first(text, '/'), '.') ==> host_of_reference_text(text, default_registry)
            == before_first(text, '/'),
        before_first(text, '/') == "localhost"@ ==> host_of_reference_text(text, default_registry)
            == before_first(text, '/'),
        lacks_char(before_first(text, '/'), '.') && !contains_colon(before_first(text, '/'))
            && before_first(text, '/') != "localhost"@ ==> host_of_reference_text(text, default_registry)
            == default_registry,
        contains_colon(before_first(text, '/')) ==> host_of_reference_text(text, default_registry)
            == host_of_reference_text(text, other_default),
{
}

/// Some character of the text is a colon.
pub open spec fn contains_colon(s: Seq<char>) -> bool {
    exists|i: int| 0 <= i < s.len() && s[i] == ':'
}

/// Resolve the registry host for an image reference.
///
/// `default_registry` is the registry that applies when the reference names none
/// (the configured OCI registry).
pub fn registry_host_for_reference(reference: &Reference, default_registry: &str) -> (r: String)
    ensures
        r@ == normalized_registry_host(host_of_reference_text(reference.text(), default_registry@)),
{
    let raw = reference.to_string();
    let first = prefix_before_first(raw.as_str(), '/');
    let host: &str = if contains_char(first, '.') || contains_char(first, ':') || str_equal(
        first,
        "localhost",
    ) {
        first
    } else {
        default_registry
    };
    normalize_registry_host(host)
}

/// Extracts a simple name from an OCI image reference: the last path segment
/// without its tag, e.g. `docker.io/library/ubuntu:latest` gives `ubuntu`.
pub fn extract_name_from_reference(reference: &Reference) -> (r: String)
    ensures
        r@ == before_first(after_last(reference.text(), '/'), ':'),
{
    let image = reference.to_string();
    let name_with_tag = suffix_after_last(image.as_str(), '/');
    String::from_str(prefix_before_first(name_with_tag, ':'))
}

} // verus!
