//! Character-level string helpers with exact specifications.
//!
//! Every helper works on the character view (`Seq<char>`) of a string and
//! states its result in terms of the spec functions defined here.

use vstd::prelude::*;
use vstd::string::StringExecFns;

verus! {

/// The texts of some strings.
pub open spec fn texts(values: Seq<String>) -> Seq<Seq<char>> {
    values.map_values(|v: String| v@)
}

/// `p` is a prefix of `s`.
pub open spec fn has_prefix(s: Seq<char>, p: Seq<char>) -> bool {
    p.len() <= s.len() && s.subrange(0, p.len() as int) == p
}

/// `p` is a suffix of `s`.
pub open spec fn has_suffix(s: Seq<char>, p: Seq<char>) -> bool {
    p.len() <= s.len() && s.subrange(s.len() - p.len(), s.len() as int) == p
}

/// `i` is the index of the first occurrence of `c` in `s`.
pub open spec fn is_first_index(s: Seq<char>, c: char, i: int) -> bool {
    0 <= i < s.len() && s[i] == c && forall|j: int| 0 <= j < i ==> s[j] != c
}

/// `c` does not occur in `s`.
pub open spec fn lacks_char(s: Seq<char>, c: char) -> bool {
    forall|j: int| 0 <= j < s.len() ==> s[j] != c
}

/// The index of the last occurrence of `c` in `s`, if any.
pub open spec fn is_last_index(s: Seq<char>, c: char, i: int) -> bool {
    0 <= i < s.len() && s[i] == c && forall|j: int| i < j < s.len() ==> s[j] != c
}

/// `s` with every trailing `c` removed.
pub open spec fn trim_end_char(s: Seq<char>, c: char) -> Seq<char>
    decreases s.len(),
{
    if s.len() > 0 && s.last() == c {
        trim_end_char(s.drop_last(), c)
    } else {
        s
    }
}

/// A character with the Unicode `White_Space` property: tab to carriage return,
/// space, next line, no-break space, ogham space mark, en quad to hair space,
/// line and paragraph separators, narrow no-break space, medium mathematical
/// space and ideographic space.
pub open spec fn is_unicode_whitespace(c: char) -> bool {
    ||| ('\t' <= c && c <= '\r')
    ||| c == ' '
    ||| c == '\u{85}'
    ||| c == '\u{a0}'
    ||| c == '\u{1680}'
    ||| ('\u{2000}' <= c && c <= '\u{200a}')
    ||| c == '\u{2028}'
    ||| c == '\u{2029}'
    ||| c == '\u{202f}'
    ||| c == '\u{205f}'
    ||| c == '\u{3000}'
}

/// `s` without its leading Unicode whitespace.
pub open spec fn unicode_trim_start(s: Seq<char>) -> Seq<char>
    decreases s.len(),
{
    if s.len() > 0 && is_unicode_whitespace(s[0]) {
        unicode_trim_start(s.drop_first())
    } else {
        s
    }
}

/// `s` without its trailing Unicode whitespace.
pub open spec fn unicode_trim_end(s: Seq<char>) -> Seq<char>
    decreases s.len(),
{
    if s.len() > 0 && is_unicode_whitespace(s.last()) {
        unicode_trim_end(s.drop_last())
    } else {
        s
    }
}

/// The text that `str::trim` leaves of a string: without its leading and
/// trailing Unicode whitespace.
pub open spec fn trimmed_text(s: Seq<char>) -> Seq<char> {
    unicode_trim_end(unicode_trim_start(s))
}

/// Names the text that `str::to_lowercase` makes of a string (Unicode lowercase
/// mapping of every character).
pub uninterp spec fn lowercased_text(s: Seq<char>) -> Seq<char>;

/// Every character is ASCII.
pub open spec fn is_ascii_text(s: Seq<char>) -> bool {
    forall|i: int| 0 <= i < s.len() ==> (#[trigger] s[i] as u32) < 128
}

/// An ASCII character with the Unicode `White_Space` property: space, tab,
/// line feed, vertical tab, form feed or carriage return.
pub open spec fn is_ascii_whitespace(c: char) -> bool {
    c == ' ' || ('\t' <= c && c <= '\r')
}

/// `s` without its leading whitespace.
pub open spec fn ascii_trim_start(s: Seq<char>) -> Seq<char>
    decreases s.len(),
{
    if s.len() > 0 && is_ascii_whitespace(s[0]) {
        ascii_trim_start(s.drop_first())
    } else {
        s
    }
}

/// `s` without its trailing whitespace.
pub open spec fn ascii_trim_end(s: Seq<char>) -> Seq<char>
    decreases s.len(),
{
    if s.len() > 0 && is_ascii_whitespace(s.last()) {
        ascii_trim_end(s.drop_last())
    } else {
        s
    }
}

/// ASCII text without its leading and trailing whitespace.
pub open spec fn ascii_trimmed(s: Seq<char>) -> Seq<char> {
    ascii_trim_end(ascii_trim_start(s))
}

/// The lowercase form of an ASCII character: `A` to `Z` become `a` to `z`, the
/// others stay.
pub open spec fn ascii_lower(c: char) -> char {
    if 'A' <= c && c <= 'Z' {
        ((c as u32) + 32) as char
    } else {
        c
    }
}

/// The lowercase form of ASCII text.
pub open spec fn ascii_lowercase(s: Seq<char>) -> Seq<char> {
    s.map_values(|c: char| ascii_lower(c))
}

/// Dropping the first or the last character of ASCII text leaves ASCII text.
proof fn lemma_ascii_drop(s: Seq<char>)
    requires
        is_ascii_text(s),
        s.len() > 0,
    ensures
        is_ascii_text(s.drop_first()),
        is_ascii_text(s.drop_last()),
{
    assert forall|i: int| 0 <= i < s.len() - 1 implies (#[trigger] s.drop_first()[i] as u32) < 128 by {
        assert(s.drop_first()[i] == s[i + 1]);
    }
    assert forall|i: int| 0 <= i < s.len() - 1 implies (#[trigger] s.drop_last()[i] as u32) < 128 by {
        assert(s.drop_last()[i] == s[i]);
    }
}

proof fn lemma_ascii_trim_start_is_ascii(s: Seq<char>)
    requires
        is_ascii_text(s),
    ensures
        is_ascii_text(ascii_trim_start(s)),
    decreases s.len(),
{
    if s.len() > 0 && is_ascii_whitespace(s[0]) {
        lemma_ascii_drop(s);
        lemma_ascii_trim_start_is_ascii(s.drop_first());
    }
}

proof fn lemma_ascii_trim_end_is_ascii(s: Seq<char>)
    requires
        is_ascii_text(s),
    ensures
        is_ascii_text(ascii_trim_end(s)),
    decreases s.len(),
{
    if s.len() > 0 && is_ascii_whitespace(s.last()) {
        lemma_ascii_drop(s);
        lemma_ascii_trim_end_is_ascii(s.drop_last());
    }
}

/// Trimming ASCII text leaves ASCII text.
pub proof fn lemma_ascii_trimmed_is_ascii(s: Seq<char>)
    requires
        is_ascii_text(s),
    ensures
        is_ascii_text(ascii_trimmed(s)),
{
    lemma_ascii_trim_start_is_ascii(s);
    lemma_ascii_trim_end_is_ascii(ascii_trim_start(s));
}

proof fn lemma_ascii_lower_char(c: char)
    ensures
        is_ascii_whitespace(ascii_lower(c)) == is_ascii_whitespace(c),
        ascii_lower(ascii_lower(c)) == ascii_lower(c),
        (c as u32) < 128 ==> (ascii_lower(c) as u32) < 128,
{
}

/// Lowercasing ASCII text twice is lowercasing it once, and it leaves ASCII text.
pub proof fn lemma_ascii_lowercase_idempotent(s: Seq<char>)
    ensures
        ascii_lowercase(ascii_lowercase(s)) == ascii_lowercase(s),
        is_ascii_text(s) ==> is_ascii_text(ascii_lowercase(s)),
{
    assert forall|i: int| 0 <= i < s.len() implies #[trigger] ascii_lowercase(ascii_lowercase(s))[i]
        == ascii_lowercase(s)[i] by {
        lemma_ascii_lower_char(s[i]);
    }
    assert(ascii_lowercase(ascii_lowercase(s)) =~= ascii_lowercase(s));
    if is_ascii_text(s) {
        assert forall|i: int| 0 <= i < s.len() implies (#[trigger] ascii_lowercase(s)[i] as u32) < 128 by {
            lemma_ascii_lower_char(s[i]);
        }
    }
}

proof fn lemma_lowercase_trim_start(s: Seq<char>)
    ensures
        ascii_trim_start(ascii_lowercase(s)) == ascii_lowercase(ascii_trim_start(s)),
    decreases s.len(),
{
    if s.len() > 0 {
        lemma_ascii_lower_char(s[0]);
        assert(ascii_lowercase(s)[0] == ascii_lower(s[0]));
        assert(ascii_lowercase(s).drop_first() =~= ascii_lowercase(s.drop_first()));
        lemma_lowercase_trim_start(s.drop_first());
    } else {
        assert(ascii_lowercase(s) =~= s);
    }
}

proof fn lemma_lowercase_trim_end(s: Seq<char>)
    ensures
        ascii_trim_end(ascii_lowercase(s)) == ascii_lowercase(ascii_trim_end(s)),
    decreases s.len(),
{
    if s.len() > 0 {
        lemma_ascii_lower_char(s.last());
        assert(ascii_lowercase(s).last() == ascii_lower(s.last()));
        assert(ascii_lowercase(s).drop_last() =~= ascii_lowercase(s.drop_last()));
        lemma_lowercase_trim_end(s.drop_last());
    } else {
        assert(ascii_lowercase(s) =~= s);
    }
}

/// Trimming and lowercasing ASCII text can be done in either order.
pub proof fn lemma_lowercase_trim_commute(s: Seq<char>)
    ensures
        ascii_trimmed(ascii_lowercase(s)) == ascii_lowercase(ascii_trimmed(s)),
{
    lemma_lowercase_trim_start(s);
    lemma_lowercase_trim_end(ascii_trim_start(s));
}

/// The uppercase form of an ASCII character: `a` to `z` become `A` to `Z`, the
/// others stay.
pub open spec fn ascii_upper(c: char) -> char {
    if 'a' <= c && c <= 'z' {
        ((c as u32) - 32) as char
    } else {
        c
    }
}

/// The uppercase form of ASCII text.
pub open spec fn ascii_uppercase(s: Seq<char>) -> Seq<char> {
    s.map_values(|c: char| ascii_upper(c))
}

/// No character is an ASCII uppercase letter.
pub open spec fn lacks_ascii_upper(s: Seq<char>) -> bool {
    forall|i: int| 0 <= i < s.len() ==> !('A' <= #[trigger] s[i] && s[i] <= 'Z')
}

/// Uppercasing ASCII text leaves ASCII text, and lowercasing it afterwards gives
/// what lowercasing alone gives; lowercased text has no uppercase letters.
pub proof fn lemma_ascii_uppercase_then_lowercase(s: Seq<char>)
    ensures
        is_ascii_text(s) ==> is_ascii_text(ascii_uppercase(s)),
        ascii_lowercase(ascii_uppercase(s)) == ascii_lowercase(s),
        lacks_ascii_upper(ascii_lowercase(s)),
{
    assert forall|i: int| 0 <= i < s.len() implies #[trigger] ascii_lowercase(ascii_uppercase(s))[i]
        == ascii_lowercase(s)[i] by {
        let c = s[i];
        assert(ascii_uppercase(s)[i] == ascii_upper(c));
        if 'a' <= c && c <= 'z' {
            assert(('A' <= ascii_upper(c) && ascii_upper(c) <= 'Z'));
            assert(((ascii_upper(c) as u32) + 32) as char == c);
        }
    }
    assert(ascii_lowercase(ascii_uppercase(s)) =~= ascii_lowercase(s));
    if is_ascii_text(s) {
        assert forall|i: int| 0 <= i < s.len() implies (#[trigger] ascii_uppercase(s)[i] as u32) < 128 by {
            assert(ascii_uppercase(s)[i] == ascii_upper(s[i]));
        }
    }
    assert forall|i: int| 0 <= i < ascii_lowercase(s).len() implies !('A' <= #[trigger] ascii_lowercase(
        s,
    )[i] && ascii_lowercase(s)[i] <= 'Z') by {
        assert(ascii_lowercase(s)[i] == ascii_lower(s[i]));
    }
}

/// A sequence has no uppercase letters, so neither has any part of it.
pub proof fn lemma_lacks_ascii_upper_subrange(s: Seq<char>, i: int, j: int)
    requires
        lacks_ascii_upper(s),
        0 <= i <= j <= s.len(),
    ensures
        lacks_ascii_upper(s.subrange(i, j)),
{
    assert forall|k: int| 0 <= k < s.subrange(i, j).len() implies !('A' <= #[trigger] s.subrange(i, j)[k]
        && s.subrange(i, j)[k] <= 'Z') by {
        assert(s.subrange(i, j)[k] == s[i + k]);
    }
}

/// Removing a trailing character, however often, leaves a prefix of the text that
/// does not end with that character.
pub proof fn lemma_trim_end_char_prefix(s: Seq<char>, c: char)
    ensures
        trim_end_char(s, c).len() <= s.len(),
        trim_end_char(s, c) == s.subrange(0, trim_end_char(s, c).len() as int),
        trim_end_char(s, c).len() > 0 ==> trim_end_char(s, c).last() != c,
    decreases s.len(),
{
    if s.len() > 0 && s.last() == c {
        lemma_trim_end_char_prefix(s.drop_last(), c);
        let t = trim_end_char(s.drop_last(), c);
        assert(s.drop_last().subrange(0, t.len() as int) =~= s.subrange(0, t.len() as int));
    } else {
        assert(s.subrange(0, s.len() as int) =~= s);
    }
}

proof fn lemma_trim_start_len(s: Seq<char>)
    ensures
        ascii_trim_start(s).len() <= s.len(),
        ascii_trim_start(s).len() == s.len() ==> ascii_trim_start(s) == s,
    decreases s.len(),
{
    if s.len() > 0 && is_ascii_whitespace(s[0]) {
        lemma_trim_start_len(s.drop_first());
    }
}

proof fn lemma_trim_end_len(s: Seq<char>)
    ensures
        ascii_trim_end(s).len() <= s.len(),
        ascii_trim_end(s).len() == s.len() ==> ascii_trim_end(s) == s,
    decreases s.len(),
{
    if s.len() > 0 && is_ascii_whitespace(s.last()) {
        lemma_trim_end_len(s.drop_last());
    }
}

/// Text that trimming leaves as it is neither starts nor ends with whitespace.
pub proof fn lemma_trimmed_ends(s: Seq<char>)
    requires
        ascii_trimmed(s) == s,
        s.len() > 0,
    ensures
        !is_ascii_whitespace(s[0]),
        !is_ascii_whitespace(s.last()),
{
    lemma_trim_start_len(s);
    lemma_trim_end_len(ascii_trim_start(s));
    assert(ascii_trim_start(s) == s);
    assert(ascii_trim_end(s) == s);
    if is_ascii_whitespace(s[0]) {
        lemma_trim_start_len(s.drop_first());
    }
    if is_ascii_whitespace(s.last()) {
        lemma_trim_end_len(s.drop_last());
    }
}

/// A prefix of non-whitespace text before text that does not end with whitespace
/// is kept whole by trimming.
pub proof fn lemma_trimmed_prefixed(p: Seq<char>, s: Seq<char>)
    requires
        p.len() > 0,
        !is_ascii_whitespace(p[0]),
        !is_ascii_whitespace(p.last()),
        s.len() > 0 ==> !is_ascii_whitespace(s.last()),
    ensures
        ascii_trimmed(p + s) == p + s,
{
    let t = p + s;
    assert(t[0] == p[0]);
    assert(ascii_trim_start(t) == t);
    if s.len() > 0 {
        assert(t.last() == s.last());
    } else {
        assert(t.last() == p.last());
    }
    assert(ascii_trim_end(t) == t);
}

/// Lowercasing text after a prefix that is already lowercase.
pub proof fn lemma_lowercase_prefixed(p: Seq<char>, s: Seq<char>)
    requires
        ascii_lowercase(p) == p,
    ensures
        ascii_lowercase(p + s) == p + ascii_lowercase(s),
{
    assert forall|i: int| 0 <= i < (p + s).len() implies #[trigger] ascii_lowercase(p + s)[i] == (p
        + ascii_lowercase(s))[i] by {
        if i < p.len() {
            assert(ascii_lowercase(p)[i] == ascii_lower(p[i]));
        }
    }
    assert(ascii_lowercase(p + s) =~= p + ascii_lowercase(s));
}

/// Every character is ASCII whitespace.
pub open spec fn all_ascii_whitespace(s: Seq<char>) -> bool {
    forall|i: int| 0 <= i < s.len() ==> is_ascii_whitespace(#[trigger] s[i])
}

proof fn lemma_trim_start_skips_whitespace(pre: Seq<char>, x: Seq<char>)
    requires
        all_ascii_whitespace(pre),
    ensures
        ascii_trim_start(pre + x) == ascii_trim_start(x),
    decreases pre.len(),
{
    if pre.len() == 0 {
        assert(pre + x =~= x);
    } else {
        assert((pre + x)[0] == pre[0]);
        assert((pre + x).drop_first() =~= pre.drop_first() + x);
        assert(all_ascii_whitespace(pre.drop_first())) by {
            assert forall|i: int| 0 <= i < pre.len() - 1 implies is_ascii_whitespace(
                #[trigger] pre.drop_first()[i],
            ) by {
                assert(pre.drop_first()[i] == pre[i + 1]);
            }
        }
        lemma_trim_start_skips_whitespace(pre.drop_first(), x);
    }
}

proof fn lemma_trim_end_skips_whitespace(y: Seq<char>, post: Seq<char>)
    requires
        all_ascii_whitespace(post),
    ensures
        ascii_trim_end(y + post) == ascii_trim_end(y),
    decreases post.len(),
{
    if post.len() == 0 {
        assert(y + post =~= y);
    } else {
        assert((y + post).last() == post.last());
        assert((y + post).drop_last() =~= y + post.drop_last());
        assert(all_ascii_whitespace(post.drop_last())) by {
            assert forall|i: int| 0 <= i < post.len() - 1 implies is_ascii_whitespace(
                #[trigger] post.drop_last()[i],
            ) by {
                assert(post.drop_last()[i] == post[i]);
            }
        }
        lemma_trim_end_skips_whitespace(y, post.drop_last());
    }
}

proof fn lemma_trim_start_append(h: Seq<char>, post: Seq<char>)
    ensures
        !all_ascii_whitespace(h) ==> ascii_trim_start(h + post) == ascii_trim_start(h) + post,
        all_ascii_whitespace(h) ==> ascii_trim_start(h + post) == ascii_trim_start(post)
            && ascii_trim_start(h).len() == 0,
    decreases h.len(),
{
    if h.len() == 0 {
        assert(h + post =~= post);
    } else {
        assert((h + post)[0] == h[0]);
        assert((h + post).drop_first() =~= h.drop_first() + post);
        lemma_trim_start_append(h.drop_first(), post);
        if all_ascii_whitespace(h) {
            assert(all_ascii_whitespace(h.drop_first())) by {
                assert forall|i: int| 0 <= i < h.len() - 1 implies is_ascii_whitespace(
                    #[trigger] h.drop_first()[i],
                ) by {
                    assert(h.drop_first()[i] == h[i + 1]);
                }
            }
        } else if is_ascii_whitespace(h[0]) {
            assert(!all_ascii_whitespace(h.drop_first())) by {
                let k = choose|k: int| 0 <= k < h.len() && !is_ascii_whitespace(#[trigger] h[k]);
                assert(h.drop_first()[k - 1] == h[k]);
            }
        }
    }
}

/// Whitespace around ASCII text is what trimming removes: text with more
/// whitespace around it trims to the same.
pub proof fn lemma_trim_ignores_surrounding_whitespace(pre: Seq<char>, h: Seq<char>, post: Seq<char>)
    requires
        all_ascii_whitespace(pre),
        all_ascii_whitespace(post),
    ensures
        ascii_trimmed(pre + h + post) == ascii_trimmed(h),
{
    assert(pre + h + post =~= pre + (h + post));
    lemma_trim_start_skips_whitespace(pre, h + post);
    lemma_trim_start_append(h, post);
    if all_ascii_whitespace(h) {
        lemma_trim_start_append(post, Seq::<char>::empty());
        assert(post + Seq::<char>::empty() =~= post);
        assert(ascii_trim_start(post).len() == 0);
    } else {
        lemma_trim_end_skips_whitespace(ascii_trim_start(h), post);
    }
}

/// Text of lowercase ASCII letters is ASCII and its own lowercase form.
pub proof fn lemma_lowercase_letters_unchanged(s: Seq<char>)
    ensures
        (forall|i: int| 0 <= i < s.len() ==> 'a' <= #[trigger] s[i] <= 'z') ==> is_ascii_text(s)
            && ascii_lowercase(s) == s,
{
    if forall|i: int| 0 <= i < s.len() ==> 'a' <= #[trigger] s[i] <= 'z' {
        assert forall|i: int| 0 <= i < s.len() implies (#[trigger] s[i] as u32) < 128 by {
            assert('a' <= s[i] <= 'z');
        }
        assert(ascii_lowercase(s) =~= s);
    }
}

/// Calls `str::trim`, which removes leading and trailing whitespace as the
/// Unicode `White_Space` property defines it; the contract states that as
/// `trimmed_text`.
#[verifier::external_body]
pub(crate) fn std_trim(s: &str) -> (r: &str)
    ensures
        r@ == trimmed_text(s@),
{
    s.trim()
}

proof fn lemma_ascii_trim_start_unicode(s: Seq<char>)
    requires
        is_ascii_text(s),
    ensures
        unicode_trim_start(s) == ascii_trim_start(s),
    decreases s.len(),
{
    if s.len() > 0 {
        assert((s[0] as u32) < 128);
        if is_ascii_whitespace(s[0]) {
            lemma_ascii_drop(s);
            lemma_ascii_trim_start_unicode(s.drop_first());
        }
    }
}

proof fn lemma_ascii_trim_end_unicode(s: Seq<char>)
    requires
        is_ascii_text(s),
    ensures
        unicode_trim_end(s) == ascii_trim_end(s),
    decreases s.len(),
{
    if s.len() > 0 {
        assert((s[s.len() - 1] as u32) < 128);
        if is_ascii_whitespace(s.last()) {
            lemma_ascii_drop(s);
            lemma_ascii_trim_end_unicode(s.drop_last());
        }
    }
}

/// On ASCII text, trimming Unicode whitespace is trimming the six ASCII
/// whitespace characters.
pub proof fn lemma_ascii_trimmed_text(s: Seq<char>)
    requires
        is_ascii_text(s),
    ensures
        trimmed_text(s) == ascii_trimmed(s),
{
    lemma_ascii_trim_start_unicode(s);
    lemma_ascii_trim_start_is_ascii(s);
    lemma_ascii_trim_end_unicode(ascii_trim_start(s));
}

/// Calls `str::to_lowercase`. Its result is named by `lowercased_text`; the
/// one more thing claimed is what its documentation gives for ASCII text, whose
/// only characters with a lowercase mapping are `A` to `Z`: such text comes
/// back with those letters lowercased and every other character as it was.
#[verifier::external_body]
pub(crate) fn std_to_lowercase(s: &str) -> (r: String)
    ensures
        r@ == lowercased_text(s@),
        is_ascii_text(s@) ==> r@ == ascii_lowercase(s@),
{
    s.to_lowercase()
}

/// An ASCII letter or digit.
pub open spec fn is_ascii_alnum(c: char) -> bool {
    ('a' <= c && c <= 'z') || ('A' <= c && c <= 'Z') || ('0' <= c && c <= '9')
}

/// An ASCII digit.
pub open spec fn is_ascii_digit(c: char) -> bool {
    '0' <= c && c <= '9'
}

/// Whether a character is an ASCII letter or digit.
pub fn char_is_ascii_alnum(c: char) -> (r: bool)
    ensures
        r == is_ascii_alnum(c),
{
    ('a' <= c && c <= 'z') || ('A' <= c && c <= 'Z') || ('0' <= c && c <= '9')
}

/// Draws `n` characters from `rand::distr::Alphanumeric` (uniform over `a-z`,
/// `A-Z` and `0-9`) with the thread's random generator, through
/// `SampleString::sample_string`. Which characters come back is chance: only
/// the length and the alphabet are claimed.
#[verifier::external_body]
pub(crate) fn random_alphanumeric(n: usize) -> (r: String)
    ensures
        r@.len() == n,
        forall|i: int| 0 <= i < r@.len() ==> is_ascii_alnum(#[trigger] r@[i]),
{
    rand::distr::SampleString::sample_string(&rand::distr::Alphanumeric, &mut rand::rng(), n)
}

/// A copy of a list of strings.
pub fn clone_strings(v: &Vec<String>) -> (r: Vec<String>)
    ensures
        r@ == v@,
{
    let mut r: Vec<String> = Vec::new();
    let mut i: usize = 0;
    while i < v.len()
        invariant
            i <= v@.len(),
            r@.len() == i,
            forall|j: int| 0 <= j < i ==> #[trigger] r@[j] == v@[j],
        decreases v@.len() - i,
    {
        r.push(v[i].clone());
        i = i + 1;
    }
    assert(r@ =~= v@);
    r
}

/// Whether two strings hold the same characters.
pub fn str_equal(a: &str, b: &str) -> (r: bool)
    ensures
        r == (a@ == b@),
{
    let n = a.unicode_len();
    let m = b.unicode_len();
    if n != m {
        return false;
    }
    let mut i: usize = 0;
    while i < n
        invariant
            n == a@.len(),
            m == b@.len(),
            n == m,
            i <= n,
            forall|j: int| 0 <= j < i ==> a@[j] == b@[j],
        decreases n - i,
    {
        if a.get_char(i) != b.get_char(i) {
            return false;
        }
        i = i + 1;
    }
    assert(a@ =~= b@);
    true
}

/// Whether `p` is a prefix of `s`.
pub fn starts_with(s: &str, p: &str) -> (r: bool)
    ensures
        r == has_prefix(s@, p@),
{
    let n = s.unicode_len();
    let m = p.unicode_len();
    if m > n {
        return false;
    }
    let mut i: usize = 0;
    while i < m
        invariant
            n == s@.len(),
            m == p@.len(),
            m <= n,
            i <= m,
            forall|j: int| 0 <= j < i ==> s@[j] == p@[j],
        decreases m - i,
    {
        if s.get_char(i) != p.get_char(i) {
            assert(s@.subrange(0, m as int)[i as int] != p@[i as int]);
            return false;
        }
        i = i + 1;
    }
    assert(s@.subrange(0, m as int) =~= p@);
    true
}

/// Whether `p` is a suffix of `s`.
pub fn ends_with(s: &str, p: &str) -> (r: bool)
    ensures
        r == has_suffix(s@, p@),
{
    let n = s.unicode_len();
    let m = p.unicode_len();
    if m > n {
        return false;
    }
    let off = n - m;
    let mut i: usize = 0;
    while i < m
        invariant
            n == s@.len(),
            m == p@.len(),
            m <= n,
            off == n - m,
            i <= m,
            forall|j: int| 0 <= j < i ==> s@[off + j] == p@[j],
        decreases m - i,
    {
        if s.get_char(off + i) != p.get_char(i) {
            assert(s@.subrange(off as int, n as int)[i as int] != p@[i as int]);
            return false;
        }
        i = i + 1;
    }
    assert(s@.subrange(off as int, n as int) =~= p@);
    true
}

/// `p` occurs somewhere in `s`.
pub open spec fn has_infix(s: Seq<char>, p: Seq<char>) -> bool {
    exists|i: int| 0 <= i <= s.len() - p.len() && #[trigger] s.subrange(i, i + p.len()) == p
}

/// Whether `p` occurs somewhere in `s`.
pub fn contains_text(s: &str, p: &str) -> (r: bool)
    ensures
        r == has_infix(s@, p@),
{
    let n = s.unicode_len();
    let m = p.unicode_len();
    if m > n {
        return false;
    }
    let last = n - m;
    let mut i: usize = 0;
    loop
        invariant
            n == s@.len(),
            m == p@.len(),
            m <= n,
            last == n - m,
            i <= last,
            forall|j: int| 0 <= j < i ==> #[trigger] s@.subrange(j, j + m) != p@,
        decreases last - i,
    {
        let rest = s.substring_char(i, n);
        let found = starts_with(rest, p);
        assert(rest@.subrange(0, m as int) =~= s@.subrange(i as int, i + m));
        if found {
            return true;
        }
        if i == last {
            return false;
        }
        i = i + 1;
    }
}

/// The rest of `s` after the prefix `p`, if `s` starts with `p`.
pub fn strip_prefix<'a>(s: &'a str, p: &str) -> (r: Option<&'a str>)
    ensures
        has_prefix(s@, p@) <==> r is Some,
        r matches Some(rest) ==> rest@ == s@.subrange(p@.len() as int, s@.len() as int),
{
    if starts_with(s, p) {
        let n = s.unicode_len();
        let m = p.unicode_len();
        Some(s.substring_char(m, n))
    } else {
        None
    }
}

/// The index of the first `c` in `s`, if any.
pub fn find_char(s: &str, c: char) -> (r: Option<usize>)
    ensures
        r matches Some(i) ==> is_first_index(s@, c, i as int),
        r is None ==> lacks_char(s@, c),
{
    let n = s.unicode_len();
    let mut i: usize = 0;
    while i < n
        invariant
            n == s@.len(),
            i <= n,
            forall|j: int| 0 <= j < i ==> s@[j] != c,
        decreases n - i,
    {
        if s.get_char(i) == c {
            return Some(i);
        }
        i = i + 1;
    }
    None
}

/// The index of the last `c` in `s`, if any.
pub fn rfind_char(s: &str, c: char) -> (r: Option<usize>)
    ensures
        r matches Some(i) ==> is_last_index(s@, c, i as int),
        r is None ==> lacks_char(s@, c),
{
    let n = s.unicode_len();
    let mut i: usize = n;
    while i > 0
        invariant
            n == s@.len(),
            i <= n,
            forall|j: int| i <= j < n ==> s@[j] != c,
        decreases i,
    {
        if s.get_char(i - 1) == c {
            return Some(i - 1);
        }
        i = i - 1;
    }
    None
}

/// Whether `c` occurs in `s`.
pub fn contains_char(s: &str, c: char) -> (r: bool)
    ensures
        r == !lacks_char(s@, c),
{
    find_char(s, c).is_some()
}

/// `s` with every trailing `c` removed.
pub fn trim_end_matches_char(s: &str, c: char) -> (r: &str)
    ensures
        r@ == trim_end_char(s@, c),
{
    let n = s.unicode_len();
    let mut k: usize = n;
    assert(s@.subrange(0, n as int) =~= s@);
    while k > 0 && s.get_char(k - 1) == c
        invariant
            n == s@.len(),
            k <= n,
            trim_end_char(s@.subrange(0, k as int), c) == trim_end_char(s@, c),
        decreases k,
    {
        assert(s@.subrange(0, k as int).drop_last() =~= s@.subrange(0, k - 1));
        k = k - 1;
    }
    s.substring_char(0, k)
}

/// The part of `s` before the first `c` (all of `s` when `c` does not occur).
pub open spec fn before_first(s: Seq<char>, c: char) -> Seq<char> {
    if lacks_char(s, c) {
        s
    } else {
        s.subrange(0, choose|i: int| is_first_index(s, c, i))
    }
}

/// The part of `s` after the first `c` (empty when `c` does not occur).
pub open spec fn after_first(s: Seq<char>, c: char) -> Seq<char> {
    if lacks_char(s, c) {
        Seq::empty()
    } else {
        s.subrange((choose|i: int| is_first_index(s, c, i)) + 1, s.len() as int)
    }
}

/// The part of `s` after the last `c` (all of `s` when `c` does not occur).
pub open spec fn after_last(s: Seq<char>, c: char) -> Seq<char> {
    if lacks_char(s, c) {
        s
    } else {
        s.subrange((choose|i: int| is_last_index(s, c, i)) + 1, s.len() as int)
    }
}

/// The first occurrence of a character is unique.
pub proof fn lemma_first_index_unique(s: Seq<char>, c: char, i: int, j: int)
    requires
        is_first_index(s, c, i),
        is_first_index(s, c, j),
    ensures
        i == j,
{
}

/// The last occurrence of a character is unique.
pub proof fn lemma_last_index_unique(s: Seq<char>, c: char, i: int, j: int)
    requires
        is_last_index(s, c, i),
        is_last_index(s, c, j),
    ensures
        i == j,
{
}

/// Splits `s` at its first `c`: the parts before and after it, if `c` occurs.
pub fn split_once_char<'a>(s: &'a str, c: char) -> (r: Option<(&'a str, &'a str)>)
    ensures
        r is Some <==> !lacks_char(s@, c),
        r matches Some((a, b)) ==> a@ == before_first(s@, c) && b@ == after_first(s@, c),
{
    match find_char(s, c) {
        Some(i) => {
            proof {
                let k = choose|k: int| is_first_index(s@, c, k);
                lemma_first_index_unique(s@, c, k, i as int);
            }
            let n = s.unicode_len();
            Some((s.substring_char(0, i), s.substring_char(i + 1, n)))
        },
        None => None,
    }
}

/// The part of `s` before its first `c` (all of `s` when `c` does not occur).
pub fn prefix_before_first<'a>(s: &'a str, c: char) -> (r: &'a str)
    ensures
        r@ == before_first(s@, c),
{
    match split_once_char(s, c) {
        Some((a, _)) => a,
        None => s,
    }
}

/// The part of `s` after its last `c` (all of `s` when `c` does not occur).
pub fn suffix_after_last<'a>(s: &'a str, c: char) -> (r: &'a str)
    ensures
        r@ == after_last(s@, c),
{
    match rfind_char(s, c) {
        Some(i) => {
            proof {
                let k = choose|k: int| is_last_index(s@, c, k);
                lemma_last_index_unique(s@, c, k, i as int);
            }
            let n = s.unicode_len();
            s.substring_char(i + 1, n)
        },
        None => s,
    }
}

/// The decimal digits of `n`, most significant first, without leading zeros.
pub open spec fn decimal_text(n: nat) -> Seq<char>
    decreases n,
{
    if n < 10 {
        seq!["0123456789"@[n as int]]
    } else {
        decimal_text(n / 10).push("0123456789"@[(n % 10) as int])
    }
}

/// The decimal text of `n`.
pub fn decimal_string(n: u64) -> (r: String)
    ensures
        r@ == decimal_text(n as nat),
    decreases n,
{
    let digits = "0123456789";
    proof {
        reveal_strlit("0123456789");
    }
    let d: usize = (n % 10) as usize;
    let last = digits.substring_char(d, d + 1);
    assert(last@ =~= seq!["0123456789"@[d as int]]);
    if n < 10 {
        String::from_str(last)
    } else {
        let mut s = decimal_string(n / 10);
        s.append(last);
        assert(s@ =~= decimal_text(n as nat));
        s
    }
}


//--------------------------------------------------------------------------------------------------
// Entries that stand for a map
//--------------------------------------------------------------------------------------------------

/// No two entries have the same key.
pub open spec fn keys_distinct<V>(entries: Seq<(String, V)>) -> bool {
    forall|i: int, j: int|
        0 <= i < entries.len() && 0 <= j < entries.len() && i != j ==> #[trigger] entries[i].0@
            != #[trigger] entries[j].0@
}

/// Some entry has the key `k`.
pub open spec fn has_key<V>(entries: Seq<(String, V)>, k: Seq<char>) -> bool {
    exists|i: int| 0 <= i < entries.len() && (#[trigger] entries[i]).0@ == k
}

/// The entries whose key is not `k`, in their order.
pub open spec fn without_key<V>(entries: Seq<(String, V)>, k: Seq<char>) -> Seq<(String, V)> {
    entries.filter(|e: (String, V)| e.0@ != k)
}

/// The map that the entries make when collected in order, a later entry taking
/// the place of an earlier one with the same key: as entries, ordered by where
/// each key last occurs.
pub open spec fn collected_entries<V>(entries: Seq<(String, V)>) -> Seq<(String, V)>
    decreases entries.len(),
{
    if entries.len() == 0 {
        entries
    } else {
        let last = entries.last();
        without_key(collected_entries(entries.drop_last()), last.0@).push(last)
    }
}

proof fn lemma_without_key<V>(entries: Seq<(String, V)>, k: Seq<char>)
    ensures
        forall|x: Seq<char>| has_key(without_key(entries, k), x) <==> (has_key(entries, x) && x != k),
        keys_distinct(entries) ==> keys_distinct(without_key(entries, k)),
    decreases entries.len(),
{
    reveal(Seq::filter);
    if entries.len() > 0 {
        let d = entries.drop_last();
        let last = entries.last();
        lemma_without_key(d, k);
        let w = without_key(d, k);
        let we = without_key(entries, k);
        assert(entries.drop_last() == d);
        assert(we == (if last.0@ != k { w.push(last) } else { w }));
        assert(entries[entries.len() - 1] == last);
        assert forall|x: Seq<char>| has_key(we, x) <==> (has_key(entries, x) && x != k) by {
            if has_key(entries, x) && x != k {
                let i = choose|i: int| 0 <= i < entries.len() && (#[trigger] entries[i]).0@ == x;
                if i < d.len() {
                    assert(d[i] == entries[i]);
                    assert(has_key(d, x));
                    assert(has_key(w, x));
                    let j = choose|j: int| 0 <= j < w.len() && (#[trigger] w[j]).0@ == x;
                    assert(we[j] == w[j]);
                } else {
                    assert(we[we.len() - 1] == last);
                }
            }
            if has_key(we, x) {
                let j = choose|j: int| 0 <= j < we.len() && (#[trigger] we[j]).0@ == x;
                if j < w.len() {
                    assert(we[j] == w[j]);
                    assert(has_key(w, x));
                    assert(has_key(d, x));
                    let i = choose|i: int| 0 <= i < d.len() && (#[trigger] d[i]).0@ == x;
                    assert(entries[i] == d[i]);
                } else {
                    assert(we[j] == last);
                }
            }
        }
        if keys_distinct(entries) {
            assert forall|i: int, j: int|
                0 <= i < d.len() && 0 <= j < d.len() && i != j implies #[trigger] d[i].0@
                != #[trigger] d[j].0@ by {
                assert(d[i] == entries[i] && d[j] == entries[j]);
            }
            if last.0@ != k {
                assert(!has_key(w, last.0@)) by {
                    if has_key(w, last.0@) {
                        assert(has_key(d, last.0@));
                        let i = choose|i: int| 0 <= i < d.len() && (#[trigger] d[i]).0@ == last.0@;
                        assert(entries[i] == d[i]);
                    }
                }
                assert forall|i: int, j: int|
                    0 <= i < we.len() && 0 <= j < we.len() && i != j implies #[trigger] we[i].0@
                    != #[trigger] we[j].0@ by {
                    if i == we.len() - 1 {
                        assert(w[j] == we[j]);
                    } else if j == we.len() - 1 {
                        assert(w[i] == we[i]);
                    } else {
                        assert(w[i] == we[i] && w[j] == we[j]);
                    }
                }
            }
        }
    }
}

/// The collected entries have distinct keys, and the keys of the entries.
pub proof fn lemma_collected_entries<V>(entries: Seq<(String, V)>)
    ensures
        keys_distinct(collected_entries(entries)),
        forall|x: Seq<char>| has_key(collected_entries(entries), x) <==> has_key(entries, x),
    decreases entries.len(),
{
    if entries.len() > 0 {
        let d = entries.drop_last();
        let last = entries.last();
        lemma_collected_entries(d);
        let c = collected_entries(d);
        lemma_without_key(c, last.0@);
        let w = without_key(c, last.0@);
        let r = w.push(last);
        assert forall|i: int, j: int|
            0 <= i < r.len() && 0 <= j < r.len() && i != j implies #[trigger] r[i].0@
            != #[trigger] r[j].0@ by {
            if i == r.len() - 1 {
                assert(r[j] == w[j]);
                assert(has_key(w, w[j].0@));
            } else if j == r.len() - 1 {
                assert(r[i] == w[i]);
                assert(has_key(w, w[i].0@));
            } else {
                assert(r[i] == w[i] && r[j] == w[j]);
            }
        }
        assert forall|x: Seq<char>| has_key(r, x) <==> has_key(entries, x) by {
            if has_key(r, x) {
                let i = choose|i: int| 0 <= i < r.len() && (#[trigger] r[i]).0@ == x;
                if i < w.len() {
                    assert(r[i] == w[i]);
                    assert(has_key(w, x));
                    assert(has_key(d, x));
                    let j = choose|j: int| 0 <= j < d.len() && (#[trigger] d[j]).0@ == x;
                    assert(entries[j] == d[j]);
                } else {
                    assert(entries[entries.len() - 1] == last);
                }
            }
            if has_key(entries, x) {
                let i = choose|i: int| 0 <= i < entries.len() && (#[trigger] entries[i]).0@ == x;
                if x == last.0@ {
                    assert(r[r.len() - 1] == last);
                } else {
                    assert(entries[i] == d[i]);
                    assert(has_key(d, x));
                    assert(has_key(w, x));
                    let j = choose|j: int| 0 <= j < w.len() && (#[trigger] w[j]).0@ == x;
                    assert(r[j] == w[j]);
                }
            }
        }
    }
}

/// The elements in reverse order.
fn reversed<V>(v: Vec<V>) -> (r: Vec<V>)
    ensures
        r@.len() == v@.len(),
        forall|i: int| 0 <= i < v@.len() ==> #[trigger] r@[i] == v@[v@.len() - 1 - i],
{
    let ghost orig = v@;
    let mut src = v;
    let mut r: Vec<V> = Vec::new();
    while src.len() > 0
        invariant
            src@ == orig.subrange(0, src@.len() as int),
            r@.len() + src@.len() == orig.len(),
            forall|i: int| 0 <= i < r@.len() ==> #[trigger] r@[i] == orig[orig.len() - 1 - i],
        decreases src@.len(),
    {
        match src.pop() {
            Some(e) => r.push(e),
            None => {},
        }
    }
    r
}

/// The entries without those whose key is `key`, in their order.
fn drop_key<V>(entries: Vec<(String, V)>, key: &str) -> (r: Vec<(String, V)>)
    ensures
        r@ == without_key(entries@, key@),
{
    let ghost orig = entries@;
    let ghost n = orig.len();
    let mut rev = reversed(entries);
    let mut r: Vec<(String, V)> = Vec::new();
    while rev.len() > 0
        invariant
            rev@.len() <= n,
            n == orig.len(),
            forall|i: int| 0 <= i < rev@.len() ==> #[trigger] rev@[i] == orig[n - 1 - i],
            r@ == without_key(orig.subrange(0, n - rev@.len()), key@),
        decreases rev@.len(),
    {
        let ghost k = n - rev@.len();
        proof {
            reveal(Seq::filter);
            assert(orig.subrange(0, k + 1).drop_last() =~= orig.subrange(0, k));
            assert(rev@[rev@.len() - 1] == orig[k]);
        }
        match rev.pop() {
            Some(e) => {
                if !str_equal(e.0.as_str(), key) {
                    r.push(e);
                }
            },
            None => {},
        }
    }
    proof {
        assert(orig.subrange(0, n as int) =~= orig);
    }
    r
}

/// The entries collected as a map: a later entry takes the place of an earlier
/// one with the same key, so that no key occurs twice.
pub fn collect_entries<V>(entries: Vec<(String, V)>) -> (r: Vec<(String, V)>)
    ensures
        r@ == collected_entries(entries@),
        keys_distinct(r@),
        forall|x: Seq<char>| has_key(r@, x) <==> has_key(entries@, x),
{
    let ghost orig = entries@;
    let ghost n = orig.len();
    let mut rev = reversed(entries);
    let mut r: Vec<(String, V)> = Vec::new();
    while rev.len() > 0
        invariant
            rev@.len() <= n,
            n == orig.len(),
            forall|i: int| 0 <= i < rev@.len() ==> #[trigger] rev@[i] == orig[n - 1 - i],
            r@ == collected_entries(orig.subrange(0, n - rev@.len())),
        decreases rev@.len(),
    {
        let ghost k = n - rev@.len();
        proof {
            assert(orig.subrange(0, k + 1).drop_last() =~= orig.subrange(0, k));
            assert(rev@[rev@.len() - 1] == orig[k]);
        }
        match rev.pop() {
            Some(e) => {
                let rest = drop_key(r, e.0.as_str());
                r = rest;
                r.push(e);
            },
            None => {},
        }
    }
    proof {
        assert(orig.subrange(0, n as int) =~= orig);
        lemma_collected_entries(orig);
    }
    r
}

} // verus!
