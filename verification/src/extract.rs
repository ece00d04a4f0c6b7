//! Extraction of a track reference from free-form chat text.
//!
//! Two surface forms are recognized: an HTTP(S) web link to a track page and
//! the service-native URI scheme. The prefix is matched case-insensitively;
//! the identifier is the text that follows it, taken verbatim up to (but
//! excluding) a literal `'?'` or the end of input. An empty identifier is no
//! reference.

use vstd::prelude::*;

verus! {

/// A normalized track identifier extracted from message text.
pub struct TrackReference {
    pub id: String,
}

/// The code point of `c`, with an ASCII upper-case letter taken to its
/// lower-case counterpart. Prefix matching is case-insensitive through this
/// map; everything outside ASCII letters must match exactly.
pub open spec fn lower_code(c: char) -> int {
    if 65 <= c as u32 && c as u32 <= 90 {
        c as u32 + 32
    } else {
        c as int
    }
}

/// Case-insensitive character equality (ASCII letters only).
pub open spec fn chars_eq_ci(a: char, b: char) -> bool {
    lower_code(a) == lower_code(b)
}

/// `p` stands in `text` at position `i`, compared character by character,
/// case-insensitively.
pub open spec fn prefix_matches_ci(text: Seq<char>, i: int, p: Seq<char>) -> bool {
    &&& 0 <= i
    &&& i + p.len() <= text.len()
    &&& forall|j: int| 0 <= j < p.len() ==> chars_eq_ci(text[i + j], #[trigger] p[j])
}

pub open spec fn web_prefix_open_https() -> Seq<char> {
    "https://open.spotify.com/track/"@
}

pub open spec fn web_prefix_play_https() -> Seq<char> {
    "https://play.spotify.com/track/"@
}

pub open spec fn web_prefix_open_http() -> Seq<char> {
    "http://open.spotify.com/track/"@
}

pub open spec fn web_prefix_play_http() -> Seq<char> {
    "http://play.spotify.com/track/"@
}

pub open spec fn uri_prefix() -> Seq<char> {
    "spotify:track:"@
}

/// The length of the recognized prefix standing at position `i`, if any.
pub open spec fn prefix_len_at(text: Seq<char>, i: int) -> Option<int> {
    if prefix_matches_ci(text, i, web_prefix_open_https()) {
        Some(web_prefix_open_https().len() as int)
    } else if prefix_matches_ci(text, i, web_prefix_play_https()) {
        Some(web_prefix_play_https().len() as int)
    } else if prefix_matches_ci(text, i, web_prefix_open_http()) {
        Some(web_prefix_open_http().len() as int)
    } else if prefix_matches_ci(text, i, web_prefix_play_http()) {
        Some(web_prefix_play_http().len() as int)
    } else if prefix_matches_ci(text, i, uri_prefix()) {
        Some(uri_prefix().len() as int)
    } else {
        None
    }
}

/// A recognized prefix stands at position `i` of `text`.
pub open spec fn has_prefix_at(text: Seq<char>, i: int) -> bool {
    prefix_len_at(text, i) is Some
}

/// The end of the identifier that starts at `j`: the position of the first
/// `'?'` at or after `j`, or the end of the text.
pub open spec fn id_end(text: Seq<char>, j: int) -> int
    decreases text.len() - j,
{
    if j < 0 || j >= text.len() {
        text.len() as int
    } else if text[j] == '?' {
        j
    } else {
        id_end(text, j + 1)
    }
}

/// What extraction yields when the scan starts at position `i`: the
/// identifier after the first recognized prefix at or beyond `i`, or nothing
/// when no prefix follows or the identifier is empty.
pub open spec fn extract_from(text: Seq<char>, i: int) -> Option<Seq<char>>
    decreases text.len() - i,
{
    if !(0 <= i < text.len()) {
        None
    } else {
        match prefix_len_at(text, i) {
            Some(plen) => {
                let j = i + plen;
                let k = id_end(text, j);
                if j < k {
                    Some(text.subrange(j, k))
                } else {
                    None
                }
            },
            None => extract_from(text, i + 1),
        }
    }
}

/// The identifier carried by `text`, if any: the text after the leftmost
/// recognized prefix, up to but excluding a `'?'`, when that is non-empty.
pub open spec fn extract_spec(text: Seq<char>) -> Option<Seq<char>> {
    extract_from(text, 0)
}

/// The lower-case code of `c`, as `lower_code` gives it.
fn lower_code_exec(c: char) -> (r: u32)
    ensures
        r == lower_code(c),
{
    let u = c as u32;
    if 65 <= u && u <= 90 {
        u + 32
    } else {
        u
    }
}

/// Whether `p` stands in `text` at position `i`, case-insensitively.
fn prefix_at(text: &str, n: usize, i: usize, p: &str, plen: usize) -> (r: bool)
    requires
        n == text@.len(),
        plen == p@.len(),
        i <= n,
    ensures
        r == prefix_matches_ci(text@, i as int, p@),
{
    if plen > n - i {
        return false;
    }
    let mut j: usize = 0;
    while j < plen
        invariant
            j <= plen,
            n == text@.len(),
            plen == p@.len(),
            i <= n,
            plen <= n - i,
            forall|k: int| 0 <= k < j ==> chars_eq_ci(text@[i + k], #[trigger] p@[k]),
        decreases plen - j,
    {
        let a = text.get_char(i + j);
        let b = p.get_char(j);
        if lower_code_exec(a) != lower_code_exec(b) {
            proof {
                assert(!chars_eq_ci(text@[i + j], p@[j as int]));
            }
            return false;
        }
        j += 1;
    }
    true
}

/// The recognized prefix at position `i` of `text`, given as its length.
fn prefix_len_at_exec(text: &str, n: usize, i: usize) -> (r: Option<usize>)
    requires
        n == text@.len(),
        i < n,
    ensures
        match r {
            Some(plen) => prefix_len_at(text@, i as int) == Some(plen as int) && i + plen <= n,
            None => prefix_len_at(text@, i as int) is None,
        },
{
    let p1 = "https://open.spotify.com/track/";
    let p2 = "https://play.spotify.com/track/";
    let p3 = "http://open.spotify.com/track/";
    let p4 = "http://play.spotify.com/track/";
    let p5 = "spotify:track:";
    proof {
        reveal_strlit("https://open.spotify.com/track/");
        reveal_strlit("https://play.spotify.com/track/");
        reveal_strlit("http://open.spotify.com/track/");
        reveal_strlit("http://play.spotify.com/track/");
        reveal_strlit("spotify:track:");
    }
    if prefix_at(text, n, i, p1, 31) {
        return Some(31);
    }
    if prefix_at(text, n, i, p2, 31) {
        return Some(31);
    }
    if prefix_at(text, n, i, p3, 30) {
        return Some(30);
    }
    if prefix_at(text, n, i, p4, 30) {
        return Some(30);
    }
    if prefix_at(text, n, i, p5, 14) {
        return Some(14);
    }
    None
}

/// Pulls a track reference out of arbitrary text: the identifier after the
/// leftmost recognized prefix, up to a `'?'` or the end of input. Returns
/// `None` when no recognized form is present or the identifier is empty.
pub fn extract(text: &str) -> (r: Option<TrackReference>)
    ensures
        match r {
            Some(t) => extract_spec(text@) == Some(t.id@),
            None => extract_spec(text@) is None,
        },
{
    let n = text.unicode_len();
    let mut i: usize = 0;
    while i < n
        invariant
            i <= n,
            n == text@.len(),
            extract_from(text@, 0) == extract_from(text@, i as int),
        decreases n - i,
    {
        match prefix_len_at_exec(text, n, i) {
            Some(plen) => {
                let j = i + plen;
                let mut k: usize = j;
                while k < n && text.get_char(k) != '?'
                    invariant
                        j <= k <= n,
                        n == text@.len(),
                        id_end(text@, j as int) == id_end(text@, k as int),
                    decreases n - k,
                {
                    k += 1;
                }
                proof {
                    assert(id_end(text@, j as int) == k as int);
                }
                if j < k {
                    let id_str = text.substring_char(j, k);
                    return Some(TrackReference { id: id_str.to_owned() });
                } else {
                    return None;
                }
            },
            None => {
                i += 1;
            },
        }
    }
    None
}

/// No recognized prefix anywhere in the text means no reference is
/// extracted.
pub proof fn lemma_extract_none_without_prefix(text: Seq<char>)
    requires
        forall|i: int| 0 <= i < text.len() ==> !has_prefix_at(text, i),
    ensures
        extract_spec(text) is None,
{
    lemma_extract_from_none(text, 0);
}

proof fn lemma_extract_from_none(text: Seq<char>, i: int)
    requires
        0 <= i,
        forall|h: int| i <= h < text.len() ==> !has_prefix_at(text, h),
    ensures
        extract_from(text, i) is None,
    decreases text.len() - i,
{
    if i < text.len() {
        assert(!has_prefix_at(text, i));
        lemma_extract_from_none(text, i + 1);
    }
}

proof fn lemma_extract_from_skip(text: Seq<char>, i: int)
    requires
        0 <= i <= text.len(),
        forall|h: int| 0 <= h < i ==> !has_prefix_at(text, h),
    ensures
        extract_from(text, 0) == extract_from(text, i),
    decreases i,
{
    if i > 0 {
        lemma_extract_from_skip(text, i - 1);
        assert(!has_prefix_at(text, i - 1));
    }
}

/// Where the leftmost recognized prefix stands at `i`, extraction returns
/// exactly the text between the end of that prefix and the first following
/// `'?'` (or the end of input) — or nothing, when that span is empty.
pub proof fn lemma_extract_at_first_prefix(text: Seq<char>, i: int)
    requires
        0 <= i < text.len(),
        has_prefix_at(text, i),
        forall|h: int| 0 <= h < i ==> !has_prefix_at(text, h),
    ensures
        ({
            let j = i + prefix_len_at(text, i)->Some_0;
            let k = id_end(text, j);
            extract_spec(text) == if j < k {
                Some(text.subrange(j, k))
            } else {
                None::<Seq<char>>
            }
        }),
{
    lemma_extract_from_skip(text, i);
}

} // verus!
