//! Tags taken from the path of a page's address.

use vstd::prelude::*;
use vstd::string::*;
use crate::text::chars_of;

verus! {

/// The path of `url` parsed as a URL, `None` where it does not parse.
pub uninterp spec fn url_path(url: Seq<char>) -> Option<Seq<char>>;

/// Calls `reqwest::Url::parse` and `Url::path`. Trusted: the result is
/// `url_path` of the input.
#[verifier::external_body]
fn parse_path(url: &str) -> (r: Option<String>)
    ensures
        match r {
            Some(p) => url_path(url@) == Some(p@),
            None => url_path(url@) is None,
        },
{
    match reqwest::Url::parse(url) {
        Ok(parsed) => Some(parsed.path().to_string()),
        Err(_) => None,
    }
}

/// The views of a list of strings.
pub open spec fn texts(items: Seq<String>) -> Seq<Seq<char>> {
    items.map_values(|s: String| s@)
}

/// How many characters of `s` stand before its first slash.
pub open spec fn before_slash(s: Seq<char>) -> nat
    decreases s.len(),
{
    if s.len() == 0 || s[0] == '/' {
        0
    } else {
        1 + before_slash(s.drop_first())
    }
}

/// The pieces of `path` between its slashes, without the empty ones, in
/// order.
pub open spec fn segments(path: Seq<char>) -> Seq<Seq<char>>
    decreases path.len(),
{
    let n = before_slash(path) as int;
    if path.len() == 0 {
        Seq::empty()
    } else if n >= path.len() {
        seq![path]
    } else if n == 0 {
        segments(path.skip(1))
    } else {
        seq![path.take(n)] + segments(path.skip(n + 1))
    }
}

/// The tags of `url`: the segments of its path, none where it does not parse.
pub open spec fn tags_of(url: Seq<char>) -> Seq<Seq<char>> {
    match url_path(url) {
        Some(p) => segments(p),
        None => Seq::empty(),
    }
}

/// The first position `n` of `s` that holds a slash, or its length where none
/// does, is `before_slash(s)`.
proof fn lemma_before_slash_is(s: Seq<char>, n: int)
    requires
        0 <= n <= s.len(),
        forall|k: int| 0 <= k < n ==> s[k] != '/',
        n < s.len() ==> s[n] == '/',
    ensures
        before_slash(s) == n,
    decreases s.len(),
{
    if n > 0 {
        let t = s.drop_first();
        assert forall|k: int| 0 <= k < n - 1 implies t[k] != '/' by {
            assert(t[k] == s[k + 1]);
        }
        lemma_before_slash_is(t, n - 1);
    }
}

/// Splits a path at its slashes and drops the empty pieces.
pub fn path_segments(path: &str) -> (r: Vec<String>)
    ensures
        texts(r@) == segments(path@),
{
    let v = chars_of(path);
    let len: usize = v.len();
    let mut out: Vec<String> = Vec::new();
    let mut start: usize = 0;
    let mut i: usize = 0;
    proof {
        assert(path@.skip(0) =~= path@);
        assert(texts(out@) =~= Seq::<Seq<char>>::empty());
    }
    while i < len
        invariant
            v@ == path@,
            len == v@.len(),
            start <= i <= len,
            forall|k: int| start <= k < i ==> path@[k] != '/',
            texts(out@) + segments(path@.skip(start as int)) == segments(path@),
        decreases len - i,
    {
        if v[i] == '/' {
            let ghost rest = path@.skip(start as int);
            proof {
                lemma_before_slash_is(rest, i - start);
                assert(rest.skip(i - start + 1) =~= path@.skip(i + 1));
                assert(rest.take(i - start) =~= path@.subrange(start as int, i as int));
            }
            if i > start {
                let piece = path.substring_char(start, i).to_owned();
                let ghost before = out@;
                out.push(piece);
                assert(texts(out@) =~= texts(before).push(piece@));
                assert(texts(out@) + segments(path@.skip(i + 1)) =~= texts(before) + segments(
                    rest,
                ));
            }
            start = i + 1;
        }
        i += 1;
    }
    let ghost rest = path@.skip(start as int);
    proof {
        lemma_before_slash_is(rest, len - start);
    }
    if len > start {
        let piece = path.substring_char(start, len).to_owned();
        let ghost before = out@;
        out.push(piece);
        proof {
            assert(piece@ =~= rest);
            assert(texts(out@) =~= texts(before).push(piece@));
            assert(texts(out@) =~= texts(before) + segments(rest));
        }
    } else {
        assert(texts(out@) + segments(rest) =~= texts(out@));
    }
    out
}

/// The tags of a page: the non-empty segments of its address's path, in
/// order. An address that does not parse has none.
pub fn get_tags(url: String) -> (tags: Vec<String>)
    ensures
        texts(tags@) == tags_of(url@),
{
    match parse_path(url.as_str()) {
        Some(path) => path_segments(path.as_str()),
        None => {
            let tags: Vec<String> = Vec::new();
            assert(texts(tags@) =~= Seq::<Seq<char>>::empty());
            tags
        },
    }
}

} // verus!
