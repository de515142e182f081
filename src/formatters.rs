//! Text formatting for rendered pages.

use vstd::prelude::*;

verus! {

/// `s` with every leading repetition of `p` removed.
pub open spec fn trim_start_all(s: Seq<char>, p: Seq<char>) -> Seq<char>
    decreases s.len(),
{
    if p.len() > 0 && p.len() <= s.len() && s.subrange(0, p.len() as int) == p {
        trim_start_all(s.subrange(p.len() as int, s.len() as int), p)
    } else {
        s
    }
}

/// `s` with every trailing `c` removed.
pub open spec fn trim_end_all(s: Seq<char>, c: char) -> Seq<char>
    decreases s.len(),
{
    if s.len() > 0 && s.last() == c {
        trim_end_all(s.drop_last(), c)
    } else {
        s
    }
}

/// The visible text of a link: the URL without its scheme and without
/// trailing slashes.
pub open spec fn link_text(url: Seq<char>) -> Seq<char> {
    trim_end_all(trim_start_all(trim_start_all(url, "http://"@), "https://"@), '/')
}

/// `s` holds `p` at character position `at`.
fn holds_at(s: &str, n: usize, at: usize, p: &str) -> (r: bool)
    requires
        n == s@.len(),
        at <= n,
    ensures
        r == (p@.len() <= n - at && s@.subrange(at as int, at + p@.len()) == p@),
{
    let m = p.unicode_len();
    if m > n - at {
        return false;
    }
    let mut j: usize = 0;
    while j < m
        invariant
            m == p@.len(),
            n == s@.len(),
            at + m <= n,
            j <= m,
            forall|k: int| 0 <= k < j ==> s@[at + k] == p@[k],
        decreases m - j,
    {
        if s.get_char(at + j) != p.get_char(j) {
            assert(s@.subrange(at as int, at + m)[j as int] != p@[j as int]);
            return false;
        }
        j = j + 1;
    }
    assert(s@.subrange(at as int, at + m) =~= p@);
    true
}

/// The position after every repetition of `p` that starts at `from`.
fn skip_all(s: &str, n: usize, from: usize, p: &str) -> (r: usize)
    requires
        n == s@.len(),
        from <= n,
    ensures
        from <= r <= n,
        s@.subrange(r as int, n as int) == trim_start_all(s@.subrange(from as int, n as int), p@),
{
    let m = p.unicode_len();
    let mut start = from;
    while m > 0 && holds_at(s, n, start, p)
        invariant
            m == p@.len(),
            n == s@.len(),
            from <= start <= n,
            trim_start_all(s@.subrange(start as int, n as int), p@) == trim_start_all(
                s@.subrange(from as int, n as int),
                p@,
            ),
        decreases n - start,
    {
        let ghost rest = s@.subrange(start as int, n as int);
        proof {
            assert(rest.subrange(0, m as int) =~= s@.subrange(start as int, start + m));
            assert(rest.subrange(m as int, rest.len() as int) =~= s@.subrange(
                start + m,
                n as int,
            ));
        }
        start = start + m;
    }
    proof {
        let rest = s@.subrange(start as int, n as int);
        if m > 0 && m <= rest.len() {
            assert(rest.subrange(0, m as int) =~= s@.subrange(start as int, start + m));
        }
    }
    start
}

/// Renders a URL as an anchor whose text is the URL without its scheme and
/// trailing slashes.
pub fn link(url: &str) -> (r: String)
    ensures
        r@ == "<a href=\""@ + url@ + "\">"@ + link_text(url@) + "</a>"@,
{
    let n = url.unicode_len();
    let after_http = skip_all(url, n, 0, "http://");
    let start = skip_all(url, n, after_http, "https://");
    proof {
        assert(url@.subrange(0, n as int) =~= url@);
    }
    let mut end = n;
    while end > start && url.get_char(end - 1) == '/'
        invariant
            n == url@.len(),
            start <= end <= n,
            trim_end_all(url@.subrange(start as int, end as int), '/') == trim_end_all(
                url@.subrange(start as int, n as int),
                '/',
            ),
        decreases end,
    {
        proof {
            assert(url@.subrange(start as int, end as int).drop_last() =~= url@.subrange(
                start as int,
                end - 1,
            ));
        }
        end = end - 1;
    }
    let text = url.substring_char(start, end);
    let mut r = String::from_str("<a href=\"");
    r.append(url);
    r.append("\">");
    r.append(text);
    r.append("</a>");
    r
}

} // verus!
