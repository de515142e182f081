//! The provider's value tree, and the rewriting of every media reference in
//! it to a proxied link.
//!
//! Rewriting works from a table of store outcomes, one per origin URL, that
//! the caller gathers by storing each URL of [`references_post`] or
//! [`references_user`], concurrently where the backend allows. Profile
//! pictures and primary media content are hard references: a failed store of
//! one fails the whole rewrite. Thumbnails are soft: a failed store keeps the
//! origin URL.

use crate::error::Error;
use vstd::prelude::*;

verus! {

/// Whether a media item is an image or a video.
#[derive(Clone, Copy, Debug, PartialEq, Eq, Structural)]
pub enum MediaKind {
    Image,
    Video,
}

/// One media item attached to a post.
#[derive(Debug)]
pub struct Media {
    pub kind: MediaKind,
    pub alt: Option<String>,
    /// The primary content: the image itself, or the video.
    pub content: String,
    pub thumbnail: Option<String>,
}

/// The author of a post, as embedded in it.
#[derive(Debug)]
pub struct Author {
    pub username: String,
    pub pfp: String,
    pub verified: bool,
}

/// A post seen from another one: a parent, a reply, or an entry of a
/// user's timeline.
#[derive(Debug)]
pub struct Subpost {
    pub code: String,
    pub author: Author,
    pub date: u64,
    pub body: String,
    pub media: Vec<Media>,
    pub likes: u64,
}

/// A post with the thread around it.
#[derive(Debug)]
pub struct Post {
    pub id: String,
    pub author: Author,
    pub date: u64,
    pub body: String,
    pub media: Vec<Media>,
    pub likes: u64,
    pub parents: Vec<Subpost>,
    pub replies: Vec<Subpost>,
}

/// A user profile with its recent posts.
#[derive(Debug)]
pub struct User {
    pub id: u64,
    pub name: String,
    pub pfp: String,
    pub verified: bool,
    pub bio: String,
    pub followers: u64,
    pub links: Vec<String>,
    pub posts: Vec<Subpost>,
}

/// The outcome of storing one origin URL.
#[derive(Debug)]
pub struct Outcome {
    pub origin: String,
    pub result: Result<String, Error>,
}

/// The outcome recorded first for `url` in the table, if any.
pub open spec fn lookup(table: Seq<Outcome>, url: Seq<char>) -> Option<Result<String, Error>>
    decreases table.len(),
{
    if table.len() == 0 {
        None
    } else if table[0].origin@ == url {
        Some(table[0].result)
    } else {
        lookup(table.drop_first(), url)
    }
}

/// What a reference becomes: the stored link where storing it succeeded,
/// else the origin URL itself.
pub open spec fn rewritten_ref(table: Seq<Outcome>, url: Seq<char>) -> Seq<char> {
    match lookup(table, url) {
        Some(Ok(link)) => link@,
        _ => url,
    }
}

/// Storing `url` failed with `e`.
pub open spec fn fails_with(table: Seq<Outcome>, url: Seq<char>, e: Error) -> bool {
    lookup(table, url) == Some(Err::<String, Error>(e))
}

/// Storing `url` failed.
pub open spec fn fails(table: Seq<Outcome>, url: Seq<char>) -> bool {
    lookup(table, url) matches Some(Err(_))
}

/// The table holds a failure at index `i`.
pub open spec fn failed_at(table: Seq<Outcome>, i: int) -> bool {
    0 <= i < table.len() && table[i].result is Err
}

pub open spec fn media_rewritten(m: Media, n: Media, table: Seq<Outcome>) -> bool {
    &&& n.kind == m.kind
    &&& n.alt == m.alt
    &&& n.content@ == rewritten_ref(table, m.content@)
    &&& match m.thumbnail {
        None => n.thumbnail is None,
        Some(t) => n.thumbnail matches Some(u) && u@ == rewritten_ref(table, t@),
    }
}

pub open spec fn media_fails(m: Media, table: Seq<Outcome>) -> bool {
    fails(table, m.content@)
}

pub open spec fn media_fails_with(m: Media, table: Seq<Outcome>, e: Error) -> bool {
    fails_with(table, m.content@, e)
}

pub open spec fn media_list_rewritten(ms: Seq<Media>, ns: Seq<Media>, table: Seq<Outcome>) -> bool {
    &&& ns.len() == ms.len()
    &&& forall|i: int| 0 <= i < ms.len() ==> #[trigger] media_rewritten(ms[i], ns[i], table)
}

pub open spec fn media_list_fails(ms: Seq<Media>, table: Seq<Outcome>) -> bool {
    exists|i: int| 0 <= i < ms.len() && #[trigger] media_fails(ms[i], table)
}

pub open spec fn media_list_fails_with(ms: Seq<Media>, table: Seq<Outcome>, e: Error) -> bool {
    exists|i: int| 0 <= i < ms.len() && #[trigger] media_fails_with(ms[i], table, e)
}

/// The index of the first outcome recorded for `url`.
fn find(table: &Vec<Outcome>, url: &String) -> (r: Option<usize>)
    ensures
        match r {
            Some(i) => i < table@.len() && table@[i as int].origin@ == url@ && lookup(table@, url@)
                == Some(table@[i as int].result),
            None => lookup(table@, url@) is None,
        },
{
    let mut i: usize = 0;
    proof {
        assert(table@.subrange(0, table@.len() as int) =~= table@);
    }
    while i < table.len()
        invariant
            i <= table@.len(),
            lookup(table@, url@) == lookup(table@.subrange(i as int, table@.len() as int), url@),
        decreases table@.len() - i,
    {
        let ghost rest = table@.subrange(i as int, table@.len() as int);
        proof {
            assert(rest.drop_first() =~= table@.subrange(i + 1, table@.len() as int));
            assert(rest[0] == table@[i as int]);
        }
        if table[i].origin == *url {
            return Some(i);
        }
        i = i + 1;
    }
    proof {
        assert(table@.subrange(i as int, table@.len() as int) =~= Seq::<Outcome>::empty());
    }
    None
}

/// Rewrites a hard reference; fails with the index of its failed outcome.
fn rewrite_hard(table: &Vec<Outcome>, url: &String) -> (r: Result<String, usize>)
    ensures
        match r {
            Ok(s) => !fails(table@, url@) && s@ == rewritten_ref(table@, url@),
            Err(i) => failed_at(table@, i as int) && fails_with(
                table@,
                url@,
                table@[i as int].result->Err_0,
            ),
        },
{
    match find(table, url) {
        Some(i) => match &table[i].result {
            Ok(link) => Ok(link.clone()),
            Err(_) => Err(i),
        },
        None => Ok(url.clone()),
    }
}

/// Rewrites a soft reference: a failed store keeps the origin URL.
fn rewrite_soft(table: &Vec<Outcome>, url: &String) -> (r: String)
    ensures
        r@ == rewritten_ref(table@, url@),
{
    match rewrite_hard(table, url) {
        Ok(link) => link,
        Err(_) => url.clone(),
    }
}

fn rewrite_media(m: Media, table: &Vec<Outcome>) -> (r: Result<Media, usize>)
    ensures
        match r {
            Ok(n) => !media_fails(m, table@) && media_rewritten(m, n, table@),
            Err(i) => failed_at(table@, i as int) && media_fails(m, table@) && media_fails_with(
                m,
                table@,
                table@[i as int].result->Err_0,
            ),
        },
{
    let content = match rewrite_hard(table, &m.content) {
        Ok(link) => link,
        Err(i) => return Err(i),
    };
    let thumbnail = match &m.thumbnail {
        Some(t) => Some(rewrite_soft(table, t)),
        None => None,
    };
    Ok(Media { kind: m.kind, alt: m.alt, content, thumbnail })
}

fn rewrite_media_list(ms: Vec<Media>, table: &Vec<Outcome>) -> (r: Result<Vec<Media>, usize>)
    ensures
        r matches Ok(ns) ==> !media_list_fails(ms@, table@) && media_list_rewritten(
            ms@,
            ns@,
            table@,
        ),
        r matches Err(i) ==> failed_at(table@, i as int) && media_list_fails(ms@, table@)
            && media_list_fails_with(
            ms@,
            table@,
            table@[i as int].result->Err_0,
        ),
{
    let ghost all = ms@;
    let mut rest = ms;
    let mut done: Vec<Media> = Vec::new();
    while rest.len() > 0
        invariant
            all == ms@,
            done@.len() <= all.len(),
            rest@ == all.subrange(done@.len() as int, all.len() as int),
            forall|j: int| 0 <= j < done@.len() ==> #[trigger] media_rewritten(all[j], done@[j], table@),
            forall|j: int| 0 <= j < done@.len() ==> !#[trigger] media_fails(all[j], table@),
        decreases rest@.len(),
    {
        let k = done.len();
        let m = rest.remove(0);
        assert(m == all[k as int]);
        match rewrite_media(m, table) {
            Ok(n) => done.push(n),
            Err(i) => {
                assert(media_fails_with(all[k as int], table@, table@[i as int].result->Err_0));
                return Err(i);
            },
        }
    }
    Ok(done)
}

pub open spec fn author_rewritten(a: Author, b: Author, table: Seq<Outcome>) -> bool {
    &&& b.username == a.username
    &&& b.verified == a.verified
    &&& b.pfp@ == rewritten_ref(table, a.pfp@)
}

pub open spec fn subpost_rewritten(s: Subpost, n: Subpost, table: Seq<Outcome>) -> bool {
    &&& n.code == s.code
    &&& n.date == s.date
    &&& n.body == s.body
    &&& n.likes == s.likes
    &&& author_rewritten(s.author, n.author, table)
    &&& media_list_rewritten(s.media@, n.media@, table)
}

pub open spec fn subpost_fails(s: Subpost, table: Seq<Outcome>) -> bool {
    fails(table, s.author.pfp@) || media_list_fails(s.media@, table)
}

pub open spec fn subpost_fails_with(s: Subpost, table: Seq<Outcome>, e: Error) -> bool {
    fails_with(table, s.author.pfp@, e) || media_list_fails_with(s.media@, table, e)
}

pub open spec fn subposts_rewritten(ss: Seq<Subpost>, ns: Seq<Subpost>, table: Seq<Outcome>) -> bool {
    &&& ns.len() == ss.len()
    &&& forall|i: int| 0 <= i < ss.len() ==> #[trigger] subpost_rewritten(ss[i], ns[i], table)
}

pub open spec fn subposts_fail(ss: Seq<Subpost>, table: Seq<Outcome>) -> bool {
    exists|i: int| 0 <= i < ss.len() && #[trigger] subpost_fails(ss[i], table)
}

pub open spec fn subposts_fail_with(ss: Seq<Subpost>, table: Seq<Outcome>, e: Error) -> bool {
    exists|i: int| 0 <= i < ss.len() && #[trigger] subpost_fails_with(ss[i], table, e)
}

/// `q` is `p` with every media reference rewritten through `table`.
pub open spec fn post_rewritten(p: Post, q: Post, table: Seq<Outcome>) -> bool {
    &&& q.id == p.id
    &&& q.date == p.date
    &&& q.body == p.body
    &&& q.likes == p.likes
    &&& author_rewritten(p.author, q.author, table)
    &&& media_list_rewritten(p.media@, q.media@, table)
    &&& subposts_rewritten(p.parents@, q.parents@, table)
    &&& subposts_rewritten(p.replies@, q.replies@, table)
}

/// Storing some hard reference of `p` failed.
pub open spec fn post_fails(p: Post, table: Seq<Outcome>) -> bool {
    ||| fails(table, p.author.pfp@)
    ||| media_list_fails(p.media@, table)
    ||| subposts_fail(p.parents@, table)
    ||| subposts_fail(p.replies@, table)
}

/// Storing some hard reference of `p` failed with `e`.
pub open spec fn post_fails_with(p: Post, table: Seq<Outcome>, e: Error) -> bool {
    ||| fails_with(table, p.author.pfp@, e)
    ||| media_list_fails_with(p.media@, table, e)
    ||| subposts_fail_with(p.parents@, table, e)
    ||| subposts_fail_with(p.replies@, table, e)
}

/// `v` is `u` with every media reference rewritten through `table`.
pub open spec fn user_rewritten(u: User, v: User, table: Seq<Outcome>) -> bool {
    &&& v.id == u.id
    &&& v.name == u.name
    &&& v.verified == u.verified
    &&& v.bio == u.bio
    &&& v.followers == u.followers
    &&& v.links == u.links
    &&& v.pfp@ == rewritten_ref(table, u.pfp@)
    &&& subposts_rewritten(u.posts@, v.posts@, table)
}

/// Storing some hard reference of `u` failed.
pub open spec fn user_fails(u: User, table: Seq<Outcome>) -> bool {
    fails(table, u.pfp@) || subposts_fail(u.posts@, table)
}

/// Storing some hard reference of `u` failed with `e`.
pub open spec fn user_fails_with(u: User, table: Seq<Outcome>, e: Error) -> bool {
    fails_with(table, u.pfp@, e) || subposts_fail_with(u.posts@, table, e)
}

fn rewrite_author(a: Author, table: &Vec<Outcome>) -> (r: Result<Author, usize>)
    ensures
        r matches Ok(b) ==> !fails(table@, a.pfp@) && author_rewritten(a, b, table@),
        r matches Err(i) ==> failed_at(table@, i as int) && fails(table@, a.pfp@) && fails_with(
            table@,
            a.pfp@,
            table@[i as int].result->Err_0,
        ),
{
    let pfp = match rewrite_hard(table, &a.pfp) {
        Ok(link) => link,
        Err(i) => return Err(i),
    };
    Ok(Author { username: a.username, pfp, verified: a.verified })
}

fn rewrite_subpost(s: Subpost, table: &Vec<Outcome>) -> (r: Result<Subpost, usize>)
    ensures
        r matches Ok(n) ==> !subpost_fails(s, table@) && subpost_rewritten(s, n, table@),
        r matches Err(i) ==> failed_at(table@, i as int) && subpost_fails(s, table@)
            && subpost_fails_with(s, table@, table@[i as int].result->Err_0),
{
    let author = match rewrite_author(s.author, table) {
        Ok(a) => a,
        Err(i) => return Err(i),
    };
    let media = match rewrite_media_list(s.media, table) {
        Ok(ms) => ms,
        Err(i) => return Err(i),
    };
    Ok(Subpost { code: s.code, author, date: s.date, body: s.body, media, likes: s.likes })
}

fn rewrite_subposts(ss: Vec<Subpost>, table: &Vec<Outcome>) -> (r: Result<Vec<Subpost>, usize>)
    ensures
        r matches Ok(ns) ==> !subposts_fail(ss@, table@) && subposts_rewritten(ss@, ns@, table@),
        r matches Err(i) ==> failed_at(table@, i as int) && subposts_fail(ss@, table@)
            && subposts_fail_with(ss@, table@, table@[i as int].result->Err_0),
{
    let ghost all = ss@;
    let mut rest = ss;
    let mut done: Vec<Subpost> = Vec::new();
    while rest.len() > 0
        invariant
            all == ss@,
            done@.len() <= all.len(),
            rest@ == all.subrange(done@.len() as int, all.len() as int),
            forall|j: int|
                0 <= j < done@.len() ==> #[trigger] subpost_rewritten(all[j], done@[j], table@),
            forall|j: int| 0 <= j < done@.len() ==> !#[trigger] subpost_fails(all[j], table@),
        decreases rest@.len(),
    {
        let k = done.len();
        let s = rest.remove(0);
        assert(s == all[k as int]);
        match rewrite_subpost(s, table) {
            Ok(n) => done.push(n),
            Err(i) => {
                assert(subpost_fails_with(all[k as int], table@, table@[i as int].result->Err_0));
                return Err(i);
            },
        }
    }
    Ok(done)
}

/// The error of the failed outcome at `i`.
fn error_at(table: Vec<Outcome>, i: usize) -> (e: Error)
    requires
        failed_at(table@, i as int),
    ensures
        e == table@[i as int].result->Err_0,
{
    let mut table = table;
    let outcome = table.swap_remove(i);
    outcome.result.unwrap_err()
}

/// Rewrites every media reference of a post, its parents and its replies
/// through the store outcomes in `table`.
///
/// A reference with no outcome in the table is kept as it is. A failed
/// store of a profile picture or a primary media item fails the whole
/// rewrite with that failure; a failed store of a thumbnail keeps the
/// thumbnail's origin URL.
pub fn rewrite_post(post: Post, table: Vec<Outcome>) -> (r: Result<Post, Error>)
    ensures
        r is Ok <==> !post_fails(post, table@),
        r matches Ok(q) ==> post_rewritten(post, q, table@),
        r matches Err(e) ==> post_fails_with(post, table@, e),
{
    let author = match rewrite_author(post.author, &table) {
        Ok(a) => a,
        Err(i) => return Err(error_at(table, i)),
    };
    let media = match rewrite_media_list(post.media, &table) {
        Ok(ms) => ms,
        Err(i) => return Err(error_at(table, i)),
    };
    let parents = match rewrite_subposts(post.parents, &table) {
        Ok(ss) => ss,
        Err(i) => return Err(error_at(table, i)),
    };
    let replies = match rewrite_subposts(post.replies, &table) {
        Ok(ss) => ss,
        Err(i) => return Err(error_at(table, i)),
    };
    Ok(
        Post {
            id: post.id,
            author,
            date: post.date,
            body: post.body,
            media,
            likes: post.likes,
            parents,
            replies,
        },
    )
}

/// Rewrites every media reference of a user profile and of its posts through
/// the store outcomes in `table`, with the failure policy of
/// [`rewrite_post`].
pub fn rewrite_user(user: User, table: Vec<Outcome>) -> (r: Result<User, Error>)
    ensures
        r is Ok <==> !user_fails(user, table@),
        r matches Ok(v) ==> user_rewritten(user, v, table@),
        r matches Err(e) ==> user_fails_with(user, table@, e),
{
    let pfp = match rewrite_hard(&table, &user.pfp) {
        Ok(link) => link,
        Err(i) => return Err(error_at(table, i)),
    };
    let posts = match rewrite_subposts(user.posts, &table) {
        Ok(ss) => ss,
        Err(i) => return Err(error_at(table, i)),
    };
    Ok(
        User {
            id: user.id,
            name: user.name,
            pfp,
            verified: user.verified,
            bio: user.bio,
            followers: user.followers,
            links: user.links,
            posts,
        },
    )
}

/// The media references of a media item, in order: content, then thumbnail.
pub open spec fn media_refs(m: Media) -> Seq<Seq<char>> {
    match m.thumbnail {
        Some(t) => seq![m.content@, t@],
        None => seq![m.content@],
    }
}

pub open spec fn media_list_refs(ms: Seq<Media>) -> Seq<Seq<char>>
    decreases ms.len(),
{
    if ms.len() == 0 {
        Seq::empty()
    } else {
        media_list_refs(ms.drop_last()) + media_refs(ms.last())
    }
}

pub open spec fn subpost_refs(s: Subpost) -> Seq<Seq<char>> {
    seq![s.author.pfp@] + media_list_refs(s.media@)
}

pub open spec fn subposts_refs(ss: Seq<Subpost>) -> Seq<Seq<char>>
    decreases ss.len(),
{
    if ss.len() == 0 {
        Seq::empty()
    } else {
        subposts_refs(ss.drop_last()) + subpost_refs(ss.last())
    }
}

/// Every media reference of a post, in order: the author's profile
/// picture, the post's media, its parents, its replies.
pub open spec fn post_refs(p: Post) -> Seq<Seq<char>> {
    seq![p.author.pfp@] + media_list_refs(p.media@) + subposts_refs(p.parents@) + subposts_refs(
        p.replies@,
    )
}

/// Every media reference of a user profile, in order: the profile picture,
/// then those of each post.
pub open spec fn user_refs(u: User) -> Seq<Seq<char>> {
    seq![u.pfp@] + subposts_refs(u.posts@)
}

/// The texts of a list of strings.
pub open spec fn texts(v: Seq<String>) -> Seq<Seq<char>> {
    v.map_values(|s: String| s@)
}

fn push_text(out: &mut Vec<String>, s: &String)
    ensures
        texts(final(out)@) == texts(old(out)@).push(s@),
{
    out.push(s.clone());
    proof {
        assert(texts(final(out)@) =~= texts(old(out)@).push(s@));
    }
}

fn push_media_refs(ms: &Vec<Media>, out: &mut Vec<String>)
    ensures
        texts(final(out)@) == texts(old(out)@) + media_list_refs(ms@),
{
    let ghost start = texts(out@);
    let mut k: usize = 0;
    proof {
        assert(ms@.take(0) =~= Seq::<Media>::empty());
        assert(start + media_list_refs(ms@.take(0)) =~= start);
    }
    while k < ms.len()
        invariant
            k <= ms@.len(),
            texts(out@) == start + media_list_refs(ms@.take(k as int)),
        decreases ms@.len() - k,
    {
        let m = &ms[k];
        let ghost before = texts(out@);
        push_text(out, &m.content);
        match &m.thumbnail {
            Some(t) => push_text(out, t),
            None => {},
        }
        proof {
            assert(ms@.take(k + 1).drop_last() =~= ms@.take(k as int));
            assert(ms@.take(k + 1).last() == ms@[k as int]);
            assert(texts(out@) =~= before + media_refs(ms@[k as int]));
            assert(texts(out@) =~= start + media_list_refs(ms@.take(k + 1)));
        }
        k = k + 1;
    }
    proof {
        assert(ms@.take(k as int) =~= ms@);
    }
}

fn push_subpost_refs(s: &Subpost, out: &mut Vec<String>)
    ensures
        texts(final(out)@) == texts(old(out)@) + subpost_refs(*s),
{
    push_text(out, &s.author.pfp);
    push_media_refs(&s.media, out);
    proof {
        assert(texts(final(out)@) =~= texts(old(out)@) + subpost_refs(*s));
    }
}

fn push_subposts_refs(ss: &Vec<Subpost>, out: &mut Vec<String>)
    ensures
        texts(final(out)@) == texts(old(out)@) + subposts_refs(ss@),
{
    let ghost start = texts(out@);
    let mut k: usize = 0;
    proof {
        assert(ss@.take(0) =~= Seq::<Subpost>::empty());
        assert(start + subposts_refs(ss@.take(0)) =~= start);
    }
    while k < ss.len()
        invariant
            k <= ss@.len(),
            texts(out@) == start + subposts_refs(ss@.take(k as int)),
        decreases ss@.len() - k,
    {
        let ghost before = texts(out@);
        push_subpost_refs(&ss[k], out);
        proof {
            assert(ss@.take(k + 1).drop_last() =~= ss@.take(k as int));
            assert(ss@.take(k + 1).last() == ss@[k as int]);
            assert(texts(out@) =~= start + subposts_refs(ss@.take(k + 1)));
        }
        k = k + 1;
    }
    proof {
        assert(ss@.take(k as int) =~= ss@);
    }
}

/// Lists every media reference of a post: the origin URLs to store before
/// [`rewrite_post`].
pub fn references_post(post: &Post) -> (r: Vec<String>)
    ensures
        texts(r@) == post_refs(*post),
{
    let mut out: Vec<String> = Vec::new();
    proof {
        assert(texts(out@) =~= Seq::<Seq<char>>::empty());
    }
    push_text(&mut out, &post.author.pfp);
    push_media_refs(&post.media, &mut out);
    push_subposts_refs(&post.parents, &mut out);
    push_subposts_refs(&post.replies, &mut out);
    proof {
        assert(texts(out@) =~= post_refs(*post));
    }
    out
}

/// Lists every media reference of a user profile: the origin URLs to store
/// before [`rewrite_user`].
pub fn references_user(user: &User) -> (r: Vec<String>)
    ensures
        texts(r@) == user_refs(*user),
{
    let mut out: Vec<String> = Vec::new();
    proof {
        assert(texts(out@) =~= Seq::<Seq<char>>::empty());
    }
    push_text(&mut out, &user.pfp);
    push_subposts_refs(&user.posts, &mut out);
    proof {
        assert(texts(out@) =~= user_refs(*user));
    }
    out
}

/// A failed store of a profile picture fails the rewrite of the post or
/// user that shows it, whatever the other outcomes are.
pub proof fn lemma_hard_failure(p: Post, u: User, table: Seq<Outcome>)
    ensures
        fails(table, p.author.pfp@) ==> post_fails(p, table),
        fails(table, u.pfp@) ==> user_fails(u, table),
        forall|i: int|
            0 <= i < p.media@.len() && #[trigger] fails(table, p.media@[i].content@) ==> post_fails(
                p,
                table,
            ),
{
    assert forall|i: int|
        0 <= i < p.media@.len() && #[trigger] fails(table, p.media@[i].content@) implies post_fails(
        p,
        table,
    ) by {
        assert(media_fails(p.media@[i], table));
    }
}

/// A failed store of a thumbnail never fails the rewrite of its media item:
/// the item keeps its origin thumbnail, and its content is rewritten as if
/// the thumbnail had been stored.
pub proof fn lemma_soft_failure(m: Media, n: Media, table: Seq<Outcome>)
    requires
        m.thumbnail matches Some(t) && fails(table, t@),
        media_rewritten(m, n, table),
    ensures
        media_fails(m, table) == fails(table, m.content@),
        n.thumbnail matches Some(u) && u@ == m.thumbnail->0@,
        n.content@ == rewritten_ref(table, m.content@),
{
}

/// Every outcome in the table is a success handing out `link(origin)`.
pub open spec fn all_stored(table: Seq<Outcome>, link: spec_fn(Seq<char>) -> Seq<char>) -> bool {
    forall|i: int|
        0 <= i < table.len() ==> ((#[trigger] table[i]).result matches Ok(l) && l@ == link(
            table[i].origin@,
        ))
}

proof fn lemma_lookup_stored(table: Seq<Outcome>, link: spec_fn(Seq<char>) -> Seq<char>, url: Seq<char>)
    requires
        all_stored(table, link),
    ensures
        !fails(table, url),
        lookup(table, url) is Some ==> rewritten_ref(table, url) == link(url),
    decreases table.len(),
{
    if table.len() > 0 && table[0].origin@ != url {
        assert forall|i: int| 0 <= i < table.drop_first().len() implies ((
        #[trigger] table.drop_first()[i]).result matches Ok(l) && l@ == link(
            table.drop_first()[i].origin@,
        )) by {
            assert(table.drop_first()[i] == table[i + 1]);
        }
        lemma_lookup_stored(table.drop_first(), link, url);
    }
}

/// When every store succeeded, as with an in-process keystore, rewriting a
/// post never fails, and each reference with an outcome becomes the link
/// handed out for it.
pub proof fn lemma_all_stored_post(p: Post, q: Post, table: Seq<Outcome>, link: spec_fn(Seq<char>) -> Seq<char>)
    requires
        all_stored(table, link),
        post_rewritten(p, q, table),
    ensures
        !post_fails(p, table),
        lookup(table, p.author.pfp@) is Some ==> q.author.pfp@ == link(p.author.pfp@),
        forall|i: int|
            0 <= i < p.media@.len() && lookup(table, (#[trigger] p.media@[i]).content@) is Some
                ==> q.media@[i].content@ == link(p.media@[i].content@),
{
    lemma_lookup_stored(table, link, p.author.pfp@);
    assert forall|i: int| 0 <= i < p.media@.len() implies !#[trigger] media_fails(p.media@[i], table) by {
        lemma_lookup_stored(table, link, p.media@[i].content@);
    }
    assert forall|i: int| 0 <= i < p.parents@.len() implies !#[trigger] subpost_fails(
        p.parents@[i],
        table,
    ) by {
        let s = p.parents@[i];
        lemma_lookup_stored(table, link, s.author.pfp@);
        assert forall|j: int| 0 <= j < s.media@.len() implies !#[trigger] media_fails(s.media@[j], table) by {
            lemma_lookup_stored(table, link, s.media@[j].content@);
        }
    }
    assert forall|i: int| 0 <= i < p.replies@.len() implies !#[trigger] subpost_fails(
        p.replies@[i],
        table,
    ) by {
        let s = p.replies@[i];
        lemma_lookup_stored(table, link, s.author.pfp@);
        assert forall|j: int| 0 <= j < s.media@.len() implies !#[trigger] media_fails(s.media@[j], table) by {
            lemma_lookup_stored(table, link, s.media@[j].content@);
        }
    }
    assert forall|i: int|
        0 <= i < p.media@.len() && lookup(table, (#[trigger] p.media@[i]).content@) is Some
            implies q.media@[i].content@ == link(p.media@[i].content@) by {
        lemma_lookup_stored(table, link, p.media@[i].content@);
        assert(media_rewritten(p.media@[i], q.media@[i], table));
    }
}

} // verus!
