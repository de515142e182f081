use shoelace::error::{Error, KeystoreError};
use shoelace::media::{
    references_post, references_user, rewrite_post, rewrite_user, Author, Media, MediaKind,
    Outcome, Post, Subpost, User,
};

fn author(pfp: &str) -> Author {
    Author { username: "zuck".to_string(), pfp: pfp.to_string(), verified: true }
}

fn media(content: &str, thumbnail: Option<&str>) -> Media {
    Media {
        kind: if thumbnail.is_some() { MediaKind::Video } else { MediaKind::Image },
        alt: Some("alt text".to_string()),
        content: content.to_string(),
        thumbnail: thumbnail.map(|t| t.to_string()),
    }
}

fn subpost(code: &str, pfp: &str, items: Vec<Media>) -> Subpost {
    Subpost {
        code: code.to_string(),
        author: author(pfp),
        date: 1_700_000_000,
        body: format!("body of {}", code),
        media: items,
        likes: 3,
    }
}

fn post(items: Vec<Media>, parents: Vec<Subpost>, replies: Vec<Subpost>) -> Post {
    Post {
        id: "3283131293873103989".to_string(),
        author: author("o/pfp"),
        date: 1_700_000_100,
        body: "hello".to_string(),
        media: items,
        likes: 42,
        parents,
        replies,
    }
}

fn ok(origin: &str) -> Outcome {
    Outcome { origin: origin.to_string(), result: Ok(format!("p/{}", origin)) }
}

fn fault(origin: &str) -> Outcome {
    let e = redis::RedisError::from((redis::ErrorKind::IoError, "connection refused"));
    Outcome { origin: origin.to_string(), result: Err(Error::Keystore(KeystoreError::RedisError(e))) }
}

#[test]
fn thumbnail_failure_is_isolated() {
    let p = post(
        vec![media("o/v1", Some("o/t1")), media("o/v2", Some("o/t2"))],
        vec![],
        vec![],
    );
    let table = vec![ok("o/pfp"), ok("o/v1"), fault("o/t1"), ok("o/v2"), ok("o/t2")];
    let q = rewrite_post(p, table).unwrap();
    assert_eq!(q.author.pfp, "p/o/pfp");
    assert_eq!(q.media[0].content, "p/o/v1");
    assert_eq!(q.media[0].thumbnail.as_deref(), Some("o/t1"));
    assert_eq!(q.media[1].content, "p/o/v2");
    assert_eq!(q.media[1].thumbnail.as_deref(), Some("p/o/t2"));
    assert_eq!(q.media[1].kind, MediaKind::Video);
    assert_eq!(q.media[1].alt.as_deref(), Some("alt text"));
}

#[test]
fn profile_picture_failure_fails_the_post() {
    let p = post(vec![media("o/v1", None)], vec![], vec![]);
    let table = vec![fault("o/pfp"), ok("o/v1")];
    let err = rewrite_post(p, table).err().unwrap();
    assert!(matches!(err, Error::Keystore(KeystoreError::RedisError(_))));
}

#[test]
fn profile_picture_failure_fails_the_user() {
    let u = User {
        id: 314216,
        name: "Mark".to_string(),
        pfp: "o/upfp".to_string(),
        verified: true,
        bio: "bio".to_string(),
        followers: 10,
        links: vec!["https://example.org".to_string()],
        posts: vec![subpost("C1", "o/upfp", vec![media("o/i1", None)])],
    };
    let table = vec![fault("o/upfp"), ok("o/i1")];
    assert!(rewrite_user(u, table).is_err());
}

#[test]
fn content_failure_in_a_reply_fails_the_post() {
    let p = post(
        vec![],
        vec![],
        vec![subpost("Creply", "o/rpfp", vec![media("o/rv", Some("o/rt"))])],
    );
    let table = vec![ok("o/pfp"), ok("o/rpfp"), fault("o/rv"), ok("o/rt")];
    assert!(rewrite_post(p, table).is_err());
}

#[test]
fn parents_and_replies_are_rewritten() {
    let p = post(
        vec![media("o/m", None)],
        vec![subpost("Cparent", "o/ppfp", vec![media("o/pm", Some("o/pt"))])],
        vec![subpost("Creply", "o/rpfp", vec![])],
    );
    let refs = references_post(&p);
    assert_eq!(refs, vec!["o/pfp", "o/m", "o/ppfp", "o/pm", "o/pt", "o/rpfp"]);
    let table: Vec<Outcome> = refs.iter().map(|r| ok(r)).collect();
    let q = rewrite_post(p, table).unwrap();
    assert_eq!(q.media[0].content, "p/o/m");
    assert_eq!(q.parents[0].author.pfp, "p/o/ppfp");
    assert_eq!(q.parents[0].media[0].content, "p/o/pm");
    assert_eq!(q.parents[0].media[0].thumbnail.as_deref(), Some("p/o/pt"));
    assert_eq!(q.parents[0].code, "Cparent");
    assert_eq!(q.replies[0].author.pfp, "p/o/rpfp");
    assert_eq!(q.id, "3283131293873103989");
    assert_eq!(q.likes, 42);
}

#[test]
fn unlisted_reference_is_kept() {
    let p = post(vec![media("o/m", None)], vec![], vec![]);
    let q = rewrite_post(p, vec![ok("o/pfp")]).unwrap();
    assert_eq!(q.media[0].content, "o/m");
}

#[test]
fn user_posts_are_rewritten() {
    let u = User {
        id: 314216,
        name: "Mark".to_string(),
        pfp: "o/upfp".to_string(),
        verified: true,
        bio: "bio".to_string(),
        followers: 10,
        links: vec![],
        posts: vec![
            subpost("C1", "o/upfp", vec![media("o/i1", None)]),
            subpost("C2", "o/upfp", vec![media("o/v2", Some("o/t2"))]),
        ],
    };
    let refs = references_user(&u);
    assert_eq!(refs, vec!["o/upfp", "o/upfp", "o/i1", "o/upfp", "o/v2", "o/t2"]);
    let table = vec![ok("o/upfp"), ok("o/i1"), ok("o/v2"), fault("o/t2")];
    let v = rewrite_user(u, table).unwrap();
    assert_eq!(v.id, 314216);
    assert_eq!(v.pfp, "p/o/upfp");
    assert_eq!(v.posts[0].author.pfp, "p/o/upfp");
    assert_eq!(v.posts[0].media[0].content, "p/o/i1");
    assert_eq!(v.posts[1].media[0].content, "p/o/v2");
    assert_eq!(v.posts[1].media[0].thumbnail.as_deref(), Some("o/t2"));
}

#[test]
fn first_outcome_for_a_url_wins() {
    let p = post(vec![], vec![], vec![]);
    let table = vec![ok("o/pfp"), fault("o/pfp")];
    assert_eq!(rewrite_post(p, table).unwrap().author.pfp, "p/o/pfp");
}
