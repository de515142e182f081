use shoelace::address::address;
use shoelace::proxy::public_url;

#[test]
fn address_of_empty_url() {
    assert_eq!(address(""), "aSF6MHmQgJThESHQQjVKfB9VtkgsoaUeGyUN_R7Q7vk=");
}

#[test]
fn address_of_cdn_url() {
    let url = "https://scontent.cdninstagram.com/v/t51.2885-19/pfp.jpg";
    assert_eq!(address(url), "lNLjxNPsO2tbWlU4-yKKGFO-vRU2ARKwhHPeM9GCC64=");
}

#[test]
fn address_is_deterministic() {
    let url = "https://scontent.cdninstagram.com/v/t51.2885-15/image.webp?stp=dst-jpg";
    let first = address(url);
    let second = address(url);
    assert_eq!(first, second);
    assert_eq!(first.len(), 44);
    assert!(first.ends_with('='));
    assert!(first[..43]
        .chars()
        .all(|c| c.is_ascii_alphanumeric() || c == '-' || c == '_'));
}

#[test]
fn addresses_of_distinct_urls_differ() {
    let urls = [
        "https://scontent.cdninstagram.com/a.jpg",
        "https://scontent.cdninstagram.com/b.jpg",
        "https://scontent.cdninstagram.com/a.jpg?x=1",
        "http://scontent.cdninstagram.com/a.jpg",
        "https://video.cdninstagram.com/a.mp4",
        "",
    ];
    let ids: Vec<String> = urls.iter().map(|u| address(u)).collect();
    for i in 0..ids.len() {
        for j in 0..ids.len() {
            if i != j {
                assert_ne!(ids[i], ids[j]);
            }
        }
    }
}

#[test]
fn public_url_joins_base_and_id() {
    assert_eq!(
        public_url("https://shoelace.example", "abc_-="),
        "https://shoelace.example/proxy/abc_-="
    );
}
