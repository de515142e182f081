use shoelace::base::TimerError;
use shoelace::error::Error as ProxyError;
use shoelace::request::{Error, PostData, ProviderError, UserData};

#[test]
fn provider_not_found_is_404() {
    assert_eq!(Error::Provider(ProviderError::NotFound).status(), 404);
    assert_eq!(Error::NotFound.status(), 404);
}

#[test]
fn other_request_failures_are_500() {
    assert_eq!(Error::Provider(ProviderError::Failed("timeout".to_string())).status(), 500);
    assert_eq!(Error::Proxy(ProxyError::ObjectNotFound).status(), 500);
    assert_eq!(Error::Timer(TimerError::ClockSkew).status(), 500);
}

#[test]
fn request_data_holds_parameters() {
    let u = UserData { tag: "zuck".to_string() };
    let p = PostData { id: "C2QBoRaRmR1".to_string() };
    assert_eq!(u.clone().tag, "zuck");
    assert_eq!(p.clone().id, "C2QBoRaRmR1");
}
