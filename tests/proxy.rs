use shoelace::address::address;
use shoelace::config::{Proxy, Redis};
use shoelace::error::{EndpointError, Error, KeystoreError};
use shoelace::keystore::{Access, Backends, Keystore};
use shoelace::proxy::{complete_lookup, complete_store, resolve, serve, store, Lookup, StoreStep};

const BASE: &str = "https://shoelace.example";
const PNG: [u8; 12] = [
    0x89, 0x50, 0x4E, 0x47, 0x0D, 0x0A, 0x1A, 0x0A, 0x00, 0x00, 0x00, 0x0D,
];

fn keystore(backend: Backends) -> Keystore {
    Keystore::new(&Proxy { backend, redis: None }).unwrap()
}

fn redis_fault() -> KeystoreError {
    KeystoreError::RedisError(redis::RedisError::from((
        redis::ErrorKind::IoError,
        "connection refused",
    )))
}

fn done(step: StoreStep) -> Result<String, Error> {
    match step {
        StoreStep::Done(r) => r,
        StoreStep::Write { .. } => panic!("expected a finished store"),
    }
}

#[test]
fn disabled_backend_passes_urls_through() {
    let mut ks = keystore(Backends::Disabled);
    for url in ["https://cdn.example/a.jpg", "", "not even a url"] {
        assert_eq!(done(store(url, BASE, &mut ks)).unwrap(), url);
    }
    let err = resolve(&address("https://cdn.example/a.jpg"), &ks).err().unwrap();
    assert!(matches!(err, Error::NoProxy));
    assert_eq!(err.status(), 404);
}

#[test]
fn store_is_idempotent() {
    let mut ks = keystore(Backends::Internal);
    let url = "https://cdn.example/a.jpg";
    let first = done(store(url, BASE, &mut ks)).unwrap();
    let second = done(store(url, BASE, &mut ks)).unwrap();
    assert_eq!(first, second);
    assert_eq!(first, format!("{}/proxy/{}", BASE, address(url)));
    match resolve(&address(url), &ks) {
        Ok(Lookup::Found(u)) => assert_eq!(u, url),
        _ => panic!("stored URL not found"),
    }
}

#[test]
fn round_trip_through_the_proxy() {
    let mut ks = keystore(Backends::Internal);
    let url = "https://cdn.example/pfp.png";
    let link = done(store(url, BASE, &mut ks)).unwrap();
    let id = link.strip_prefix(&format!("{}/proxy/", BASE)).unwrap();
    let origin = match resolve(id, &ks) {
        Ok(Lookup::Found(u)) => u,
        _ => panic!("stored URL not found"),
    };
    assert_eq!(origin, url);
    let (bytes, mime) = serve(PNG.to_vec()).unwrap();
    assert_eq!(bytes, PNG.to_vec());
    assert_eq!(mime, "image/png");
}

#[test]
fn unknown_id_is_not_found() {
    let ks = keystore(Backends::Internal);
    let err = resolve("nonexistent-id", &ks).err().unwrap();
    assert!(matches!(err, Error::ObjectNotFound));
    assert_eq!(err.status(), 404);
}

#[test]
fn empty_body_is_unidentifiable() {
    let err = serve(Vec::new()).err().unwrap();
    assert!(matches!(err, Error::UnidentifiableMime));
    assert_eq!(err.status(), 500);
}

#[test]
fn unrecognized_body_is_unidentifiable() {
    let err = serve(b"just some words".to_vec()).err().unwrap();
    assert!(matches!(err, Error::UnidentifiableMime));
}

#[test]
fn jpeg_is_sniffed() {
    let jpeg = vec![0xFF, 0xD8, 0xFF, 0xE0, 0x00, 0x10, 0x4A, 0x46];
    let (_, mime) = serve(jpeg).unwrap();
    assert_eq!(mime, "image/jpeg");
}

#[test]
fn redis_without_settings_is_a_config_error() {
    let err = Keystore::new(&Proxy { backend: Backends::Redis, redis: None }).err().unwrap();
    assert!(matches!(err, KeystoreError::InvalidConfig(Backends::Redis)));
}

#[test]
fn redis_with_unreadable_uri_fails() {
    let config = Proxy {
        backend: Backends::Redis,
        redis: Some(Redis { uri: "nowhere at all".to_string() }),
    };
    let err = Keystore::new(&config).err().unwrap();
    assert!(matches!(err, KeystoreError::RedisError(_)));
}

fn redis_keystore() -> Keystore {
    let config = Proxy {
        backend: Backends::Redis,
        redis: Some(Redis { uri: "redis://127.0.0.1:6379".to_string() }),
    };
    Keystore::new(&config).unwrap()
}

#[test]
fn redis_store_asks_for_a_write() {
    let mut ks = redis_keystore();
    let url = "https://cdn.example/v.mp4";
    match store(url, BASE, &mut ks) {
        StoreStep::Write { id, url: u } => {
            assert_eq!(id, address(url));
            assert_eq!(u, url);
        }
        StoreStep::Done(_) => panic!("expected a write"),
    }
    let link = complete_store(url, BASE, Ok(())).unwrap();
    assert_eq!(link, format!("{}/proxy/{}", BASE, address(url)));
    let err = complete_store(url, BASE, Err(redis_fault())).err().unwrap();
    assert!(matches!(err, Error::Keystore(KeystoreError::RedisError(_))));
    assert_eq!(err.status(), 500);
}

#[test]
fn redis_lookup_asks_for_a_read() {
    let ks = redis_keystore();
    match resolve("some-id", &ks) {
        Ok(Lookup::Read(id)) => assert_eq!(id, "some-id"),
        _ => panic!("expected a read"),
    }
    assert_eq!(complete_lookup(Ok(Some("https://cdn.example/a".to_string()))).unwrap(), "https://cdn.example/a");
    assert!(matches!(complete_lookup(Ok(None)), Err(Error::ObjectNotFound)));
    assert!(matches!(
        complete_lookup(Err(redis_fault())),
        Err(Error::Keystore(KeystoreError::RedisError(_)))
    ));
}

#[test]
fn endpoint_errors_map_to_status() {
    let not_found = Error::Endpoint(EndpointError { status: Some(404), message: "gone".to_string() });
    let server = Error::Endpoint(EndpointError { status: Some(500), message: "boom".to_string() });
    let forbidden = Error::Endpoint(EndpointError { status: Some(403), message: "no".to_string() });
    let unreachable = Error::Endpoint(EndpointError { status: None, message: "timeout".to_string() });
    assert_eq!(not_found.status(), 404);
    assert_eq!(server.status(), 502);
    assert_eq!(forbidden.status(), 502);
    assert_eq!(unreachable.status(), 502);
}

#[test]
fn backend_names() {
    assert_eq!(Backends::Disabled.name(), "None");
    assert_eq!(Backends::Internal.name(), "Internal");
    assert_eq!(Backends::Redis.name(), "Redis");
}

#[test]
fn keystore_put_then_get() {
    let mut ks = keystore(Backends::Internal);
    assert!(matches!(ks.get("id"), Access::Local(None)));
    assert!(matches!(ks.put("id".to_string(), "https://cdn.example/x".to_string()), Access::Local(())));
    match ks.get("id") {
        Access::Local(Some(u)) => assert_eq!(u, "https://cdn.example/x"),
        _ => panic!("expected the stored URL"),
    }
    assert_eq!(ks.backend(), Backends::Internal);
}

#[test]
fn disabled_keystore_records_nothing() {
    let mut ks = keystore(Backends::Disabled);
    assert!(matches!(ks.put("id".to_string(), "u".to_string()), Access::Local(())));
    assert!(matches!(ks.get("id"), Access::Local(None)));
}

#[test]
fn redis_keystore_defers_to_caller() {
    let mut ks = redis_keystore();
    assert!(matches!(ks.put("id".to_string(), "u".to_string()), Access::Remote));
    assert!(matches!(ks.get("id"), Access::Remote));
    assert_eq!(ks.backend(), Backends::Redis);
}

#[test]
fn respond_uses_the_sniffed_type() {
    let (bytes, mime) = shoelace::proxy::respond(vec![1, 2, 3], Some("image/gif".to_string())).unwrap();
    assert_eq!(bytes, vec![1, 2, 3]);
    assert_eq!(mime, "image/gif");
    assert!(matches!(
        shoelace::proxy::respond(vec![1, 2, 3], None),
        Err(Error::UnidentifiableMime)
    ));
}
