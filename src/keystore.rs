//! Storage backends mapping content addresses to origin URLs.

use crate::config::Proxy;
use crate::error::KeystoreError;
use vstd::hash_map::StringHashMap;
use vstd::prelude::*;

verus! {

/// The client of the `redis` crate, carried as an opaque value.
#[verifier::external_type_specification]
#[verifier::external_body]
pub struct ExRedisClient(redis::Client);

/// The kinds of backend that can be configured.
#[derive(Clone, Copy, Debug, PartialEq, Eq, Structural)]
pub enum Backends {
    /// No backend: the proxy is disabled.
    Disabled,
    /// An in-process map.
    Internal,
    /// A remote Redis key/value service.
    Redis,
}

impl Backends {
    /// The display name of the backend kind.
    pub fn name(&self) -> (r: &'static str)
        ensures
            *self == Backends::Disabled ==> r@ == "None"@,
            *self == Backends::Internal ==> r@ == "Internal"@,
            *self == Backends::Redis ==> r@ == "Redis"@,
    {
        match self {
            Backends::Disabled => "None",
            Backends::Internal => "Internal",
            Backends::Redis => "Redis",
        }
    }
}

/// The result of a keystore operation.
pub enum Access<T> {
    /// The operation was carried out in process, with this result.
    Local(T),
    /// The backend is remote: the caller performs the round trip.
    Remote,
}

/// The active backend, selected once at startup.
///
/// The in-process map has no eviction: it grows with every distinct URL
/// stored for as long as the process lives.
pub enum Keystore {
    /// An in-process map from content address to origin URL.
    Internal(StringHashMap<String>),
    /// A client for the remote key/value service; each read and write is
    /// a network round trip performed by the caller.
    Redis(redis::Client),
    /// Caching is disabled.
    Disabled,
}

impl Keystore {
    /// The backend kind of this keystore.
    pub open spec fn kind(&self) -> Backends {
        match self {
            Keystore::Internal(_) => Backends::Internal,
            Keystore::Redis(_) => Backends::Redis,
            Keystore::Disabled => Backends::Disabled,
        }
    }

    /// The backend kind of this keystore.
    pub fn backend(&self) -> (r: Backends)
        ensures
            r == self.kind(),
    {
        match self {
            Keystore::Internal(_) => Backends::Internal,
            Keystore::Redis(_) => Backends::Redis,
            Keystore::Disabled => Backends::Disabled,
        }
    }

    /// The entries of an in-process keystore, as address to URL.
    pub open spec fn entries(&self) -> Map<Seq<char>, Seq<char>>
        recommends
            self is Internal,
    {
        self->Internal_0@.map_values(|v: String| v@)
    }

    /// Builds the keystore that `config` selects. A remote backend without
    /// connection settings is a configuration error, reported here rather
    /// than on first use.
    pub fn new(config: &Proxy) -> (r: Result<Keystore, KeystoreError>)
        ensures
            config.backend == Backends::Disabled ==> r matches Ok(Keystore::Disabled),
            config.backend == Backends::Internal ==> (r matches Ok(k) && k is Internal
                && k.entries() == Map::<Seq<char>, Seq<char>>::empty()),
            config.backend == Backends::Redis && config.redis is None ==> r matches Err(
                KeystoreError::InvalidConfig(Backends::Redis),
            ),
            config.backend == Backends::Redis && config.redis is Some ==> match r {
                Ok(k) => k is Redis,
                Err(e) => e is RedisError,
            },
    {
        match config.backend {
            Backends::Disabled => Ok(Keystore::Disabled),
            Backends::Internal => {
                let map = StringHashMap::<String>::new();
                proof {
                    assert(map@.map_values(|v: String| v@) =~= Map::<Seq<char>, Seq<char>>::empty());
                }
                Ok(Keystore::Internal(map))
            },
            Backends::Redis => match &config.redis {
                Some(redis) => match open_redis(redis.uri.as_str()) {
                    Ok(client) => Ok(Keystore::Redis(client)),
                    Err(e) => Err(KeystoreError::RedisError(e)),
                },
                None => Err(KeystoreError::InvalidConfig(Backends::Redis)),
            },
        }
    }

    /// Records `url` under `id`. The in-process map does so at once; with
    /// caching disabled this does nothing; a remote backend leaves the write
    /// to the caller.
    pub fn put(&mut self, id: String, url: String) -> (r: Access<()>)
        ensures
            final(self).kind() == old(self).kind(),
            *old(self) is Internal ==> r is Local && final(self).entries() == old(
                self,
            ).entries().insert(id@, url@),
            *old(self) is Disabled ==> r is Local,
            *old(self) is Redis ==> r is Remote,
    {
        match self {
            Keystore::Internal(map) => {
                let ghost before = map@;
                map.insert(id, url);
                proof {
                    assert(map@.map_values(|v: String| v@) =~= before.map_values(|v: String| v@).insert(
                        id@,
                        url@,
                    ));
                }
                Access::Local(())
            },
            Keystore::Redis(_) => Access::Remote,
            Keystore::Disabled => Access::Local(()),
        }
    }

    /// Looks up the URL recorded under `id`. With caching disabled nothing is
    /// recorded; a remote backend leaves the read to the caller.
    pub fn get(&self, id: &str) -> (r: Access<Option<String>>)
        ensures
            *self is Internal ==> if self.entries().contains_key(id@) {
                r matches Access::Local(Some(u)) && u@ == self.entries()[id@]
            } else {
                r matches Access::Local(None)
            },
            *self is Disabled ==> r matches Access::Local(None),
            *self is Redis ==> r is Remote,
    {
        match self {
            Keystore::Internal(map) => match map.get(id) {
                Some(url) => Access::Local(Some(url.clone())),
                None => Access::Local(None),
            },
            Keystore::Redis(_) => Access::Remote,
            Keystore::Disabled => Access::Local(None),
        }
    }
}

/// Relies on `redis::Client::open`: parses the connection URI without
/// connecting, and fails on a URI it cannot read.
#[verifier::external_body]
fn open_redis(uri: &str) -> (r: Result<redis::Client, redis::RedisError>) {
    redis::Client::open(uri)
}


} // verus!
