//! Registering origin URLs with the keystore, and serving them back.
//!
//! Work against a remote backend and fetches from origin are network round
//! trips; the functions here decide everything around them and hand the
//! round trip itself to the caller as a step to perform.

use crate::address::{address, content_address};
use crate::error::{Error, KeystoreError};
use crate::keystore::{Access, Backends, Keystore};
use vstd::prelude::*;

verus! {

/// The public link under which the proxy serves the media at `url`.
pub open spec fn proxy_url(base_url: Seq<char>, url: Seq<char>) -> Seq<char> {
    base_url + "/proxy/"@ + content_address(url)
}

/// The entries of an in-process keystore once `url` is stored in it.
pub open spec fn stored(entries: Map<Seq<char>, Seq<char>>, url: Seq<char>) -> Map<
    Seq<char>,
    Seq<char>,
> {
    entries.insert(content_address(url), url)
}

/// Storing a URL twice leaves the entries as storing it once does, and
/// after either the URL's content address resolves to the URL. (The link
/// handed out, `proxy_url`, depends on the base URL and the URL alone.)
pub proof fn lemma_store_idempotent(entries: Map<Seq<char>, Seq<char>>, url: Seq<char>)
    ensures
        stored(stored(entries, url), url) == stored(entries, url),
        stored(entries, url).contains_key(content_address(url)),
        stored(entries, url)[content_address(url)] == url,
{
    assert(stored(stored(entries, url), url) =~= stored(entries, url));
}

/// The id at the end of the link handed out for a stored URL is the key
/// under which the keystore then holds that URL, whatever else it held.
pub proof fn lemma_round_trip(entries: Map<Seq<char>, Seq<char>>, base_url: Seq<char>, url: Seq<char>)
    ensures
        ({
            let link = proxy_url(base_url, url);
            let id = link.subrange((base_url.len() + "/proxy/"@.len()) as int, link.len() as int);
            &&& id == content_address(url)
            &&& stored(entries, url).contains_key(id)
            &&& stored(entries, url)[id] == url
        }),
{
    let link = proxy_url(base_url, url);
    let prefix = base_url + "/proxy/"@;
    assert(link.subrange(prefix.len() as int, link.len() as int) =~= content_address(url));
}

/// Builds `{base_url}/proxy/{id}`.
pub fn public_url(base_url: &str, id: &str) -> (r: String)
    ensures
        r@ == base_url@ + "/proxy/"@ + id@,
{
    let mut r = String::from_str(base_url);
    r.append("/proxy/");
    r.append(id);
    r
}

/// What storing a URL comes to.
pub enum StoreStep {
    /// Storing is finished, with this result.
    Done(Result<String, Error>),
    /// The backend is remote: write `id` → `url` there, then hand the
    /// outcome to [`complete_store`].
    Write { id: String, url: String },
}

/// Registers `url` with the keystore and gives the link to hand out for it.
///
/// With caching disabled the URL itself is handed out. The in-process map
/// records the URL under its content address; storing a URL again writes the
/// same entry again.
pub fn store(url: &str, base_url: &str, keystore: &mut Keystore) -> (r: StoreStep)
    ensures
        final(keystore).kind() == old(keystore).kind(),
        *old(keystore) is Disabled ==> (r matches StoreStep::Done(Ok(s)) && s@ == url@),
        *old(keystore) is Internal ==> {
            &&& r matches StoreStep::Done(Ok(s)) && s@ == proxy_url(base_url@, url@)
            &&& final(keystore).entries() == stored(old(keystore).entries(), url@)
        },
        *old(keystore) is Redis ==> (r matches StoreStep::Write { id, url: u } && id@
            == content_address(url@) && u@ == url@),
{
    let id = address(url);
    match keystore.put(id.clone(), String::from_str(url)) {
        Access::Local(()) => if keystore.backend() == Backends::Disabled {
            StoreStep::Done(Ok(String::from_str(url)))
        } else {
            StoreStep::Done(Ok(public_url(base_url, id.as_str())))
        },
        Access::Remote => StoreStep::Write { id, url: String::from_str(url) },
    }
}

/// Finishes storing `url` in a remote backend, given the outcome of the write.
pub fn complete_store(url: &str, base_url: &str, written: Result<(), KeystoreError>) -> (r: Result<
    String,
    Error,
>)
    ensures
        written is Ok ==> (r matches Ok(s) && s@ == proxy_url(base_url@, url@)),
        written matches Err(e) ==> r == Err::<String, Error>(Error::Keystore(e)),
{
    match written {
        Ok(()) => {
            let id = address(url);
            Ok(public_url(base_url, id.as_str()))
        },
        Err(e) => Err(Error::Keystore(e)),
    }
}

/// Where the origin URL for an id is to be found.
pub enum Lookup {
    /// The keystore holds this origin URL for the id.
    Found(String),
    /// The backend is remote: read the id there, then hand the outcome to
    /// [`complete_lookup`].
    Read(String),
}

/// Resolves a proxy id through the keystore.
pub fn resolve(id: &str, keystore: &Keystore) -> (r: Result<Lookup, Error>)
    ensures
        *keystore is Disabled ==> r matches Err(Error::NoProxy),
        *keystore is Internal ==> if keystore.entries().contains_key(id@) {
            r matches Ok(Lookup::Found(u)) && u@ == keystore.entries()[id@]
        } else {
            r matches Err(Error::ObjectNotFound)
        },
        *keystore is Redis ==> (r matches Ok(Lookup::Read(k)) && k@ == id@),
{
    match keystore.get(id) {
        Access::Local(Some(url)) => Ok(Lookup::Found(url)),
        Access::Local(None) => if keystore.backend() == Backends::Disabled {
            Err(Error::NoProxy)
        } else {
            Err(Error::ObjectNotFound)
        },
        Access::Remote => Ok(Lookup::Read(String::from_str(id))),
    }
}

/// Finishes resolving an id in a remote backend, given the outcome of the read.
pub fn complete_lookup(read: Result<Option<String>, KeystoreError>) -> (r: Result<String, Error>)
    ensures
        read matches Ok(Some(u)) ==> r == Ok::<String, Error>(u),
        read matches Ok(None) ==> r matches Err(Error::ObjectNotFound),
        read matches Err(e) ==> r == Err::<String, Error>(Error::Keystore(e)),
{
    match read {
        Ok(Some(url)) => Ok(url),
        Ok(None) => Err(Error::ObjectNotFound),
        Err(e) => Err(Error::Keystore(e)),
    }
}

/// The MIME type that content sniffing finds in a byte string, if any.
pub uninterp spec fn sniffed_mime(bytes: Seq<u8>) -> Option<Seq<char>>;

/// Relies on `infer::get`: the MIME type of the first matcher that recognises
/// the magic bytes at the start of the buffer, or nothing.
#[verifier::external_body]
fn sniff(bytes: &[u8]) -> (r: Option<String>)
    ensures
        match r {
            Some(m) => sniffed_mime(bytes@) == Some(m@),
            None => sniffed_mime(bytes@) is None,
        },
{
    infer::get(bytes).map(|t| t.mime_type().to_string())
}

/// Answers with media whose content type was sniffed as `mime`: the bytes
/// unchanged with that type, or, where no type was recognised, an error.
pub fn respond(media: Vec<u8>, mime: Option<String>) -> (r: Result<(Vec<u8>, String), Error>)
    ensures
        match mime {
            Some(m) => r matches Ok((b, t)) && b@ == media@ && t@ == m@,
            None => r matches Err(Error::UnidentifiableMime),
        },
{
    match mime {
        Some(m) => Ok((media, m)),
        None => Err(Error::UnidentifiableMime),
    }
}

/// Serves media fetched from origin: the bytes go back unchanged, with the
/// content type sniffed from the bytes themselves rather than taken from any
/// origin header.
pub fn serve(media: Vec<u8>) -> (r: Result<(Vec<u8>, String), Error>)
    ensures
        match sniffed_mime(media@) {
            Some(m) => r matches Ok((b, t)) && b@ == media@ && t@ == m,
            None => r matches Err(Error::UnidentifiableMime),
        },
{
    let mime = sniff(media.as_slice());
    respond(media, mime)
}

} // verus!
