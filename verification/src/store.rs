//! The credential store: the persisted cookie jar.
//!
//! The jar itself is reqwest_cookie_store's `CookieStore`, the same object
//! the HTTP transport uses as its cookie provider. This module sees it
//! through a small model: `jar_contents`, the map from a cookie's
//! (domain, path, name) coordinates to its value and to whether it carries
//! an expiry moment. The file system stays outside; `Store::load` takes the
//! store file's contents, or `None` for a missing file, and `Session::save`
//! (in the session module) hands the serialized jar back as bytes.

use reqwest_cookie_store::CookieStore;
use vstd::prelude::*;

verus! {

#[verifier::external_type_specification]
#[verifier::external_body]
pub struct ExCookieStore(CookieStore);

/// The cookies a jar holds: a map from (domain, path, name) to the pair of
/// the cookie's value and whether the cookie carries an expiry moment (an
/// Expires or Max-Age attribute). A cookie without one lasts until the jar
/// is dropped and is never withheld as expired. A jar holds at most one
/// cookie per key, so a map is the whole picture; update-on-set is
/// overwriting the key's entry.
pub uninterp spec fn jar_contents(s: CookieStore) -> Map<
    (Seq<char>, Seq<char>, Seq<char>),
    (Seq<char>, bool),
>;

/// Whether serializing this jar succeeds. Serialization writes into memory
/// and formats each cookie's own data, so the outcome depends on the jar's
/// value alone.
pub uninterp spec fn jar_serializable(s: CookieStore) -> bool;

/// The jar contents a serialized store encodes, or `None` when the bytes
/// are not a valid serialized jar.
pub uninterp spec fn jar_of_json(bytes: Seq<u8>) -> Option<
    Map<(Seq<char>, Seq<char>, Seq<char>), (Seq<char>, bool)>,
>;

/// The contents of a jar with nothing in it.
pub open spec fn empty_jar() -> Map<(Seq<char>, Seq<char>, Seq<char>), (Seq<char>, bool)> {
    Map::empty()
}

/// Whether the jar holds a cookie under this key.
pub open spec fn jar_has_key(s: CookieStore, k: (Seq<char>, Seq<char>, Seq<char>)) -> bool {
    jar_contents(s).dom().contains(k)
}

/// The value of the jar's cookie under this key.
pub open spec fn jar_value(s: CookieStore, k: (Seq<char>, Seq<char>, Seq<char>)) -> Seq<char> {
    jar_contents(s)[k].0
}

/// Whether the jar holds a cookie under this key that carries no expiry
/// moment, so that no lookup can ever withhold it as expired.
pub open spec fn jar_never_expires(s: CookieStore, k: (Seq<char>, Seq<char>, Seq<char>)) -> bool {
    jar_has_key(s, k) && !jar_contents(s)[k].1
}

/// Why the persisted jar could not be read or written back.
#[derive(Clone, Copy, Debug, PartialEq, Eq, Structural)]
pub enum StoreError {
    /// The store file's contents are not valid serialized jar data. This is
    /// surfaced, never masked by falling back to an empty jar.
    InvalidFormat,
    /// The jar could not be serialized.
    Serialize,
}

impl StoreError {
    /// The context line reported for this failure.
    pub fn message(&self) -> (r: String)
        ensures
            *self == StoreError::InvalidFormat ==> r@ == "Invalid cookie store file"@,
            *self == StoreError::Serialize ==> r@ == "Failed to serialize cookie store"@,
    {
        match self {
            StoreError::InvalidFormat => String::from_str("Invalid cookie store file"),
            StoreError::Serialize => String::from_str("Failed to serialize cookie store"),
        }
    }
}

/// Relies on cookie_store's CookieStore::new: a newly created jar holds no
/// cookies.
#[verifier::external_body]
pub(crate) fn jar_new() -> (r: CookieStore)
    ensures
        jar_contents(r) == empty_jar(),
{
    CookieStore::new()
}

/// Relies on cookie_store's CookieStore::get: it looks the cookie up under
/// exactly this (domain, path, name) key, and withholds it only once it has
/// expired. So: what it returns is the jar's entry under that key, an
/// absent key returns nothing, and a cookie without an expiry moment —
/// which never expires — is always returned.
#[verifier::external_body]
pub(crate) fn jar_get(store: &CookieStore, domain: &str, path: &str, name: &str) -> (r: Option<
    String,
>)
    ensures
        (r matches Some(v) ==> jar_has_key(*store, (domain@, path@, name@)) && jar_value(
            *store,
            (domain@, path@, name@),
        ) == v@),
        (!jar_has_key(*store, (domain@, path@, name@)) ==> r is None),
        (jar_never_expires(*store, (domain@, path@, name@)) ==> r is Some && r->0@ == jar_value(
            *store,
            (domain@, path@, name@),
        )),
{
    store.get(domain, path, name).map(|c| c.value().to_string())
}

/// Relies on cookie_store's CookieStore::load_json_all: it reads one
/// serialized cookie per line, keeps every cookie including expired ones —
/// so the loaded contents are a function of the bytes alone — and fails
/// exactly when a line is not a serialized cookie; empty input yields an
/// empty jar.
#[allow(deprecated)]
#[verifier::external_body]
pub(crate) fn jar_from_json(bytes: &[u8]) -> (r: Result<CookieStore, StoreError>)
    ensures
        r is Ok <==> jar_of_json(bytes@) is Some,
        (r matches Ok(s) ==> jar_of_json(bytes@) == Some(jar_contents(s))),
        bytes@.len() == 0 ==> r is Ok && jar_contents(r->Ok_0) == empty_jar(),
        (r matches Err(e) ==> e == StoreError::InvalidFormat),
{
    match CookieStore::load_json_all(bytes) {
        Ok(s) => Ok(s),
        Err(_) => Err(StoreError::InvalidFormat),
    }
}

/// Relies on cookie_store's CookieStore::save_incl_expired_and_nonpersistent_json:
/// it writes every cookie in the jar, one serialized cookie per line, in the
/// form `load_json_all` reads back to exactly these contents — each line
/// round-trips through the cookie's own string and fields. The every-cookie
/// form is the one that keeps a session cookie without an expiry across the
/// round trip.
#[allow(deprecated)]
#[verifier::external_body]
pub(crate) fn jar_to_json(store: &CookieStore) -> (r: Result<Vec<u8>, StoreError>)
    ensures
        r is Ok <==> jar_serializable(*store),
        (r matches Ok(b) ==> jar_of_json(b@) == Some(jar_contents(*store))),
        (r matches Err(e) ==> e == StoreError::Serialize),
{
    let mut buf: Vec<u8> = Vec::new();
    match store.save_incl_expired_and_nonpersistent_json(&mut buf) {
        Ok(()) => Ok(buf),
        Err(_) => Err(StoreError::Serialize),
    }
}

pub struct Store;

impl Store {
    /// Loads the credential jar from the store file's contents. A missing
    /// file (`None`) yields an empty, usable jar and never an error; valid
    /// contents recover exactly the cookies they encode; invalid contents
    /// are a fatal error, so corruption surfaces instead of being silently
    /// replaced by an empty jar.
    pub fn load(file: Option<&[u8]>) -> (r: Result<CookieStore, StoreError>)
        ensures
            file is None ==> (r matches Ok(s) && jar_contents(s) == empty_jar()),
            (file matches Some(b) ==> (r is Ok <==> jar_of_json(b@) is Some)),
            (file matches Some(b) ==> jar_of_json(b@) matches Some(m) ==> (r matches Ok(s)
                && jar_contents(s) == m)),
            (file matches Some(b) ==> b@.len() == 0 ==> (r matches Ok(s) && jar_contents(s)
                == empty_jar())),
            r is Err ==> (file matches Some(b) && jar_of_json(b@) is None),
            (r matches Err(e) ==> e == StoreError::InvalidFormat),
    {
        match file {
            None => Ok(jar_new()),
            Some(bytes) => jar_from_json(bytes),
        }
    }
}

} // verus!
