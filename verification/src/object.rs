//! Stored objects, and the concurrent hash map that holds them.

use crate::clock::NANOS_PER_SEC;
use crate::sealing::{open, opened, KEY_SIZE};
use std::hash::BuildHasher;
use vstd::prelude::*;

verus! {

/// An object held in the in-memory store, waiting to be taken by a consumer.
pub struct StoredObject {
    /// When the object was stored, in nanoseconds on the clock of its storage. It is used to
    /// enforce `max_age_secs`.
    pub created: u128,
    /// The `Content-Type` value supplied by the uploader.
    pub content_type: String,
    /// AES-256-GCM nonce used when sealing `bytes`. Must be supplied to open them.
    pub nonce: [u8; 12],
    /// AES-256-GCM ciphertext of the uploaded body. The key is never stored here.
    pub bytes: Vec<u8>,
}

/// What a [`StoredObject`] holds.
#[verifier::ext_equal]
pub ghost struct ObjectModel {
    pub created: u128,
    pub content_type: Seq<char>,
    pub nonce: Seq<u8>,
    pub bytes: Seq<u8>,
}

impl View for StoredObject {
    type V = ObjectModel;

    open spec fn view(&self) -> ObjectModel {
        ObjectModel {
            created: self.created,
            content_type: self.content_type@,
            nonce: self.nonce@,
            bytes: self.bytes@,
        }
    }
}

impl ObjectModel {
    /// Whether the object has been in storage longer than `max_age` seconds.
    pub open spec fn is_too_old(self, now: u128, max_age: u64) -> bool {
        now - self.created > max_age * NANOS_PER_SEC
    }

    /// The content type and the message of the object, if it is not too old and `key` opens it.
    pub open spec fn unlocked(self, key: Seq<u8>, now: u128, max_age: u64) -> Option<
        (Seq<char>, Seq<u8>),
    > {
        if self.is_too_old(now, max_age) {
            None
        } else {
            match opened(key, self.nonce, self.bytes) {
                Some(message) => Some((self.content_type, message)),
                None => None,
            }
        }
    }
}

/// What a content type and a message hold.
pub open spec fn message_view(message: Option<(String, Vec<u8>)>) -> Option<(Seq<char>, Seq<u8>)> {
    match message {
        Some((content_type, message)) => Some((content_type@, message@)),
        None => None,
    }
}

impl StoredObject {
    /// Returns `true` if the object has been in storage longer than `max_age` seconds.
    pub fn is_too_old(&self, now: u128, max_age: u64) -> (too_old: bool)
        ensures
            too_old == self@.is_too_old(now, max_age),
    {
        self.created < now && now - self.created > max_age as u128 * NANOS_PER_SEC
    }

    /// Returns `true` if a pruning at `now` keeps the object: it is not too old.
    pub fn is_kept(&self, now: u128, max_age: u64) -> (kept: bool)
        ensures
            kept == !self@.is_too_old(now, max_age),
    {
        !self.is_too_old(now, max_age)
    }

    /// Opens the object with `key`, unless it is too old.
    pub fn unlock(&self, key: &[u8], now: u128, max_age: u64) -> (message: Option<(String, Vec<u8>)>)
        requires
            key@.len() == KEY_SIZE,
        ensures
            message_view(message) == self@.unlocked(key@, now, max_age),
    {
        if self.is_too_old(now, max_age) {
            None
        } else {
            match open(key, &self.nonce, self.bytes.as_slice()) {
                Ok(message) => Some((self.content_type.clone(), message)),
                Err(_) => None,
            }
        }
    }
}

/// The concurrent hash map of `scc`.
#[verifier::external_type_specification]
#[verifier::external_body]
#[verifier::reject_recursive_types(K)]
#[verifier::reject_recursive_types(V)]
#[verifier::reject_recursive_types(H)]
pub struct ExHashMap<K, V, H: BuildHasher>(scc::HashMap<K, V, H>);

/// The objects in `map`, each under its identifier.
pub uninterp spec fn contents(map: scc::HashMap<u128, StoredObject>) -> Map<u128, ObjectModel>;

/// No objects at all.
pub open spec fn no_objects() -> Map<u128, ObjectModel> {
    Map::empty()
}

/// The objects that are not too old.
pub open spec fn pruned(objects: Map<u128, ObjectModel>, now: u128, max_age: u64) -> Map<
    u128,
    ObjectModel,
> {
    objects.restrict(Set::new(|id: u128| !objects[id].is_too_old(now, max_age)))
}

/// Calls `scc::HashMap::new`: a map without objects.
#[verifier::external_body]
pub(crate) fn new_map() -> (map: scc::HashMap<u128, StoredObject>)
    ensures
        contents(map) == no_objects(),
{
    scc::HashMap::new()
}

/// Calls `scc::HashMap::len`: the number of objects. It is exact while nobody else has the
/// map in hand, which is why the map is borrowed mutably; it stays as it is.
#[verifier::external_body]
pub(crate) fn map_len(map: &mut scc::HashMap<u128, StoredObject>) -> (count: usize)
    ensures
        contents(*final(map)) == contents(*old(map)),
        count == contents(*old(map)).len(),
{
    map.len()
}

/// Calls `scc::HashMap::contains_sync`: whether there is an object under `id`.
#[verifier::external_body]
pub(crate) fn map_contains(map: &scc::HashMap<u128, StoredObject>, id: u128) -> (found: bool)
    ensures
        found == contents(*map).contains_key(id),
{
    map.contains_sync(&id)
}

/// Calls `scc::HashMap::insert_sync`: puts `object` under `id`, unless there is one already,
/// which then stays.
#[verifier::external_body]
pub(crate) fn map_insert(
    map: &mut scc::HashMap<u128, StoredObject>,
    id: u128,
    object: StoredObject,
) -> (inserted: Result<(), (u128, StoredObject)>)
    ensures
        match inserted {
            Ok(()) => {
                &&& !contents(*old(map)).contains_key(id)
                &&& contents(*final(map)) == contents(*old(map)).insert(id, object@)
            },
            Err(rejected) => {
                &&& contents(*old(map)).contains_key(id)
                &&& contents(*final(map)) == contents(*old(map))
                &&& rejected == (id, object)
            },
        },
{
    map.insert_sync(id, object)
}

/// Calls `scc::HashMap::read_sync` with a closure that opens the object under `id`: what the
/// closure makes of the object, if there is one.
#[verifier::external_body]
pub(crate) fn map_unlock(
    map: &scc::HashMap<u128, StoredObject>,
    id: u128,
    key: &[u8],
    now: u128,
    max_age: u64,
) -> (read: Option<Option<(String, Vec<u8>)>>)
    requires
        key@.len() == KEY_SIZE,
    ensures
        match read {
            Some(message) => {
                &&& contents(*map).contains_key(id)
                &&& message_view(message) == contents(*map)[id].unlocked(key@, now, max_age)
            },
            None => !contents(*map).contains_key(id),
        },
{
    map.read_sync(&id, |_, object| object.unlock(key, now, max_age))
}

/// Calls `scc::HashMap::remove_sync`: takes the object under `id` out, if there is one.
#[verifier::external_body]
pub(crate) fn map_remove(map: &mut scc::HashMap<u128, StoredObject>, id: u128) -> (removed: Option<
    (u128, StoredObject),
>)
    ensures
        contents(*final(map)) == contents(*old(map)).remove(id),
        match removed {
            Some((found, object)) => {
                &&& found == id
                &&& contents(*old(map)).contains_key(id)
                &&& object@ == contents(*old(map))[id]
            },
            None => !contents(*old(map)).contains_key(id),
        },
{
    map.remove_sync(&id)
}

/// Calls `scc::HashMap::retain_sync` with a closure that tells the objects to keep: those stay,
/// and no others.
#[verifier::external_body]
pub(crate) fn map_prune(map: &mut scc::HashMap<u128, StoredObject>, now: u128, max_age: u64)
    ensures
        contents(*final(map)) == pruned(contents(*old(map)), now, max_age),
{
    map.retain_sync(|_, object| object.is_kept(now, max_age));
}

} // verus!
