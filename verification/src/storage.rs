//! The storage: how objects are stored, taken and pruned.

use crate::clock::{current_instant, law_readings, nanos_since, was_read};
use crate::config::Config;
use crate::dummy::{generate_dummy_object, is_drawn_dummy, is_dummy_object};
use crate::hexadecimal::{decode_hex, encode_hex, hex_text, hex_value};
use crate::identifier::{
    count_uuid, counted_uuid, format_uuid, is_drawn_uuid, is_random_uuid, law_counted_uuids,
    law_drawn_uuids, parse_uuid, random_uuid, uuid_text, uuid_value,
};
use crate::object::{
    contents, map_contains, map_insert, map_len, map_prune, map_remove, map_unlock, message_view,
    new_map, no_objects, pruned, ObjectModel, StoredObject,
};
use crate::reply::{
    ok_reply, text_reply, Outcome, OutcomeModel, Reply, Tally, BAD_REQUEST, INSUFFICIENT_STORAGE,
    INTERNAL_SERVER_ERROR, OK,
};
use crate::sealing::{
    generate_key, generate_nonce, is_drawn_key, is_drawn_nonce, law_drawn_keys, law_drawn_nonces,
    opened, seal, sealed, KEY_SIZE, MAX_MESSAGE_SIZE, TAG_SIZE,
};
use actix_web::rt::time::Instant;
use async_lock::SemaphoreGuard;
use vstd::prelude::*;

verus! {

/// The text by which an object is asked for: its identifier and its key, with a slash between.
pub open spec fn token(id: u128, key: Seq<u8>) -> Seq<char> {
    uuid_text(id) + seq!['/'] + hex_text(key)
}

/// The key that `text` spells, if it spells one of the right size.
pub open spec fn key_value(text: Seq<char>) -> Option<Seq<u8>> {
    match hex_value(text) {
        Some(key) if key.len() == KEY_SIZE => Some(key),
        _ => None,
    }
}

/// A request that came to nothing.
pub open spec fn refused(status: u16, text: Seq<char>) -> OutcomeModel {
    OutcomeModel {
        reply: text_reply(status, text),
        bytes_stored: 0,
        objects_stored: 0,
        bytes_taken: 0,
        objects_taken: 0,
    }
}

/// An object of `size` bytes was stored, and is to be asked for by `id` and `key`.
pub open spec fn stored(id: u128, key: Seq<u8>, size: nat) -> OutcomeModel {
    OutcomeModel {
        reply: text_reply(OK, token(id, key)),
        bytes_stored: size,
        objects_stored: 1,
        bytes_taken: 0,
        objects_taken: 0,
    }
}

/// An object was handed out.
pub open spec fn handed_out(content_type: Seq<char>, message: Seq<u8>) -> OutcomeModel {
    OutcomeModel {
        reply: ok_reply(content_type, message),
        bytes_stored: 0,
        objects_stored: 0,
        bytes_taken: message.len(),
        objects_taken: 1,
    }
}

/// A dummy payload was handed out.
pub open spec fn missed(dummy: Seq<u8>) -> OutcomeModel {
    OutcomeModel {
        reply: ok_reply("text/plain"@, dummy),
        bytes_stored: 0,
        objects_stored: 0,
        bytes_taken: dummy.len(),
        objects_taken: 0,
    }
}

/// The refusal of an object of `size` bytes by a storage of `count` objects, if it is refused.
pub open spec fn refusal_of(config: Config, size: nat, count: nat) -> Option<OutcomeModel> {
    if size > config.max_object_size {
        Some(refused(BAD_REQUEST, "Too big"@))
    } else if count >= config.max_objects {
        Some(refused(INSUFFICIENT_STORAGE, "Too many"@))
    } else {
        None
    }
}

/// The content type of an object that came with `content_type`.
pub open spec fn type_or_default(content_type: Option<Seq<char>>) -> Seq<char> {
    match content_type {
        Some(content_type) => content_type,
        None => "application/octet-stream"@,
    }
}

/// The object that is kept of `message`, if it can be sealed.
pub open spec fn object_of(
    content_type: Option<Seq<char>>,
    message: Seq<u8>,
    key: Seq<u8>,
    nonce: Seq<u8>,
    created: u128,
) -> Option<ObjectModel> {
    if message.len() <= MAX_MESSAGE_SIZE {
        Some(
            ObjectModel {
                created,
                content_type: type_or_default(content_type),
                nonce,
                bytes: sealed(key, nonce, message),
            },
        )
    } else {
        None
    }
}

/// The objects after `object` was put under `id`, and the outcome of that. Without an
/// object, without an identifier, or where the identifier is in use, nothing changes.
pub open spec fn keep_step(
    objects: Map<u128, ObjectModel>,
    id: Option<u128>,
    key: Seq<u8>,
    object: Option<ObjectModel>,
    size: nat,
) -> (Map<u128, ObjectModel>, OutcomeModel) {
    match (object, id) {
        (Some(object), Some(id)) if !objects.contains_key(id) => (
            objects.insert(id, object),
            stored(id, key, size),
        ),
        _ => (objects, refused(INTERNAL_SERVER_ERROR, "Oops"@)),
    }
}

/// The objects after a request to store `message`, and the outcome of the request.
pub open spec fn store_step(
    objects: Map<u128, ObjectModel>,
    config: Config,
    content_type: Option<Seq<char>>,
    message: Seq<u8>,
    key: Seq<u8>,
    nonce: Seq<u8>,
    created: u128,
    id: Option<u128>,
) -> (Map<u128, ObjectModel>, OutcomeModel) {
    match refusal_of(config, message.len(), objects.len()) {
        Some(refusal) => (objects, refusal),
        None => keep_step(
            objects,
            id,
            key,
            object_of(content_type, message, key, nonce, created),
            message.len(),
        ),
    }
}

/// Whether a key, a nonce and an identifier can have been drawn for a new object. Among
/// finitely many objects there is always an identifier.
pub open spec fn is_draw(
    objects: Map<u128, ObjectModel>,
    key: Seq<u8>,
    nonce: Seq<u8>,
    id: Option<u128>,
) -> bool {
    &&& key.len() == KEY_SIZE
    &&& nonce.len() == 12
    &&& match id {
        Some(id) => is_random_uuid(id) && !objects.contains_key(id),
        None => !objects.dom().finite(),
    }
}

/// Whether `after` and `outcome` follow on a request to store `message` for which `key`,
/// `nonce` and `id` were drawn.
pub open spec fn is_store_with(
    objects: Map<u128, ObjectModel>,
    config: Config,
    content_type: Option<Seq<char>>,
    message: Seq<u8>,
    key: Seq<u8>,
    nonce: Seq<u8>,
    created: u128,
    id: Option<u128>,
    after: Map<u128, ObjectModel>,
    outcome: OutcomeModel,
) -> bool {
    &&& is_draw(objects, key, nonce, id)
    &&& (after, outcome) == store_step(
        objects,
        config,
        content_type,
        message,
        key,
        nonce,
        created,
        id,
    )
    &&& outcome.reply.status == OK ==> holds_sealed(
        after,
        id->0,
        key,
        type_or_default(content_type),
        message,
    )
}

/// Whether `after` and `outcome` follow on a request to store `message` at the time `created`,
/// whatever was drawn for it.
pub open spec fn is_store(
    objects: Map<u128, ObjectModel>,
    config: Config,
    content_type: Option<Seq<char>>,
    message: Seq<u8>,
    created: u128,
    after: Map<u128, ObjectModel>,
    outcome: OutcomeModel,
) -> bool {
    match refusal_of(config, message.len(), objects.len()) {
        Some(refusal) => after == objects && outcome == refusal,
        None => exists|key: Seq<u8>, nonce: Seq<u8>, id: Option<u128>|
            #[trigger] is_store_with(
                objects,
                config,
                content_type,
                message,
                key,
                nonce,
                created,
                id,
                after,
                outcome,
            ),
    }
}

/// Whether `id` was drawn, or there is one that was drawn and is in use.
pub open spec fn is_drawn_for(objects: Map<u128, ObjectModel>, id: u128) -> bool {
    is_drawn_uuid(id) || exists|drawn: u128| #[trigger]
        is_drawn_uuid(drawn) && objects.contains_key(drawn)
}

/// Whether `after` and `outcome` follow on a request to store `message` at the time `created`,
/// for which a key, a nonce and an identifier were drawn.
pub open spec fn is_drawn_store(
    objects: Map<u128, ObjectModel>,
    config: Config,
    content_type: Option<Seq<char>>,
    message: Seq<u8>,
    created: u128,
    after: Map<u128, ObjectModel>,
    outcome: OutcomeModel,
) -> bool {
    exists|key: Seq<u8>, nonce: Seq<u8>, id: Option<u128>|
        {
            &&& #[trigger] is_store_with(
                objects,
                config,
                content_type,
                message,
                key,
                nonce,
                created,
                id,
                after,
                outcome,
            )
            &&& is_drawn_key(key)
            &&& is_drawn_nonce(nonce)
            &&& id matches Some(id) ==> is_drawn_for(objects, id)
        }
}

/// Whether an object of `size` bytes goes into a storage of `count` objects.
pub open spec fn fits(config: Config, size: nat, count: nat) -> bool {
    &&& size <= config.max_object_size
    &&& count < config.max_objects
    &&& size <= MAX_MESSAGE_SIZE
}

/// Whether no object was stored after `now`.
pub open spec fn none_after(objects: Map<u128, ObjectModel>, now: u128) -> bool {
    forall|id: u128| objects.contains_key(id) ==> (#[trigger] objects[id]).created <= now
}

/// Whether every object is no larger than a sealed message of `max_object_size` bytes.
pub open spec fn within_size(objects: Map<u128, ObjectModel>, max_object_size: u64) -> bool {
    forall|id: u128|
        objects.contains_key(id) ==> (#[trigger] objects[id]).bytes.len() <= max_object_size
            + TAG_SIZE
}

/// Whether the object under `id` holds `message` sealed with `key`, and its content type.
pub open spec fn holds_sealed(
    objects: Map<u128, ObjectModel>,
    id: u128,
    key: Seq<u8>,
    content_type: Seq<char>,
    message: Seq<u8>,
) -> bool {
    &&& redeemable(objects, id, key, content_type, message)
    &&& objects[id].bytes.len() == message.len() + TAG_SIZE
}

/// Whether `id` and `key` give access to `message` and its content type.
pub open spec fn redeemable(
    objects: Map<u128, ObjectModel>,
    id: u128,
    key: Seq<u8>,
    content_type: Seq<char>,
    message: Seq<u8>,
) -> bool {
    &&& key.len() == KEY_SIZE
    &&& objects.contains_key(id)
    &&& objects[id].content_type == content_type
    &&& opened(key, objects[id].nonce, objects[id].bytes) == Some(message)
}

/// The identifier, the content type and the message of the object that is asked for by
/// `id_text` and `key_text`, if there is one that is not too old and that the key opens.
pub open spec fn find(
    objects: Map<u128, ObjectModel>,
    id_text: Seq<char>,
    key_text: Seq<char>,
    now: u128,
    max_age: u64,
) -> Option<(u128, (Seq<char>, Seq<u8>))> {
    match (uuid_value(id_text), key_value(key_text)) {
        (Some(id), Some(key)) if objects.contains_key(id) => match objects[id].unlocked(
            key,
            now,
            max_age,
        ) {
            Some(message) => Some((id, message)),
            None => None,
        },
        _ => None,
    }
}

/// The objects after the message of the object under `id` was asked for, and the outcome of
/// that: the message goes out and the object goes with it, or a dummy payload goes out.
pub open spec fn hand_out_step(
    objects: Map<u128, ObjectModel>,
    id: u128,
    message: Option<(Seq<char>, Seq<u8>)>,
    dummy: Seq<u8>,
) -> (Map<u128, ObjectModel>, OutcomeModel) {
    match message {
        Some((content_type, message)) => (objects.remove(id), handed_out(content_type, message)),
        None => (objects, missed(dummy)),
    }
}

/// The objects after a request to take one, and the outcome of the request.
pub open spec fn take_step(
    objects: Map<u128, ObjectModel>,
    id_text: Seq<char>,
    key_text: Seq<char>,
    now: u128,
    max_age: u64,
    dummy: Seq<u8>,
) -> (Map<u128, ObjectModel>, OutcomeModel) {
    match find(objects, id_text, key_text, now, max_age) {
        Some((id, message)) => hand_out_step(objects, id, Some(message), dummy),
        None => (objects, missed(dummy)),
    }
}

/// Whether `after` and `outcome` follow on a request to take an object for which `dummy` was
/// drawn.
pub open spec fn is_take_with(
    objects: Map<u128, ObjectModel>,
    id_text: Seq<char>,
    key_text: Seq<char>,
    now: u128,
    max_age: u64,
    dummy: Seq<u8>,
    after: Map<u128, ObjectModel>,
    outcome: OutcomeModel,
) -> bool {
    &&& is_dummy_object(dummy)
    &&& (after, outcome) == take_step(objects, id_text, key_text, now, max_age, dummy)
}

/// Whether `after` and `outcome` follow on a request to take an object at the time `now`,
/// whatever was drawn for it.
pub open spec fn is_take(
    objects: Map<u128, ObjectModel>,
    id_text: Seq<char>,
    key_text: Seq<char>,
    now: u128,
    max_age: u64,
    after: Map<u128, ObjectModel>,
    outcome: OutcomeModel,
) -> bool {
    exists|dummy: Seq<u8>|
        #[trigger] is_take_with(objects, id_text, key_text, now, max_age, dummy, after, outcome)
}

/// Whether `after` and `outcome` follow on a request to take an object at the time `now`, for
/// which a dummy payload was drawn.
pub open spec fn is_drawn_take(
    objects: Map<u128, ObjectModel>,
    id_text: Seq<char>,
    key_text: Seq<char>,
    now: u128,
    max_age: u64,
    after: Map<u128, ObjectModel>,
    outcome: OutcomeModel,
) -> bool {
    exists|dummy: Seq<u8>|
        {
            &&& #[trigger] is_take_with(
                objects,
                id_text,
                key_text,
                now,
                max_age,
                dummy,
                after,
                outcome,
            )
            &&& is_drawn_dummy(dummy)
        }
}

/// What an optional text holds.
pub open spec fn text_view(text: Option<&str>) -> Option<Seq<char>> {
    match text {
        Some(text) => Some(text@),
        None => None,
    }
}

/// The refusal of an object of `size` bytes by a storage of `count` objects, if it is refused.
pub fn refusal(config: &Config, size: usize, count: usize) -> (refusal: Option<Outcome>)
    ensures
        match refusal_of(*config, size as nat, count as nat) {
            Some(expected) => refusal matches Some(refusal) && refusal@ == expected,
            None => refusal is None,
        },
{
    if size as u64 > config.max_object_size {
        Some(refuse(BAD_REQUEST, "Too big"))
    } else if count as u64 >= config.max_objects {
        Some(refuse(INSUFFICIENT_STORAGE, "Too many"))
    } else {
        None
    }
}

/// A request that came to nothing.
fn refuse(status: u16, text: &str) -> (outcome: Outcome)
    ensures
        outcome@ == refused(status, text@),
{
    Outcome {
        reply: Reply::text(status, text),
        tally: Tally { bytes_stored: 0, objects_stored: 0, bytes_taken: 0, objects_taken: 0 },
    }
}

/// A request that got a dummy payload.
fn miss(dummy: Vec<u8>) -> (outcome: Outcome)
    ensures
        outcome@ == missed(dummy@),
{
    let bytes_taken: u64 = dummy.len() as u64;
    Outcome {
        reply: Reply::ok("text/plain".to_string(), dummy),
        tally: Tally { bytes_stored: 0, objects_stored: 0, bytes_taken, objects_taken: 0 },
    }
}

/// The text by which an object is asked for.
fn format_token(id: u128, key: &[u8]) -> (text: String)
    requires
        key@.len() == KEY_SIZE,
    ensures
        text@ == token(id, key@),
{
    let mut text = format_uuid(id);
    text.append("/");
    text.append(encode_hex(key).as_str());
    proof {
        reveal_strlit("/");
        assert("/"@ =~= seq!['/']);
    }
    text
}

/// Where the first `count` counted identifiers are in use, there are as many objects.
proof fn lemma_counted_ids_in_use(objects: Map<u128, ObjectModel>, count: u64)
    requires
        objects.dom().finite(),
        forall|index: u64| index < count ==> objects.contains_key(#[trigger] counted_uuid(index)),
    ensures
        objects.len() >= count,
    decreases count,
{
    if count > 0 {
        let last = (count - 1) as u64;
        let rest = objects.remove(counted_uuid(last));
        assert(objects.contains_key(counted_uuid(last)));
        assert forall|index: u64| index < last implies rest.contains_key(
            #[trigger] counted_uuid(index),
        ) by {
            law_counted_uuids(index, last);
        }
        lemma_counted_ids_in_use(rest, last);
    }
}

/// The objects of a server, and the clock by which they age.
pub struct Storage {
    objects: scc::HashMap<u128, StoredObject>,
    start: Instant,
    latest: u128,
}

impl View for Storage {
    type V = Map<u128, ObjectModel>;

    closed spec fn view(&self) -> Map<u128, ObjectModel> {
        contents(self.objects)
    }
}

impl Storage {
    /// Whether the storage holds finitely many objects.
    pub open spec fn wf(self) -> bool {
        self@.dom().finite()
    }

    /// When the clock was started.
    pub closed spec fn origin(self) -> Instant {
        self.start
    }

    /// The latest reading of the clock, in nanoseconds since it was started.
    pub closed spec fn clock(self) -> u128 {
        self.latest
    }

    /// Whether the clock stands as it did in `before`.
    pub open spec fn same_clock(self, before: Self) -> bool {
        self.origin() == before.origin() && self.clock() == before.clock()
    }

    /// Whether the clock is that of `before`, and has not gone back.
    pub open spec fn later_clock(self, before: Self) -> bool {
        self.origin() == before.origin() && self.clock() >= before.clock()
    }

    /// Whether no object was stored after the latest reading of the clock.
    pub open spec fn is_dated(self) -> bool {
        none_after(self@, self.clock())
    }

    /// A storage without objects.
    pub fn new() -> (storage: Self)
        ensures
            storage.wf(),
            storage.is_dated(),
            storage@ == no_objects(),
            storage.clock() == 0,
    {
        Storage { objects: new_map(), start: current_instant(), latest: 0 }
    }

    /// The number of objects.
    pub fn len(&mut self) -> (count: usize)
        ensures
            final(self)@ == old(self)@,
            final(self).same_clock(*old(self)),
            count == old(self)@.len(),
    {
        map_len(&mut self.objects)
    }

    /// Reads the storage's clock, in nanoseconds. A reading is never before an earlier one.
    pub fn now(&mut self) -> (now: u128)
        ensures
            final(self)@ == old(self)@,
            final(self).later_clock(*old(self)),
            final(self).clock() == now,
            was_read(old(self).origin(), old(self).clock(), now),
    {
        let nanos: u128 = nanos_since(&self.start);
        proof {
            law_readings(self.start, nanos);
        }
        self.advance(nanos)
    }

    /// Sets the clock forward to `nanos`, unless that lies before the latest reading.
    pub fn advance(&mut self, nanos: u128) -> (now: u128)
        ensures
            final(self)@ == old(self)@,
            final(self).origin() == old(self).origin(),
            final(self).clock() == now,
            now == if nanos > old(self).clock() {
                nanos
            } else {
                old(self).clock()
            },
    {
        if nanos > self.latest {
            self.latest = nanos;
        }
        self.latest
    }

    /// Whether there is no object under `id`.
    pub fn is_free(&self, id: u128) -> (free: bool)
        ensures
            free == !self@.contains_key(id),
    {
        !map_contains(&self.objects, id)
    }

    /// Draws random identifiers until one is free. After `u64::MAX` draws it counts identifiers
    /// up until one is free, which there is among finitely many objects.
    pub fn fresh_id(&self) -> (id: Option<u128>)
        ensures
            match id {
                Some(id) => is_random_uuid(id) && !self@.contains_key(id) && is_drawn_for(
                    self@,
                    id,
                ),
                None => !self.wf() || self@.len() >= u64::MAX,
            },
    {
        let mut draws: u64 = u64::MAX;
        while draws > 0
            invariant
                draws < u64::MAX ==> exists|drawn: u128| #[trigger]
                    is_drawn_uuid(drawn) && self@.contains_key(drawn),
            decreases draws,
        {
            let id: u128 = random_uuid();
            proof {
                law_drawn_uuids(id);
            }
            if self.is_free(id) {
                return Some(id);
            }
            draws -= 1;
        }
        let mut index: u64 = 0;
        while index < u64::MAX
            invariant
                exists|drawn: u128| #[trigger]
                    is_drawn_uuid(drawn) && self@.contains_key(drawn),
                forall|used: u64|
                    used < index ==> self@.contains_key(#[trigger] counted_uuid(used)),
            decreases u64::MAX - index,
        {
            let id: u128 = count_uuid(index);
            if self.is_free(id) {
                proof {
                    law_counted_uuids(index, index);
                }
                return Some(id);
            }
            index += 1;
        }
        proof {
            if self.wf() {
                lemma_counted_ids_in_use(self@, index);
            }
        }
        None
    }

    /// Puts `object`, which was made of `size` bytes, under `id`. It fails without an object,
    /// without an identifier, or where the identifier is in use.
    pub fn keep(
        &mut self,
        id: Option<u128>,
        key: &[u8],
        object: Option<StoredObject>,
        size: usize,
    ) -> (outcome: Outcome)
        requires
            key@.len() == KEY_SIZE,
        ensures
            old(self).wf() ==> final(self).wf(),
            old(self).is_dated() && (object matches Some(object) ==> object.created
                <= old(self).clock()) ==> final(self).is_dated(),
            final(self).same_clock(*old(self)),
            (final(self)@, outcome@) == keep_step(
                old(self)@,
                id,
                key@,
                match object {
                    Some(object) => Some(object@),
                    None => None,
                },
                size as nat,
            ),
    {
        match (object, id) {
            (Some(object), Some(id)) => match map_insert(&mut self.objects, id, object) {
                Ok(()) => {
                    let text = format_token(id, key);
                    Outcome {
                        reply: Reply::text(OK, text.as_str()),
                        tally: Tally {
                            bytes_stored: size as u64,
                            objects_stored: 1,
                            bytes_taken: 0,
                            objects_taken: 0,
                        },
                    }
                },
                Err(_) => refuse(INTERNAL_SERVER_ERROR, "Oops"),
            },
            _ => refuse(INTERNAL_SERVER_ERROR, "Oops"),
        }
    }

    /// Seals `message` and keeps it.
    fn seal_and_keep(
        &mut self,
        content_type: Option<&str>,
        message: &[u8],
        key: &[u8],
        nonce: [u8; 12],
        created: u128,
        id: Option<u128>,
    ) -> (outcome: Outcome)
        requires
            key@.len() == KEY_SIZE,
            message@.len() + TAG_SIZE <= isize::MAX,
        ensures
            old(self).wf() ==> final(self).wf(),
            old(self).is_dated() && created <= old(self).clock() ==> final(self).is_dated(),
            final(self).same_clock(*old(self)),
            (final(self)@, outcome@) == keep_step(
                old(self)@,
                id,
                key@,
                object_of(text_view(content_type), message@, key@, nonce@, created),
                message@.len(),
            ),
            outcome@.reply.status == OK ==> holds_sealed(
                final(self)@,
                id->0,
                key@,
                type_or_default(text_view(content_type)),
                message@,
            ),
    {
        let content_type = match content_type {
            Some(content_type) => content_type.to_string(),
            None => "application/octet-stream".to_string(),
        };
        let object = match seal(key, &nonce, message) {
            Ok(bytes) => Some(StoredObject { created, content_type, nonce, bytes }),
            Err(_) => None,
        };
        self.keep(id, key, object, message.len())
    }

    /// Stores `message` under `id`, sealed with `key` and `nonce`.
    pub fn store_with(
        &mut self,
        config: &Config,
        content_type: Option<&str>,
        message: &[u8],
        key: &[u8],
        nonce: [u8; 12],
        created: u128,
        id: Option<u128>,
    ) -> (outcome: Outcome)
        requires
            key@.len() == KEY_SIZE,
            refusal_of(*config, message@.len(), old(self)@.len()) is None ==> message@.len()
                + TAG_SIZE <= isize::MAX,
        ensures
            old(self).wf() ==> final(self).wf(),
            old(self).is_dated() && created <= old(self).clock() ==> final(self).is_dated(),
            final(self).same_clock(*old(self)),
            (final(self)@, outcome@) == store_step(
                old(self)@,
                *config,
                text_view(content_type),
                message@,
                key@,
                nonce@,
                created,
                id,
            ),
            outcome@.reply.status == OK ==> holds_sealed(
                final(self)@,
                id->0,
                key@,
                type_or_default(text_view(content_type)),
                message@,
            ),
            old(self).wf() && old(self)@.len() <= config.max_objects ==> final(self)@.len()
                <= config.max_objects,
            within_size(old(self)@, config.max_object_size) ==> within_size(
                final(self)@,
                config.max_object_size,
            ),
    {
        let count: usize = self.len();
        match refusal(config, message.len(), count) {
            Some(refusal) => refusal,
            None => self.seal_and_keep(content_type, message, key, nonce, created, id),
        }
    }

    /// `PUT /store`: seals the request body with a fresh AES-256-GCM key and stores it.
    ///
    /// Replies `200 OK` with `{id}/{key_hex}` as a plain-text body on success, where `key_hex`
    /// is the 64-character hex-encoded 256-bit key needed to retrieve and open the object.
    /// Replies `400 Bad Request` when the body exceeds `max_object_size`, `507 Insufficient
    /// Storage` when storage is full, and `500 Internal Server Error` on unexpected failures.
    ///
    /// The request holds a slot of the limiter while it is served.
    pub fn store(
        &mut self,
        _slot: &SemaphoreGuard<'_>,
        config: &Config,
        content_type: Option<&str>,
        message: &[u8],
    ) -> (outcome: Outcome)
        requires
            refusal_of(*config, message@.len(), old(self)@.len()) is None ==> message@.len()
                + TAG_SIZE <= isize::MAX,
        ensures
            old(self).wf() ==> final(self).wf(),
            old(self).is_dated() ==> final(self).is_dated(),
            final(self).later_clock(*old(self)),
            refusal_of(*config, message@.len(), old(self)@.len()) is None ==> was_read(
                old(self).origin(),
                old(self).clock(),
                final(self).clock(),
            ),
            is_store(
                old(self)@,
                *config,
                text_view(content_type),
                message@,
                final(self).clock(),
                final(self)@,
                outcome@,
            ),
            refusal_of(*config, message@.len(), old(self)@.len()) is None ==> is_drawn_store(
                old(self)@,
                *config,
                text_view(content_type),
                message@,
                final(self).clock(),
                final(self)@,
                outcome@,
            ),
            old(self).wf() ==> (outcome@.reply.status == OK <==> fits(
                *config,
                message@.len(),
                old(self)@.len(),
            )),
            old(self).wf() ==> final(self)@.len() == old(self)@.len() + (if outcome@.reply.status
                == OK {
                1int
            } else {
                0
            }),
            old(self).wf() && old(self)@.len() <= config.max_objects ==> final(self)@.len()
                <= config.max_objects,
            within_size(old(self)@, config.max_object_size) ==> within_size(
                final(self)@,
                config.max_object_size,
            ),
    {
        let count: usize = self.len();
        match refusal(config, message.len(), count) {
            Some(refusal) => refusal,
            None => {
                let key = generate_key();
                let nonce = generate_nonce();
                let id = self.fresh_id();
                let created: u128 = self.now();
                let outcome = self.seal_and_keep(
                    content_type,
                    message,
                    key.as_slice(),
                    nonce,
                    created,
                    id,
                );
                proof {
                    law_drawn_keys(key@);
                    law_drawn_nonces(nonce@);
                    assert(is_store_with(
                        old(self)@,
                        *config,
                        text_view(content_type),
                        message@,
                        key@,
                        nonce@,
                        created,
                        id,
                        self@,
                        outcome@,
                    ));
                }
                outcome
            },
        }
    }

    /// Opens the object under `id` with `key`, if there is one and it is not too old.
    pub fn unlock(&self, id: u128, key: &[u8], now: u128, max_age: u64) -> (message: Option<
        (String, Vec<u8>),
    >)
        requires
            key@.len() == KEY_SIZE,
        ensures
            message_view(message) == if self@.contains_key(id) {
                self@[id].unlocked(key@, now, max_age)
            } else {
                None
            },
    {
        match map_unlock(&self.objects, id, key, now, max_age) {
            Some(message) => message,
            None => None,
        }
    }

    /// Hands out `message`, which was found under `id`, and removes its object. Without a
    /// message it hands out `dummy`.
    pub fn hand_out(
        &mut self,
        id: u128,
        message: Option<(String, Vec<u8>)>,
        dummy: Vec<u8>,
    ) -> (outcome: Outcome)
        ensures
            old(self).wf() ==> final(self).wf(),
            old(self).is_dated() ==> final(self).is_dated(),
            final(self).same_clock(*old(self)),
            (final(self)@, outcome@) == hand_out_step(
                old(self)@,
                id,
                message_view(message),
                dummy@,
            ),
    {
        match message {
            Some((content_type, message)) => {
                map_remove(&mut self.objects, id);
                let bytes_taken: u64 = message.len() as u64;
                Outcome {
                    reply: Reply::ok(content_type, message),
                    tally: Tally {
                        bytes_stored: 0,
                        objects_stored: 0,
                        bytes_taken,
                        objects_taken: 1,
                    },
                }
            },
            None => miss(dummy),
        }
    }

    /// Takes the object that is asked for by `id_text` and `key_text`, or hands out `dummy`.
    pub fn take_with(
        &mut self,
        id_text: &str,
        key_text: &str,
        now: u128,
        max_age: u64,
        dummy: Vec<u8>,
    ) -> (outcome: Outcome)
        ensures
            old(self).wf() ==> final(self).wf(),
            old(self).is_dated() ==> final(self).is_dated(),
            final(self).same_clock(*old(self)),
            (final(self)@, outcome@) == take_step(
                old(self)@,
                id_text@,
                key_text@,
                now,
                max_age,
                dummy@,
            ),
    {
        let id: u128 = match parse_uuid(id_text) {
            Ok(id) => id,
            Err(_) => {
                return miss(dummy);
            },
        };
        let key = match decode_hex(key_text) {
            Ok(key) => key,
            Err(_) => {
                return miss(dummy);
            },
        };
        if key.len() != KEY_SIZE {
            return miss(dummy);
        }
        // The object is opened before it is removed, so that a wrong key does not consume it.
        let message = self.unlock(id, key.as_slice(), now, max_age);
        self.hand_out(id, message, dummy)
    }

    /// `GET /take/{id}/{key}`: removes, opens, and returns the stored object.
    ///
    /// `key_text` must be the 64-character hex-encoded AES-256 key returned by `PUT /store`. On
    /// a hit with a valid key the message and its `Content-Type` are returned. On a miss, which
    /// an object past `max_age_secs` is too, an invalid id, an invalid key, or a failure to
    /// open the object, a random dummy payload is returned with `Content-Type: text/plain`,
    /// making all failure modes indistinguishable to observers.
    ///
    /// The request holds a slot of the limiter while it is served.
    pub fn take(
        &mut self,
        _slot: &SemaphoreGuard<'_>,
        config: &Config,
        id_text: &str,
        key_text: &str,
    ) -> (outcome: Outcome)
        ensures
            old(self).wf() ==> final(self).wf(),
            old(self).is_dated() ==> final(self).is_dated(),
            final(self).later_clock(*old(self)),
            was_read(old(self).origin(), old(self).clock(), final(self).clock()),
            is_take(
                old(self)@,
                id_text@,
                key_text@,
                final(self).clock(),
                config.max_age_secs,
                final(self)@,
                outcome@,
            ),
            is_drawn_take(
                old(self)@,
                id_text@,
                key_text@,
                final(self).clock(),
                config.max_age_secs,
                final(self)@,
                outcome@,
            ),
    {
        let dummy = generate_dummy_object();
        let ghost bytes = dummy@;
        let now: u128 = self.now();
        let outcome = self.take_with(id_text, key_text, now, config.max_age_secs, dummy);
        proof {
            assert(is_take_with(
                old(self)@,
                id_text@,
                key_text@,
                now,
                config.max_age_secs,
                bytes,
                self@,
                outcome@,
            ));
        }
        outcome
    }

    /// Removes the objects that are too old at `now`.
    pub fn prune_at(&mut self, now: u128, max_age: u64)
        ensures
            old(self).wf() ==> final(self).wf(),
            old(self).is_dated() ==> final(self).is_dated(),
            final(self).same_clock(*old(self)),
            final(self)@ == pruned(old(self)@, now, max_age),
    {
        map_prune(&mut self.objects, now, max_age);
        proof {
            if old(self).wf() {
                vstd::set_lib::lemma_len_subset(self@.dom(), old(self)@.dom());
            }
        }
    }

    /// Removes the objects that are too old.
    pub fn prune(&mut self, max_age: u64)
        ensures
            old(self).wf() ==> final(self).wf(),
            old(self).is_dated() ==> final(self).is_dated(),
            final(self).later_clock(*old(self)),
            was_read(old(self).origin(), old(self).clock(), final(self).clock()),
            final(self)@ == pruned(old(self)@, final(self).clock(), max_age),
    {
        let now: u128 = self.now();
        self.prune_at(now, max_age);
    }
}

} // verus!
