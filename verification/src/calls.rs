//! What the calls do, in terms of what goes in and what comes out: laws over every possible
//! result of a call, and over calls that follow one another.

use crate::clock::is_reading;
use crate::config::Config;
use crate::dummy::{
    generate_dummy_object, gives_byte, is_drawn_dummy, is_drawn_size, is_drawn_through,
    random_printable,
};
use crate::hexadecimal::{hex_text, hex_value};
use crate::identifier::{is_drawn_uuid, uuid_text, uuid_value};
use crate::laws::law_reply_redeems_the_object;
use crate::limiter::{acquire_slot, is_attempt, slot_or_reply};
use crate::object::{message_view, ObjectModel, StoredObject};
use crate::pages::{decimal, decimal_value, index, info, is_numeral, law_decimal, render_metrics};
use crate::reply::{Outcome, Reply, Tally};
use crate::sealing::{is_drawn_key, is_drawn_nonce, opened, sealed};
use crate::storage::{is_drawn_for, is_store_with, is_take_with, refusal, text_view, Storage};
use async_lock::{Semaphore, SemaphoreGuard};
use rand::rngs::ThreadRng;
use vstd::prelude::*;
use vstd::utf8::encode_utf8;

verus! {

/// Whoever stores an object and asks for the two parts of the reply before the object is too
/// old gets the message, byte for byte, with the content type that it came with, or
/// `application/octet-stream` where it came with none. The storage is then as it was before
/// the object came.
pub proof fn law_what_is_stored_is_taken(
    storage: &mut Storage,
    slot: &SemaphoreGuard<'_>,
    config: &Config,
    content_type: Option<&str>,
    message: &[u8],
    stored: Outcome,
    later: &mut Storage,
    later_slot: &SemaphoreGuard<'_>,
    later_config: &Config,
    id_text: &str,
    key_text: &str,
    taken: Outcome,
)
    requires
        call_ensures(Storage::store, (storage, slot, config, content_type, message), stored),
        stored.reply.status == 200,
        stored.reply.body@ == encode_utf8(id_text@ + seq!['/'] + key_text@),
        old(later)@ == final(storage)@,
        call_ensures(Storage::take, (later, later_slot, later_config, id_text, key_text), taken),
        final(later).clock() - final(storage).clock() <= later_config.max_age_secs * 1_000_000_000,
    ensures
        taken.reply.status == 200,
        taken.reply.body@ == message@,
        taken.reply.content_type matches Some(given) && given@ == match content_type {
            Some(content_type) => content_type@,
            None => "application/octet-stream"@,
        },
        taken.tally.bytes_taken == message@.len(),
        taken.tally.objects_taken == 1,
        final(later)@ == old(storage)@,
{
    let dummy = choose|dummy: Seq<u8>| #[trigger]
        is_take_with(
            old(later)@,
            id_text@,
            key_text@,
            final(later).clock(),
            later_config.max_age_secs,
            dummy,
            final(later)@,
            taken@,
        );
    law_reply_redeems_the_object(
        old(storage)@,
        *config,
        text_view(content_type),
        message@,
        final(storage).clock(),
        final(storage)@,
        stored@,
        id_text@,
        key_text@,
        final(later).clock(),
        later_config.max_age_secs,
        dummy,
    );
    assert(taken@.reply.status == 200);
}

/// The same of a request to take at a given time.
pub proof fn law_what_is_stored_is_taken_at(
    storage: &mut Storage,
    slot: &SemaphoreGuard<'_>,
    config: &Config,
    content_type: Option<&str>,
    message: &[u8],
    stored: Outcome,
    later: &mut Storage,
    id_text: &str,
    key_text: &str,
    now: u128,
    max_age: u64,
    dummy: Vec<u8>,
    taken: Outcome,
)
    requires
        call_ensures(Storage::store, (storage, slot, config, content_type, message), stored),
        stored.reply.status == 200,
        stored.reply.body@ == encode_utf8(id_text@ + seq!['/'] + key_text@),
        old(later)@ == final(storage)@,
        call_ensures(Storage::take_with, (later, id_text, key_text, now, max_age, dummy), taken),
        now - final(storage).clock() <= max_age * 1_000_000_000,
    ensures
        taken.reply.status == 200,
        taken.reply.body@ == message@,
        taken.reply.content_type matches Some(given) && given@ == match content_type {
            Some(content_type) => content_type@,
            None => "application/octet-stream"@,
        },
        taken.tally.bytes_taken == message@.len(),
        taken.tally.objects_taken == 1,
        final(later)@ == old(storage)@,
{
    law_reply_redeems_the_object(
        old(storage)@,
        *config,
        text_view(content_type),
        message@,
        final(storage).clock(),
        final(storage)@,
        stored@,
        id_text@,
        key_text@,
        now,
        max_age,
        dummy@,
    );
    assert(taken@.reply.status == 200);
}

/// A request to store an object is refused with `400` where the object is larger than
/// `max_object_size`, then with `507` where the storage holds `max_objects` already. In a
/// storage of finitely many objects all others succeed, unless the object is too large for
/// AES-GCM. What is refused changes nothing and counts for nothing.
pub proof fn law_when_store_is_refused(
    storage: &mut Storage,
    slot: &SemaphoreGuard<'_>,
    config: &Config,
    content_type: Option<&str>,
    message: &[u8],
    outcome: Outcome,
)
    requires
        call_ensures(Storage::store, (storage, slot, config, content_type, message), outcome),
    ensures
        message@.len() > config.max_object_size <==> outcome.reply.status == 400,
        message@.len() <= config.max_object_size && old(storage)@.len() >= config.max_objects
            <==> outcome.reply.status == 507,
        old(storage)@.dom().finite() ==> (message@.len() <= config.max_object_size && old(storage)@.len() < config.max_objects && message@.len() <= 0x10_0000_0000
            <==> outcome.reply.status == 200),
        outcome.reply.status == 200 || outcome.reply.status == 400 || outcome.reply.status == 500
            || outcome.reply.status == 507,
        outcome.reply.status == 400 ==> outcome.reply.body@ == encode_utf8("Too big"@),
        outcome.reply.status == 507 ==> outcome.reply.body@ == encode_utf8("Too many"@),
        outcome.reply.status == 500 ==> outcome.reply.body@ == encode_utf8("Oops"@),
        outcome.reply.content_type is None,
        outcome.reply.status != 200 ==> final(storage)@ == old(storage)@,
        outcome.tally.bytes_stored == if outcome.reply.status == 200 {
            message@.len()
        } else {
            0
        },
        outcome.tally.objects_stored == if outcome.reply.status == 200 {
            1int
        } else {
            0
        },
        outcome.tally.bytes_taken == 0,
        outcome.tally.objects_taken == 0,
        final(storage).origin() == old(storage).origin(),
        final(storage).clock() >= old(storage).clock(),
{
    assert(outcome@.reply.status == outcome.reply.status);
    assert(outcome@.reply.content_type is None);
}

/// What storing adds: one object, under an identifier that was free, with the time of the
/// latest reading, the content type that came with it, and the message sealed with a key and a
/// nonce that were drawn. The reply is the identifier and the key with a slash between.
pub proof fn law_what_is_stored(
    storage: &mut Storage,
    slot: &SemaphoreGuard<'_>,
    config: &Config,
    content_type: Option<&str>,
    message: &[u8],
    outcome: Outcome,
)
    requires
        call_ensures(Storage::store, (storage, slot, config, content_type, message), outcome),
        outcome.reply.status == 200,
    ensures
        exists|nanos: u128| #[trigger]
            is_reading(old(storage).origin(), nanos) && final(storage).clock() == if nanos > old(storage).clock() {
                nanos
            } else {
                old(storage).clock()
            },
        exists|key: Seq<u8>, nonce: Seq<u8>, id: u128|
            {
                &&& #[trigger] is_drawn_key(key)
                &&& #[trigger] is_drawn_nonce(nonce)
                &&& key.len() == 32
                &&& nonce.len() == 12
                &&& !#[trigger] old(storage)@.contains_key(id)
                &&& is_drawn_uuid(id) || exists|used: u128| #[trigger]
                    is_drawn_uuid(used) && old(storage)@.contains_key(used)
                &&& final(storage)@ == old(storage)@.insert(
                    id,
                    ObjectModel {
                        created: final(storage).clock(),
                        content_type: match content_type {
                            Some(content_type) => content_type@,
                            None => "application/octet-stream"@,
                        },
                        nonce,
                        bytes: sealed(key, nonce, message@),
                    },
                )
                &&& sealed(key, nonce, message@).len() == message@.len() + 16
                &&& opened(key, nonce, sealed(key, nonce, message@)) == Some(message@)
                &&& outcome.reply.body@ == encode_utf8(uuid_text(id) + seq!['/'] + hex_text(key))
            },
{
    assert(outcome@.reply.status == 200);
    let (key, nonce, id) = choose|key: Seq<u8>, nonce: Seq<u8>, id: Option<u128>|
        {
            &&& #[trigger] is_store_with(
                old(storage)@,
                *config,
                text_view(content_type),
                message@,
                key,
                nonce,
                final(storage).clock(),
                id,
                final(storage)@,
                outcome@,
            )
            &&& is_drawn_key(key)
            &&& is_drawn_nonce(nonce)
            &&& id matches Some(id) ==> is_drawn_for(old(storage)@, id)
        };
    assert(is_drawn_key(key) && is_drawn_nonce(nonce) && !old(storage)@.contains_key(id->0));
}

/// Storing with a content type keeps that content type, whatever it is; only an object that
/// comes without one is kept as `application/octet-stream`. The other objects stay as they are.
pub proof fn law_content_type_is_kept(
    storage: &mut Storage,
    slot: &SemaphoreGuard<'_>,
    config: &Config,
    content_type: Option<&str>,
    message: &[u8],
    outcome: Outcome,
    id: u128,
)
    requires
        call_ensures(Storage::store, (storage, slot, config, content_type, message), outcome),
        final(storage)@.contains_key(id),
    ensures
        old(storage)@.contains_key(id) ==> final(storage)@[id] == old(storage)@[id],
        !old(storage)@.contains_key(id) ==> (content_type matches Some(given) ==> final(storage)@[id].content_type == given@),
        !old(storage)@.contains_key(id) && content_type is None ==> final(storage)@[id].content_type == "application/octet-stream"@,
{
    law_when_store_is_refused(storage, slot, config, content_type, message, outcome);
    if outcome.reply.status == 200 {
        law_what_is_stored(storage, slot, config, content_type, message, outcome);
    }
}

/// Storing with a given key, nonce, time and identifier puts the sealed message under the
/// identifier, where that is free, and changes nothing otherwise.
pub proof fn law_store_with(
    storage: &mut Storage,
    config: &Config,
    content_type: Option<&str>,
    message: &[u8],
    key: &[u8],
    nonce: [u8; 12],
    created: u128,
    id: Option<u128>,
    outcome: Outcome,
)
    requires
        call_ensures(
            Storage::store_with,
            (storage, config, content_type, message, key, nonce, created, id),
            outcome,
        ),
    ensures
        final(storage).origin() == old(storage).origin(),
        final(storage).clock() == old(storage).clock(),
        outcome.reply.content_type is None,
        outcome.tally.bytes_taken == 0,
        outcome.tally.objects_taken == 0,
        if message@.len() > config.max_object_size {
            &&& outcome.reply.status == 400
            &&& outcome.reply.body@ == encode_utf8("Too big"@)
        } else if old(storage)@.len() >= config.max_objects {
            &&& outcome.reply.status == 507
            &&& outcome.reply.body@ == encode_utf8("Too many"@)
        } else if message@.len() > 0x10_0000_0000 || id is None || old(storage)@.contains_key(
            id->0,
        ) {
            &&& outcome.reply.status == 500
            &&& outcome.reply.body@ == encode_utf8("Oops"@)
        } else {
            &&& outcome.reply.status == 200
            &&& outcome.reply.body@ == encode_utf8(uuid_text(id->0) + seq!['/'] + hex_text(key@))
            &&& final(storage)@ == old(storage)@.insert(
                id->0,
                ObjectModel {
                    created,
                    content_type: match content_type {
                        Some(content_type) => content_type@,
                        None => "application/octet-stream"@,
                    },
                    nonce: nonce@,
                    bytes: sealed(key@, nonce@, message@),
                },
            )
            &&& opened(key@, nonce@, sealed(key@, nonce@, message@)) == Some(message@)
            &&& outcome.tally.bytes_stored == message@.len()
            &&& outcome.tally.objects_stored == 1
        },
        outcome.reply.status != 200 ==> {
            &&& final(storage)@ == old(storage)@
            &&& outcome.tally.bytes_stored == 0
            &&& outcome.tally.objects_stored == 0
        },
{
    assert(outcome@.reply.status == outcome.reply.status);
    assert(outcome@.reply.content_type is None);
}

/// A request to take an object is always answered with `200`. Where there is an object that
/// the identifier and the key give access to, and it is not too old, its message and its
/// content type go out and the object goes with them. In all other cases a dummy payload of
/// printable characters goes out as `text/plain`, and nothing changes.
pub proof fn law_what_is_taken(
    storage: &mut Storage,
    slot: &SemaphoreGuard<'_>,
    config: &Config,
    id_text: &str,
    key_text: &str,
    outcome: Outcome,
)
    requires
        call_ensures(Storage::take, (storage, slot, config, id_text, key_text), outcome),
    ensures
        outcome.reply.status == 200,
        outcome.tally.bytes_stored == 0,
        outcome.tally.objects_stored == 0,
        outcome.tally.bytes_taken == outcome.reply.body@.len(),
        final(storage).origin() == old(storage).origin(),
        exists|nanos: u128| #[trigger]
            is_reading(old(storage).origin(), nanos) && final(storage).clock() == if nanos > old(storage).clock() {
                nanos
            } else {
                old(storage).clock()
            },
        match (uuid_value(id_text@), hex_value(key_text@)) {
            (Some(id), Some(key)) if key.len() == 32 && old(storage)@.contains_key(id) && final(storage).clock() - old(storage)@[id].created <= config.max_age_secs * 1_000_000_000 && opened(
                key,
                old(storage)@[id].nonce,
                old(storage)@[id].bytes,
            ) is Some => {
                &&& Some(outcome.reply.body@) == opened(
                    key,
                    old(storage)@[id].nonce,
                    old(storage)@[id].bytes,
                )
                &&& outcome.reply.content_type matches Some(given) && given@ == old(storage)@[id].content_type
                &&& outcome.tally.objects_taken == 1
                &&& final(storage)@ == old(storage)@.remove(id)
            },
            _ => {
                &&& outcome.reply.content_type matches Some(given) && given@ == "text/plain"@
                &&& 420_069 <= outcome.reply.body@.len() <= 1_000_000
                &&& forall|i: int|
                    0 <= i < outcome.reply.body@.len() ==> 0x20 <= #[trigger] outcome.reply.body@[i]
                        <= 0x7e
                &&& is_drawn_size(outcome.reply.body@.len() as usize)
                &&& exists|states: Seq<ThreadRng>|
                    {
                        &&& #[trigger] states.len() == outcome.reply.body@.len() + 1
                        &&& forall|i: int|
                            0 <= i < outcome.reply.body@.len() ==> gives_byte(
                                states[i],
                                #[trigger] outcome.reply.body@[i],
                                states[i + 1],
                            )
                    }
                &&& outcome.tally.objects_taken == 0
                &&& final(storage)@ == old(storage)@
            },
        },
{
    assert(outcome@.reply.status == 200);
    assert(outcome@.reply.content_type is Some);
    let dummy = choose|dummy: Seq<u8>|
        {
            &&& #[trigger] is_take_with(
                old(storage)@,
                id_text@,
                key_text@,
                final(storage).clock(),
                config.max_age_secs,
                dummy,
                final(storage)@,
                outcome@,
            )
            &&& is_drawn_dummy(dummy)
        };
    let states = choose|states: Seq<ThreadRng>| #[trigger] is_drawn_through(dummy, states);
    assert(states.len() == dummy.len() + 1);
}

/// The same of a request at a given time, for which `dummy` was drawn.
pub proof fn law_what_is_taken_at(
    storage: &mut Storage,
    id_text: &str,
    key_text: &str,
    now: u128,
    max_age: u64,
    dummy: Vec<u8>,
    outcome: Outcome,
)
    requires
        call_ensures(
            Storage::take_with,
            (storage, id_text, key_text, now, max_age, dummy),
            outcome,
        ),
    ensures
        outcome.reply.status == 200,
        outcome.tally.bytes_stored == 0,
        outcome.tally.objects_stored == 0,
        outcome.tally.bytes_taken == outcome.reply.body@.len(),
        final(storage).origin() == old(storage).origin(),
        final(storage).clock() == old(storage).clock(),
        match (uuid_value(id_text@), hex_value(key_text@)) {
            (Some(id), Some(key)) if key.len() == 32 && old(storage)@.contains_key(id) && now - old(storage)@[id].created <= max_age * 1_000_000_000 && opened(
                key,
                old(storage)@[id].nonce,
                old(storage)@[id].bytes,
            ) is Some => {
                &&& Some(outcome.reply.body@) == opened(
                    key,
                    old(storage)@[id].nonce,
                    old(storage)@[id].bytes,
                )
                &&& outcome.reply.content_type matches Some(given) && given@ == old(storage)@[id].content_type
                &&& outcome.tally.objects_taken == 1
                &&& final(storage)@ == old(storage)@.remove(id)
            },
            _ => {
                &&& outcome.reply.content_type matches Some(given) && given@ == "text/plain"@
                &&& outcome.reply.body@ == dummy@
                &&& outcome.tally.objects_taken == 0
                &&& final(storage)@ == old(storage)@
            },
        },
{
    assert(outcome@.reply.status == 200);
    assert(outcome@.reply.content_type is Some);
}

/// An object goes out once: after a request that got an object, whoever asks for the same
/// identifier gets a dummy payload, with whatever key and whenever.
pub proof fn law_an_object_goes_out_once(
    storage: &mut Storage,
    slot: &SemaphoreGuard<'_>,
    config: &Config,
    id_text: &str,
    key_text: &str,
    first: Outcome,
    later: &mut Storage,
    later_slot: &SemaphoreGuard<'_>,
    later_config: &Config,
    later_id_text: &str,
    later_key_text: &str,
    second: Outcome,
)
    requires
        call_ensures(Storage::take, (storage, slot, config, id_text, key_text), first),
        first.tally.objects_taken == 1,
        old(later)@ == final(storage)@,
        uuid_value(later_id_text@) == uuid_value(id_text@),
        call_ensures(
            Storage::take,
            (later, later_slot, later_config, later_id_text, later_key_text),
            second,
        ),
    ensures
        second.reply.status == 200,
        second.reply.content_type matches Some(given) && given@ == "text/plain"@,
        420_069 <= second.reply.body@.len() <= 1_000_000,
        second.tally.objects_taken == 0,
        final(later)@ == final(storage)@,
{
    law_what_is_taken(storage, slot, config, id_text, key_text, first);
    law_what_is_taken(later, later_slot, later_config, later_id_text, later_key_text, second);
}

/// A reading of the clock is the nanoseconds since it was started, or the latest reading where
/// that is greater.
pub proof fn law_now_is_the_time(storage: &mut Storage, now: u128)
    requires
        call_ensures(Storage::now, (storage,), now),
    ensures
        exists|nanos: u128| #[trigger]
            is_reading(old(storage).origin(), nanos) && now == if nanos > old(storage).clock() {
                nanos
            } else {
                old(storage).clock()
            },
        final(storage).clock() == now,
        final(storage).origin() == old(storage).origin(),
        final(storage)@ == old(storage)@,
{
}

/// The clock goes where it is set, and never back.
pub proof fn law_the_clock_does_not_go_back(
    storage: &mut Storage,
    nanos: u128,
    now: u128,
    later: &mut Storage,
    later_nanos: u128,
    later_now: u128,
)
    requires
        call_ensures(Storage::advance, (storage, nanos), now),
        *old(later) == *final(storage),
        call_ensures(Storage::advance, (later, later_nanos), later_now),
    ensures
        now >= nanos,
        now == nanos || now == old(storage).clock(),
        later_now == if later_nanos > now {
            later_nanos
        } else {
            now
        },
        final(later)@ == old(storage)@,
        final(later).origin() == old(storage).origin(),
{
}

/// Pruning reads the clock, and removes the objects that were stored more than `max_age`
/// seconds before the reading. It removes no others and changes none.
pub proof fn law_what_is_pruned(storage: &mut Storage, max_age: u64, id: u128)
    requires
        call_ensures(Storage::prune, (storage, max_age), ()),
    ensures
        final(storage).origin() == old(storage).origin(),
        exists|nanos: u128| #[trigger]
            is_reading(old(storage).origin(), nanos) && final(storage).clock() == if nanos > old(storage).clock() {
                nanos
            } else {
                old(storage).clock()
            },
        final(storage)@.contains_key(id) <==> old(storage)@.contains_key(id) && final(storage).clock() - old(storage)@[id].created <= max_age * 1_000_000_000,
        final(storage)@.contains_key(id) ==> final(storage)@[id] == old(storage)@[id],
{
}

/// The same of a pruning at a given time.
pub proof fn law_what_is_pruned_at(storage: &mut Storage, now: u128, max_age: u64, id: u128)
    requires
        call_ensures(Storage::prune_at, (storage, now, max_age), ()),
    ensures
        final(storage).origin() == old(storage).origin(),
        final(storage).clock() == old(storage).clock(),
        final(storage)@.contains_key(id) <==> old(storage)@.contains_key(id) && now - old(storage)@[id].created <= max_age * 1_000_000_000,
        final(storage)@.contains_key(id) ==> final(storage)@[id] == old(storage)@[id],
{
}

/// An object is gone after a pruning for which more than `max_age` seconds had passed on the
/// clock since the object was stored: of the objects that storing left behind, only those
/// remain that were there before.
pub proof fn law_an_expired_object_is_pruned(
    storage: &mut Storage,
    slot: &SemaphoreGuard<'_>,
    config: &Config,
    content_type: Option<&str>,
    message: &[u8],
    outcome: Outcome,
    later: &mut Storage,
    max_age: u64,
)
    requires
        call_ensures(Storage::store, (storage, slot, config, content_type, message), outcome),
        *old(later) == *final(storage),
        call_ensures(Storage::prune, (later, max_age), ()),
    ensures
        exists|nanos: u128| #[trigger]
            is_reading(old(storage).origin(), nanos) && (nanos - final(storage).clock() > max_age
                * 1_000_000_000 ==> forall|id: u128| #[trigger]
                final(later)@.contains_key(id) ==> old(storage)@.contains_key(id)),
{
    law_when_store_is_refused(storage, slot, config, content_type, message, outcome);
    if outcome.reply.status == 200 {
        law_what_is_stored(storage, slot, config, content_type, message, outcome);
    }
    law_what_is_pruned(later, max_age, 0);
    let nanos = choose|nanos: u128| #[trigger]
        is_reading(old(later).origin(), nanos) && final(later).clock() == if nanos > old(later).clock() {
            nanos
        } else {
            old(later).clock()
        };
    assert(is_reading(old(storage).origin(), nanos));
    if nanos - final(storage).clock() > max_age * 1_000_000_000 {
        assert forall|id: u128| #[trigger] final(later)@.contains_key(id) implies old(storage)@.contains_key(id) by {
            law_what_is_pruned(later, max_age, id);
        }
    }
}

/// Nobody gets an object for which more than `max_age_secs` seconds had passed on the clock
/// since it was stored.
pub proof fn law_an_expired_object_is_not_taken(
    storage: &mut Storage,
    slot: &SemaphoreGuard<'_>,
    config: &Config,
    id_text: &str,
    key_text: &str,
    outcome: Outcome,
    id: u128,
)
    requires
        call_ensures(Storage::take, (storage, slot, config, id_text, key_text), outcome),
        uuid_value(id_text@) == Some(id),
    ensures
        exists|nanos: u128| #[trigger]
            is_reading(old(storage).origin(), nanos) && (nanos - old(storage)@[id].created
                > config.max_age_secs * 1_000_000_000 ==> {
                &&& outcome.tally.objects_taken == 0
                &&& final(storage)@ == old(storage)@
            }),
{
    law_what_is_taken(storage, slot, config, id_text, key_text, outcome);
}

/// A request is let in with the permit that an attempt to get one came to, and is told to slow
/// down where an attempt came to none.
pub proof fn law_who_is_let_in<'a>(limiter: &'a Semaphore, slot: Result<SemaphoreGuard<'a>, Reply>)
    requires
        call_ensures(acquire_slot, (limiter,), slot),
    ensures
        match slot {
            Ok(permit) => is_attempt(limiter, Some(permit)),
            Err(reply) => {
                &&& is_attempt(limiter, None)
                &&& reply.status == 429
                &&& reply.content_type is None
                &&& reply.body@ == encode_utf8("Slow down cowboy"@)
            },
        },
{
    if let Err(reply) = slot {
        assert(reply@.content_type is None);
    }
}

/// A request that holds a permit is let in with it, and only one that holds none is told to
/// slow down.
pub proof fn law_a_permit_is_a_slot<'a>(
    permit: Option<SemaphoreGuard<'a>>,
    slot: Result<SemaphoreGuard<'a>, Reply>,
)
    requires
        call_ensures(slot_or_reply, (permit,), slot),
    ensures
        permit is Some ==> slot is Ok && slot->Ok_0 == permit->0,
        permit is None ==> slot is Err && slot->Err_0.status == 429 && slot->Err_0.content_type is None
            && slot->Err_0.body@ == encode_utf8("Slow down cowboy"@),
{
    if let Err(reply) = slot {
        assert(reply@.content_type is None);
    }
}

/// A new storage holds nothing, and its clock stands at zero.
pub proof fn law_a_new_storage_is_empty(storage: Storage)
    requires
        call_ensures(Storage::new, (), storage),
    ensures
        storage@ == Map::<u128, ObjectModel>::empty(),
        storage.clock() == 0,
{
}

/// The number of objects is how many there are, and an identifier is free where no object is
/// held under it.
pub proof fn law_objects_are_counted(
    storage: &mut Storage,
    count: usize,
    later: &Storage,
    id: u128,
    free: bool,
)
    requires
        call_ensures(Storage::len, (storage,), count),
        call_ensures(Storage::is_free, (later, id), free),
    ensures
        count == old(storage)@.dom().len(),
        final(storage)@ == old(storage)@,
        final(storage).origin() == old(storage).origin(),
        final(storage).clock() == old(storage).clock(),
        free <==> !later@.dom().contains(id),
{
}

/// A fresh identifier is free, is a random UUID, and was drawn, unless one that was drawn is
/// in use. Among finitely many objects, fewer than there are counted identifiers, there is one.
pub proof fn law_fresh_ids(storage: &Storage, id: Option<u128>)
    requires
        call_ensures(Storage::fresh_id, (storage,), id),
    ensures
        id matches Some(id) ==> {
            &&& !storage@.contains_key(id)
            &&& (id / 0x1000_0000_0000_0000_0000) % 16 == 4
            &&& (id / 0x4000_0000_0000_0000) % 4 == 2
            &&& is_drawn_uuid(id) || exists|used: u128| #[trigger]
                is_drawn_uuid(used) && storage@.contains_key(used)
        },
        storage@.dom().finite() && storage@.len() < u64::MAX ==> id is Some,
{
}

/// Keeping an object puts it, as it is, under an identifier that is free, and replies with the
/// identifier and the key. Without an object, without an identifier, or where the identifier
/// is in use, nothing changes.
pub proof fn law_what_is_kept(
    storage: &mut Storage,
    id: Option<u128>,
    key: &[u8],
    object: Option<StoredObject>,
    size: usize,
    outcome: Outcome,
)
    requires
        call_ensures(Storage::keep, (storage, id, key, object, size), outcome),
    ensures
        final(storage).origin() == old(storage).origin(),
        final(storage).clock() == old(storage).clock(),
        outcome.reply.content_type is None,
        outcome.tally.bytes_taken == 0,
        outcome.tally.objects_taken == 0,
        match (object, id) {
            (Some(object), Some(id)) if !old(storage)@.contains_key(id) => {
                &&& outcome.reply.status == 200
                &&& outcome.reply.body@ == encode_utf8(uuid_text(id) + seq!['/'] + hex_text(key@))
                &&& outcome.tally.bytes_stored == size
                &&& outcome.tally.objects_stored == 1
                &&& final(storage)@ == old(storage)@.insert(
                    id,
                    ObjectModel {
                        created: object.created,
                        content_type: object.content_type@,
                        nonce: object.nonce@,
                        bytes: object.bytes@,
                    },
                )
            },
            _ => {
                &&& outcome.reply.status == 500
                &&& outcome.reply.body@ == encode_utf8("Oops"@)
                &&& outcome.tally.bytes_stored == 0
                &&& outcome.tally.objects_stored == 0
                &&& final(storage)@ == old(storage)@
            },
        },
{
    assert(outcome@.reply.content_type is None);
}

/// A message that is handed out goes out whole, with its content type, and its object is
/// removed. Without a message, `dummy` goes out whole as `text/plain`, and nothing is removed.
pub proof fn law_what_is_handed_out(
    storage: &mut Storage,
    id: u128,
    message: Option<(String, Vec<u8>)>,
    dummy: Vec<u8>,
    outcome: Outcome,
)
    requires
        call_ensures(Storage::hand_out, (storage, id, message, dummy), outcome),
    ensures
        final(storage).origin() == old(storage).origin(),
        final(storage).clock() == old(storage).clock(),
        outcome.reply.status == 200,
        outcome.tally.bytes_stored == 0,
        outcome.tally.objects_stored == 0,
        outcome.tally.bytes_taken == outcome.reply.body@.len(),
        match message {
            Some((content_type, message)) => {
                &&& outcome.reply.body@ == message@
                &&& outcome.reply.content_type matches Some(given) && given@ == content_type@
                &&& outcome.tally.objects_taken == 1
                &&& final(storage)@ == old(storage)@.remove(id)
            },
            None => {
                &&& outcome.reply.body@ == dummy@
                &&& outcome.reply.content_type matches Some(given) && given@ == "text/plain"@
                &&& outcome.tally.objects_taken == 0
                &&& final(storage)@ == old(storage)@
            },
        },
{
    assert(outcome@.reply.status == 200);
    assert(outcome@.reply.content_type is Some);
}

/// Opening gives the content type and the message of the object under `id`, where there is one,
/// it is not too old and `key` opens it, and gives nothing otherwise.
pub proof fn law_what_is_unlocked(
    storage: &Storage,
    id: u128,
    key: &[u8],
    now: u128,
    max_age: u64,
    message: Option<(String, Vec<u8>)>,
)
    requires
        call_ensures(Storage::unlock, (storage, id, key, now, max_age), message),
    ensures
        message is Some <==> {
            &&& storage@.contains_key(id)
            &&& now - storage@[id].created <= max_age * 1_000_000_000
            &&& opened(key@, storage@[id].nonce, storage@[id].bytes) is Some
        },
        message matches Some((content_type, message)) ==> {
            &&& content_type@ == storage@[id].content_type
            &&& Some(message@) == opened(key@, storage@[id].nonce, storage@[id].bytes)
        },
{
    assert(message is Some <==> message_view(message) is Some);
}

/// An object is too old when it has been in storage longer than `max_age` seconds, and is kept
/// until then. Until then it opens, with the key that it was sealed with.
pub proof fn law_how_objects_age(
    object: &StoredObject,
    now: u128,
    max_age: u64,
    too_old: bool,
    kept: bool,
    key: &[u8],
    message: Option<(String, Vec<u8>)>,
)
    requires
        call_ensures(StoredObject::is_too_old, (object, now, max_age), too_old),
        call_ensures(StoredObject::is_kept, (object, now, max_age), kept),
        call_ensures(StoredObject::unlock, (object, key, now, max_age), message),
    ensures
        too_old <==> now - object.created > max_age * 1_000_000_000,
        kept <==> now - object.created <= max_age * 1_000_000_000,
        message is Some <==> {
            &&& now - object.created <= max_age * 1_000_000_000
            &&& opened(key@, object.nonce@, object.bytes@) is Some
        },
        message matches Some((content_type, message)) ==> {
            &&& content_type@ == object.content_type@
            &&& Some(message@) == opened(key@, object.nonce@, object.bytes@)
        },
{
    assert(message is Some <==> message_view(message) is Some);
}

/// An object is refused as too big where it is larger than `max_object_size`, then as one too
/// many where there are `max_objects` already, and otherwise not at all.
pub proof fn law_what_is_refused(
    config: &Config,
    size: usize,
    count: usize,
    refused: Option<Outcome>,
)
    requires
        call_ensures(refusal, (config, size, count), refused),
    ensures
        refused is None <==> size <= config.max_object_size && count < config.max_objects,
        refused matches Some(outcome) ==> {
            &&& outcome.reply.content_type is None
            &&& outcome.tally == Tally {
                bytes_stored: 0,
                objects_stored: 0,
                bytes_taken: 0,
                objects_taken: 0,
            }
            &&& if size > config.max_object_size {
                &&& outcome.reply.status == 400
                &&& outcome.reply.body@ == encode_utf8("Too big"@)
            } else {
                &&& outcome.reply.status == 507
                &&& outcome.reply.body@ == encode_utf8("Too many"@)
            }
        },
{
    if let Some(outcome) = refused {
        assert(outcome@.reply.content_type is None);
    }
}

/// Replies hold what they are made of.
pub proof fn law_replies_hold_what_they_are_made_of(
    status: u16,
    text: &str,
    text_reply: Reply,
    content_type: String,
    body: Vec<u8>,
    ok_reply: Reply,
)
    requires
        call_ensures(Reply::text, (status, text), text_reply),
        call_ensures(Reply::ok, (content_type, body), ok_reply),
    ensures
        text_reply.status == status,
        text_reply.content_type is None,
        text_reply.body@ == encode_utf8(text@),
        ok_reply.status == 200,
        ok_reply.content_type matches Some(given) && given@ == content_type@,
        ok_reply.body@ == body@,
{
    assert(text_reply@.content_type is None);
    assert(ok_reply@.content_type is Some);
}

/// The pages are served as they are, and the limits as compact JSON with their decimal digits.
pub proof fn law_pages(
    page: &str,
    shown: Reply,
    rendered: &str,
    metrics: Reply,
    config: &Config,
    limits: Reply,
)
    requires
        call_ensures(index, (page,), shown),
        call_ensures(render_metrics, (rendered,), metrics),
        call_ensures(info, (config,), limits),
    ensures
        shown.status == 200,
        shown.content_type matches Some(given) && given@ == "text/html; charset=utf-8"@,
        shown.body@ == encode_utf8(page@),
        metrics.status == 200,
        metrics.content_type is None,
        metrics.body@ == encode_utf8(rendered@),
        limits.status == 200,
        limits.content_type matches Some(given) && given@ == "application/json"@,
        exists|age: Seq<char>, size: Seq<char>|
            {
                &&& #[trigger] decimal_value(age) == config.max_age_secs
                &&& #[trigger] decimal_value(size) == config.max_object_size
                &&& is_numeral(age)
                &&& is_numeral(size)
                &&& limits.body@ == encode_utf8(
                    seq!['{', '"'] + "max_age_secs"@ + seq!['"', ':'] + age + seq![',', '"']
                        + "max_object_size"@ + seq!['"', ':'] + size + seq!['}'],
                )
            },
{
    assert(shown@.content_type is Some);
    assert(metrics@.content_type is None);
    assert(limits@.content_type is Some);
    law_decimal(config.max_age_secs as nat);
    law_decimal(config.max_object_size as nat);
    let age = decimal(config.max_age_secs as nat);
    let size = decimal(config.max_object_size as nat);
    assert(decimal_value(age) == config.max_age_secs);
    assert(decimal_value(size) == config.max_object_size);
}

/// A dummy payload has a size that was drawn between the limits, both included, and printable
/// characters that were drawn one after the other, each with a draw of its own.
pub proof fn law_dummies_are_drawn(bytes: Vec<u8>)
    requires
        call_ensures(generate_dummy_object, (), bytes),
    ensures
        420_069 <= bytes@.len() <= 1_000_000,
        is_drawn_size(bytes@.len() as usize),
        forall|i: int| 0 <= i < bytes@.len() ==> 0x20 <= #[trigger] bytes@[i] <= 0x7e,
        exists|states: Seq<ThreadRng>|
            {
                &&& #[trigger] states.len() == bytes@.len() + 1
                &&& forall|i: int|
                    0 <= i < bytes@.len() ==> gives_byte(
                        states[i],
                        #[trigger] bytes@[i],
                        states[i + 1],
                    )
            },
{
    let states = choose|states: Seq<ThreadRng>| #[trigger] is_drawn_through(bytes@, states);
    assert(states.len() == bytes@.len() + 1);
}

/// Random text has the size that was asked for, and printable characters that the generator
/// gave one after the other, each with a draw of its own.
pub proof fn law_random_text_is_drawn(size: usize, rng: &mut ThreadRng, bytes: Vec<u8>)
    requires
        call_ensures(random_printable, (size, rng), bytes),
    ensures
        bytes@.len() == size,
        forall|i: int| 0 <= i < size ==> 0x20 <= #[trigger] bytes@[i] <= 0x7e,
        exists|states: Seq<ThreadRng>|
            {
                &&& #[trigger] states.len() == size + 1
                &&& states[0] == *old(rng)
                &&& states[size as int] == *final(rng)
                &&& forall|i: int|
                    0 <= i < size ==> gives_byte(states[i], #[trigger] bytes@[i], states[i + 1])
            },
{
    let states = choose|states: Seq<ThreadRng>|
        {
            &&& #[trigger] is_drawn_through(bytes@, states)
            &&& states.first() == *old(rng)
            &&& states.last() == *final(rng)
        };
    assert(states.len() == size + 1);
}

} // verus!
