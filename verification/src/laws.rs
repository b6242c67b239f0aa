//! What holds of the storage as a whole: laws that relate storing, taking and pruning.

use crate::clock::NANOS_PER_SEC;
use crate::config::Config;
use crate::hexadecimal::{hex_text, is_hex_digit, law_hex_round_trip};
use crate::identifier::{law_uuid_round_trip, law_uuid_text_form, uuid_text, uuid_value};
use crate::object::{pruned, ObjectModel};
use crate::reply::{OutcomeModel, OK};
use crate::sealing::{opened, sealed, KEY_SIZE};
use crate::storage::{
    find, fits, handed_out, is_store, is_store_with, key_value, missed, object_of,
    redeemable, store_step, stored, take_step, token, type_or_default, within_size,
};
use vstd::prelude::*;
use vstd::utf8::{encode_utf8, encode_utf8_decode_utf8};

verus! {

/// A token is an identifier of 36 characters, a slash, and a key of 64 lower-case
/// hexadecimal digits, and there is no other slash in it.
pub proof fn law_token_splits_at_its_slash(id: u128, key: Seq<u8>)
    requires
        key.len() == KEY_SIZE,
    ensures
        token(id, key).len() == 101,
        token(id, key).subrange(0, 36) == uuid_text(id),
        token(id, key).subrange(37, 101) == hex_text(key),
        forall|i: int| 0 <= i < 101 ==> (#[trigger] token(id, key)[i] == '/' <==> i == 36),
        forall|i: int| 37 <= i < 101 ==> is_hex_digit(#[trigger] token(id, key)[i]),
{
    law_uuid_text_form(id);
    law_hex_round_trip(key);
    let text = token(id, key);
    assert(text.subrange(0, 36) =~= uuid_text(id));
    assert(text.subrange(37, 101) =~= hex_text(key));
    assert forall|i: int| 37 <= i < 101 implies is_hex_digit(#[trigger] text[i]) by {
        assert(text[i] == hex_text(key)[i - 37]);
    }
    assert forall|i: int| 0 <= i < 36 implies #[trigger] text[i] != '/' by {
        assert(text[i] == uuid_text(id)[i]);
    }
}

/// Only a text of 64 hexadecimal digits is a key.
pub proof fn law_keys_have_64_digits(text: Seq<char>)
    ensures
        key_value(text) is Some <==> {
            &&& text.len() == 64
            &&& forall|i: int| 0 <= i < 64 ==> is_hex_digit(#[trigger] text[i])
        },
{
}

/// Whoever asks for an object by its identifier and its key, before it is too old, gets its
/// content type and its message, and the object is gone.
pub proof fn law_redeemable_is_handed_out(
    objects: Map<u128, ObjectModel>,
    id: u128,
    key: Seq<u8>,
    content_type: Seq<char>,
    message: Seq<u8>,
    now: u128,
    max_age: u64,
    dummy: Seq<u8>,
)
    requires
        redeemable(objects, id, key, content_type, message),
        !objects[id].is_too_old(now, max_age),
    ensures
        take_step(objects, uuid_text(id), hex_text(key), now, max_age, dummy) == (
            objects.remove(id),
            handed_out(content_type, message),
        ),
{
    law_uuid_round_trip(id);
    law_hex_round_trip(key);
}

/// Taking an object with the two parts of the token that storing it replied gives back the
/// message and its content type, and leaves the storage as it was before the object came.
pub proof fn law_take_undoes_store(
    objects: Map<u128, ObjectModel>,
    config: Config,
    content_type: Option<Seq<char>>,
    message: Seq<u8>,
    key: Seq<u8>,
    nonce: Seq<u8>,
    created: u128,
    id: Option<u128>,
    after: Map<u128, ObjectModel>,
    outcome: OutcomeModel,
    now: u128,
    max_age: u64,
    dummy: Seq<u8>,
)
    requires
        is_store_with(
            objects,
            config,
            content_type,
            message,
            key,
            nonce,
            created,
            id,
            after,
            outcome,
        ),
        outcome.reply.status == OK,
        now - created <= max_age * NANOS_PER_SEC,
    ensures
        outcome == stored(id->0, key, message.len()),
        take_step(
            after,
            token(id->0, key).subrange(0, 36),
            token(id->0, key).subrange(37, 101),
            now,
            max_age,
            dummy,
        ) == (objects, handed_out(type_or_default(content_type), message)),
{
    law_token_splits_at_its_slash(id->0, key);
    law_redeemable_is_handed_out(
        after,
        id->0,
        key,
        type_or_default(content_type),
        message,
        now,
        max_age,
        dummy,
    );
    assert(after.remove(id->0) =~= objects);
}

/// Whoever splits the reply to a request to store an object at its slash, and asks for the
/// two parts before the object is too old, gets the message and its content type, and the
/// storage is as it was before the object came.
pub proof fn law_reply_redeems_the_object(
    objects: Map<u128, ObjectModel>,
    config: Config,
    content_type: Option<Seq<char>>,
    message: Seq<u8>,
    created: u128,
    after: Map<u128, ObjectModel>,
    outcome: OutcomeModel,
    id_text: Seq<char>,
    key_text: Seq<char>,
    now: u128,
    max_age: u64,
    dummy: Seq<u8>,
)
    requires
        is_store(objects, config, content_type, message, created, after, outcome),
        outcome.reply.status == OK,
        outcome.reply.body == encode_utf8(id_text + seq!['/'] + key_text),
    ensures
        uuid_value(id_text) matches Some(id) && after.contains_key(id) && after[id].created
            == created,
        now - created <= max_age * NANOS_PER_SEC ==> take_step(
            after,
            id_text,
            key_text,
            now,
            max_age,
            dummy,
        ) == (objects, handed_out(type_or_default(content_type), message)),
{
    let (key, nonce, id) = choose|key: Seq<u8>, nonce: Seq<u8>, id: Option<u128>| #[trigger]
        is_store_with(
            objects,
            config,
            content_type,
            message,
            key,
            nonce,
            created,
            id,
            after,
            outcome,
        );
    let text = token(id->0, key);
    let split = id_text + seq!['/'] + key_text;
    law_token_splits_at_its_slash(id->0, key);
    law_uuid_round_trip(id->0);
    encode_utf8_decode_utf8(text);
    encode_utf8_decode_utf8(split);
    assert(text == split);
    assert(split[id_text.len() as int] == '/');
    assert(id_text =~= text.subrange(0, 36));
    assert(key_text =~= text.subrange(37, 101));
    if now - created <= max_age * NANOS_PER_SEC {
        law_take_undoes_store(
            objects,
            config,
            content_type,
            message,
            key,
            nonce,
            created,
            id,
            after,
            outcome,
            now,
            max_age,
            dummy,
        );
    }
}

/// An object that was handed out is gone: whoever asks for its identifier next, with whatever
/// key and whenever, gets a dummy payload.
pub proof fn law_taken_once(
    objects: Map<u128, ObjectModel>,
    id_text: Seq<char>,
    key_text: Seq<char>,
    now: u128,
    max_age: u64,
    dummy: Seq<u8>,
    later_id_text: Seq<char>,
    later_key_text: Seq<char>,
    later: u128,
    later_max_age: u64,
    later_dummy: Seq<u8>,
)
    requires
        find(objects, id_text, key_text, now, max_age) is Some,
        uuid_value(later_id_text) == uuid_value(id_text),
    ensures
        ({
            let after = take_step(objects, id_text, key_text, now, max_age, dummy).0;
            take_step(after, later_id_text, later_key_text, later, later_max_age, later_dummy) == (
                after,
                missed(later_dummy),
            )
        }),
{
}

/// A request that finds nothing changes nothing, and its outcome shows nothing but the dummy
/// payload: not which storage was asked, nor for what, nor why nothing was found.
pub proof fn law_misses_look_alike(
    objects: Map<u128, ObjectModel>,
    id_text: Seq<char>,
    key_text: Seq<char>,
    now: u128,
    max_age: u64,
    dummy: Seq<u8>,
)
    requires
        find(objects, id_text, key_text, now, max_age) is None,
    ensures
        take_step(objects, id_text, key_text, now, max_age, dummy) == (objects, missed(dummy)),
{
}

/// Nothing is found for a text that is no identifier, for one that is no key, for an
/// identifier that is not in use, for an object that is too old, or with a key that does not
/// open the object; in all other cases the object is found.
pub proof fn law_what_is_missed(
    objects: Map<u128, ObjectModel>,
    id_text: Seq<char>,
    key_text: Seq<char>,
    now: u128,
    max_age: u64,
)
    ensures
        find(objects, id_text, key_text, now, max_age) is None <==> {
            ||| uuid_value(id_text) is None
            ||| key_value(key_text) is None
            ||| !objects.contains_key(uuid_value(id_text)->0)
            ||| objects[uuid_value(id_text)->0].is_too_old(now, max_age)
            ||| opened(
                key_value(key_text)->0,
                objects[uuid_value(id_text)->0].nonce,
                objects[uuid_value(id_text)->0].bytes,
            ) is None
        },
{
}

/// A request with a key that does not open the object does not consume the object: it can
/// still be had with the right key.
pub proof fn law_wrong_key_does_not_consume(
    objects: Map<u128, ObjectModel>,
    id: u128,
    key: Seq<u8>,
    content_type: Seq<char>,
    message: Seq<u8>,
    wrong_key_text: Seq<char>,
    now: u128,
    max_age: u64,
    dummy: Seq<u8>,
)
    requires
        redeemable(objects, id, key, content_type, message),
        key_value(wrong_key_text) matches Some(wrong_key) ==> opened(
            wrong_key,
            objects[id].nonce,
            objects[id].bytes,
        ) is None,
    ensures
        ({
            let (after, outcome) = take_step(
                objects,
                uuid_text(id),
                wrong_key_text,
                now,
                max_age,
                dummy,
            );
            &&& outcome == missed(dummy)
            &&& redeemable(after, id, key, content_type, message)
        }),
{
    law_uuid_round_trip(id);
}

/// Taking one object leaves the others as they are.
pub proof fn law_take_leaves_the_others(
    objects: Map<u128, ObjectModel>,
    id_text: Seq<char>,
    key_text: Seq<char>,
    now: u128,
    max_age: u64,
    dummy: Seq<u8>,
    other: u128,
)
    requires
        uuid_value(id_text) != Some(other),
    ensures
        ({
            let after = take_step(objects, id_text, key_text, now, max_age, dummy).0;
            &&& after.contains_key(other) <==> objects.contains_key(other)
            &&& objects.contains_key(other) ==> after[other] == objects[other]
        }),
{
}

/// A request to store an object succeeds if and only if the object is not too large, the
/// storage is not full, and an identifier was found that is free.
pub proof fn law_when_store_succeeds(
    objects: Map<u128, ObjectModel>,
    config: Config,
    content_type: Option<Seq<char>>,
    message: Seq<u8>,
    key: Seq<u8>,
    nonce: Seq<u8>,
    created: u128,
    id: Option<u128>,
)
    ensures
        store_step(objects, config, content_type, message, key, nonce, created, id).1.reply.status
            == OK <==> {
            &&& fits(config, message.len(), objects.len())
            &&& id matches Some(id) && !objects.contains_key(id)
        },
{
}

/// A request to store an object in a storage of finitely many succeeds if and only if the
/// object is not too large and the storage is not full, whatever is drawn.
pub proof fn law_store_succeeds(
    objects: Map<u128, ObjectModel>,
    config: Config,
    content_type: Option<Seq<char>>,
    message: Seq<u8>,
    created: u128,
    after: Map<u128, ObjectModel>,
    outcome: OutcomeModel,
)
    requires
        is_store(objects, config, content_type, message, created, after, outcome),
        objects.dom().finite(),
    ensures
        outcome.reply.status == OK <==> fits(config, message.len(), objects.len()),
{
}

/// No object is held that is larger than a sealed message of `max_object_size` bytes: storing
/// lets none in, and taking and pruning change none.
pub proof fn law_sizes_are_kept(
    objects: Map<u128, ObjectModel>,
    config: Config,
    content_type: Option<Seq<char>>,
    message: Seq<u8>,
    created: u128,
    after: Map<u128, ObjectModel>,
    outcome: OutcomeModel,
    id_text: Seq<char>,
    key_text: Seq<char>,
    now: u128,
    max_age: u64,
    dummy: Seq<u8>,
)
    requires
        is_store(objects, config, content_type, message, created, after, outcome),
        within_size(objects, config.max_object_size),
    ensures
        within_size(after, config.max_object_size),
        within_size(
            take_step(objects, id_text, key_text, now, max_age, dummy).0,
            config.max_object_size,
        ),
        within_size(pruned(objects, now, max_age), config.max_object_size),
{
}

/// A request to store an object that does not succeed changes nothing; one that succeeds
/// adds the object under an identifier that was free, and leaves the others as they are.
pub proof fn law_store_adds_one_or_nothing(
    objects: Map<u128, ObjectModel>,
    config: Config,
    content_type: Option<Seq<char>>,
    message: Seq<u8>,
    key: Seq<u8>,
    nonce: Seq<u8>,
    created: u128,
    id: Option<u128>,
)
    requires
        objects.dom().finite(),
    ensures
        ({
            let (after, outcome) = store_step(
                objects,
                config,
                content_type,
                message,
                key,
                nonce,
                created,
                id,
            );
            if outcome.reply.status == OK {
                &&& !objects.contains_key(id->0)
                &&& after.len() == objects.len() + 1
                &&& after.remove(id->0) == objects
                &&& Some(after[id->0]) == object_of(content_type, message, key, nonce, created)
            } else {
                after == objects
            }
        }),
{
    let after = store_step(objects, config, content_type, message, key, nonce, created, id).0;
    if !(after == objects) {
        assert(after.remove(id->0) =~= objects);
    }
}

/// A storage that holds no more than `max_objects` objects never comes to hold more: not by
/// storing, not by taking, and not by pruning.
pub proof fn law_capacity_is_kept(
    objects: Map<u128, ObjectModel>,
    config: Config,
    content_type: Option<Seq<char>>,
    message: Seq<u8>,
    key: Seq<u8>,
    nonce: Seq<u8>,
    created: u128,
    id: Option<u128>,
    id_text: Seq<char>,
    key_text: Seq<char>,
    now: u128,
    max_age: u64,
    dummy: Seq<u8>,
)
    requires
        objects.dom().finite(),
        objects.len() <= config.max_objects,
    ensures
        store_step(objects, config, content_type, message, key, nonce, created, id).0.len()
            <= config.max_objects,
        take_step(objects, id_text, key_text, now, max_age, dummy).0.len() <= config.max_objects,
        pruned(objects, now, max_age).len() <= config.max_objects,
{
    vstd::set_lib::lemma_len_subset(pruned(objects, now, max_age).dom(), objects.dom());
}

/// The key is not kept: it bears on what the storage holds through the sealed message alone.
/// Two keys that seal the message alike leave the same objects behind.
pub proof fn law_key_is_not_kept(
    objects: Map<u128, ObjectModel>,
    config: Config,
    content_type: Option<Seq<char>>,
    message: Seq<u8>,
    key: Seq<u8>,
    other_key: Seq<u8>,
    nonce: Seq<u8>,
    created: u128,
    id: Option<u128>,
)
    requires
        sealed(key, nonce, message) == sealed(other_key, nonce, message),
    ensures
        store_step(objects, config, content_type, message, key, nonce, created, id).0
            == store_step(objects, config, content_type, message, other_key, nonce, created, id).0,
{
}

/// Pruning removes the objects that are too old, and no others, and changes none.
pub proof fn law_prune_removes_what_is_too_old(
    objects: Map<u128, ObjectModel>,
    now: u128,
    max_age: u64,
    id: u128,
)
    ensures
        pruned(objects, now, max_age).contains_key(id) <==> objects.contains_key(id)
            && !objects[id].is_too_old(now, max_age),
        pruned(objects, now, max_age).contains_key(id) ==> pruned(objects, now, max_age)[id]
            == objects[id],
{
}

/// After a pruning, no two objects that were stored before it lie further apart in time than
/// the maximum age.
pub proof fn law_pruned_objects_are_close(
    objects: Map<u128, ObjectModel>,
    now: u128,
    max_age: u64,
    first: u128,
    second: u128,
)
    requires
        pruned(objects, now, max_age).contains_key(first),
        pruned(objects, now, max_age).contains_key(second),
        objects[second].created <= now,
    ensures
        objects[second].created - objects[first].created <= max_age * NANOS_PER_SEC,
{
}

/// An object that is too old stays too old.
pub proof fn law_age_only_grows(object: ObjectModel, now: u128, later: u128, max_age: u64)
    requires
        now <= later,
        object.is_too_old(now, max_age),
    ensures
        object.is_too_old(later, max_age),
{
}

/// Pruning twice removes what the later pruning alone removes.
pub proof fn law_prune_twice(
    objects: Map<u128, ObjectModel>,
    now: u128,
    later: u128,
    max_age: u64,
)
    requires
        now <= later,
    ensures
        pruned(pruned(objects, now, max_age), later, max_age) == pruned(objects, later, max_age),
{
    assert forall|id: u128| objects.contains_key(id) && objects[id].is_too_old(now, max_age) implies
        #[trigger] objects[id].is_too_old(later, max_age) by {
        law_age_only_grows(objects[id], now, later, max_age);
    }
    assert(pruned(pruned(objects, now, max_age), later, max_age) =~= pruned(
        objects,
        later,
        max_age,
    ));
}

/// No taker can tell whether the storage was pruned before.
pub proof fn law_prune_is_not_observed(
    objects: Map<u128, ObjectModel>,
    now: u128,
    max_age: u64,
    id_text: Seq<char>,
    key_text: Seq<char>,
    later: u128,
    dummy: Seq<u8>,
)
    requires
        now <= later,
    ensures
        take_step(pruned(objects, now, max_age), id_text, key_text, later, max_age, dummy).1
            == take_step(objects, id_text, key_text, later, max_age, dummy).1,
{
    if let Some(id) = uuid_value(id_text) {
        if objects.contains_key(id) && objects[id].is_too_old(now, max_age) {
            law_age_only_grows(objects[id], now, later, max_age);
        }
    }
}

/// An object that can be had can still be had after another was stored, after another was
/// taken, and after a pruning before it is too old.
pub proof fn law_redeemable_is_kept(
    objects: Map<u128, ObjectModel>,
    id: u128,
    key: Seq<u8>,
    content_type: Seq<char>,
    message: Seq<u8>,
    config: Config,
    other_type: Option<Seq<char>>,
    other_message: Seq<u8>,
    other_key: Seq<u8>,
    nonce: Seq<u8>,
    created: u128,
    other_id: Option<u128>,
    id_text: Seq<char>,
    key_text: Seq<char>,
    now: u128,
    max_age: u64,
    dummy: Seq<u8>,
)
    requires
        redeemable(objects, id, key, content_type, message),
    ensures
        redeemable(
            store_step(
                objects,
                config,
                other_type,
                other_message,
                other_key,
                nonce,
                created,
                other_id,
            ).0,
            id,
            key,
            content_type,
            message,
        ),
        uuid_value(id_text) != Some(id) ==> redeemable(
            take_step(objects, id_text, key_text, now, max_age, dummy).0,
            id,
            key,
            content_type,
            message,
        ),
        !objects[id].is_too_old(now, max_age) ==> redeemable(
            pruned(objects, now, max_age),
            id,
            key,
            content_type,
            message,
        ),
{
}

} // verus!
