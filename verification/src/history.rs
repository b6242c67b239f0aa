//! What holds of a storage over its whole history, however long.

use crate::config::Config;
use crate::identifier::{law_uuid_round_trip, uuid_value};
use crate::laws::{law_store_adds_one_or_nothing, law_token_splits_at_its_slash};
use crate::object::{no_objects, pruned, ObjectModel};
use crate::reply::{OutcomeModel, OK};
use crate::sealing::opened;
use crate::storage::{
    find, is_store_with, key_value, missed, redeemable, store_step, take_step, token,
    type_or_default,
};
use vstd::prelude::*;
use vstd::utf8::encode_utf8_decode_utf8;

verus! {

/// Something that happens to a storage.
pub ghost enum Step {
    /// A request to store `message`, for which `key`, `nonce` and `id` were drawn.
    Store {
        config: Config,
        content_type: Option<Seq<char>>,
        message: Seq<u8>,
        key: Seq<u8>,
        nonce: Seq<u8>,
        created: u128,
        id: Option<u128>,
    },
    /// A request to take the object under `id_text`, for which `dummy` was drawn.
    Take { id_text: Seq<char>, key_text: Seq<char>, now: u128, max_age: u64, dummy: Seq<u8> },
    /// A run of the pruner.
    Prune { now: u128, max_age: u64 },
}

/// The objects after `step`.
pub open spec fn after_step(objects: Map<u128, ObjectModel>, step: Step) -> Map<u128, ObjectModel> {
    match step {
        Step::Store { config, content_type, message, key, nonce, created, id } => store_step(
            objects,
            config,
            content_type,
            message,
            key,
            nonce,
            created,
            id,
        ).0,
        Step::Take { id_text, key_text, now, max_age, dummy } => take_step(
            objects,
            id_text,
            key_text,
            now,
            max_age,
            dummy,
        ).0,
        Step::Prune { now, max_age } => pruned(objects, now, max_age),
    }
}

/// The objects after `steps`, one after the other.
pub open spec fn after_steps(objects: Map<u128, ObjectModel>, steps: Seq<Step>) -> Map<
    u128,
    ObjectModel,
>
    decreases steps.len(),
{
    if steps.len() == 0 {
        objects
    } else {
        after_step(after_steps(objects, steps.drop_last()), steps.last())
    }
}

/// Whether `step` stores no object under `id`.
pub open spec fn spares_id(step: Step, id: u128) -> bool {
    step is Store ==> step->Store_id != Some(id)
}

/// Whether `step` neither takes `object`, which is held under `id`, nor prunes it.
pub open spec fn spares_object(step: Step, id: u128, object: ObjectModel) -> bool {
    match step {
        Step::Store { .. } => true,
        Step::Take { id_text, key_text, .. } => uuid_value(id_text) == Some(id) ==> (key_value(
            key_text,
        ) matches Some(key) ==> opened(key, object.nonce, object.bytes) is None),
        Step::Prune { now, max_age } => !object.is_too_old(now, max_age),
    }
}

/// However many requests come, and whatever they are, a storage that starts without objects
/// never holds more of them than the largest `max_objects` that it was ever used with.
pub proof fn law_capacity_over_history(max_objects: u64, steps: Seq<Step>)
    requires
        forall|i: int|
            #![trigger steps[i]]
            0 <= i < steps.len() && steps[i] is Store ==> steps[i]->Store_config.max_objects
                <= max_objects,
    ensures
        after_steps(no_objects(), steps).dom().finite(),
        after_steps(no_objects(), steps).len() <= max_objects,
    decreases steps.len(),
{
    if steps.len() > 0 {
        let before = after_steps(no_objects(), steps.drop_last());
        law_capacity_over_history(max_objects, steps.drop_last());
        match steps.last() {
            Step::Store { config, content_type, message, key, nonce, created, id } => {
                law_store_adds_one_or_nothing(
                    before,
                    config,
                    content_type,
                    message,
                    key,
                    nonce,
                    created,
                    id,
                );
            },
            Step::Take { .. } => {},
            Step::Prune { now, max_age } => {
                vstd::set_lib::lemma_len_subset(
                    pruned(before, now, max_age).dom(),
                    before.dom(),
                );
            },
        }
    }
}

/// Where there is no object under an identifier, there is none until one is stored under it.
pub proof fn law_absent_over_history(objects: Map<u128, ObjectModel>, id: u128, steps: Seq<Step>)
    requires
        !objects.contains_key(id),
        forall|i: int| 0 <= i < steps.len() ==> spares_id(#[trigger] steps[i], id),
    ensures
        !after_steps(objects, steps).contains_key(id),
    decreases steps.len(),
{
    if steps.len() > 0 {
        law_absent_over_history(objects, id, steps.drop_last());
        assert(spares_id(steps[steps.len() - 1], id));
    }
}

/// An object that was handed out once is never handed out again: whatever happens afterwards,
/// unless another object is stored under the identifier, whoever asks for it gets a dummy
/// payload.
pub proof fn law_taken_once_over_history(
    objects: Map<u128, ObjectModel>,
    id_text: Seq<char>,
    key_text: Seq<char>,
    now: u128,
    max_age: u64,
    dummy: Seq<u8>,
    steps: Seq<Step>,
    later_id_text: Seq<char>,
    later_key_text: Seq<char>,
    later: u128,
    later_max_age: u64,
    later_dummy: Seq<u8>,
)
    requires
        find(objects, id_text, key_text, now, max_age) is Some,
        uuid_value(later_id_text) == uuid_value(id_text),
        forall|i: int|
            0 <= i < steps.len() ==> spares_id(#[trigger] steps[i], uuid_value(id_text)->0),
    ensures
        ({
            let taken = take_step(objects, id_text, key_text, now, max_age, dummy).0;
            let after = after_steps(taken, steps);
            take_step(after, later_id_text, later_key_text, later, later_max_age, later_dummy) == (
                after,
                missed(later_dummy),
            )
        }),
{
    let taken = take_step(objects, id_text, key_text, now, max_age, dummy).0;
    law_absent_over_history(taken, uuid_value(id_text)->0, steps);
}

/// An object that can be had can be had with the same key, for the same message and content
/// type, as long as it is not taken and not pruned, whatever else happens; attempts with keys
/// that do not open it are no hindrance.
pub proof fn law_redeemable_over_history(
    objects: Map<u128, ObjectModel>,
    id: u128,
    key: Seq<u8>,
    content_type: Seq<char>,
    message: Seq<u8>,
    steps: Seq<Step>,
)
    requires
        redeemable(objects, id, key, content_type, message),
        forall|i: int| 0 <= i < steps.len() ==> spares_object(#[trigger] steps[i], id, objects[id]),
    ensures
        redeemable(after_steps(objects, steps), id, key, content_type, message),
        after_steps(objects, steps)[id] == objects[id],
    decreases steps.len(),
{
    if steps.len() > 0 {
        law_redeemable_over_history(
            objects,
            id,
            key,
            content_type,
            message,
            steps.drop_last(),
        );
        assert(spares_object(steps[steps.len() - 1], id, objects[id]));
    }
}

/// While an object is held, no other gets its identifier or its token, be it of the same
/// message, and storing another leaves the object as it is.
pub proof fn law_stores_do_not_meet(
    objects: Map<u128, ObjectModel>,
    config: Config,
    content_type: Option<Seq<char>>,
    message: Seq<u8>,
    key: Seq<u8>,
    nonce: Seq<u8>,
    created: u128,
    id: Option<u128>,
    after: Map<u128, ObjectModel>,
    outcome: OutcomeModel,
    steps: Seq<Step>,
    later_config: Config,
    later_type: Option<Seq<char>>,
    later_message: Seq<u8>,
    later_key: Seq<u8>,
    later_nonce: Seq<u8>,
    later_created: u128,
    later_id: Option<u128>,
    later_after: Map<u128, ObjectModel>,
    later_outcome: OutcomeModel,
)
    requires
        is_store_with(
            objects,
            config,
            content_type,
            message,
            key,
            nonce,
            created,
            id,
            after,
            outcome,
        ),
        outcome.reply.status == OK,
        forall|i: int|
            0 <= i < steps.len() ==> spares_object(#[trigger] steps[i], id->0, after[id->0]),
        is_store_with(
            after_steps(after, steps),
            later_config,
            later_type,
            later_message,
            later_key,
            later_nonce,
            later_created,
            later_id,
            later_after,
            later_outcome,
        ),
        later_outcome.reply.status == OK,
    ensures
        id != later_id,
        outcome.reply.body != later_outcome.reply.body,
        later_after[id->0] == after[id->0],
        redeemable(later_after, id->0, key, type_or_default(content_type), message),
{
    law_redeemable_over_history(
        after,
        id->0,
        key,
        type_or_default(content_type),
        message,
        steps,
    );
    let text = token(id->0, key);
    let later_text = token(later_id->0, later_key);
    law_token_splits_at_its_slash(id->0, key);
    law_token_splits_at_its_slash(later_id->0, later_key);
    law_uuid_round_trip(id->0);
    law_uuid_round_trip(later_id->0);
    encode_utf8_decode_utf8(text);
    encode_utf8_decode_utf8(later_text);
}

} // verus!
