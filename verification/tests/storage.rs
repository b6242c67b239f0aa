use async_lock::Semaphore;
use oneoneseven::config::Config;
use oneoneseven::dummy::{MAX_DUMMY_OBJECT_SIZE, MIN_DUMMY_OBJECT_SIZE};
use oneoneseven::identifier::count_uuid;
use oneoneseven::limiter::acquire_slot;
use oneoneseven::object::StoredObject;
use oneoneseven::reply::{Outcome, Tally};
use oneoneseven::storage::{refusal, Storage};
use std::str::FromStr;
use uuid::Uuid;

const SECOND: u128 = 1_000_000_000;
const NO_TALLY: Tally = Tally { bytes_stored: 0, objects_stored: 0, bytes_taken: 0, objects_taken: 0 };

/// `PUT /store` with the default configuration.
fn put(storage: &mut Storage, content_type: Option<&str>, payload: &[u8]) -> Outcome {
    put_with(storage, &Config::default(), content_type, payload)
}

fn put_with(storage: &mut Storage, config: &Config, content_type: Option<&str>, payload: &[u8]) -> Outcome {
    let limiter = Semaphore::new(1);
    let slot = acquire_slot(&limiter).ok().expect("no slot");
    storage.store(&slot, config, content_type, payload)
}

/// `GET /take/{id}/{key}` with the default configuration.
fn get(storage: &mut Storage, id: &str, key: &str) -> Outcome {
    let limiter = Semaphore::new(1);
    let slot = acquire_slot(&limiter).ok().expect("no slot");
    storage.take(&slot, &Config::default(), id, key)
}

/// Parse the `{uuid}/{key_hex}` token returned by PUT /store.
fn parse_token(body: &[u8]) -> (String, String) {
    let s = std::str::from_utf8(body).expect("store response is not UTF-8");
    let (id, key) = s.split_once('/').expect("store response missing '/' separator");
    (id.to_string(), key.to_string())
}

/// Returns true when `body` looks like a valid dummy payload.
fn is_dummy(body: &[u8]) -> bool {
    body.len() >= MIN_DUMMY_OBJECT_SIZE
        && body.len() <= MAX_DUMMY_OBJECT_SIZE
        && body.iter().all(|&b| b >= b' ' && b <= b'~')
}

/// The text and the status of a refusal.
fn refused(outcome: &Outcome) -> (u16, &[u8]) {
    assert_eq!(outcome.reply.content_type, None);
    assert_eq!(outcome.tally, NO_TALLY);
    (outcome.reply.status, &outcome.reply.body[..])
}

// Storing.

/// PUT /store returns 200 with a `{uuid}/{64-char-hex-key}` body.
#[test]
fn test_store_response_format() {
    let outcome = put(&mut Storage::new(), None, b"hello world");
    assert_eq!(outcome.reply.status, 200);

    let (id, key) = parse_token(&outcome.reply.body);
    assert!(Uuid::from_str(&id).is_ok(), "id is not a valid UUID: {id}");
    assert_eq!(key.len(), 64, "key should be 64 hex chars");
    assert!(key.chars().all(|c| c.is_ascii_hexdigit()), "key contains non-hex chars");
}

#[test]
fn stored_ids_are_random_uuids() {
    let mut storage = Storage::new();
    let (first, first_key) = parse_token(&put(&mut storage, None, b"a").reply.body);
    let (second, second_key) = parse_token(&put(&mut storage, None, b"a").reply.body);
    assert_ne!(first, second);
    assert_ne!(first_key, second_key);
    assert_eq!(Uuid::from_str(&first).expect("no id").get_version_num(), 4);
    assert_eq!(first, Uuid::from_str(&first).expect("no id").to_string());
    assert_eq!(storage.len(), 2);
}

#[test]
fn fresh_ids_are_free_random_uuids() {
    let storage = Storage::new();
    let id = storage.fresh_id().expect("no id");
    assert!(storage.is_free(id));
    assert_eq!(Uuid::from_u128(id).get_version_num(), 4);
    assert_eq!(Uuid::from_u128(id).get_variant(), uuid::Variant::RFC4122);
}

#[test]
fn counted_ids_are_distinct_random_uuids() {
    let ids = [0, 1, u64::MAX >> 2, (u64::MAX >> 2) + 1, u64::MAX].map(count_uuid);
    assert_eq!(
        ids.map(|id| Uuid::from_u128(id).to_string()),
        [
            "00000000-0000-4000-8000-000000000000",
            "00000000-0000-4000-8000-000000000001",
            "00000000-0000-4000-bfff-ffffffffffff",
            "00000000-0000-4001-8000-000000000000",
            "00000000-0000-4003-bfff-ffffffffffff",
        ]
    );
    for id in ids {
        assert_eq!(Uuid::from_u128(id).get_version_num(), 4);
        assert_eq!(Uuid::from_u128(id).get_variant(), uuid::Variant::RFC4122);
    }
}

#[test]
fn every_object_is_counted() {
    let mut storage = Storage::new();
    let config = Config { max_objects: 1000, ..Config::default() };
    for count in 0..1000 {
        assert_eq!(storage.len(), count);
        assert_eq!(put_with(&mut storage, &config, None, b"x").reply.status, 200);
    }
    assert_eq!(put_with(&mut storage, &config, None, b"x").reply.status, 507);
    assert_eq!(storage.len(), 1000);
}

#[test]
fn store_counts_bytes_and_objects() {
    let mut storage = Storage::new();
    let outcome = put(&mut storage, None, b"hello world");
    assert_eq!(outcome.tally, Tally { bytes_stored: 11, objects_stored: 1, ..NO_TALLY });
    assert_eq!(outcome.reply.content_type, None);
    assert_eq!(storage.len(), 1);
}

#[test]
fn store_reply_is_the_token() {
    let mut storage = Storage::new();
    let key: Vec<u8> = (0u8..32).map(|n| n * 8 + 7).collect();
    let id = 0x67e5504410b1426f9247bb680e5fe0c8;
    let outcome = storage.store_with(&Config::default(), None, b"x", &key, [0; 12], 0, Some(id));
    assert_eq!(outcome.reply.status, 200);
    assert_eq!(
        std::str::from_utf8(&outcome.reply.body).expect("not UTF-8"),
        "67e55044-10b1-426f-9247-bb680e5fe0c8/070f171f272f373f474f575f676f777f878f979fa7afb7bfc7cfd7dfe7eff7ff"
    );
    assert!(!storage.is_free(id));
}

#[test]
fn object_over_the_size_limit_is_refused() {
    let config = Config { max_object_size: 4, ..Config::default() };
    let mut storage = Storage::new();
    assert_eq!(refused(&put_with(&mut storage, &config, None, b"12345")), (400, &b"Too big"[..]));
    assert_eq!(storage.len(), 0);
    assert_eq!(put_with(&mut storage, &config, None, b"1234").reply.status, 200);
    assert_eq!(storage.len(), 1);
}

#[test]
fn full_storage_refuses_objects() {
    let config = Config { max_objects: 2, ..Config::default() };
    let mut storage = Storage::new();
    assert_eq!(put_with(&mut storage, &config, None, b"a").reply.status, 200);
    assert_eq!(put_with(&mut storage, &config, None, b"b").reply.status, 200);
    assert_eq!(refused(&put_with(&mut storage, &config, None, b"c")), (507, &b"Too many"[..]));
    assert_eq!(storage.len(), 2);
}

#[test]
fn too_big_comes_before_too_many() {
    let config = Config { max_object_size: 0, max_objects: 0, ..Config::default() };
    assert_eq!(refused(&refusal(&config, 1, 0).expect("not refused")), (400, &b"Too big"[..]));
    assert_eq!(refused(&refusal(&config, 0, 0).expect("not refused")), (507, &b"Too many"[..]));
    assert!(refusal(&Config::default(), 1_000_000, 255).is_none());
}

#[test]
fn store_without_an_id_fails() {
    let mut storage = Storage::new();
    let outcome = storage.store_with(&Config::default(), None, b"x", &[1; 32], [2; 12], 0, None);
    assert_eq!(refused(&outcome), (500, &b"Oops"[..]));
    assert_eq!(storage.len(), 0);
}

#[test]
fn store_under_an_id_in_use_fails_and_keeps_the_first() {
    let mut storage = Storage::new();
    let config = Config::default();
    assert_eq!(storage.store_with(&config, None, b"first", &[1; 32], [2; 12], 0, Some(7)).reply.status, 200);
    let outcome = storage.store_with(&config, None, b"second", &[1; 32], [3; 12], 0, Some(7));
    assert_eq!(refused(&outcome), (500, &b"Oops"[..]));
    assert_eq!(storage.len(), 1);
    let (_, message) = storage.unlock(7, &[1; 32], 0, 60).expect("nothing there");
    assert_eq!(message, b"first");
}

#[test]
fn object_that_was_not_sealed_is_not_kept() {
    let mut storage = Storage::new();
    assert_eq!(refused(&storage.keep(Some(7), &[1; 32], None, 5)), (500, &b"Oops"[..]));
    assert_eq!(storage.len(), 0);
}

#[test]
fn the_key_is_not_kept() {
    let object = |nonce: u8| StoredObject {
        created: 0,
        content_type: "text/plain".to_string(),
        nonce: [nonce; 12],
        bytes: vec![nonce; 20],
    };
    for key in [[1u8; 32], [2u8; 32]] {
        let mut storage = Storage::new();
        let outcome = storage.keep(Some(7), &key, Some(object(3)), 4);
        assert_eq!(outcome.reply.status, 200);
        assert_eq!(outcome.tally, Tally { bytes_stored: 4, objects_stored: 1, ..NO_TALLY });
        assert!(outcome.reply.body.ends_with(format!("/{}", format!("0{}", key[0]).repeat(32)).as_bytes()));
        assert_eq!(storage.unlock(7, &key, 0, 60), None);
        assert_eq!(storage.len(), 1);
    }
}

// Taking: hits.

/// Valid id+key returns the stored plaintext with its Content-Type.
#[test]
fn test_take_returns_plaintext() {
    let mut storage = Storage::new();
    let outcome = put(&mut storage, Some("text/plain"), b"hello world");
    let (id, key) = parse_token(&outcome.reply.body);

    let outcome = get(&mut storage, &id, &key);
    assert_eq!(outcome.reply.status, 200);
    assert!(
        outcome.reply.content_type.as_deref().unwrap_or("").starts_with("text/plain"),
        "expected text/plain content-type"
    );
    assert_eq!(&outcome.reply.body[..], b"hello world");
    assert_eq!(outcome.tally, Tally { bytes_taken: 11, objects_taken: 1, ..NO_TALLY });
    assert_eq!(storage.len(), 0);
}

/// Binary payload survives the encrypt/decrypt round-trip byte-for-byte.
#[test]
fn test_binary_round_trip() {
    let mut storage = Storage::new();
    let payload: &[u8] = &[0x00, 0x01, 0x02, 0xFF, 0xFE];

    let outcome = put(&mut storage, Some("application/octet-stream"), payload);
    let (id, key) = parse_token(&outcome.reply.body);
    assert_eq!(&get(&mut storage, &id, &key).reply.body[..], payload);
}

#[test]
fn content_type_has_a_default() {
    let mut storage = Storage::new();
    let (id, key) = parse_token(&put(&mut storage, None, b"").reply.body);
    let outcome = get(&mut storage, &id, &key);
    assert_eq!(outcome.reply.content_type.as_deref(), Some("application/octet-stream"));
    assert_eq!(&outcome.reply.body[..], b"");
    assert_eq!(outcome.tally.objects_taken, 1);
}

#[test]
fn take_reads_every_form_of_an_id_and_digits_of_either_case() {
    let key = "AbCdEf0123456789".repeat(4);
    let key_bytes = [0xab, 0xcd, 0xef, 0x01, 0x23, 0x45, 0x67, 0x89].repeat(4);
    let forms = [
        "67e55044-10b1-426f-9247-bb680e5fe0c8",
        "67E55044-10B1-426F-9247-BB680E5FE0C8",
        "67e5504410b1426f9247bb680e5fe0c8",
        "{67e55044-10b1-426f-9247-bb680e5fe0c8}",
        "urn:uuid:67e55044-10b1-426f-9247-bb680e5fe0c8",
        "URN:Uuid:67e55044-10b1-426f-9247-bb680e5fe0c8",
    ];
    for form in forms {
        let mut storage = Storage::new();
        let id = 0x67e5504410b1426f9247bb680e5fe0c8;
        storage.store_with(&Config::default(), None, b"found", &key_bytes, [9; 12], 0, Some(id));
        let outcome = storage.take_with(form, &key, 0, 60, b"dummy".to_vec());
        assert_eq!(&outcome.reply.body[..], b"found", "{form}");
        assert!(storage.is_free(id));
    }
}

#[test]
fn take_leaves_the_other_objects() {
    let mut storage = Storage::new();
    let (first, first_key) = parse_token(&put(&mut storage, None, b"first").reply.body);
    let (second, second_key) = parse_token(&put(&mut storage, None, b"second").reply.body);
    assert_eq!(&get(&mut storage, &first, &first_key).reply.body[..], b"first");
    assert_eq!(storage.len(), 1);
    assert_eq!(&get(&mut storage, &second, &second_key).reply.body[..], b"second");
    assert_eq!(storage.len(), 0);
}

// Taking: misses.

/// Taking an already-consumed object returns a valid dummy payload.
#[test]
fn test_take_consumed_returns_dummy() {
    let mut storage = Storage::new();
    let (id, key) = parse_token(&put(&mut storage, None, b"once").reply.body);

    // First take: consumes the object.
    get(&mut storage, &id, &key);

    // Second take: object is gone, expect dummy.
    let body = get(&mut storage, &id, &key).reply.body;
    assert!(is_dummy(&body), "expected dummy, got {} bytes", body.len());
}

/// A non-UUID id returns a dummy payload.
#[test]
fn test_take_invalid_uuid_returns_dummy() {
    let key = "a".repeat(64);
    let body = get(&mut Storage::new(), "not-a-uuid", &key).reply.body;
    assert!(is_dummy(&body), "expected dummy, got {} bytes", body.len());
}

/// A correctly-formatted but wrong key returns a dummy payload.
#[test]
fn test_take_wrong_key_returns_dummy() {
    let mut storage = Storage::new();
    let (id, _) = parse_token(&put(&mut storage, None, b"secret").reply.body);
    let wrong_key = "b".repeat(64);

    let body = get(&mut storage, &id, &wrong_key).reply.body;
    assert!(is_dummy(&body), "expected dummy, got {} bytes", body.len());
}

/// A wrong key attempt does NOT consume the object; the correct key still works after.
#[test]
fn test_wrong_key_does_not_consume_object() {
    let mut storage = Storage::new();
    let (id, key) = parse_token(&put(&mut storage, None, b"secret").reply.body);
    let wrong_key = "c".repeat(64);

    // Wrong key attempt.
    get(&mut storage, &id, &wrong_key);

    // Correct key should still retrieve the object.
    assert_eq!(&get(&mut storage, &id, &key).reply.body[..], b"secret");
}

/// A key that is valid hex but fewer than 32 bytes returns a dummy payload.
#[test]
fn test_take_short_key_returns_dummy() {
    let mut storage = Storage::new();
    let (id, _) = parse_token(&put(&mut storage, None, b"data").reply.body);

    let body = get(&mut storage, &id, "deadbeef").reply.body;
    assert!(is_dummy(&body), "expected dummy, got {} bytes", body.len());
    assert_eq!(storage.len(), 1);
}

#[test]
fn all_misses_have_the_same_outcome() {
    let id = "00000000-0000-0000-0000-000000000007";
    let key = "01".repeat(32);
    let requests = [
        ("not-a-uuid", key.clone(), 0),
        ("00000000-0000-0000-0000-00000000000g", key.clone(), 0),
        ("00000000x0000-0000-0000-000000000007", key.clone(), 0),
        ("[00000000-0000-0000-0000-000000000007]", key.clone(), 0),
        ("urn-uuid:00000000-0000-0000-0000-000000000007", key.clone(), 0),
        ("\u{e9}0000000-0000-0000-0000-000000000007", key.clone(), 0),
        ("00000000-0000-0000-0000-000000000008", key.clone(), 0),
        (id, "01".repeat(31), 0),
        (id, "01".repeat(33), 0),
        (id, "1".repeat(63), 0),
        (id, "0x".repeat(32), 0),
        (id, "02".repeat(32), 0),
        (id, String::new(), 0),
        (id, key.clone(), 60 * SECOND + 1),
    ];
    let mut storage = Storage::new();
    storage.store_with(&Config::default(), Some("image/png"), b"x", &[1; 32], [2; 12], 0, Some(7));
    for (id, key, now) in requests {
        let outcome = storage.take_with(id, &key, now, 60, b"dummy".to_vec());
        assert_eq!(outcome.reply.status, 200);
        assert_eq!(outcome.reply.content_type.as_deref(), Some("text/plain"));
        assert_eq!(&outcome.reply.body[..], b"dummy", "{id} {key}");
        assert_eq!(outcome.tally, Tally { bytes_taken: 5, ..NO_TALLY });
        assert_eq!(storage.len(), 1);
    }
    let outcome = storage.take_with(id, &key, 60 * SECOND, 60, b"dummy".to_vec());
    assert_eq!(&outcome.reply.body[..], b"x");
    assert_eq!(outcome.reply.content_type.as_deref(), Some("image/png"));
}

#[test]
fn hand_out_removes_only_what_goes_out() {
    let mut storage = Storage::new();
    storage.store_with(&Config::default(), None, b"x", &[1; 32], [2; 12], 0, Some(7));
    let outcome = storage.hand_out(7, None, b"dummy".to_vec());
    assert_eq!(&outcome.reply.body[..], b"dummy");
    assert_eq!(storage.len(), 1);
    let message = Some(("text/css".to_string(), b"message".to_vec()));
    let outcome = storage.hand_out(7, message, b"dummy".to_vec());
    assert_eq!(&outcome.reply.body[..], b"message");
    assert_eq!(outcome.reply.content_type.as_deref(), Some("text/css"));
    assert_eq!(outcome.tally, Tally { bytes_taken: 7, objects_taken: 1, ..NO_TALLY });
    assert_eq!(storage.len(), 0);
}

#[test]
fn an_object_goes_out_once_whatever_comes_after() {
    let config = Config { max_objects: 3, ..Config::default() };
    let mut storage = Storage::new();
    let (id, key) = parse_token(&put_with(&mut storage, &config, None, b"once").reply.body);
    for wrong_key in ["00".repeat(32), "ff".repeat(32), "zz".repeat(32)] {
        get(&mut storage, &id, &wrong_key);
        put_with(&mut storage, &config, None, b"other");
        storage.prune(3600);
        assert!(storage.len() <= 3);
    }
    assert_eq!(&get(&mut storage, &id, &key).reply.body[..], b"once");
    for _ in 0..3 {
        put_with(&mut storage, &config, None, b"other");
        storage.prune(3600);
        assert!(is_dummy(&get(&mut storage, &id, &key).reply.body));
        assert!(storage.len() <= 3);
    }
}

// Sealing.

#[test]
fn objects_open_as_aes_256_gcm() {
    let object = StoredObject {
        created: 0,
        content_type: "text/plain".to_string(),
        nonce: [0; 12],
        bytes: vec![
            0xce, 0xa7, 0x40, 0x3d, 0x4d, 0x60, 0x6b, 0x6e, 0x07, 0x4e, 0xc5, 0xd3, 0xba, 0xf3, 0x9d, 0x18,
            0xd0, 0xd1, 0xc8, 0xa7, 0x99, 0x99, 0x6b, 0xf0, 0x26, 0x5b, 0x98, 0xb5, 0xd4, 0x8a, 0xb9, 0x19,
        ],
    };
    let (content_type, message) = object.unlock(&[0; 32], 0, 60).expect("does not open");
    assert_eq!(content_type, "text/plain");
    assert_eq!(message, [0; 16]);
    assert!(object.unlock(&[1; 32], 0, 60).is_none());
    assert!(object.unlock(&[0; 32], 60 * SECOND + 1, 60).is_none());
}

#[test]
fn opening_does_not_consume() {
    let mut storage = Storage::new();
    storage.store_with(&Config::default(), Some("a/b"), b"kept", &[1; 32], [2; 12], 0, Some(7));
    for _ in 0..2 {
        let message = storage.unlock(7, &[1; 32], 0, 60);
        assert_eq!(message, Some(("a/b".to_string(), b"kept".to_vec())));
    }
    assert_eq!(storage.unlock(8, &[1; 32], 0, 60), None);
    assert_eq!(storage.unlock(7, &[2; 32], 0, 60), None);
}

// Ageing.

#[test]
fn objects_are_too_old_after_their_maximum_age() {
    let object = StoredObject {
        created: 5 * SECOND,
        content_type: String::new(),
        nonce: [0; 12],
        bytes: Vec::new(),
    };
    assert!(!object.is_too_old(5 * SECOND, 0));
    assert!(object.is_too_old(5 * SECOND + 1, 0));
    assert!(!object.is_too_old(65 * SECOND, 60));
    assert!(object.is_too_old(65 * SECOND + 1, 60));
    assert!(!object.is_too_old(0, 0));
    assert!(object.is_kept(65 * SECOND, 60));
    assert!(!object.is_kept(65 * SECOND + 1, 60));
    assert!(!object.is_too_old(u128::MAX / 1_000_000_000_000_000, u64::MAX));
}

#[test]
fn prune_removes_what_is_too_old() {
    let mut storage = Storage::new();
    for id in 0..10u128 {
        storage.store_with(&Config::default(), None, b"x", &[1; 32], [2; 12], id * SECOND, Some(id));
    }
    storage.prune_at(15 * SECOND, 10);
    assert_eq!(storage.len(), 5);
    for id in 0..10u128 {
        assert_eq!(storage.is_free(id), id < 5);
    }
    storage.prune_at(15 * SECOND, 10);
    assert_eq!(storage.len(), 5);
    assert!(storage.unlock(7, &[1; 32], 15 * SECOND, 10).is_some());
    storage.prune_at(30 * SECOND, 10);
    assert_eq!(storage.len(), 0);
}

#[test]
fn takers_cannot_tell_whether_the_storage_was_pruned() {
    let key = "01".repeat(32);
    for prune in [false, true] {
        let mut storage = Storage::new();
        storage.store_with(&Config::default(), None, b"old", &[1; 32], [2; 12], 0, Some(1));
        storage.store_with(&Config::default(), None, b"new", &[1; 32], [2; 12], 5 * SECOND, Some(2));
        if prune {
            storage.prune_at(11 * SECOND, 10);
        }
        let dummy = b"dummy".to_vec();
        let old = storage.take_with("00000000-0000-0000-0000-000000000001", &key, 12 * SECOND, 10, dummy.clone());
        let new = storage.take_with("00000000-0000-0000-0000-000000000002", &key, 12 * SECOND, 10, dummy);
        assert_eq!(&old.reply.body[..], b"dummy");
        assert_eq!(&new.reply.body[..], b"new");
    }
}

#[test]
fn fresh_objects_survive_a_prune() {
    let mut storage = Storage::new();
    let (id, key) = parse_token(&put(&mut storage, None, b"fresh").reply.body);
    storage.prune(3600);
    assert_eq!(storage.len(), 1);
    assert_eq!(&get(&mut storage, &id, &key).reply.body[..], b"fresh");
}

#[test]
fn the_clock_does_not_go_back() {
    let mut storage = Storage::new();
    assert_eq!(storage.advance(7_000 * SECOND), 7_000 * SECOND);
    assert_eq!(storage.advance(6_000 * SECOND), 7_000 * SECOND);
    assert_eq!(storage.now(), 7_000 * SECOND);
    put(&mut storage, None, b"x");
    storage.advance(7_060 * SECOND);
    storage.prune(60);
    assert_eq!(storage.len(), 1);
    storage.advance(7_060 * SECOND + 1);
    storage.prune(60);
    assert_eq!(storage.len(), 0);
}

#[test]
fn expired_objects_are_not_handed_out() {
    let mut storage = Storage::new();
    let (id, key) = parse_token(&put(&mut storage, None, b"x").reply.body);
    let stored = storage.now();
    storage.advance(stored + 3601 * SECOND);
    assert!(is_dummy(&get(&mut storage, &id, &key).reply.body));
    assert_eq!(storage.len(), 1);
}

#[test]
fn equal_messages_are_stored_apart() {
    let mut storage = Storage::new();
    let first = put(&mut storage, None, b"same").reply.body;
    let second = put(&mut storage, None, b"same").reply.body;
    assert_ne!(first, second);
    for token in [second, first] {
        let (id, key) = parse_token(&token);
        assert_eq!(&get(&mut storage, &id, &key).reply.body[..], b"same");
    }
}

#[test]
fn the_clock_runs() {
    let mut storage = Storage::new();
    put(&mut storage, None, b"x");
    let before = storage.now();
    while storage.now() == before {}
    let after = storage.now();
    assert!(after > before);
    assert!(storage.now() >= after);
    storage.prune(0);
    assert_eq!(storage.len(), 0);
}
