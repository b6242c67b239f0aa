# oneoneseven

Ephemeral encrypted one-time object store, with its logic verified by Verus. Upload text or a
file, get back a secret URL. The URL works exactly once: after retrieval the object is gone. All
objects are sealed with AES-256-GCM, and the key is never stored.

## Layout

- `src/` is the verified library.
  - `storage` stores, takes and prunes objects; `laws` and `history` state what holds of
    these together.
  - `object` is a stored object and the concurrent map that holds it, `sealing` the cipher,
    `identifier` and `hexadecimal` the texts of identifiers and keys, `clock` the time.
  - `dummy` makes the payloads that go out on a miss, `limiter` bounds the requests in flight,
    `reply` and `pages` are what goes back to a client, `config` the settings.
- `app/` is the server around it: HTTP, arguments, metrics and the background tasks.
- `tests/` runs the library with the crates that it calls.

## API

- `PUT /store` with a body returns `200 OK` and `{uuid}/{hex-key}`.
- `GET /take/{uuid}/{hex-key}` returns the stored bytes with their `Content-Type`. On a miss (wrong
  key, already consumed, expired, or bogus id) it returns a random dummy payload: all failure modes
  look alike.
- `GET /info` returns the limits as JSON, `GET /metrics` the Prometheus metrics.

Every setting is a flag and an environment variable; `--help` lists them. The log level is set by
`RUST_LOG`.
