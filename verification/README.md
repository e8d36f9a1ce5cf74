# signet-client

A client library for [signet](https://github.com/bytepunx/signet), written in
Verus: what the client decides and computes is stated in contracts and proved.

- `src/` is the verified library.
  - `client`, `address`: how to speak to the admin listener, from the address,
    the CA bundle and the caller's overrides, and with which credential.
  - `workload`: how a connection with a SPIFFE identity is prepared, and how
    long a missing identity is waited for.
  - `lock`, `watch`, `wait`, `restart`: coordinated restarts, as state machines
    that take events and give actions.
  - `sops_encrypt`, `recipient`, `yaml`, `encoding`, `calendar`: SOPS-encrypted
    secret values.
  - `duration`, `text`: spans of time and texts.
- `app/` is ordinary Rust round the library: connections, streams and timers.
- `tests/` runs the library.

Functions named `law_...` state what holds of several functions together, such
as that a release never shows as a loss of the lock, or that rapid changes
coalesce into one signal.
